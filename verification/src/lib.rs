//! Layout of the opening scene of a small 3D game, as plain integer data.
//!
//! The crate decides *what* stands in the world when play begins: the lights,
//! the tiled ground, a decorative cube, a wall and the player's starting
//! pose. It performs no rendering and no physics itself; a host engine reads
//! the [`Scene`] and creates the matching objects.
//!
//! Every length is an integer count of half world units, so the whole scene
//! is exact and its consistency rules can be proved.

pub mod environement;
pub mod layout;
pub mod vector;

pub use environement::{setup, EnvironementPlugin, Scene};
pub use vector::Vec3h;
