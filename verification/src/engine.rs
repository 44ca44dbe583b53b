//! The physics: bodies, pairwise collisions, kinematics and the system that
//! owns them.

pub mod body;
pub mod collision;
pub mod kinematics;
pub mod system;
