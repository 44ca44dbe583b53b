//! What is to be drawn: the camera, the shapes of a scene and the bars of
//! the energy chart. Nothing here touches a screen; the shapes are plain
//! values for whoever draws them.

pub mod camera;
pub mod graph;
pub mod scene;
