//! Terrain generation, vertex layout, shader naming, camera pose, arrow-key
//! control and error reporting for a small OpenGL scene, each stated and
//! proved.
pub mod camera;
pub mod controls;
pub mod layout;
pub mod report;
pub mod shader;
pub mod terrain;
