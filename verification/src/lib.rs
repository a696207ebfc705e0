//! A progressive path-tracing renderer core: camera ray generation, analytic
//! scene intersection, a Monte-Carlo light-transport integrator, multi-sample
//! pixel evaluation, and progressive frame accumulation. Geometry and color
//! are carried as `i64` fixed-point numbers (see `fx`), so every numeric step
//! has an exact, machine-checked contract. Windowing, input polling and
//! on-screen overlays are left to the surrounding application.

pub mod accum;
pub mod camera;
pub mod fx;
pub mod mat4;
pub mod render;
pub mod scene;
pub mod trace;
pub mod utils;
pub mod vec3;
