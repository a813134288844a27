//! Scene logic for a small WebGL vehicle viewer: keyboard bindings, the
//! uniform-buffer layout of transform matrices, and the index data of the
//! meshes that are drawn (axis grid, terrain, vehicle hull).

pub mod controls;
pub mod uniforms;
pub mod terrain;
pub mod grid;
pub mod vehicle;
