//! Exact integer vector algebra for a ray-tracing kernel, with its laws proved.

pub mod text;
pub mod vector3;
