//! The deciding half of a two-dimensional light tracer over signed-distance
//! scenes: how shapes combine, when a marching ray has arrived or is lost,
//! which rays leave a surface and with what weight, where the sampled
//! directions lie, and which byte a channel of radiance becomes.
//! Arithmetic that rounds is the caller's; the kernel takes its results as
//! bit patterns and answers with decisions.

pub mod scalar;
pub mod surface;
pub mod scene;
pub mod shape;
pub mod tracer;
pub mod sampler;
pub mod pixel;
