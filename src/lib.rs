//! Decision logic of a recursive Monte-Carlo path tracer.
//!
//! A camera ray starts a light path with a bounce budget; each trace against
//! the scene misses, is absorbed or scatters, and the path ends when it
//! escapes, is absorbed, or spends its budget (`path`). Spheres report the
//! nearest root inside the search interval (`hit`); dielectrics choose between
//! reflection and refraction (`scatter`); the camera's sampling parameters
//! live in `settings`.

pub mod hit;
pub mod path;
pub mod scatter;
pub mod settings;
