//! Source-over alpha blending of a translucent color onto an opaque
//! background, computed in the native bit depth of packed pixel formats.

pub mod color;
pub mod rgba;
pub mod laws;
