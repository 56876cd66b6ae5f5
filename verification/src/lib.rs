//! Plans of graphics calls for shader programs and textures.

pub mod calls;
pub mod progress;
pub mod report;
pub mod shader;
pub mod text;
pub mod texture;
