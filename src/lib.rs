//! A typed layer over a stateful graphics API: closed enumerations with their
//! numeric encodings, texture parameter dispatch, and handle-owning resources
//! whose driver calls are described as values.

pub mod call;
pub mod codes;
pub mod enums;
pub mod frame_buffer;
pub mod param;
pub mod texture;

pub use call::{fresh_handles, fresh_handles_hold, GlCall};
pub use enums::{
    Attachment, BaseFormat, Cap, CompareFunc, CompareMode, CompressedFormat, DepthFunc, DepthMode,
    Filter, FrameBufferTarget, ImageFormat, ImageTarget, InternalFormat, MagFilter, Mask,
    MinFilter, MinmapTarget, Mode, PixelDataType, ShaderType, SizedFormat, StencilFunc, Swizzle,
    Target, TexTarget, Usage, Wrap,
};
pub use frame_buffer::{FrameBuffer, FrameBuffers, Incomplete, IntoIter, Rect, RenderBuffer};
pub use param::{TexParam, TexParamPair};
pub use texture::{ErrorTag, LoadError, Texture, Textures};
