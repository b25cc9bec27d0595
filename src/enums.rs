//! Closed enumerations of the API's categorical arguments, each with its
//! encoding to the numeric code the API expects.

use vstd::prelude::*;

use crate::codes;

verus! {

/// Primitive topology of a draw call.
#[derive(Debug, Clone, Copy, PartialEq, Eq, Structural, PartialOrd, Ord, Hash)]
pub enum Mode {
    Points,
    LineStrip,
    LineLoop,
    Lines,
    LineStripAdjacency,
    LinesAdjacency,
    TriangleStrip,
    TriangleFan,
    Triangles,
    TriangleStripAdjacency,
    TrianglesAdjacency,
    Patches,
}

impl Mode {
    /// The numeric code of this value.
    pub open spec fn code(self) -> u32 {
        match self {
            Mode::Points => codes::POINTS,
            Mode::LineStrip => codes::LINE_STRIP,
            Mode::LineLoop => codes::LINE_LOOP,
            Mode::Lines => codes::LINES,
            Mode::LineStripAdjacency => codes::LINE_STRIP_ADJACENCY,
            Mode::LinesAdjacency => codes::LINES_ADJACENCY,
            Mode::TriangleStrip => codes::TRIANGLE_STRIP,
            Mode::TriangleFan => codes::TRIANGLE_FAN,
            Mode::Triangles => codes::TRIANGLES,
            Mode::TriangleStripAdjacency => codes::TRIANGLE_STRIP_ADJACENCY,
            Mode::TrianglesAdjacency => codes::TRIANGLES_ADJACENCY,
            Mode::Patches => codes::PATCHES,
        }
    }

    /// Encodes this value as the API expects it.
    pub fn to_gl_mode(self) -> (r: u32)
        ensures
            r == self.code(),
    {
        match self {
            Mode::Points => codes::POINTS,
            Mode::LineStrip => codes::LINE_STRIP,
            Mode::LineLoop => codes::LINE_LOOP,
            Mode::Lines => codes::LINES,
            Mode::LineStripAdjacency => codes::LINE_STRIP_ADJACENCY,
            Mode::LinesAdjacency => codes::LINES_ADJACENCY,
            Mode::TriangleStrip => codes::TRIANGLE_STRIP,
            Mode::TriangleFan => codes::TRIANGLE_FAN,
            Mode::Triangles => codes::TRIANGLES,
            Mode::TriangleStripAdjacency => codes::TRIANGLE_STRIP_ADJACENCY,
            Mode::TrianglesAdjacency => codes::TRIANGLES_ADJACENCY,
            Mode::Patches => codes::PATCHES,
        }
    }

    /// No two values share a code.
    pub proof fn lemma_code_injective()
        ensures
            forall|a: Mode, b: Mode| #[trigger] a.code() == #[trigger] b.code() ==> a == b,
    {
    }
}

/// Server-side capability switched by enable / disable.
#[derive(Debug, Clone, Copy, PartialEq, Eq, Structural, PartialOrd, Ord, Hash)]
pub enum Cap {
    Blend,
    ClipDistance0,
    ClipDistance1,
    ClipDistance2,
    ClipDistance3,
    ClipDistance4,
    ClipDistance5,
    ClipDistance6,
    ClipDistance7,
    ColorLogicOp,
    CullFace,
    DebugOutput,
    DebugOutputSynchronous,
    DepthClamp,
    DepthTest,
    Dither,
    FramebufferSrgb,
    LineSmooth,
    Multisample,
    PolygonOffsetFill,
    PolygonOffsetLine,
    PolygonOffsetPoint,
    PolygonSmooth,
    PrimitiveRestart,
    PrimitiveRestartFixedIndex,
    RasterizerDiscard,
    SampleAlphaToCoverage,
    SampleAlphaToOne,
    SampleCoverage,
    SampleShading,
    SampleMask,
    ScissorTest,
    StencilTest,
    TextureCubeMapSeamless,
    ProgramPointSize,
}

impl Cap {
    /// The numeric code of this value.
    pub open spec fn code(self) -> u32 {
        match self {
            Cap::Blend => codes::BLEND,
            Cap::ClipDistance0 => codes::CLIP_DISTANCE0,
            Cap::ClipDistance1 => codes::CLIP_DISTANCE1,
            Cap::ClipDistance2 => codes::CLIP_DISTANCE2,
            Cap::ClipDistance3 => codes::CLIP_DISTANCE3,
            Cap::ClipDistance4 => codes::CLIP_DISTANCE4,
            Cap::ClipDistance5 => codes::CLIP_DISTANCE5,
            Cap::ClipDistance6 => codes::CLIP_DISTANCE6,
            Cap::ClipDistance7 => codes::CLIP_DISTANCE7,
            Cap::ColorLogicOp => codes::COLOR_LOGIC_OP,
            Cap::CullFace => codes::CULL_FACE,
            Cap::DebugOutput => codes::DEBUG_OUTPUT,
            Cap::DebugOutputSynchronous => codes::DEBUG_OUTPUT_SYNCHRONOUS,
            Cap::DepthClamp => codes::DEPTH_CLAMP,
            Cap::DepthTest => codes::DEPTH_TEST,
            Cap::Dither => codes::DITHER,
            Cap::FramebufferSrgb => codes::FRAMEBUFFER_SRGB,
            Cap::LineSmooth => codes::LINE_SMOOTH,
            Cap::Multisample => codes::MULTISAMPLE,
            Cap::PolygonOffsetFill => codes::POLYGON_OFFSET_FILL,
            Cap::PolygonOffsetLine => codes::POLYGON_OFFSET_LINE,
            Cap::PolygonOffsetPoint => codes::POLYGON_OFFSET_POINT,
            Cap::PolygonSmooth => codes::POLYGON_SMOOTH,
            Cap::PrimitiveRestart => codes::PRIMITIVE_RESTART,
            Cap::PrimitiveRestartFixedIndex => codes::PRIMITIVE_RESTART_FIXED_INDEX,
            Cap::RasterizerDiscard => codes::RASTERIZER_DISCARD,
            Cap::SampleAlphaToCoverage => codes::SAMPLE_ALPHA_TO_COVERAGE,
            Cap::SampleAlphaToOne => codes::SAMPLE_ALPHA_TO_ONE,
            Cap::SampleCoverage => codes::SAMPLE_COVERAGE,
            Cap::SampleShading => codes::SAMPLE_SHADING,
            Cap::SampleMask => codes::SAMPLE_MASK,
            Cap::ScissorTest => codes::SCISSOR_TEST,
            Cap::StencilTest => codes::STENCIL_TEST,
            Cap::TextureCubeMapSeamless => codes::TEXTURE_CUBE_MAP_SEAMLESS,
            Cap::ProgramPointSize => codes::PROGRAM_POINT_SIZE,
        }
    }

    /// Encodes this value as the API expects it.
    pub fn to_gl_cap(self) -> (r: u32)
        ensures
            r == self.code(),
    {
        match self {
            Cap::Blend => codes::BLEND,
            Cap::ClipDistance0 => codes::CLIP_DISTANCE0,
            Cap::ClipDistance1 => codes::CLIP_DISTANCE1,
            Cap::ClipDistance2 => codes::CLIP_DISTANCE2,
            Cap::ClipDistance3 => codes::CLIP_DISTANCE3,
            Cap::ClipDistance4 => codes::CLIP_DISTANCE4,
            Cap::ClipDistance5 => codes::CLIP_DISTANCE5,
            Cap::ClipDistance6 => codes::CLIP_DISTANCE6,
            Cap::ClipDistance7 => codes::CLIP_DISTANCE7,
            Cap::ColorLogicOp => codes::COLOR_LOGIC_OP,
            Cap::CullFace => codes::CULL_FACE,
            Cap::DebugOutput => codes::DEBUG_OUTPUT,
            Cap::DebugOutputSynchronous => codes::DEBUG_OUTPUT_SYNCHRONOUS,
            Cap::DepthClamp => codes::DEPTH_CLAMP,
            Cap::DepthTest => codes::DEPTH_TEST,
            Cap::Dither => codes::DITHER,
            Cap::FramebufferSrgb => codes::FRAMEBUFFER_SRGB,
            Cap::LineSmooth => codes::LINE_SMOOTH,
            Cap::Multisample => codes::MULTISAMPLE,
            Cap::PolygonOffsetFill => codes::POLYGON_OFFSET_FILL,
            Cap::PolygonOffsetLine => codes::POLYGON_OFFSET_LINE,
            Cap::PolygonOffsetPoint => codes::POLYGON_OFFSET_POINT,
            Cap::PolygonSmooth => codes::POLYGON_SMOOTH,
            Cap::PrimitiveRestart => codes::PRIMITIVE_RESTART,
            Cap::PrimitiveRestartFixedIndex => codes::PRIMITIVE_RESTART_FIXED_INDEX,
            Cap::RasterizerDiscard => codes::RASTERIZER_DISCARD,
            Cap::SampleAlphaToCoverage => codes::SAMPLE_ALPHA_TO_COVERAGE,
            Cap::SampleAlphaToOne => codes::SAMPLE_ALPHA_TO_ONE,
            Cap::SampleCoverage => codes::SAMPLE_COVERAGE,
            Cap::SampleShading => codes::SAMPLE_SHADING,
            Cap::SampleMask => codes::SAMPLE_MASK,
            Cap::ScissorTest => codes::SCISSOR_TEST,
            Cap::StencilTest => codes::STENCIL_TEST,
            Cap::TextureCubeMapSeamless => codes::TEXTURE_CUBE_MAP_SEAMLESS,
            Cap::ProgramPointSize => codes::PROGRAM_POINT_SIZE,
        }
    }

    /// No two values share a code.
    pub proof fn lemma_code_injective()
        ensures
            forall|a: Cap, b: Cap| #[trigger] a.code() == #[trigger] b.code() ==> a == b,
    {
    }
}

/// Buffer binding point.
#[derive(Debug, Clone, Copy, PartialEq, Eq, Structural, PartialOrd, Ord, Hash)]
pub enum Target {
    Array,
    AtomicCounter,
    CopyRead,
    CopyWrite,
    DispatchIndirect,
    DrawIndirect,
    ElementArray,
    PixelPack,
    PixelUnpack,
    Query,
    ShaderStorage,
    Texture,
    TransformFeedback,
    Uniform,
}

impl Target {
    /// The numeric code of this value.
    pub open spec fn code(self) -> u32 {
        match self {
            Target::Array => codes::ARRAY_BUFFER,
            Target::AtomicCounter => codes::ATOMIC_COUNTER_BUFFER,
            Target::CopyRead => codes::COPY_READ_BUFFER,
            Target::CopyWrite => codes::COPY_WRITE_BUFFER,
            Target::DispatchIndirect => codes::DISPATCH_INDIRECT_BUFFER,
            Target::DrawIndirect => codes::DRAW_INDIRECT_BUFFER,
            Target::ElementArray => codes::ELEMENT_ARRAY_BUFFER,
            Target::PixelPack => codes::PIXEL_PACK_BUFFER,
            Target::PixelUnpack => codes::PIXEL_UNPACK_BUFFER,
            Target::Query => codes::QUERY_BUFFER,
            Target::ShaderStorage => codes::SHADER_STORAGE_BUFFER,
            Target::Texture => codes::TEXTURE_BUFFER,
            Target::TransformFeedback => codes::TRANSFORM_FEEDBACK_BUFFER,
            Target::Uniform => codes::UNIFORM_BUFFER,
        }
    }

    /// Encodes this value as the API expects it.
    pub fn to_gl_target(self) -> (r: u32)
        ensures
            r == self.code(),
    {
        match self {
            Target::Array => codes::ARRAY_BUFFER,
            Target::AtomicCounter => codes::ATOMIC_COUNTER_BUFFER,
            Target::CopyRead => codes::COPY_READ_BUFFER,
            Target::CopyWrite => codes::COPY_WRITE_BUFFER,
            Target::DispatchIndirect => codes::DISPATCH_INDIRECT_BUFFER,
            Target::DrawIndirect => codes::DRAW_INDIRECT_BUFFER,
            Target::ElementArray => codes::ELEMENT_ARRAY_BUFFER,
            Target::PixelPack => codes::PIXEL_PACK_BUFFER,
            Target::PixelUnpack => codes::PIXEL_UNPACK_BUFFER,
            Target::Query => codes::QUERY_BUFFER,
            Target::ShaderStorage => codes::SHADER_STORAGE_BUFFER,
            Target::Texture => codes::TEXTURE_BUFFER,
            Target::TransformFeedback => codes::TRANSFORM_FEEDBACK_BUFFER,
            Target::Uniform => codes::UNIFORM_BUFFER,
        }
    }

    /// No two values share a code.
    pub proof fn lemma_code_injective()
        ensures
            forall|a: Target, b: Target| #[trigger] a.code() == #[trigger] b.code() ==> a == b,
    {
    }
}

/// Expected usage pattern of a buffer's data store.
#[derive(Debug, Clone, Copy, PartialEq, Eq, Structural, PartialOrd, Ord, Hash)]
pub enum Usage {
    StaticDraw,
    StaticRead,
    StaticCopy,
    StreamDraw,
    StreamRead,
    StreamCopy,
    DynamicDraw,
    DynamicRead,
    DynamicCopy,
}

impl Usage {
    /// The numeric code of this value.
    pub open spec fn code(self) -> u32 {
        match self {
            Usage::StaticDraw => codes::STATIC_DRAW,
            Usage::StaticRead => codes::STATIC_READ,
            Usage::StaticCopy => codes::STATIC_COPY,
            Usage::StreamDraw => codes::STREAM_DRAW,
            Usage::StreamRead => codes::STREAM_READ,
            Usage::StreamCopy => codes::STREAM_COPY,
            Usage::DynamicDraw => codes::DYNAMIC_DRAW,
            Usage::DynamicRead => codes::DYNAMIC_READ,
            Usage::DynamicCopy => codes::DYNAMIC_COPY,
        }
    }

    /// Encodes this value as the API expects it.
    pub fn to_gl_usage(self) -> (r: u32)
        ensures
            r == self.code(),
    {
        match self {
            Usage::StaticDraw => codes::STATIC_DRAW,
            Usage::StaticRead => codes::STATIC_READ,
            Usage::StaticCopy => codes::STATIC_COPY,
            Usage::StreamDraw => codes::STREAM_DRAW,
            Usage::StreamRead => codes::STREAM_READ,
            Usage::StreamCopy => codes::STREAM_COPY,
            Usage::DynamicDraw => codes::DYNAMIC_DRAW,
            Usage::DynamicRead => codes::DYNAMIC_READ,
            Usage::DynamicCopy => codes::DYNAMIC_COPY,
        }
    }

    /// No two values share a code.
    pub proof fn lemma_code_injective()
        ensures
            forall|a: Usage, b: Usage| #[trigger] a.code() == #[trigger] b.code() ==> a == b,
    {
    }
}

/// Shader stage.
#[derive(Debug, Clone, Copy, PartialEq, Eq, Structural, PartialOrd, Ord, Hash)]
pub enum ShaderType {
    Vertex,
    Fragmet,
    Geometry,
    TessControl,
    TessEvaluation,
    Compute,
}

impl ShaderType {
    /// The numeric code of this value.
    pub open spec fn code(self) -> u32 {
        match self {
            ShaderType::Vertex => codes::VERTEX_SHADER,
            ShaderType::Fragmet => codes::FRAGMENT_SHADER,
            ShaderType::Geometry => codes::GEOMETRY_SHADER,
            ShaderType::TessControl => codes::TESS_CONTROL_SHADER,
            ShaderType::TessEvaluation => codes::TESS_EVALUATION_SHADER,
            ShaderType::Compute => codes::COMPUTE_SHADER,
        }
    }

    /// Encodes this value as the API expects it.
    pub fn to_gl_type(self) -> (r: u32)
        ensures
            r == self.code(),
    {
        match self {
            ShaderType::Vertex => codes::VERTEX_SHADER,
            ShaderType::Fragmet => codes::FRAGMENT_SHADER,
            ShaderType::Geometry => codes::GEOMETRY_SHADER,
            ShaderType::TessControl => codes::TESS_CONTROL_SHADER,
            ShaderType::TessEvaluation => codes::TESS_EVALUATION_SHADER,
            ShaderType::Compute => codes::COMPUTE_SHADER,
        }
    }

    /// No two values share a code.
    pub proof fn lemma_code_injective()
        ensures
            forall|a: ShaderType, b: ShaderType| #[trigger] a.code() == #[trigger] b.code() ==> a == b,
    {
    }
}

/// What a depth-stencil texture is read as.
#[derive(Debug, Clone, Copy, PartialEq, Eq, Structural, PartialOrd, Ord, Hash)]
pub enum DepthMode {
    Component,
    Index,
}

impl DepthMode {
    /// The numeric code of this value.
    pub open spec fn code(self) -> u32 {
        match self {
            DepthMode::Component => codes::DEPTH_COMPONENT,
            DepthMode::Index => codes::STENCIL_INDEX,
        }
    }

    /// Encodes this value as the API expects it.
    pub fn to_gl_mode(self) -> (r: u32)
        ensures
            r == self.code(),
    {
        match self {
            DepthMode::Component => codes::DEPTH_COMPONENT,
            DepthMode::Index => codes::STENCIL_INDEX,
        }
    }

    /// No two values share a code.
    pub proof fn lemma_code_injective()
        ensures
            forall|a: DepthMode, b: DepthMode| #[trigger] a.code() == #[trigger] b.code() ==> a == b,
    {
    }
}

/// Comparison function, shared by depth, stencil and texture comparisons.
#[derive(Debug, Clone, Copy, PartialEq, Eq, Structural, PartialOrd, Ord, Hash)]
pub enum CompareFunc {
    LessEqual,
    GreaterEqual,
    Less,
    Greater,
    Equal,
    NotEqual,
    Always,
    Never,
}

impl CompareFunc {
    /// The numeric code of this value.
    pub open spec fn code(self) -> u32 {
        match self {
            CompareFunc::LessEqual => codes::LEQUAL,
            CompareFunc::GreaterEqual => codes::GEQUAL,
            CompareFunc::Less => codes::LESS,
            CompareFunc::Greater => codes::GREATER,
            CompareFunc::Equal => codes::EQUAL,
            CompareFunc::NotEqual => codes::NOTEQUAL,
            CompareFunc::Always => codes::ALWAYS,
            CompareFunc::Never => codes::NEVER,
        }
    }

    /// Encodes this value as the API expects it.
    pub fn to_gl_func(self) -> (r: u32)
        ensures
            r == self.code(),
    {
        match self {
            CompareFunc::LessEqual => codes::LEQUAL,
            CompareFunc::GreaterEqual => codes::GEQUAL,
            CompareFunc::Less => codes::LESS,
            CompareFunc::Greater => codes::GREATER,
            CompareFunc::Equal => codes::EQUAL,
            CompareFunc::NotEqual => codes::NOTEQUAL,
            CompareFunc::Always => codes::ALWAYS,
            CompareFunc::Never => codes::NEVER,
        }
    }

    /// No two values share a code.
    pub proof fn lemma_code_injective()
        ensures
            forall|a: CompareFunc, b: CompareFunc| #[trigger] a.code() == #[trigger] b.code() ==> a == b,
    {
    }
}

/// Texture comparison mode.
#[derive(Debug, Clone, Copy, PartialEq, Eq, Structural, PartialOrd, Ord, Hash)]
pub enum CompareMode {
    CompareRefToTexture,
    NoCompare,
}

impl CompareMode {
    /// The numeric code of this value.
    pub open spec fn code(self) -> u32 {
        match self {
            CompareMode::CompareRefToTexture => codes::COMPARE_REF_TO_TEXTURE,
            CompareMode::NoCompare => codes::NONE,
        }
    }

    /// Encodes this value as the API expects it.
    pub fn to_gl_mode(self) -> (r: u32)
        ensures
            r == self.code(),
    {
        match self {
            CompareMode::CompareRefToTexture => codes::COMPARE_REF_TO_TEXTURE,
            CompareMode::NoCompare => codes::NONE,
        }
    }

    /// No two values share a code.
    pub proof fn lemma_code_injective()
        ensures
            forall|a: CompareMode, b: CompareMode| #[trigger] a.code() == #[trigger] b.code() ==> a == b,
    {
    }
}

/// Texture minifying filter.
#[derive(Debug, Clone, Copy, PartialEq, Eq, Structural, PartialOrd, Ord, Hash)]
pub enum MinFilter {
    Nearest,
    Linear,
    NearestMipmapNearest,
    LinearMipmapNearest,
    NearestMipmapLinear,
    LinearMipmapLinear,
}

impl MinFilter {
    /// The numeric code of this value.
    pub open spec fn code(self) -> u32 {
        match self {
            MinFilter::Nearest => codes::NEAREST,
            MinFilter::Linear => codes::LINEAR,
            MinFilter::NearestMipmapNearest => codes::NEAREST_MIPMAP_NEAREST,
            MinFilter::LinearMipmapNearest => codes::LINEAR_MIPMAP_NEAREST,
            MinFilter::NearestMipmapLinear => codes::NEAREST_MIPMAP_LINEAR,
            MinFilter::LinearMipmapLinear => codes::LINEAR_MIPMAP_LINEAR,
        }
    }

    /// Encodes this value as the API expects it.
    pub fn to_gl_filter(self) -> (r: u32)
        ensures
            r == self.code(),
    {
        match self {
            MinFilter::Nearest => codes::NEAREST,
            MinFilter::Linear => codes::LINEAR,
            MinFilter::NearestMipmapNearest => codes::NEAREST_MIPMAP_NEAREST,
            MinFilter::LinearMipmapNearest => codes::LINEAR_MIPMAP_NEAREST,
            MinFilter::NearestMipmapLinear => codes::NEAREST_MIPMAP_LINEAR,
            MinFilter::LinearMipmapLinear => codes::LINEAR_MIPMAP_LINEAR,
        }
    }

    /// No two values share a code.
    pub proof fn lemma_code_injective()
        ensures
            forall|a: MinFilter, b: MinFilter| #[trigger] a.code() == #[trigger] b.code() ==> a == b,
    {
    }
}

/// Texture magnification filter.
#[derive(Debug, Clone, Copy, PartialEq, Eq, Structural, PartialOrd, Ord, Hash)]
pub enum MagFilter {
    Nearest,
    Linear,
}

impl MagFilter {
    /// The numeric code of this value.
    pub open spec fn code(self) -> u32 {
        match self {
            MagFilter::Nearest => codes::NEAREST,
            MagFilter::Linear => codes::LINEAR,
        }
    }

    /// Encodes this value as the API expects it.
    pub fn to_gl_filter(self) -> (r: u32)
        ensures
            r == self.code(),
    {
        match self {
            MagFilter::Nearest => codes::NEAREST,
            MagFilter::Linear => codes::LINEAR,
        }
    }

    /// No two values share a code.
    pub proof fn lemma_code_injective()
        ensures
            forall|a: MagFilter, b: MagFilter| #[trigger] a.code() == #[trigger] b.code() ==> a == b,
    {
    }
}

/// Source of one channel of a texture read.
#[derive(Debug, Clone, Copy, PartialEq, Eq, Structural, PartialOrd, Ord, Hash)]
pub enum Swizzle {
    Red,
    Green,
    Blue,
    Alpha,
    Zero,
    One,
}

impl Swizzle {
    /// The numeric code of this value.
    pub open spec fn code(self) -> u32 {
        match self {
            Swizzle::Red => codes::RED,
            Swizzle::Green => codes::GREEN,
            Swizzle::Blue => codes::BLUE,
            Swizzle::Alpha => codes::ALPHA,
            Swizzle::Zero => codes::ZERO,
            Swizzle::One => codes::ONE,
        }
    }

    /// Encodes this value as the API expects it.
    pub fn to_gl_swizzle(self) -> (r: u32)
        ensures
            r == self.code(),
    {
        match self {
            Swizzle::Red => codes::RED,
            Swizzle::Green => codes::GREEN,
            Swizzle::Blue => codes::BLUE,
            Swizzle::Alpha => codes::ALPHA,
            Swizzle::Zero => codes::ZERO,
            Swizzle::One => codes::ONE,
        }
    }

    /// No two values share a code.
    pub proof fn lemma_code_injective()
        ensures
            forall|a: Swizzle, b: Swizzle| #[trigger] a.code() == #[trigger] b.code() ==> a == b,
    {
    }
}

/// Texture coordinate wrap mode.
#[derive(Debug, Clone, Copy, PartialEq, Eq, Structural, PartialOrd, Ord, Hash)]
pub enum Wrap {
    ClampToEdge,
    ClampToBorder,
    MirroredRepeat,
    Repeat,
    MirrorClampToEdge,
}

impl Wrap {
    /// The numeric code of this value.
    pub open spec fn code(self) -> u32 {
        match self {
            Wrap::ClampToEdge => codes::CLAMP_TO_EDGE,
            Wrap::ClampToBorder => codes::CLAMP_TO_BORDER,
            Wrap::MirroredRepeat => codes::MIRRORED_REPEAT,
            Wrap::Repeat => codes::REPEAT,
            Wrap::MirrorClampToEdge => codes::MIRROR_CLAMP_TO_EDGE,
        }
    }

    /// Encodes this value as the API expects it.
    pub fn to_gl_wrap(self) -> (r: u32)
        ensures
            r == self.code(),
    {
        match self {
            Wrap::ClampToEdge => codes::CLAMP_TO_EDGE,
            Wrap::ClampToBorder => codes::CLAMP_TO_BORDER,
            Wrap::MirroredRepeat => codes::MIRRORED_REPEAT,
            Wrap::Repeat => codes::REPEAT,
            Wrap::MirrorClampToEdge => codes::MIRROR_CLAMP_TO_EDGE,
        }
    }

    /// No two values share a code.
    pub proof fn lemma_code_injective()
        ensures
            forall|a: Wrap, b: Wrap| #[trigger] a.code() == #[trigger] b.code() ==> a == b,
    {
    }
}

/// Texture binding point.
#[derive(Debug, Clone, Copy, PartialEq, Eq, Structural, PartialOrd, Ord, Hash)]
pub enum TexTarget {
    Tex1D,
    Tex2D,
    Tex3D,
    Tex1DArray,
    Tex2DArray,
    TexRectangle,
    TexCubeMap,
    TexCubeMapArray,
    TexBuffer,
    Tex2DMultisample,
    Tex2DMultisampleArray,
}

impl TexTarget {
    /// The numeric code of this value.
    pub open spec fn code(self) -> u32 {
        match self {
            TexTarget::Tex1D => codes::TEXTURE_1D,
            TexTarget::Tex2D => codes::TEXTURE_2D,
            TexTarget::Tex3D => codes::TEXTURE_3D,
            TexTarget::Tex1DArray => codes::TEXTURE_1D_ARRAY,
            TexTarget::Tex2DArray => codes::TEXTURE_2D_ARRAY,
            TexTarget::TexRectangle => codes::TEXTURE_RECTANGLE,
            TexTarget::TexCubeMap => codes::TEXTURE_CUBE_MAP,
            TexTarget::TexCubeMapArray => codes::TEXTURE_CUBE_MAP_ARRAY,
            TexTarget::TexBuffer => codes::TEXTURE_BUFFER,
            TexTarget::Tex2DMultisample => codes::TEXTURE_2D_MULTISAMPLE,
            TexTarget::Tex2DMultisampleArray => codes::TEXTURE_2D_MULTISAMPLE_ARRAY,
        }
    }

    /// Encodes this value as the API expects it.
    pub fn to_gl_target(&self) -> (r: u32)
        ensures
            r == self.code(),
    {
        match self {
            TexTarget::Tex1D => codes::TEXTURE_1D,
            TexTarget::Tex2D => codes::TEXTURE_2D,
            TexTarget::Tex3D => codes::TEXTURE_3D,
            TexTarget::Tex1DArray => codes::TEXTURE_1D_ARRAY,
            TexTarget::Tex2DArray => codes::TEXTURE_2D_ARRAY,
            TexTarget::TexRectangle => codes::TEXTURE_RECTANGLE,
            TexTarget::TexCubeMap => codes::TEXTURE_CUBE_MAP,
            TexTarget::TexCubeMapArray => codes::TEXTURE_CUBE_MAP_ARRAY,
            TexTarget::TexBuffer => codes::TEXTURE_BUFFER,
            TexTarget::Tex2DMultisample => codes::TEXTURE_2D_MULTISAMPLE,
            TexTarget::Tex2DMultisampleArray => codes::TEXTURE_2D_MULTISAMPLE_ARRAY,
        }
    }

    /// No two values share a code.
    pub proof fn lemma_code_injective()
        ensures
            forall|a: TexTarget, b: TexTarget| #[trigger] a.code() == #[trigger] b.code() ==> a == b,
    {
    }
}

/// Texture target whose mipmaps can be generated.
#[derive(Debug, Clone, Copy, PartialEq, Eq, Structural, PartialOrd, Ord, Hash)]
pub enum MinmapTarget {
    Tex1D,
    Tex2D,
    Tex3D,
    Tex1DArray,
    Tex2DArray,
    TexCubeMap,
    TexCubeMapArray,
}

impl MinmapTarget {
    /// The numeric code of this value.
    pub open spec fn code(self) -> u32 {
        match self {
            MinmapTarget::Tex1D => codes::TEXTURE_1D,
            MinmapTarget::Tex2D => codes::TEXTURE_2D,
            MinmapTarget::Tex3D => codes::TEXTURE_3D,
            MinmapTarget::Tex1DArray => codes::TEXTURE_1D_ARRAY,
            MinmapTarget::Tex2DArray => codes::TEXTURE_2D_ARRAY,
            MinmapTarget::TexCubeMap => codes::TEXTURE_CUBE_MAP,
            MinmapTarget::TexCubeMapArray => codes::TEXTURE_CUBE_MAP_ARRAY,
        }
    }

    /// Encodes this value as the API expects it.
    pub fn to_gl_target(&self) -> (r: u32)
        ensures
            r == self.code(),
    {
        match self {
            MinmapTarget::Tex1D => codes::TEXTURE_1D,
            MinmapTarget::Tex2D => codes::TEXTURE_2D,
            MinmapTarget::Tex3D => codes::TEXTURE_3D,
            MinmapTarget::Tex1DArray => codes::TEXTURE_1D_ARRAY,
            MinmapTarget::Tex2DArray => codes::TEXTURE_2D_ARRAY,
            MinmapTarget::TexCubeMap => codes::TEXTURE_CUBE_MAP,
            MinmapTarget::TexCubeMapArray => codes::TEXTURE_CUBE_MAP_ARRAY,
        }
    }

    /// No two values share a code.
    pub proof fn lemma_code_injective()
        ensures
            forall|a: MinmapTarget, b: MinmapTarget| #[trigger] a.code() == #[trigger] b.code() ==> a == b,
    {
    }
}

/// Target of a two-dimensional image upload.
#[derive(Debug, Clone, Copy, PartialEq, Eq, Structural, PartialOrd, Ord, Hash)]
pub enum ImageTarget {
    Texture2d,
    ProxyTexture2d,
    Texture1dArray,
    ProxyTexture1dArray,
    TextureRectangle,
    ProxyTextureRectangle,
    TextureCubeMapPositiveX,
    TextureCubeMapNegativeX,
    TextureCubeMapPositiveY,
    TextureCubeMapNegativeY,
    TextureCubeMapPositiveZ,
    TextureCubeMapNegativeZ,
    ProxyTextureCubeMap,
}

impl ImageTarget {
    /// The numeric code of this value.
    pub open spec fn code(self) -> u32 {
        match self {
            ImageTarget::Texture2d => codes::TEXTURE_2D,
            ImageTarget::ProxyTexture2d => codes::PROXY_TEXTURE_2D,
            ImageTarget::Texture1dArray => codes::TEXTURE_1D_ARRAY,
            ImageTarget::ProxyTexture1dArray => codes::PROXY_TEXTURE_1D_ARRAY,
            ImageTarget::TextureRectangle => codes::TEXTURE_RECTANGLE,
            ImageTarget::ProxyTextureRectangle => codes::PROXY_TEXTURE_RECTANGLE,
            ImageTarget::TextureCubeMapPositiveX => codes::TEXTURE_CUBE_MAP_POSITIVE_X,
            ImageTarget::TextureCubeMapNegativeX => codes::TEXTURE_CUBE_MAP_NEGATIVE_X,
            ImageTarget::TextureCubeMapPositiveY => codes::TEXTURE_CUBE_MAP_POSITIVE_Y,
            ImageTarget::TextureCubeMapNegativeY => codes::TEXTURE_CUBE_MAP_NEGATIVE_Y,
            ImageTarget::TextureCubeMapPositiveZ => codes::TEXTURE_CUBE_MAP_POSITIVE_Z,
            ImageTarget::TextureCubeMapNegativeZ => codes::TEXTURE_CUBE_MAP_NEGATIVE_Z,
            ImageTarget::ProxyTextureCubeMap => codes::PROXY_TEXTURE_CUBE_MAP,
        }
    }

    /// Encodes this value as the API expects it.
    pub fn to_gl_target(self) -> (r: u32)
        ensures
            r == self.code(),
    {
        match self {
            ImageTarget::Texture2d => codes::TEXTURE_2D,
            ImageTarget::ProxyTexture2d => codes::PROXY_TEXTURE_2D,
            ImageTarget::Texture1dArray => codes::TEXTURE_1D_ARRAY,
            ImageTarget::ProxyTexture1dArray => codes::PROXY_TEXTURE_1D_ARRAY,
            ImageTarget::TextureRectangle => codes::TEXTURE_RECTANGLE,
            ImageTarget::ProxyTextureRectangle => codes::PROXY_TEXTURE_RECTANGLE,
            ImageTarget::TextureCubeMapPositiveX => codes::TEXTURE_CUBE_MAP_POSITIVE_X,
            ImageTarget::TextureCubeMapNegativeX => codes::TEXTURE_CUBE_MAP_NEGATIVE_X,
            ImageTarget::TextureCubeMapPositiveY => codes::TEXTURE_CUBE_MAP_POSITIVE_Y,
            ImageTarget::TextureCubeMapNegativeY => codes::TEXTURE_CUBE_MAP_NEGATIVE_Y,
            ImageTarget::TextureCubeMapPositiveZ => codes::TEXTURE_CUBE_MAP_POSITIVE_Z,
            ImageTarget::TextureCubeMapNegativeZ => codes::TEXTURE_CUBE_MAP_NEGATIVE_Z,
            ImageTarget::ProxyTextureCubeMap => codes::PROXY_TEXTURE_CUBE_MAP,
        }
    }

    /// No two values share a code.
    pub proof fn lemma_code_injective()
        ensures
            forall|a: ImageTarget, b: ImageTarget| #[trigger] a.code() == #[trigger] b.code() ==> a == b,
    {
    }
}

/// Layout of the pixels handed to an upload.
#[derive(Debug, Clone, Copy, PartialEq, Eq, Structural, PartialOrd, Ord, Hash)]
pub enum ImageFormat {
    Red,
    RG,
    RGB,
    BGR,
    RGBA,
    BGRA,
    DepthComponent,
    DepthStencil,
}

impl ImageFormat {
    /// The numeric code of this value.
    pub open spec fn code(self) -> u32 {
        match self {
            ImageFormat::Red => codes::RED,
            ImageFormat::RG => codes::RG,
            ImageFormat::RGB => codes::RGB,
            ImageFormat::BGR => codes::BGR,
            ImageFormat::RGBA => codes::RGBA,
            ImageFormat::BGRA => codes::BGRA,
            ImageFormat::DepthComponent => codes::DEPTH_COMPONENT,
            ImageFormat::DepthStencil => codes::DEPTH_STENCIL,
        }
    }

    /// Encodes this value as the API expects it.
    pub fn to_gl_format(self) -> (r: u32)
        ensures
            r == self.code(),
    {
        match self {
            ImageFormat::Red => codes::RED,
            ImageFormat::RG => codes::RG,
            ImageFormat::RGB => codes::RGB,
            ImageFormat::BGR => codes::BGR,
            ImageFormat::RGBA => codes::RGBA,
            ImageFormat::BGRA => codes::BGRA,
            ImageFormat::DepthComponent => codes::DEPTH_COMPONENT,
            ImageFormat::DepthStencil => codes::DEPTH_STENCIL,
        }
    }

    /// No two values share a code.
    pub proof fn lemma_code_injective()
        ensures
            forall|a: ImageFormat, b: ImageFormat| #[trigger] a.code() == #[trigger] b.code() ==> a == b,
    {
    }
}

/// Unsized internal format.
#[derive(Debug, Clone, Copy, PartialEq, Eq, Structural, PartialOrd, Ord, Hash)]
pub enum BaseFormat {
    Red,
    RG,
    RGB,
    RGBA,
    DepthComponent,
    DepthStencil,
}

impl BaseFormat {
    /// The numeric code of this value.
    pub open spec fn code(self) -> u32 {
        match self {
            BaseFormat::Red => codes::RED,
            BaseFormat::RG => codes::RG,
            BaseFormat::RGB => codes::RGB,
            BaseFormat::RGBA => codes::RGBA,
            BaseFormat::DepthComponent => codes::DEPTH_COMPONENT,
            BaseFormat::DepthStencil => codes::DEPTH_STENCIL,
        }
    }

    /// Encodes this value as the API expects it.
    pub fn to_gl_format(self) -> (r: u32)
        ensures
            r == self.code(),
    {
        match self {
            BaseFormat::Red => codes::RED,
            BaseFormat::RG => codes::RG,
            BaseFormat::RGB => codes::RGB,
            BaseFormat::RGBA => codes::RGBA,
            BaseFormat::DepthComponent => codes::DEPTH_COMPONENT,
            BaseFormat::DepthStencil => codes::DEPTH_STENCIL,
        }
    }

    /// No two values share a code.
    pub proof fn lemma_code_injective()
        ensures
            forall|a: BaseFormat, b: BaseFormat| #[trigger] a.code() == #[trigger] b.code() ==> a == b,
    {
    }
}

/// Sized internal format.
#[allow(non_camel_case_types)]
#[derive(Debug, Clone, Copy, PartialEq, Eq, Structural, PartialOrd, Ord, Hash)]
pub enum SizedFormat {
    R8,
    R8_SNORM,
    R16,
    R16_SNORM,
    RG8,
    RG8_SNORM,
    RG16,
    RG16_SNORM,
    R3_G3_B2,
    RGB4,
    RGB5,
    RGB8,
    RGB8_SNORM,
    RGB10,
    RGB12,
    RGB16_SNORM,
    RGBA2,
    RGBA4,
    RGB5_A1,
    RGBA8,
    RGBA8_SNORM,
    RGB10_A2,
    RGB10_A2UI,
    RGBA12,
    RGBA16,
    SRGB8,
    SRGB8_ALPHA8,
    R16F,
    RG16F,
    RGB16F,
    RGBA16F,
    R32F,
    RG32F,
    RGB32F,
    RGBA32F,
    R11F_G11F_B10F,
    RGB9_E5,
    R8I,
    R8UI,
    R16I,
    R16UI,
    R32I,
    R32UI,
    RG8I,
    RG8UI,
    RG16I,
    RG16UI,
    RG32I,
    RG32UI,
    RGB8I,
    RGB8UI,
    RGB16I,
    RGB16UI,
    RGB32I,
    RGB32UI,
    RGBA8I,
    RGBA8UI,
    RGBA16I,
    RGBA16UI,
    RGBA32I,
    RGBA32UI,
}

impl SizedFormat {
    /// The numeric code of this value.
    pub open spec fn code(self) -> u32 {
        match self {
            SizedFormat::R8 => codes::R8,
            SizedFormat::R8_SNORM => codes::R8_SNORM,
            SizedFormat::R16 => codes::R16,
            SizedFormat::R16_SNORM => codes::R16_SNORM,
            SizedFormat::RG8 => codes::RG8,
            SizedFormat::RG8_SNORM => codes::RG8_SNORM,
            SizedFormat::RG16 => codes::RG16,
            SizedFormat::RG16_SNORM => codes::RG16_SNORM,
            SizedFormat::R3_G3_B2 => codes::R3_G3_B2,
            SizedFormat::RGB4 => codes::RGB4,
            SizedFormat::RGB5 => codes::RGB5,
            SizedFormat::RGB8 => codes::RGB8,
            SizedFormat::RGB8_SNORM => codes::RGB8_SNORM,
            SizedFormat::RGB10 => codes::RGB10,
            SizedFormat::RGB12 => codes::RGB12,
            SizedFormat::RGB16_SNORM => codes::RGB16_SNORM,
            SizedFormat::RGBA2 => codes::RGBA2,
            SizedFormat::RGBA4 => codes::RGBA4,
            SizedFormat::RGB5_A1 => codes::RGB5_A1,
            SizedFormat::RGBA8 => codes::RGBA8,
            SizedFormat::RGBA8_SNORM => codes::RGBA8_SNORM,
            SizedFormat::RGB10_A2 => codes::RGB10_A2,
            SizedFormat::RGB10_A2UI => codes::RGB10_A2UI,
            SizedFormat::RGBA12 => codes::RGBA12,
            SizedFormat::RGBA16 => codes::RGBA16,
            SizedFormat::SRGB8 => codes::SRGB8,
            SizedFormat::SRGB8_ALPHA8 => codes::SRGB8_ALPHA8,
            SizedFormat::R16F => codes::R16F,
            SizedFormat::RG16F => codes::RG16F,
            SizedFormat::RGB16F => codes::RGB16F,
            SizedFormat::RGBA16F => codes::RGBA16F,
            SizedFormat::R32F => codes::R32F,
            SizedFormat::RG32F => codes::RG32F,
            SizedFormat::RGB32F => codes::RGB32F,
            SizedFormat::RGBA32F => codes::RGBA32F,
            SizedFormat::R11F_G11F_B10F => codes::R11F_G11F_B10F,
            SizedFormat::RGB9_E5 => codes::RGB9_E5,
            SizedFormat::R8I => codes::R8I,
            SizedFormat::R8UI => codes::R8UI,
            SizedFormat::R16I => codes::R16I,
            SizedFormat::R16UI => codes::R16UI,
            SizedFormat::R32I => codes::R32I,
            SizedFormat::R32UI => codes::R32UI,
            SizedFormat::RG8I => codes::RG8I,
            SizedFormat::RG8UI => codes::RG8UI,
            SizedFormat::RG16I => codes::RG16I,
            SizedFormat::RG16UI => codes::RG16UI,
            SizedFormat::RG32I => codes::RG32I,
            SizedFormat::RG32UI => codes::RG32UI,
            SizedFormat::RGB8I => codes::RGB8I,
            SizedFormat::RGB8UI => codes::RGB8UI,
            SizedFormat::RGB16I => codes::RGB16I,
            SizedFormat::RGB16UI => codes::RGB16UI,
            SizedFormat::RGB32I => codes::RGB32I,
            SizedFormat::RGB32UI => codes::RGB32UI,
            SizedFormat::RGBA8I => codes::RGBA8I,
            SizedFormat::RGBA8UI => codes::RGBA8UI,
            SizedFormat::RGBA16I => codes::RGBA16I,
            SizedFormat::RGBA16UI => codes::RGBA16UI,
            SizedFormat::RGBA32I => codes::RGBA32I,
            SizedFormat::RGBA32UI => codes::RGBA32UI,
        }
    }

    /// Encodes this value as the API expects it.
    pub fn to_gl_format(self) -> (r: u32)
        ensures
            r == self.code(),
    {
        match self {
            SizedFormat::R8 => codes::R8,
            SizedFormat::R8_SNORM => codes::R8_SNORM,
            SizedFormat::R16 => codes::R16,
            SizedFormat::R16_SNORM => codes::R16_SNORM,
            SizedFormat::RG8 => codes::RG8,
            SizedFormat::RG8_SNORM => codes::RG8_SNORM,
            SizedFormat::RG16 => codes::RG16,
            SizedFormat::RG16_SNORM => codes::RG16_SNORM,
            SizedFormat::R3_G3_B2 => codes::R3_G3_B2,
            SizedFormat::RGB4 => codes::RGB4,
            SizedFormat::RGB5 => codes::RGB5,
            SizedFormat::RGB8 => codes::RGB8,
            SizedFormat::RGB8_SNORM => codes::RGB8_SNORM,
            SizedFormat::RGB10 => codes::RGB10,
            SizedFormat::RGB12 => codes::RGB12,
            SizedFormat::RGB16_SNORM => codes::RGB16_SNORM,
            SizedFormat::RGBA2 => codes::RGBA2,
            SizedFormat::RGBA4 => codes::RGBA4,
            SizedFormat::RGB5_A1 => codes::RGB5_A1,
            SizedFormat::RGBA8 => codes::RGBA8,
            SizedFormat::RGBA8_SNORM => codes::RGBA8_SNORM,
            SizedFormat::RGB10_A2 => codes::RGB10_A2,
            SizedFormat::RGB10_A2UI => codes::RGB10_A2UI,
            SizedFormat::RGBA12 => codes::RGBA12,
            SizedFormat::RGBA16 => codes::RGBA16,
            SizedFormat::SRGB8 => codes::SRGB8,
            SizedFormat::SRGB8_ALPHA8 => codes::SRGB8_ALPHA8,
            SizedFormat::R16F => codes::R16F,
            SizedFormat::RG16F => codes::RG16F,
            SizedFormat::RGB16F => codes::RGB16F,
            SizedFormat::RGBA16F => codes::RGBA16F,
            SizedFormat::R32F => codes::R32F,
            SizedFormat::RG32F => codes::RG32F,
            SizedFormat::RGB32F => codes::RGB32F,
            SizedFormat::RGBA32F => codes::RGBA32F,
            SizedFormat::R11F_G11F_B10F => codes::R11F_G11F_B10F,
            SizedFormat::RGB9_E5 => codes::RGB9_E5,
            SizedFormat::R8I => codes::R8I,
            SizedFormat::R8UI => codes::R8UI,
            SizedFormat::R16I => codes::R16I,
            SizedFormat::R16UI => codes::R16UI,
            SizedFormat::R32I => codes::R32I,
            SizedFormat::R32UI => codes::R32UI,
            SizedFormat::RG8I => codes::RG8I,
            SizedFormat::RG8UI => codes::RG8UI,
            SizedFormat::RG16I => codes::RG16I,
            SizedFormat::RG16UI => codes::RG16UI,
            SizedFormat::RG32I => codes::RG32I,
            SizedFormat::RG32UI => codes::RG32UI,
            SizedFormat::RGB8I => codes::RGB8I,
            SizedFormat::RGB8UI => codes::RGB8UI,
            SizedFormat::RGB16I => codes::RGB16I,
            SizedFormat::RGB16UI => codes::RGB16UI,
            SizedFormat::RGB32I => codes::RGB32I,
            SizedFormat::RGB32UI => codes::RGB32UI,
            SizedFormat::RGBA8I => codes::RGBA8I,
            SizedFormat::RGBA8UI => codes::RGBA8UI,
            SizedFormat::RGBA16I => codes::RGBA16I,
            SizedFormat::RGBA16UI => codes::RGBA16UI,
            SizedFormat::RGBA32I => codes::RGBA32I,
            SizedFormat::RGBA32UI => codes::RGBA32UI,
        }
    }

    /// No two values share a code.
    pub proof fn lemma_code_injective()
        ensures
            forall|a: SizedFormat, b: SizedFormat| #[trigger] a.code() == #[trigger] b.code() ==> a == b,
    {
    }
}

/// Compressed internal format.
#[allow(non_camel_case_types)]
#[derive(Debug, Clone, Copy, PartialEq, Eq, Structural, PartialOrd, Ord, Hash)]
pub enum CompressedFormat {
    RED,
    RG,
    RGB,
    RGBA,
    SRGB,
    SRGB_ALPHA,
    RED_RGTC1,
    SIGNED_RED_RGTC1,
    RG_RGTC2,
    SIGNED_RG_RGTC2,
    RGBA_BPTC_UNORM,
    SRGB_ALPHA_BPTC_UNORM,
    RGB_BPTC_SIGNED_FLOAT,
    RGB_BPTC_UNSIGNED_FLOAT,
}

impl CompressedFormat {
    /// The numeric code of this value.
    pub open spec fn code(self) -> u32 {
        match self {
            CompressedFormat::RED => codes::COMPRESSED_RED,
            CompressedFormat::RG => codes::COMPRESSED_RG,
            CompressedFormat::RGB => codes::COMPRESSED_RGB,
            CompressedFormat::RGBA => codes::COMPRESSED_RGBA,
            CompressedFormat::SRGB => codes::COMPRESSED_SRGB,
            CompressedFormat::SRGB_ALPHA => codes::COMPRESSED_SRGB_ALPHA,
            CompressedFormat::RED_RGTC1 => codes::COMPRESSED_RED_RGTC1,
            CompressedFormat::SIGNED_RED_RGTC1 => codes::COMPRESSED_SIGNED_RED_RGTC1,
            CompressedFormat::RG_RGTC2 => codes::COMPRESSED_RG_RGTC2,
            CompressedFormat::SIGNED_RG_RGTC2 => codes::COMPRESSED_SIGNED_RG_RGTC2,
            CompressedFormat::RGBA_BPTC_UNORM => codes::COMPRESSED_RGBA_BPTC_UNORM,
            CompressedFormat::SRGB_ALPHA_BPTC_UNORM => codes::COMPRESSED_SRGB_ALPHA_BPTC_UNORM,
            CompressedFormat::RGB_BPTC_SIGNED_FLOAT => codes::COMPRESSED_RGB_BPTC_SIGNED_FLOAT,
            CompressedFormat::RGB_BPTC_UNSIGNED_FLOAT => codes::COMPRESSED_RGB_BPTC_UNSIGNED_FLOAT,
        }
    }

    /// Encodes this value as the API expects it.
    pub fn to_gl_format(self) -> (r: u32)
        ensures
            r == self.code(),
    {
        match self {
            CompressedFormat::RED => codes::COMPRESSED_RED,
            CompressedFormat::RG => codes::COMPRESSED_RG,
            CompressedFormat::RGB => codes::COMPRESSED_RGB,
            CompressedFormat::RGBA => codes::COMPRESSED_RGBA,
            CompressedFormat::SRGB => codes::COMPRESSED_SRGB,
            CompressedFormat::SRGB_ALPHA => codes::COMPRESSED_SRGB_ALPHA,
            CompressedFormat::RED_RGTC1 => codes::COMPRESSED_RED_RGTC1,
            CompressedFormat::SIGNED_RED_RGTC1 => codes::COMPRESSED_SIGNED_RED_RGTC1,
            CompressedFormat::RG_RGTC2 => codes::COMPRESSED_RG_RGTC2,
            CompressedFormat::SIGNED_RG_RGTC2 => codes::COMPRESSED_SIGNED_RG_RGTC2,
            CompressedFormat::RGBA_BPTC_UNORM => codes::COMPRESSED_RGBA_BPTC_UNORM,
            CompressedFormat::SRGB_ALPHA_BPTC_UNORM => codes::COMPRESSED_SRGB_ALPHA_BPTC_UNORM,
            CompressedFormat::RGB_BPTC_SIGNED_FLOAT => codes::COMPRESSED_RGB_BPTC_SIGNED_FLOAT,
            CompressedFormat::RGB_BPTC_UNSIGNED_FLOAT => codes::COMPRESSED_RGB_BPTC_UNSIGNED_FLOAT,
        }
    }

    /// No two values share a code.
    pub proof fn lemma_code_injective()
        ensures
            forall|a: CompressedFormat, b: CompressedFormat| #[trigger] a.code() == #[trigger] b.code() ==> a == b,
    {
    }
}

/// Encoding of each pixel component handed to an upload.
#[allow(non_camel_case_types)]
#[derive(Debug, Clone, Copy, PartialEq, Eq, Structural, PartialOrd, Ord, Hash)]
pub enum PixelDataType {
    u8,
    i8,
    u16,
    i16,
    u32,
    i32,
    Float,
    HalfFloat,
    u8_3_3_2,
    u8_2_3_3_REV,
    u16_5_6_5,
    u16_5_6_5_REV,
    u16_4_4_4_4,
    u16_4_4_4_4_REV,
    u16_5_5_5_1,
    u16_1_5_5_5_REV,
    u32_8_8_8_8,
    u32_8_8_8_8_REV,
    u32_10_10_10_2,
    u32_2_10_10_10_REV,
}

impl PixelDataType {
    /// The numeric code of this value.
    pub open spec fn code(self) -> u32 {
        match self {
            PixelDataType::u8 => codes::UNSIGNED_BYTE,
            PixelDataType::i8 => codes::BYTE,
            PixelDataType::u16 => codes::UNSIGNED_SHORT,
            PixelDataType::i16 => codes::SHORT,
            PixelDataType::u32 => codes::UNSIGNED_INT,
            PixelDataType::i32 => codes::INT,
            PixelDataType::Float => codes::FLOAT,
            PixelDataType::HalfFloat => codes::HALF_FLOAT,
            PixelDataType::u8_3_3_2 => codes::UNSIGNED_BYTE_3_3_2,
            PixelDataType::u8_2_3_3_REV => codes::UNSIGNED_BYTE_2_3_3_REV,
            PixelDataType::u16_5_6_5 => codes::UNSIGNED_SHORT_5_6_5,
            PixelDataType::u16_5_6_5_REV => codes::UNSIGNED_SHORT_5_6_5_REV,
            PixelDataType::u16_4_4_4_4 => codes::UNSIGNED_SHORT_4_4_4_4,
            PixelDataType::u16_4_4_4_4_REV => codes::UNSIGNED_SHORT_4_4_4_4_REV,
            PixelDataType::u16_5_5_5_1 => codes::UNSIGNED_SHORT_5_5_5_1,
            PixelDataType::u16_1_5_5_5_REV => codes::UNSIGNED_SHORT_1_5_5_5_REV,
            PixelDataType::u32_8_8_8_8 => codes::UNSIGNED_INT_8_8_8_8,
            PixelDataType::u32_8_8_8_8_REV => codes::UNSIGNED_INT_8_8_8_8_REV,
            PixelDataType::u32_10_10_10_2 => codes::UNSIGNED_INT_10_10_10_2,
            PixelDataType::u32_2_10_10_10_REV => codes::UNSIGNED_INT_2_10_10_10_REV,
        }
    }

    /// Encodes this value as the API expects it.
    pub fn to_gl_type(self) -> (r: u32)
        ensures
            r == self.code(),
    {
        match self {
            PixelDataType::u8 => codes::UNSIGNED_BYTE,
            PixelDataType::i8 => codes::BYTE,
            PixelDataType::u16 => codes::UNSIGNED_SHORT,
            PixelDataType::i16 => codes::SHORT,
            PixelDataType::u32 => codes::UNSIGNED_INT,
            PixelDataType::i32 => codes::INT,
            PixelDataType::Float => codes::FLOAT,
            PixelDataType::HalfFloat => codes::HALF_FLOAT,
            PixelDataType::u8_3_3_2 => codes::UNSIGNED_BYTE_3_3_2,
            PixelDataType::u8_2_3_3_REV => codes::UNSIGNED_BYTE_2_3_3_REV,
            PixelDataType::u16_5_6_5 => codes::UNSIGNED_SHORT_5_6_5,
            PixelDataType::u16_5_6_5_REV => codes::UNSIGNED_SHORT_5_6_5_REV,
            PixelDataType::u16_4_4_4_4 => codes::UNSIGNED_SHORT_4_4_4_4,
            PixelDataType::u16_4_4_4_4_REV => codes::UNSIGNED_SHORT_4_4_4_4_REV,
            PixelDataType::u16_5_5_5_1 => codes::UNSIGNED_SHORT_5_5_5_1,
            PixelDataType::u16_1_5_5_5_REV => codes::UNSIGNED_SHORT_1_5_5_5_REV,
            PixelDataType::u32_8_8_8_8 => codes::UNSIGNED_INT_8_8_8_8,
            PixelDataType::u32_8_8_8_8_REV => codes::UNSIGNED_INT_8_8_8_8_REV,
            PixelDataType::u32_10_10_10_2 => codes::UNSIGNED_INT_10_10_10_2,
            PixelDataType::u32_2_10_10_10_REV => codes::UNSIGNED_INT_2_10_10_10_REV,
        }
    }

    /// No two values share a code.
    pub proof fn lemma_code_injective()
        ensures
            forall|a: PixelDataType, b: PixelDataType| #[trigger] a.code() == #[trigger] b.code() ==> a == b,
    {
    }
}

/// Resampling filter of a framebuffer blit.
#[derive(Debug, Clone, Copy, PartialEq, Eq, Structural, PartialOrd, Ord, Hash)]
pub enum Filter {
    Nearest,
    Linear,
}

impl Filter {
    /// The numeric code of this value.
    pub open spec fn code(self) -> u32 {
        match self {
            Filter::Nearest => codes::NEAREST,
            Filter::Linear => codes::LINEAR,
        }
    }

    /// Encodes this value as the API expects it.
    pub fn to_gl_filter(self) -> (r: u32)
        ensures
            r == self.code(),
    {
        match self {
            Filter::Nearest => codes::NEAREST,
            Filter::Linear => codes::LINEAR,
        }
    }

    /// No two values share a code.
    pub proof fn lemma_code_injective()
        ensures
            forall|a: Filter, b: Filter| #[trigger] a.code() == #[trigger] b.code() ==> a == b,
    {
    }
}

/// Framebuffer binding point.
#[derive(Debug, Clone, Copy, PartialEq, Eq, Structural, PartialOrd, Ord, Hash)]
pub enum FrameBufferTarget {
    FrameBuffer,
    Read,
    Draw,
}

impl FrameBufferTarget {
    /// The numeric code of this value.
    pub open spec fn code(self) -> u32 {
        match self {
            FrameBufferTarget::FrameBuffer => codes::FRAMEBUFFER,
            FrameBufferTarget::Read => codes::READ_FRAMEBUFFER,
            FrameBufferTarget::Draw => codes::DRAW_FRAMEBUFFER,
        }
    }

    /// Encodes this value as the API expects it.
    pub fn to_gl_target(self) -> (r: u32)
        ensures
            r == self.code(),
    {
        match self {
            FrameBufferTarget::FrameBuffer => codes::FRAMEBUFFER,
            FrameBufferTarget::Read => codes::READ_FRAMEBUFFER,
            FrameBufferTarget::Draw => codes::DRAW_FRAMEBUFFER,
        }
    }

    /// No two values share a code.
    pub proof fn lemma_code_injective()
        ensures
            forall|a: FrameBufferTarget, b: FrameBufferTarget| #[trigger] a.code() == #[trigger] b.code() ==> a == b,
    {
    }
}

/// Attachment point of a framebuffer.
#[derive(Debug, Clone, Copy, PartialEq, Eq, Structural, PartialOrd, Ord, Hash)]
pub enum Attachment {
    Color0,
    Color1,
    Color2,
    Color3,
    Color4,
    Color5,
    Color6,
    Color7,
    Depth,
    Stencil,
    DepthStencil,
}

impl Attachment {
    /// The numeric code of this value.
    pub open spec fn code(self) -> u32 {
        match self {
            Attachment::Color0 => codes::COLOR_ATTACHMENT0,
            Attachment::Color1 => codes::COLOR_ATTACHMENT1,
            Attachment::Color2 => codes::COLOR_ATTACHMENT2,
            Attachment::Color3 => codes::COLOR_ATTACHMENT3,
            Attachment::Color4 => codes::COLOR_ATTACHMENT4,
            Attachment::Color5 => codes::COLOR_ATTACHMENT5,
            Attachment::Color6 => codes::COLOR_ATTACHMENT6,
            Attachment::Color7 => codes::COLOR_ATTACHMENT7,
            Attachment::Depth => codes::DEPTH_ATTACHMENT,
            Attachment::Stencil => codes::STENCIL_ATTACHMENT,
            Attachment::DepthStencil => codes::DEPTH_STENCIL_ATTACHMENT,
        }
    }

    /// Encodes this value as the API expects it.
    pub fn to_gl_attachment(self) -> (r: u32)
        ensures
            r == self.code(),
    {
        match self {
            Attachment::Color0 => codes::COLOR_ATTACHMENT0,
            Attachment::Color1 => codes::COLOR_ATTACHMENT1,
            Attachment::Color2 => codes::COLOR_ATTACHMENT2,
            Attachment::Color3 => codes::COLOR_ATTACHMENT3,
            Attachment::Color4 => codes::COLOR_ATTACHMENT4,
            Attachment::Color5 => codes::COLOR_ATTACHMENT5,
            Attachment::Color6 => codes::COLOR_ATTACHMENT6,
            Attachment::Color7 => codes::COLOR_ATTACHMENT7,
            Attachment::Depth => codes::DEPTH_ATTACHMENT,
            Attachment::Stencil => codes::STENCIL_ATTACHMENT,
            Attachment::DepthStencil => codes::DEPTH_STENCIL_ATTACHMENT,
        }
    }

    /// No two values share a code.
    pub proof fn lemma_code_injective()
        ensures
            forall|a: Attachment, b: Attachment| #[trigger] a.code() == #[trigger] b.code() ==> a == b,
    {
    }
}

/// Depth comparison function: the shared comparison enumeration.
pub type DepthFunc = CompareFunc;

/// Stencil comparison function: the shared comparison enumeration.
pub type StencilFunc = CompareFunc;

/// Bits that select the buffers a clear or a blit works on.
pub struct Mask;

impl Mask {
    pub const COLOR_BUFFER_BIT: u32 = codes::COLOR_BUFFER_BIT;
    pub const DEPTH_BUFFER_BIT: u32 = codes::DEPTH_BUFFER_BIT;
    pub const STENCIL_BUFFER_BIT: u32 = codes::STENCIL_BUFFER_BIT;
}

/// Internal format of a texture image: unsized, sized or compressed.
#[derive(Debug, Clone, Copy, PartialEq, Eq, Structural, PartialOrd, Ord, Hash)]
pub enum InternalFormat {
    Base(BaseFormat),
    Sized(SizedFormat),
    Compressed(CompressedFormat),
}

impl InternalFormat {
    /// The numeric code of the tagged format.
    pub open spec fn code(self) -> u32 {
        match self {
            InternalFormat::Base(f) => f.code(),
            InternalFormat::Sized(f) => f.code(),
            InternalFormat::Compressed(f) => f.code(),
        }
    }

    /// Resolves the tag, then encodes through that arm's own table.
    pub fn to_gl_format(self) -> (r: u32)
        ensures
            r == self.code(),
    {
        match self {
            InternalFormat::Base(f) => f.to_gl_format(),
            InternalFormat::Sized(f) => f.to_gl_format(),
            InternalFormat::Compressed(f) => f.to_gl_format(),
        }
    }

    /// No two formats share a code, across the three arms as within each.
    pub proof fn lemma_code_injective()
        ensures
            forall|a: InternalFormat, b: InternalFormat| #[trigger] a.code() == #[trigger] b.code() ==> a == b,
    {
        BaseFormat::lemma_code_injective();
        SizedFormat::lemma_code_injective();
        CompressedFormat::lemma_code_injective();
        assert forall|a: InternalFormat, b: InternalFormat| #[trigger] a.code() == #[trigger] b.code() implies a == b by {
            match a {
                InternalFormat::Base(x) => match b {
                    InternalFormat::Base(y) => {},
                    InternalFormat::Sized(y) => {},
                    InternalFormat::Compressed(y) => {},
                },
                InternalFormat::Sized(x) => match b {
                    InternalFormat::Base(y) => {},
                    InternalFormat::Sized(y) => {},
                    InternalFormat::Compressed(y) => {},
                },
                InternalFormat::Compressed(x) => match b {
                    InternalFormat::Base(y) => {},
                    InternalFormat::Sized(y) => {},
                    InternalFormat::Compressed(y) => {},
                },
            }
        }
    }
}


} // verus!
