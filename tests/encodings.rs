use glwrap::{Mode, Cap, Target, Usage, ShaderType, DepthMode, CompareFunc, CompareMode, MinFilter, MagFilter, Swizzle, Wrap, TexTarget, MinmapTarget, ImageTarget, ImageFormat, BaseFormat, SizedFormat, CompressedFormat, PixelDataType, Filter, FrameBufferTarget, Attachment, DepthFunc, InternalFormat, Mask, StencilFunc};

#[test]
fn encodes_mode() {
    let table = [
        (Mode::Points, gl::POINTS),
        (Mode::LineStrip, gl::LINE_STRIP),
        (Mode::LineLoop, gl::LINE_LOOP),
        (Mode::Lines, gl::LINES),
        (Mode::LineStripAdjacency, gl::LINE_STRIP_ADJACENCY),
        (Mode::LinesAdjacency, gl::LINES_ADJACENCY),
        (Mode::TriangleStrip, gl::TRIANGLE_STRIP),
        (Mode::TriangleFan, gl::TRIANGLE_FAN),
        (Mode::Triangles, gl::TRIANGLES),
        (Mode::TriangleStripAdjacency, gl::TRIANGLE_STRIP_ADJACENCY),
        (Mode::TrianglesAdjacency, gl::TRIANGLES_ADJACENCY),
        (Mode::Patches, gl::PATCHES),
    ];
    for (value, code) in table {
        assert_eq!(value.to_gl_mode(), code);
    }
    let mut codes: Vec<u32> = table.iter().map(|(v, _)| v.to_gl_mode()).collect();
    codes.sort();
    codes.dedup();
    assert_eq!(codes.len(), table.len());
}

#[test]
fn encodes_cap() {
    let table = [
        (Cap::Blend, gl::BLEND),
        (Cap::ClipDistance0, gl::CLIP_DISTANCE0),
        (Cap::ClipDistance1, gl::CLIP_DISTANCE1),
        (Cap::ClipDistance2, gl::CLIP_DISTANCE2),
        (Cap::ClipDistance3, gl::CLIP_DISTANCE3),
        (Cap::ClipDistance4, gl::CLIP_DISTANCE4),
        (Cap::ClipDistance5, gl::CLIP_DISTANCE5),
        (Cap::ClipDistance6, gl::CLIP_DISTANCE6),
        (Cap::ClipDistance7, gl::CLIP_DISTANCE7),
        (Cap::ColorLogicOp, gl::COLOR_LOGIC_OP),
        (Cap::CullFace, gl::CULL_FACE),
        (Cap::DebugOutput, gl::DEBUG_OUTPUT),
        (Cap::DebugOutputSynchronous, gl::DEBUG_OUTPUT_SYNCHRONOUS),
        (Cap::DepthClamp, gl::DEPTH_CLAMP),
        (Cap::DepthTest, gl::DEPTH_TEST),
        (Cap::Dither, gl::DITHER),
        (Cap::FramebufferSrgb, gl::FRAMEBUFFER_SRGB),
        (Cap::LineSmooth, gl::LINE_SMOOTH),
        (Cap::Multisample, gl::MULTISAMPLE),
        (Cap::PolygonOffsetFill, gl::POLYGON_OFFSET_FILL),
        (Cap::PolygonOffsetLine, gl::POLYGON_OFFSET_LINE),
        (Cap::PolygonOffsetPoint, gl::POLYGON_OFFSET_POINT),
        (Cap::PolygonSmooth, gl::POLYGON_SMOOTH),
        (Cap::PrimitiveRestart, gl::PRIMITIVE_RESTART),
        (Cap::PrimitiveRestartFixedIndex, gl::PRIMITIVE_RESTART_FIXED_INDEX),
        (Cap::RasterizerDiscard, gl::RASTERIZER_DISCARD),
        (Cap::SampleAlphaToCoverage, gl::SAMPLE_ALPHA_TO_COVERAGE),
        (Cap::SampleAlphaToOne, gl::SAMPLE_ALPHA_TO_ONE),
        (Cap::SampleCoverage, gl::SAMPLE_COVERAGE),
        (Cap::SampleShading, gl::SAMPLE_SHADING),
        (Cap::SampleMask, gl::SAMPLE_MASK),
        (Cap::ScissorTest, gl::SCISSOR_TEST),
        (Cap::StencilTest, gl::STENCIL_TEST),
        (Cap::TextureCubeMapSeamless, gl::TEXTURE_CUBE_MAP_SEAMLESS),
        (Cap::ProgramPointSize, gl::PROGRAM_POINT_SIZE),
    ];
    for (value, code) in table {
        assert_eq!(value.to_gl_cap(), code);
    }
    let mut codes: Vec<u32> = table.iter().map(|(v, _)| v.to_gl_cap()).collect();
    codes.sort();
    codes.dedup();
    assert_eq!(codes.len(), table.len());
}

#[test]
fn encodes_target() {
    let table = [
        (Target::Array, gl::ARRAY_BUFFER),
        (Target::AtomicCounter, gl::ATOMIC_COUNTER_BUFFER),
        (Target::CopyRead, gl::COPY_READ_BUFFER),
        (Target::CopyWrite, gl::COPY_WRITE_BUFFER),
        (Target::DispatchIndirect, gl::DISPATCH_INDIRECT_BUFFER),
        (Target::DrawIndirect, gl::DRAW_INDIRECT_BUFFER),
        (Target::ElementArray, gl::ELEMENT_ARRAY_BUFFER),
        (Target::PixelPack, gl::PIXEL_PACK_BUFFER),
        (Target::PixelUnpack, gl::PIXEL_UNPACK_BUFFER),
        (Target::Query, gl::QUERY_BUFFER),
        (Target::ShaderStorage, gl::SHADER_STORAGE_BUFFER),
        (Target::Texture, gl::TEXTURE_BUFFER),
        (Target::TransformFeedback, gl::TRANSFORM_FEEDBACK_BUFFER),
        (Target::Uniform, gl::UNIFORM_BUFFER),
    ];
    for (value, code) in table {
        assert_eq!(value.to_gl_target(), code);
    }
    let mut codes: Vec<u32> = table.iter().map(|(v, _)| v.to_gl_target()).collect();
    codes.sort();
    codes.dedup();
    assert_eq!(codes.len(), table.len());
}

#[test]
fn encodes_usage() {
    let table = [
        (Usage::StaticDraw, gl::STATIC_DRAW),
        (Usage::StaticRead, gl::STATIC_READ),
        (Usage::StaticCopy, gl::STATIC_COPY),
        (Usage::StreamDraw, gl::STREAM_DRAW),
        (Usage::StreamRead, gl::STREAM_READ),
        (Usage::StreamCopy, gl::STREAM_COPY),
        (Usage::DynamicDraw, gl::DYNAMIC_DRAW),
        (Usage::DynamicRead, gl::DYNAMIC_READ),
        (Usage::DynamicCopy, gl::DYNAMIC_COPY),
    ];
    for (value, code) in table {
        assert_eq!(value.to_gl_usage(), code);
    }
    let mut codes: Vec<u32> = table.iter().map(|(v, _)| v.to_gl_usage()).collect();
    codes.sort();
    codes.dedup();
    assert_eq!(codes.len(), table.len());
}

#[test]
fn encodes_shader_type() {
    let table = [
        (ShaderType::Vertex, gl::VERTEX_SHADER),
        (ShaderType::Fragmet, gl::FRAGMENT_SHADER),
        (ShaderType::Geometry, gl::GEOMETRY_SHADER),
        (ShaderType::TessControl, gl::TESS_CONTROL_SHADER),
        (ShaderType::TessEvaluation, gl::TESS_EVALUATION_SHADER),
        (ShaderType::Compute, gl::COMPUTE_SHADER),
    ];
    for (value, code) in table {
        assert_eq!(value.to_gl_type(), code);
    }
    let mut codes: Vec<u32> = table.iter().map(|(v, _)| v.to_gl_type()).collect();
    codes.sort();
    codes.dedup();
    assert_eq!(codes.len(), table.len());
}

#[test]
fn encodes_depth_mode() {
    let table = [
        (DepthMode::Component, gl::DEPTH_COMPONENT),
        (DepthMode::Index, gl::STENCIL_INDEX),
    ];
    for (value, code) in table {
        assert_eq!(value.to_gl_mode(), code);
    }
    let mut codes: Vec<u32> = table.iter().map(|(v, _)| v.to_gl_mode()).collect();
    codes.sort();
    codes.dedup();
    assert_eq!(codes.len(), table.len());
}

#[test]
fn encodes_compare_func() {
    let table = [
        (CompareFunc::LessEqual, gl::LEQUAL),
        (CompareFunc::GreaterEqual, gl::GEQUAL),
        (CompareFunc::Less, gl::LESS),
        (CompareFunc::Greater, gl::GREATER),
        (CompareFunc::Equal, gl::EQUAL),
        (CompareFunc::NotEqual, gl::NOTEQUAL),
        (CompareFunc::Always, gl::ALWAYS),
        (CompareFunc::Never, gl::NEVER),
    ];
    for (value, code) in table {
        assert_eq!(value.to_gl_func(), code);
    }
    let mut codes: Vec<u32> = table.iter().map(|(v, _)| v.to_gl_func()).collect();
    codes.sort();
    codes.dedup();
    assert_eq!(codes.len(), table.len());
}

#[test]
fn encodes_compare_mode() {
    let table = [
        (CompareMode::CompareRefToTexture, gl::COMPARE_REF_TO_TEXTURE),
        (CompareMode::NoCompare, gl::NONE),
    ];
    for (value, code) in table {
        assert_eq!(value.to_gl_mode(), code);
    }
    let mut codes: Vec<u32> = table.iter().map(|(v, _)| v.to_gl_mode()).collect();
    codes.sort();
    codes.dedup();
    assert_eq!(codes.len(), table.len());
}

#[test]
fn encodes_min_filter() {
    let table = [
        (MinFilter::Nearest, gl::NEAREST),
        (MinFilter::Linear, gl::LINEAR),
        (MinFilter::NearestMipmapNearest, gl::NEAREST_MIPMAP_NEAREST),
        (MinFilter::LinearMipmapNearest, gl::LINEAR_MIPMAP_NEAREST),
        (MinFilter::NearestMipmapLinear, gl::NEAREST_MIPMAP_LINEAR),
        (MinFilter::LinearMipmapLinear, gl::LINEAR_MIPMAP_LINEAR),
    ];
    for (value, code) in table {
        assert_eq!(value.to_gl_filter(), code);
    }
    let mut codes: Vec<u32> = table.iter().map(|(v, _)| v.to_gl_filter()).collect();
    codes.sort();
    codes.dedup();
    assert_eq!(codes.len(), table.len());
}

#[test]
fn encodes_mag_filter() {
    let table = [
        (MagFilter::Nearest, gl::NEAREST),
        (MagFilter::Linear, gl::LINEAR),
    ];
    for (value, code) in table {
        assert_eq!(value.to_gl_filter(), code);
    }
    let mut codes: Vec<u32> = table.iter().map(|(v, _)| v.to_gl_filter()).collect();
    codes.sort();
    codes.dedup();
    assert_eq!(codes.len(), table.len());
}

#[test]
fn encodes_swizzle() {
    let table = [
        (Swizzle::Red, gl::RED),
        (Swizzle::Green, gl::GREEN),
        (Swizzle::Blue, gl::BLUE),
        (Swizzle::Alpha, gl::ALPHA),
        (Swizzle::Zero, gl::ZERO),
        (Swizzle::One, gl::ONE),
    ];
    for (value, code) in table {
        assert_eq!(value.to_gl_swizzle(), code);
    }
    let mut codes: Vec<u32> = table.iter().map(|(v, _)| v.to_gl_swizzle()).collect();
    codes.sort();
    codes.dedup();
    assert_eq!(codes.len(), table.len());
}

#[test]
fn encodes_wrap() {
    let table = [
        (Wrap::ClampToEdge, gl::CLAMP_TO_EDGE),
        (Wrap::ClampToBorder, gl::CLAMP_TO_BORDER),
        (Wrap::MirroredRepeat, gl::MIRRORED_REPEAT),
        (Wrap::Repeat, gl::REPEAT),
        (Wrap::MirrorClampToEdge, gl::MIRROR_CLAMP_TO_EDGE),
    ];
    for (value, code) in table {
        assert_eq!(value.to_gl_wrap(), code);
    }
    let mut codes: Vec<u32> = table.iter().map(|(v, _)| v.to_gl_wrap()).collect();
    codes.sort();
    codes.dedup();
    assert_eq!(codes.len(), table.len());
}

#[test]
fn encodes_tex_target() {
    let table = [
        (TexTarget::Tex1D, gl::TEXTURE_1D),
        (TexTarget::Tex2D, gl::TEXTURE_2D),
        (TexTarget::Tex3D, gl::TEXTURE_3D),
        (TexTarget::Tex1DArray, gl::TEXTURE_1D_ARRAY),
        (TexTarget::Tex2DArray, gl::TEXTURE_2D_ARRAY),
        (TexTarget::TexRectangle, gl::TEXTURE_RECTANGLE),
        (TexTarget::TexCubeMap, gl::TEXTURE_CUBE_MAP),
        (TexTarget::TexCubeMapArray, gl::TEXTURE_CUBE_MAP_ARRAY),
        (TexTarget::TexBuffer, gl::TEXTURE_BUFFER),
        (TexTarget::Tex2DMultisample, gl::TEXTURE_2D_MULTISAMPLE),
        (TexTarget::Tex2DMultisampleArray, gl::TEXTURE_2D_MULTISAMPLE_ARRAY),
    ];
    for (value, code) in table {
        assert_eq!(value.to_gl_target(), code);
    }
    let mut codes: Vec<u32> = table.iter().map(|(v, _)| v.to_gl_target()).collect();
    codes.sort();
    codes.dedup();
    assert_eq!(codes.len(), table.len());
}

#[test]
fn encodes_minmap_target() {
    let table = [
        (MinmapTarget::Tex1D, gl::TEXTURE_1D),
        (MinmapTarget::Tex2D, gl::TEXTURE_2D),
        (MinmapTarget::Tex3D, gl::TEXTURE_3D),
        (MinmapTarget::Tex1DArray, gl::TEXTURE_1D_ARRAY),
        (MinmapTarget::Tex2DArray, gl::TEXTURE_2D_ARRAY),
        (MinmapTarget::TexCubeMap, gl::TEXTURE_CUBE_MAP),
        (MinmapTarget::TexCubeMapArray, gl::TEXTURE_CUBE_MAP_ARRAY),
    ];
    for (value, code) in table {
        assert_eq!(value.to_gl_target(), code);
    }
    let mut codes: Vec<u32> = table.iter().map(|(v, _)| v.to_gl_target()).collect();
    codes.sort();
    codes.dedup();
    assert_eq!(codes.len(), table.len());
}

#[test]
fn encodes_image_target() {
    let table = [
        (ImageTarget::Texture2d, gl::TEXTURE_2D),
        (ImageTarget::ProxyTexture2d, gl::PROXY_TEXTURE_2D),
        (ImageTarget::Texture1dArray, gl::TEXTURE_1D_ARRAY),
        (ImageTarget::ProxyTexture1dArray, gl::PROXY_TEXTURE_1D_ARRAY),
        (ImageTarget::TextureRectangle, gl::TEXTURE_RECTANGLE),
        (ImageTarget::ProxyTextureRectangle, gl::PROXY_TEXTURE_RECTANGLE),
        (ImageTarget::TextureCubeMapPositiveX, gl::TEXTURE_CUBE_MAP_POSITIVE_X),
        (ImageTarget::TextureCubeMapNegativeX, gl::TEXTURE_CUBE_MAP_NEGATIVE_X),
        (ImageTarget::TextureCubeMapPositiveY, gl::TEXTURE_CUBE_MAP_POSITIVE_Y),
        (ImageTarget::TextureCubeMapNegativeY, gl::TEXTURE_CUBE_MAP_NEGATIVE_Y),
        (ImageTarget::TextureCubeMapPositiveZ, gl::TEXTURE_CUBE_MAP_POSITIVE_Z),
        (ImageTarget::TextureCubeMapNegativeZ, gl::TEXTURE_CUBE_MAP_NEGATIVE_Z),
        (ImageTarget::ProxyTextureCubeMap, gl::PROXY_TEXTURE_CUBE_MAP),
    ];
    for (value, code) in table {
        assert_eq!(value.to_gl_target(), code);
    }
    let mut codes: Vec<u32> = table.iter().map(|(v, _)| v.to_gl_target()).collect();
    codes.sort();
    codes.dedup();
    assert_eq!(codes.len(), table.len());
}

#[test]
fn encodes_image_format() {
    let table = [
        (ImageFormat::Red, gl::RED),
        (ImageFormat::RG, gl::RG),
        (ImageFormat::RGB, gl::RGB),
        (ImageFormat::BGR, gl::BGR),
        (ImageFormat::RGBA, gl::RGBA),
        (ImageFormat::BGRA, gl::BGRA),
        (ImageFormat::DepthComponent, gl::DEPTH_COMPONENT),
        (ImageFormat::DepthStencil, gl::DEPTH_STENCIL),
    ];
    for (value, code) in table {
        assert_eq!(value.to_gl_format(), code);
    }
    let mut codes: Vec<u32> = table.iter().map(|(v, _)| v.to_gl_format()).collect();
    codes.sort();
    codes.dedup();
    assert_eq!(codes.len(), table.len());
}

#[test]
fn encodes_base_format() {
    let table = [
        (BaseFormat::Red, gl::RED),
        (BaseFormat::RG, gl::RG),
        (BaseFormat::RGB, gl::RGB),
        (BaseFormat::RGBA, gl::RGBA),
        (BaseFormat::DepthComponent, gl::DEPTH_COMPONENT),
        (BaseFormat::DepthStencil, gl::DEPTH_STENCIL),
    ];
    for (value, code) in table {
        assert_eq!(value.to_gl_format(), code);
    }
    let mut codes: Vec<u32> = table.iter().map(|(v, _)| v.to_gl_format()).collect();
    codes.sort();
    codes.dedup();
    assert_eq!(codes.len(), table.len());
}

#[test]
fn encodes_sized_format() {
    let table = [
        (SizedFormat::R8, gl::R8),
        (SizedFormat::R8_SNORM, gl::R8_SNORM),
        (SizedFormat::R16, gl::R16),
        (SizedFormat::R16_SNORM, gl::R16_SNORM),
        (SizedFormat::RG8, gl::RG8),
        (SizedFormat::RG8_SNORM, gl::RG8_SNORM),
        (SizedFormat::RG16, gl::RG16),
        (SizedFormat::RG16_SNORM, gl::RG16_SNORM),
        (SizedFormat::R3_G3_B2, gl::R3_G3_B2),
        (SizedFormat::RGB4, gl::RGB4),
        (SizedFormat::RGB5, gl::RGB5),
        (SizedFormat::RGB8, gl::RGB8),
        (SizedFormat::RGB8_SNORM, gl::RGB8_SNORM),
        (SizedFormat::RGB10, gl::RGB10),
        (SizedFormat::RGB12, gl::RGB12),
        (SizedFormat::RGB16_SNORM, gl::RGB16_SNORM),
        (SizedFormat::RGBA2, gl::RGBA2),
        (SizedFormat::RGBA4, gl::RGBA4),
        (SizedFormat::RGB5_A1, gl::RGB5_A1),
        (SizedFormat::RGBA8, gl::RGBA8),
        (SizedFormat::RGBA8_SNORM, gl::RGBA8_SNORM),
        (SizedFormat::RGB10_A2, gl::RGB10_A2),
        (SizedFormat::RGB10_A2UI, gl::RGB10_A2UI),
        (SizedFormat::RGBA12, gl::RGBA12),
        (SizedFormat::RGBA16, gl::RGBA16),
        (SizedFormat::SRGB8, gl::SRGB8),
        (SizedFormat::SRGB8_ALPHA8, gl::SRGB8_ALPHA8),
        (SizedFormat::R16F, gl::R16F),
        (SizedFormat::RG16F, gl::RG16F),
        (SizedFormat::RGB16F, gl::RGB16F),
        (SizedFormat::RGBA16F, gl::RGBA16F),
        (SizedFormat::R32F, gl::R32F),
        (SizedFormat::RG32F, gl::RG32F),
        (SizedFormat::RGB32F, gl::RGB32F),
        (SizedFormat::RGBA32F, gl::RGBA32F),
        (SizedFormat::R11F_G11F_B10F, gl::R11F_G11F_B10F),
        (SizedFormat::RGB9_E5, gl::RGB9_E5),
        (SizedFormat::R8I, gl::R8I),
        (SizedFormat::R8UI, gl::R8UI),
        (SizedFormat::R16I, gl::R16I),
        (SizedFormat::R16UI, gl::R16UI),
        (SizedFormat::R32I, gl::R32I),
        (SizedFormat::R32UI, gl::R32UI),
        (SizedFormat::RG8I, gl::RG8I),
        (SizedFormat::RG8UI, gl::RG8UI),
        (SizedFormat::RG16I, gl::RG16I),
        (SizedFormat::RG16UI, gl::RG16UI),
        (SizedFormat::RG32I, gl::RG32I),
        (SizedFormat::RG32UI, gl::RG32UI),
        (SizedFormat::RGB8I, gl::RGB8I),
        (SizedFormat::RGB8UI, gl::RGB8UI),
        (SizedFormat::RGB16I, gl::RGB16I),
        (SizedFormat::RGB16UI, gl::RGB16UI),
        (SizedFormat::RGB32I, gl::RGB32I),
        (SizedFormat::RGB32UI, gl::RGB32UI),
        (SizedFormat::RGBA8I, gl::RGBA8I),
        (SizedFormat::RGBA8UI, gl::RGBA8UI),
        (SizedFormat::RGBA16I, gl::RGBA16I),
        (SizedFormat::RGBA16UI, gl::RGBA16UI),
        (SizedFormat::RGBA32I, gl::RGBA32I),
        (SizedFormat::RGBA32UI, gl::RGBA32UI),
    ];
    for (value, code) in table {
        assert_eq!(value.to_gl_format(), code);
    }
    let mut codes: Vec<u32> = table.iter().map(|(v, _)| v.to_gl_format()).collect();
    codes.sort();
    codes.dedup();
    assert_eq!(codes.len(), table.len());
}

#[test]
fn encodes_compressed_format() {
    let table = [
        (CompressedFormat::RED, gl::COMPRESSED_RED),
        (CompressedFormat::RG, gl::COMPRESSED_RG),
        (CompressedFormat::RGB, gl::COMPRESSED_RGB),
        (CompressedFormat::RGBA, gl::COMPRESSED_RGBA),
        (CompressedFormat::SRGB, gl::COMPRESSED_SRGB),
        (CompressedFormat::SRGB_ALPHA, gl::COMPRESSED_SRGB_ALPHA),
        (CompressedFormat::RED_RGTC1, gl::COMPRESSED_RED_RGTC1),
        (CompressedFormat::SIGNED_RED_RGTC1, gl::COMPRESSED_SIGNED_RED_RGTC1),
        (CompressedFormat::RG_RGTC2, gl::COMPRESSED_RG_RGTC2),
        (CompressedFormat::SIGNED_RG_RGTC2, gl::COMPRESSED_SIGNED_RG_RGTC2),
        (CompressedFormat::RGBA_BPTC_UNORM, gl::COMPRESSED_RGBA_BPTC_UNORM),
        (CompressedFormat::SRGB_ALPHA_BPTC_UNORM, gl::COMPRESSED_SRGB_ALPHA_BPTC_UNORM),
        (CompressedFormat::RGB_BPTC_SIGNED_FLOAT, gl::COMPRESSED_RGB_BPTC_SIGNED_FLOAT),
        (CompressedFormat::RGB_BPTC_UNSIGNED_FLOAT, gl::COMPRESSED_RGB_BPTC_UNSIGNED_FLOAT),
    ];
    for (value, code) in table {
        assert_eq!(value.to_gl_format(), code);
    }
    let mut codes: Vec<u32> = table.iter().map(|(v, _)| v.to_gl_format()).collect();
    codes.sort();
    codes.dedup();
    assert_eq!(codes.len(), table.len());
}

#[test]
fn encodes_pixel_data_type() {
    let table = [
        (PixelDataType::u8, gl::UNSIGNED_BYTE),
        (PixelDataType::i8, gl::BYTE),
        (PixelDataType::u16, gl::UNSIGNED_SHORT),
        (PixelDataType::i16, gl::SHORT),
        (PixelDataType::u32, gl::UNSIGNED_INT),
        (PixelDataType::i32, gl::INT),
        (PixelDataType::Float, gl::FLOAT),
        (PixelDataType::HalfFloat, gl::HALF_FLOAT),
        (PixelDataType::u8_3_3_2, gl::UNSIGNED_BYTE_3_3_2),
        (PixelDataType::u8_2_3_3_REV, gl::UNSIGNED_BYTE_2_3_3_REV),
        (PixelDataType::u16_5_6_5, gl::UNSIGNED_SHORT_5_6_5),
        (PixelDataType::u16_5_6_5_REV, gl::UNSIGNED_SHORT_5_6_5_REV),
        (PixelDataType::u16_4_4_4_4, gl::UNSIGNED_SHORT_4_4_4_4),
        (PixelDataType::u16_4_4_4_4_REV, gl::UNSIGNED_SHORT_4_4_4_4_REV),
        (PixelDataType::u16_5_5_5_1, gl::UNSIGNED_SHORT_5_5_5_1),
        (PixelDataType::u16_1_5_5_5_REV, gl::UNSIGNED_SHORT_1_5_5_5_REV),
        (PixelDataType::u32_8_8_8_8, gl::UNSIGNED_INT_8_8_8_8),
        (PixelDataType::u32_8_8_8_8_REV, gl::UNSIGNED_INT_8_8_8_8_REV),
        (PixelDataType::u32_10_10_10_2, gl::UNSIGNED_INT_10_10_10_2),
        (PixelDataType::u32_2_10_10_10_REV, gl::UNSIGNED_INT_2_10_10_10_REV),
    ];
    for (value, code) in table {
        assert_eq!(value.to_gl_type(), code);
    }
    let mut codes: Vec<u32> = table.iter().map(|(v, _)| v.to_gl_type()).collect();
    codes.sort();
    codes.dedup();
    assert_eq!(codes.len(), table.len());
}

#[test]
fn encodes_filter() {
    let table = [
        (Filter::Nearest, gl::NEAREST),
        (Filter::Linear, gl::LINEAR),
    ];
    for (value, code) in table {
        assert_eq!(value.to_gl_filter(), code);
    }
    let mut codes: Vec<u32> = table.iter().map(|(v, _)| v.to_gl_filter()).collect();
    codes.sort();
    codes.dedup();
    assert_eq!(codes.len(), table.len());
}

#[test]
fn encodes_frame_buffer_target() {
    let table = [
        (FrameBufferTarget::FrameBuffer, gl::FRAMEBUFFER),
        (FrameBufferTarget::Read, gl::READ_FRAMEBUFFER),
        (FrameBufferTarget::Draw, gl::DRAW_FRAMEBUFFER),
    ];
    for (value, code) in table {
        assert_eq!(value.to_gl_target(), code);
    }
    let mut codes: Vec<u32> = table.iter().map(|(v, _)| v.to_gl_target()).collect();
    codes.sort();
    codes.dedup();
    assert_eq!(codes.len(), table.len());
}

#[test]
fn encodes_attachment() {
    let table = [
        (Attachment::Color0, gl::COLOR_ATTACHMENT0),
        (Attachment::Color1, gl::COLOR_ATTACHMENT1),
        (Attachment::Color2, gl::COLOR_ATTACHMENT2),
        (Attachment::Color3, gl::COLOR_ATTACHMENT3),
        (Attachment::Color4, gl::COLOR_ATTACHMENT4),
        (Attachment::Color5, gl::COLOR_ATTACHMENT5),
        (Attachment::Color6, gl::COLOR_ATTACHMENT6),
        (Attachment::Color7, gl::COLOR_ATTACHMENT7),
        (Attachment::Depth, gl::DEPTH_ATTACHMENT),
        (Attachment::Stencil, gl::STENCIL_ATTACHMENT),
        (Attachment::DepthStencil, gl::DEPTH_STENCIL_ATTACHMENT),
    ];
    for (value, code) in table {
        assert_eq!(value.to_gl_attachment(), code);
    }
    let mut codes: Vec<u32> = table.iter().map(|(v, _)| v.to_gl_attachment()).collect();
    codes.sort();
    codes.dedup();
    assert_eq!(codes.len(), table.len());
}
#[test]
fn encodes_internal_format_through_its_arm() {
    assert_eq!(InternalFormat::Base(BaseFormat::RGBA).to_gl_format(), gl::RGBA);
    assert_eq!(InternalFormat::Sized(SizedFormat::RGBA8).to_gl_format(), gl::RGBA8);
    assert_eq!(
        InternalFormat::Compressed(CompressedFormat::RGBA).to_gl_format(),
        gl::COMPRESSED_RGBA
    );
    assert_eq!(InternalFormat::Base(BaseFormat::Red).to_gl_format(), gl::RED);
    assert_eq!(InternalFormat::Compressed(CompressedFormat::RED).to_gl_format(), gl::COMPRESSED_RED);
}

#[test]
fn mask_bits_match_the_api() {
    assert_eq!(Mask::COLOR_BUFFER_BIT, gl::COLOR_BUFFER_BIT);
    assert_eq!(Mask::DEPTH_BUFFER_BIT, gl::DEPTH_BUFFER_BIT);
    assert_eq!(Mask::STENCIL_BUFFER_BIT, gl::STENCIL_BUFFER_BIT);
}

#[test]
fn depth_and_stencil_less_equal_share_a_code() {
    let depth: DepthFunc = DepthFunc::LessEqual;
    let stencil: StencilFunc = StencilFunc::LessEqual;
    assert_eq!(depth.to_gl_func(), stencil.to_gl_func());
    assert_eq!(depth.to_gl_func(), gl::LEQUAL);
}

#[test]
fn array_targets_are_distinct() {
    assert_eq!(TexTarget::Tex2DArray.to_gl_target(), gl::TEXTURE_2D_ARRAY);
    assert_ne!(TexTarget::Tex2DArray.to_gl_target(), TexTarget::Tex1DArray.to_gl_target());
    assert_eq!(MinmapTarget::Tex2DArray.to_gl_target(), gl::TEXTURE_2D_ARRAY);
}
