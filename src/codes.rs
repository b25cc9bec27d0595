//! Numeric codes of the graphics API, as its registry defines them.

use vstd::prelude::*;

verus! {

pub const POINTS: u32 = 0x0000;
pub const LINE_STRIP: u32 = 0x0003;
pub const LINE_LOOP: u32 = 0x0002;
pub const LINES: u32 = 0x0001;
pub const LINE_STRIP_ADJACENCY: u32 = 0x000B;
pub const LINES_ADJACENCY: u32 = 0x000A;
pub const TRIANGLE_STRIP: u32 = 0x0005;
pub const TRIANGLE_FAN: u32 = 0x0006;
pub const TRIANGLES: u32 = 0x0004;
pub const TRIANGLE_STRIP_ADJACENCY: u32 = 0x000D;
pub const TRIANGLES_ADJACENCY: u32 = 0x000C;
pub const PATCHES: u32 = 0x000E;
pub const BLEND: u32 = 0x0BE2;
pub const CLIP_DISTANCE0: u32 = 0x3000;
pub const CLIP_DISTANCE1: u32 = 0x3001;
pub const CLIP_DISTANCE2: u32 = 0x3002;
pub const CLIP_DISTANCE3: u32 = 0x3003;
pub const CLIP_DISTANCE4: u32 = 0x3004;
pub const CLIP_DISTANCE5: u32 = 0x3005;
pub const CLIP_DISTANCE6: u32 = 0x3006;
pub const CLIP_DISTANCE7: u32 = 0x3007;
pub const COLOR_LOGIC_OP: u32 = 0x0BF2;
pub const CULL_FACE: u32 = 0x0B44;
pub const DEBUG_OUTPUT: u32 = 0x92E0;
pub const DEBUG_OUTPUT_SYNCHRONOUS: u32 = 0x8242;
pub const DEPTH_CLAMP: u32 = 0x864F;
pub const DEPTH_TEST: u32 = 0x0B71;
pub const DITHER: u32 = 0x0BD0;
pub const FRAMEBUFFER_SRGB: u32 = 0x8DB9;
pub const LINE_SMOOTH: u32 = 0x0B20;
pub const MULTISAMPLE: u32 = 0x809D;
pub const POLYGON_OFFSET_FILL: u32 = 0x8037;
pub const POLYGON_OFFSET_LINE: u32 = 0x2A02;
pub const POLYGON_OFFSET_POINT: u32 = 0x2A01;
pub const POLYGON_SMOOTH: u32 = 0x0B41;
pub const PRIMITIVE_RESTART: u32 = 0x8F9D;
pub const PRIMITIVE_RESTART_FIXED_INDEX: u32 = 0x8D69;
pub const RASTERIZER_DISCARD: u32 = 0x8C89;
pub const SAMPLE_ALPHA_TO_COVERAGE: u32 = 0x809E;
pub const SAMPLE_ALPHA_TO_ONE: u32 = 0x809F;
pub const SAMPLE_COVERAGE: u32 = 0x80A0;
pub const SAMPLE_SHADING: u32 = 0x8C36;
pub const SAMPLE_MASK: u32 = 0x8E51;
pub const SCISSOR_TEST: u32 = 0x0C11;
pub const STENCIL_TEST: u32 = 0x0B90;
pub const TEXTURE_CUBE_MAP_SEAMLESS: u32 = 0x884F;
pub const PROGRAM_POINT_SIZE: u32 = 0x8642;
pub const ARRAY_BUFFER: u32 = 0x8892;
pub const ATOMIC_COUNTER_BUFFER: u32 = 0x92C0;
pub const COPY_READ_BUFFER: u32 = 0x8F36;
pub const COPY_WRITE_BUFFER: u32 = 0x8F37;
pub const DISPATCH_INDIRECT_BUFFER: u32 = 0x90EE;
pub const DRAW_INDIRECT_BUFFER: u32 = 0x8F3F;
pub const ELEMENT_ARRAY_BUFFER: u32 = 0x8893;
pub const PIXEL_PACK_BUFFER: u32 = 0x88EB;
pub const PIXEL_UNPACK_BUFFER: u32 = 0x88EC;
pub const QUERY_BUFFER: u32 = 0x9192;
pub const SHADER_STORAGE_BUFFER: u32 = 0x90D2;
pub const TEXTURE_BUFFER: u32 = 0x8C2A;
pub const TRANSFORM_FEEDBACK_BUFFER: u32 = 0x8C8E;
pub const UNIFORM_BUFFER: u32 = 0x8A11;
pub const STATIC_DRAW: u32 = 0x88E4;
pub const STATIC_READ: u32 = 0x88E5;
pub const STATIC_COPY: u32 = 0x88E6;
pub const STREAM_DRAW: u32 = 0x88E0;
pub const STREAM_READ: u32 = 0x88E1;
pub const STREAM_COPY: u32 = 0x88E2;
pub const DYNAMIC_DRAW: u32 = 0x88E8;
pub const DYNAMIC_READ: u32 = 0x88E9;
pub const DYNAMIC_COPY: u32 = 0x88EA;
pub const VERTEX_SHADER: u32 = 0x8B31;
pub const FRAGMENT_SHADER: u32 = 0x8B30;
pub const GEOMETRY_SHADER: u32 = 0x8DD9;
pub const TESS_CONTROL_SHADER: u32 = 0x8E88;
pub const TESS_EVALUATION_SHADER: u32 = 0x8E87;
pub const COMPUTE_SHADER: u32 = 0x91B9;
pub const DEPTH_COMPONENT: u32 = 0x1902;
pub const STENCIL_INDEX: u32 = 0x1901;
pub const LEQUAL: u32 = 0x0203;
pub const GEQUAL: u32 = 0x0206;
pub const LESS: u32 = 0x0201;
pub const GREATER: u32 = 0x0204;
pub const EQUAL: u32 = 0x0202;
pub const NOTEQUAL: u32 = 0x0205;
pub const ALWAYS: u32 = 0x0207;
pub const NEVER: u32 = 0x0200;
pub const COMPARE_REF_TO_TEXTURE: u32 = 0x884E;
pub const NONE: u32 = 0x0000;
pub const NEAREST: u32 = 0x2600;
pub const LINEAR: u32 = 0x2601;
pub const NEAREST_MIPMAP_NEAREST: u32 = 0x2700;
pub const LINEAR_MIPMAP_NEAREST: u32 = 0x2701;
pub const NEAREST_MIPMAP_LINEAR: u32 = 0x2702;
pub const LINEAR_MIPMAP_LINEAR: u32 = 0x2703;
pub const RED: u32 = 0x1903;
pub const GREEN: u32 = 0x1904;
pub const BLUE: u32 = 0x1905;
pub const ALPHA: u32 = 0x1906;
pub const ZERO: u32 = 0x0000;
pub const ONE: u32 = 0x0001;
pub const CLAMP_TO_EDGE: u32 = 0x812F;
pub const CLAMP_TO_BORDER: u32 = 0x812D;
pub const MIRRORED_REPEAT: u32 = 0x8370;
pub const REPEAT: u32 = 0x2901;
pub const MIRROR_CLAMP_TO_EDGE: u32 = 0x8743;
pub const TEXTURE_1D: u32 = 0x0DE0;
pub const TEXTURE_2D: u32 = 0x0DE1;
pub const TEXTURE_3D: u32 = 0x806F;
pub const TEXTURE_1D_ARRAY: u32 = 0x8C18;
pub const TEXTURE_2D_ARRAY: u32 = 0x8C1A;
pub const TEXTURE_RECTANGLE: u32 = 0x84F5;
pub const TEXTURE_CUBE_MAP: u32 = 0x8513;
pub const TEXTURE_CUBE_MAP_ARRAY: u32 = 0x9009;
pub const TEXTURE_2D_MULTISAMPLE: u32 = 0x9100;
pub const TEXTURE_2D_MULTISAMPLE_ARRAY: u32 = 0x9102;
pub const PROXY_TEXTURE_2D: u32 = 0x8064;
pub const PROXY_TEXTURE_1D_ARRAY: u32 = 0x8C19;
pub const PROXY_TEXTURE_RECTANGLE: u32 = 0x84F7;
pub const TEXTURE_CUBE_MAP_POSITIVE_X: u32 = 0x8515;
pub const TEXTURE_CUBE_MAP_NEGATIVE_X: u32 = 0x8516;
pub const TEXTURE_CUBE_MAP_POSITIVE_Y: u32 = 0x8517;
pub const TEXTURE_CUBE_MAP_NEGATIVE_Y: u32 = 0x8518;
pub const TEXTURE_CUBE_MAP_POSITIVE_Z: u32 = 0x8519;
pub const TEXTURE_CUBE_MAP_NEGATIVE_Z: u32 = 0x851A;
pub const PROXY_TEXTURE_CUBE_MAP: u32 = 0x851B;
pub const RG: u32 = 0x8227;
pub const RGB: u32 = 0x1907;
pub const BGR: u32 = 0x80E0;
pub const RGBA: u32 = 0x1908;
pub const BGRA: u32 = 0x80E1;
pub const DEPTH_STENCIL: u32 = 0x84F9;
pub const R8: u32 = 0x8229;
pub const R8_SNORM: u32 = 0x8F94;
pub const R16: u32 = 0x822A;
pub const R16_SNORM: u32 = 0x8F98;
pub const RG8: u32 = 0x822B;
pub const RG8_SNORM: u32 = 0x8F95;
pub const RG16: u32 = 0x822C;
pub const RG16_SNORM: u32 = 0x8F99;
pub const R3_G3_B2: u32 = 0x2A10;
pub const RGB4: u32 = 0x804F;
pub const RGB5: u32 = 0x8050;
pub const RGB8: u32 = 0x8051;
pub const RGB8_SNORM: u32 = 0x8F96;
pub const RGB10: u32 = 0x8052;
pub const RGB12: u32 = 0x8053;
pub const RGB16_SNORM: u32 = 0x8F9A;
pub const RGBA2: u32 = 0x8055;
pub const RGBA4: u32 = 0x8056;
pub const RGB5_A1: u32 = 0x8057;
pub const RGBA8: u32 = 0x8058;
pub const RGBA8_SNORM: u32 = 0x8F97;
pub const RGB10_A2: u32 = 0x8059;
pub const RGB10_A2UI: u32 = 0x906F;
pub const RGBA12: u32 = 0x805A;
pub const RGBA16: u32 = 0x805B;
pub const SRGB8: u32 = 0x8C41;
pub const SRGB8_ALPHA8: u32 = 0x8C43;
pub const R16F: u32 = 0x822D;
pub const RG16F: u32 = 0x822F;
pub const RGB16F: u32 = 0x881B;
pub const RGBA16F: u32 = 0x881A;
pub const R32F: u32 = 0x822E;
pub const RG32F: u32 = 0x8230;
pub const RGB32F: u32 = 0x8815;
pub const RGBA32F: u32 = 0x8814;
pub const R11F_G11F_B10F: u32 = 0x8C3A;
pub const RGB9_E5: u32 = 0x8C3D;
pub const R8I: u32 = 0x8231;
pub const R8UI: u32 = 0x8232;
pub const R16I: u32 = 0x8233;
pub const R16UI: u32 = 0x8234;
pub const R32I: u32 = 0x8235;
pub const R32UI: u32 = 0x8236;
pub const RG8I: u32 = 0x8237;
pub const RG8UI: u32 = 0x8238;
pub const RG16I: u32 = 0x8239;
pub const RG16UI: u32 = 0x823A;
pub const RG32I: u32 = 0x823B;
pub const RG32UI: u32 = 0x823C;
pub const RGB8I: u32 = 0x8D8F;
pub const RGB8UI: u32 = 0x8D7D;
pub const RGB16I: u32 = 0x8D89;
pub const RGB16UI: u32 = 0x8D77;
pub const RGB32I: u32 = 0x8D83;
pub const RGB32UI: u32 = 0x8D71;
pub const RGBA8I: u32 = 0x8D8E;
pub const RGBA8UI: u32 = 0x8D7C;
pub const RGBA16I: u32 = 0x8D88;
pub const RGBA16UI: u32 = 0x8D76;
pub const RGBA32I: u32 = 0x8D82;
pub const RGBA32UI: u32 = 0x8D70;
pub const COMPRESSED_RED: u32 = 0x8225;
pub const COMPRESSED_RG: u32 = 0x8226;
pub const COMPRESSED_RGB: u32 = 0x84ED;
pub const COMPRESSED_RGBA: u32 = 0x84EE;
pub const COMPRESSED_SRGB: u32 = 0x8C48;
pub const COMPRESSED_SRGB_ALPHA: u32 = 0x8C49;
pub const COMPRESSED_RED_RGTC1: u32 = 0x8DBB;
pub const COMPRESSED_SIGNED_RED_RGTC1: u32 = 0x8DBC;
pub const COMPRESSED_RG_RGTC2: u32 = 0x8DBD;
pub const COMPRESSED_SIGNED_RG_RGTC2: u32 = 0x8DBE;
pub const COMPRESSED_RGBA_BPTC_UNORM: u32 = 0x8E8C;
pub const COMPRESSED_SRGB_ALPHA_BPTC_UNORM: u32 = 0x8E8D;
pub const COMPRESSED_RGB_BPTC_SIGNED_FLOAT: u32 = 0x8E8E;
pub const COMPRESSED_RGB_BPTC_UNSIGNED_FLOAT: u32 = 0x8E8F;
pub const UNSIGNED_BYTE: u32 = 0x1401;
pub const BYTE: u32 = 0x1400;
pub const UNSIGNED_SHORT: u32 = 0x1403;
pub const SHORT: u32 = 0x1402;
pub const UNSIGNED_INT: u32 = 0x1405;
pub const INT: u32 = 0x1404;
pub const FLOAT: u32 = 0x1406;
pub const HALF_FLOAT: u32 = 0x140B;
pub const UNSIGNED_BYTE_3_3_2: u32 = 0x8032;
pub const UNSIGNED_BYTE_2_3_3_REV: u32 = 0x8362;
pub const UNSIGNED_SHORT_5_6_5: u32 = 0x8363;
pub const UNSIGNED_SHORT_5_6_5_REV: u32 = 0x8364;
pub const UNSIGNED_SHORT_4_4_4_4: u32 = 0x8033;
pub const UNSIGNED_SHORT_4_4_4_4_REV: u32 = 0x8365;
pub const UNSIGNED_SHORT_5_5_5_1: u32 = 0x8034;
pub const UNSIGNED_SHORT_1_5_5_5_REV: u32 = 0x8366;
pub const UNSIGNED_INT_8_8_8_8: u32 = 0x8035;
pub const UNSIGNED_INT_8_8_8_8_REV: u32 = 0x8367;
pub const UNSIGNED_INT_10_10_10_2: u32 = 0x8036;
pub const UNSIGNED_INT_2_10_10_10_REV: u32 = 0x8368;
pub const FRAMEBUFFER: u32 = 0x8D40;
pub const READ_FRAMEBUFFER: u32 = 0x8CA8;
pub const DRAW_FRAMEBUFFER: u32 = 0x8CA9;
pub const COLOR_ATTACHMENT0: u32 = 0x8CE0;
pub const COLOR_ATTACHMENT1: u32 = 0x8CE1;
pub const COLOR_ATTACHMENT2: u32 = 0x8CE2;
pub const COLOR_ATTACHMENT3: u32 = 0x8CE3;
pub const COLOR_ATTACHMENT4: u32 = 0x8CE4;
pub const COLOR_ATTACHMENT5: u32 = 0x8CE5;
pub const COLOR_ATTACHMENT6: u32 = 0x8CE6;
pub const COLOR_ATTACHMENT7: u32 = 0x8CE7;
pub const DEPTH_ATTACHMENT: u32 = 0x8D00;
pub const STENCIL_ATTACHMENT: u32 = 0x8D20;
pub const DEPTH_STENCIL_ATTACHMENT: u32 = 0x821A;
pub const DEPTH_STENCIL_TEXTURE_MODE: u32 = 0x90EA;
pub const TEXTURE_BASE_LEVEL: u32 = 0x813C;
pub const TEXTURE_COMPARE_FUNC: u32 = 0x884D;
pub const TEXTURE_COMPARE_MODE: u32 = 0x884C;
pub const TEXTURE_LOD_BIAS: u32 = 0x8501;
pub const TEXTURE_MIN_FILTER: u32 = 0x2801;
pub const TEXTURE_MAG_FILTER: u32 = 0x2800;
pub const TEXTURE_MIN_LOD: u32 = 0x813A;
pub const TEXTURE_MAX_LOD: u32 = 0x813B;
pub const TEXTURE_MAX_LEVEL: u32 = 0x813D;
pub const TEXTURE_SWIZZLE_R: u32 = 0x8E42;
pub const TEXTURE_SWIZZLE_G: u32 = 0x8E43;
pub const TEXTURE_SWIZZLE_B: u32 = 0x8E44;
pub const TEXTURE_SWIZZLE_A: u32 = 0x8E45;
pub const TEXTURE_SWIZZLE_RGBA: u32 = 0x8E46;
pub const TEXTURE_WRAP_S: u32 = 0x2802;
pub const TEXTURE_WRAP_T: u32 = 0x2803;
pub const TEXTURE_WRAP_R: u32 = 0x8072;
pub const TEXTURE0: u32 = 0x84C0;
pub const RENDERBUFFER: u32 = 0x8D41;
pub const NO_ERROR: u32 = 0x0000;
pub const INVALID_ENUM: u32 = 0x0500;
pub const INVALID_VALUE: u32 = 0x0501;
pub const INVALID_OPERATION: u32 = 0x0502;
pub const FRAMEBUFFER_COMPLETE: u32 = 0x8CD5;
pub const COLOR_BUFFER_BIT: u32 = 0x4000;
pub const DEPTH_BUFFER_BIT: u32 = 0x0100;
pub const STENCIL_BUFFER_BIT: u32 = 0x0400;

} // verus!
