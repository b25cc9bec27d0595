//! Composite texture parameters and their dispatch to one of three wire shapes.

use vstd::prelude::*;

use crate::codes;
use crate::enums::{CompareFunc, CompareMode, DepthMode, MagFilter, MinFilter, Swizzle, Wrap};

verus! {

/// One configurable texture attribute with its payload.
///
/// A floating-point payload is carried as the IEEE-754 bit pattern of the
/// `f32` value (`f32::to_bits`); it is passed on unchanged.
pub enum TexParam {
    DepthStencilMode(DepthMode),
    BaseLevel(i32),
    CompareFunc(CompareFunc),
    CompareMode(CompareMode),
    LodBias(u32),
    MinFilter(MinFilter),
    MagFilter(MagFilter),
    MinLod(u32),
    MaxLod(u32),
    MaxLevel(i32),
    SwizzleR(Swizzle),
    SwizzleG(Swizzle),
    SwizzleB(Swizzle),
    SwizzleA(Swizzle),
    SwizzleRGBA(Swizzle, Swizzle, Swizzle, Swizzle),
    WrapS(Wrap),
    WrapT(Wrap),
    WrapR(Wrap),
}

/// A parameter name with its argument, in the shape of the entry point that
/// takes it: a float (as its bit pattern), an integer, or four integers.
#[derive(Debug, Clone, Copy, PartialEq, Eq)]
pub enum TexParamPair {
    GLf(u32, u32),
    GLi(u32, i32),
    GLiv(u32, [i32; 4]),
}

impl TexParamPair {
    /// The parameter name, whatever the shape.
    pub open spec fn name(self) -> u32 {
        match self {
            TexParamPair::GLf(n, _) => n,
            TexParamPair::GLi(n, _) => n,
            TexParamPair::GLiv(n, _) => n,
        }
    }
}

/// A parameter name always travels in the same wire shape, whatever the
/// payload and whatever the call site.
pub proof fn lemma_name_fixes_shape(a: TexParam, b: TexParam)
    requires
        a.pair().name() == b.pair().name(),
    ensures
        a.pair() is GLf <==> b.pair() is GLf,
        a.pair() is GLi <==> b.pair() is GLi,
        a.pair() is GLiv <==> b.pair() is GLiv,
{
}

impl TexParam {
    /// The parameter name and argument that this value is sent as.
    pub open spec fn pair(self) -> TexParamPair {
        match self {
            TexParam::DepthStencilMode(m) => TexParamPair::GLi(
                codes::DEPTH_STENCIL_TEXTURE_MODE,
                m.code() as i32,
            ),
            TexParam::BaseLevel(l) => TexParamPair::GLi(codes::TEXTURE_BASE_LEVEL, l),
            TexParam::CompareFunc(f) => TexParamPair::GLi(
                codes::TEXTURE_COMPARE_FUNC,
                f.code() as i32,
            ),
            TexParam::CompareMode(m) => TexParamPair::GLi(
                codes::TEXTURE_COMPARE_MODE,
                m.code() as i32,
            ),
            TexParam::LodBias(v) => TexParamPair::GLf(codes::TEXTURE_LOD_BIAS, v),
            TexParam::MinFilter(f) => TexParamPair::GLi(codes::TEXTURE_MIN_FILTER, f.code() as i32),
            TexParam::MagFilter(f) => TexParamPair::GLi(codes::TEXTURE_MAG_FILTER, f.code() as i32),
            TexParam::MinLod(v) => TexParamPair::GLf(codes::TEXTURE_MIN_LOD, v),
            TexParam::MaxLod(v) => TexParamPair::GLf(codes::TEXTURE_MAX_LOD, v),
            TexParam::MaxLevel(l) => TexParamPair::GLi(codes::TEXTURE_MAX_LEVEL, l),
            TexParam::SwizzleR(s) => TexParamPair::GLi(codes::TEXTURE_SWIZZLE_R, s.code() as i32),
            TexParam::SwizzleG(s) => TexParamPair::GLi(codes::TEXTURE_SWIZZLE_G, s.code() as i32),
            TexParam::SwizzleB(s) => TexParamPair::GLi(codes::TEXTURE_SWIZZLE_B, s.code() as i32),
            TexParam::SwizzleA(s) => TexParamPair::GLi(codes::TEXTURE_SWIZZLE_A, s.code() as i32),
            TexParam::SwizzleRGBA(r, g, b, a) => TexParamPair::GLiv(
                codes::TEXTURE_SWIZZLE_RGBA,
                [r.code() as i32, g.code() as i32, b.code() as i32, a.code() as i32],
            ),
            TexParam::WrapS(w) => TexParamPair::GLi(codes::TEXTURE_WRAP_S, w.code() as i32),
            TexParam::WrapT(w) => TexParamPair::GLi(codes::TEXTURE_WRAP_T, w.code() as i32),
            TexParam::WrapR(w) => TexParamPair::GLi(codes::TEXTURE_WRAP_R, w.code() as i32),
        }
    }

    /// Integer argument for a swizzle source.
    fn swizzle(swizzle: Swizzle) -> (r: i32)
        ensures
            r == swizzle.code() as i32,
    {
        swizzle.to_gl_swizzle() as i32
    }

    /// Integer argument for a wrap mode.
    fn wrap(wrap: Wrap) -> (r: i32)
        ensures
            r == wrap.code() as i32,
    {
        wrap.to_gl_wrap() as i32
    }

    /// Picks the parameter name and the wire shape of this value.
    pub fn to_pair(&self) -> (r: TexParamPair)
        ensures
            r == self.pair(),
    {
        match self {
            TexParam::DepthStencilMode(m) => TexParamPair::GLi(
                codes::DEPTH_STENCIL_TEXTURE_MODE,
                m.to_gl_mode() as i32,
            ),
            TexParam::BaseLevel(l) => TexParamPair::GLi(codes::TEXTURE_BASE_LEVEL, *l),
            TexParam::CompareFunc(f) => TexParamPair::GLi(
                codes::TEXTURE_COMPARE_FUNC,
                f.to_gl_func() as i32,
            ),
            TexParam::CompareMode(m) => TexParamPair::GLi(
                codes::TEXTURE_COMPARE_MODE,
                m.to_gl_mode() as i32,
            ),
            TexParam::LodBias(v) => TexParamPair::GLf(codes::TEXTURE_LOD_BIAS, *v),
            TexParam::MinFilter(f) => TexParamPair::GLi(
                codes::TEXTURE_MIN_FILTER,
                f.to_gl_filter() as i32,
            ),
            TexParam::MagFilter(f) => TexParamPair::GLi(
                codes::TEXTURE_MAG_FILTER,
                f.to_gl_filter() as i32,
            ),
            TexParam::MinLod(v) => TexParamPair::GLf(codes::TEXTURE_MIN_LOD, *v),
            TexParam::MaxLod(v) => TexParamPair::GLf(codes::TEXTURE_MAX_LOD, *v),
            TexParam::MaxLevel(l) => TexParamPair::GLi(codes::TEXTURE_MAX_LEVEL, *l),
            TexParam::SwizzleR(s) => TexParamPair::GLi(codes::TEXTURE_SWIZZLE_R, Self::swizzle(*s)),
            TexParam::SwizzleG(s) => TexParamPair::GLi(codes::TEXTURE_SWIZZLE_G, Self::swizzle(*s)),
            TexParam::SwizzleB(s) => TexParamPair::GLi(codes::TEXTURE_SWIZZLE_B, Self::swizzle(*s)),
            TexParam::SwizzleA(s) => TexParamPair::GLi(codes::TEXTURE_SWIZZLE_A, Self::swizzle(*s)),
            TexParam::SwizzleRGBA(r, g, b, a) => TexParamPair::GLiv(
                codes::TEXTURE_SWIZZLE_RGBA,
                [Self::swizzle(*r), Self::swizzle(*g), Self::swizzle(*b), Self::swizzle(*a)],
            ),
            TexParam::WrapS(w) => TexParamPair::GLi(codes::TEXTURE_WRAP_S, Self::wrap(*w)),
            TexParam::WrapT(w) => TexParamPair::GLi(codes::TEXTURE_WRAP_T, Self::wrap(*w)),
            TexParam::WrapR(w) => TexParamPair::GLi(codes::TEXTURE_WRAP_R, Self::wrap(*w)),
        }
    }
}

} // verus!
