//! Driver calls described as plain values.
//!
//! The library decides which call to make and with which numeric arguments;
//! whoever holds the graphics context issues the call exactly as described.

use vstd::prelude::*;

verus! {

/// One call into the graphics driver, with its arguments in the driver's
/// own order and encoding.
#[derive(Debug, Clone, PartialEq, Eq)]
pub enum GlCall {
    /// `glBindTexture(target, texture)`; texture 0 clears the binding.
    BindTexture { target: u32, texture: u32 },
    /// `glActiveTexture(texture)`, where `texture` is the unit's code.
    ActiveTexture { texture: u32 },
    /// `glTextureParameterf(texture, pname, param)`, `param` as its bit pattern.
    TextureParameterf { texture: u32, pname: u32, param: u32 },
    /// `glTextureParameteri(texture, pname, param)`.
    TextureParameteri { texture: u32, pname: u32, param: i32 },
    /// `glTextureParameteriv(texture, pname, params)`.
    TextureParameteriv { texture: u32, pname: u32, params: [i32; 4] },
    /// `glGenerateTextureMipmap(texture)`.
    GenerateTextureMipmap { texture: u32 },
    /// `glTexImage2D(target, level, internal_format, width, height, border,
    /// format, type_, data)`; the pixel data travels beside the call.
    TexImage2D {
        target: u32,
        level: i32,
        internal_format: u32,
        width: u32,
        height: u32,
        border: i32,
        format: u32,
        type_: u32,
    },
    /// `glGetError()`: polls the driver's error flag.
    GetError,
    /// `glDeleteTextures(n, textures)`.
    DeleteTextures { textures: Vec<u32> },
    /// `glBindFramebuffer(target, framebuffer)`; framebuffer 0 clears the binding.
    BindFramebuffer { target: u32, framebuffer: u32 },
    /// `glFramebufferRenderbuffer(target, attachment, renderbuffer_target, renderbuffer)`.
    FramebufferRenderbuffer {
        target: u32,
        attachment: u32,
        renderbuffer_target: u32,
        renderbuffer: u32,
    },
    /// `glCheckFramebufferStatus(target)`: returns a status code.
    CheckFramebufferStatus { target: u32 },
    /// `glBlitNamedFramebuffer(read, draw, src rectangle, dst rectangle, mask, filter)`.
    BlitNamedFramebuffer {
        read_framebuffer: u32,
        draw_framebuffer: u32,
        src_x0: u32,
        src_y0: u32,
        src_x1: u32,
        src_y1: u32,
        dst_x0: u32,
        dst_y0: u32,
        dst_x1: u32,
        dst_y1: u32,
        mask: u32,
        filter: u32,
    },
    /// `glBlitFramebuffer(src rectangle, dst rectangle, mask, filter)` between
    /// the currently bound read and draw framebuffers.
    BlitFramebuffer {
        src_x0: u32,
        src_y0: u32,
        src_x1: u32,
        src_y1: u32,
        dst_x0: u32,
        dst_y0: u32,
        dst_x1: u32,
        dst_y1: u32,
        mask: u32,
        filter: u32,
    },
    /// `glDeleteFramebuffers(n, framebuffers)`.
    DeleteFramebuffers { framebuffers: Vec<u32> },
    /// `glDeleteRenderbuffers(n, renderbuffers)`.
    DeleteRenderbuffers { renderbuffers: Vec<u32> },
}

/// Handles that a batched allocation may hand out: none is zero and none
/// repeats.
pub open spec fn fresh_handles(handles: Seq<u32>) -> bool {
    &&& handles.no_duplicates()
    &&& forall|i: int| 0 <= i < handles.len() ==> handles[i] != 0
}

/// Tests at run time what `fresh_handles` states: no zero, no repeat.
pub fn fresh_handles_hold(handles: &Vec<u32>) -> (r: bool)
    ensures
        r == fresh_handles(handles@),
{
    let n = handles.len();
    let mut i: usize = 0;
    while i < n
        invariant
            n == handles@.len(),
            i <= n,
            forall|a: int| 0 <= a < i ==> handles@[a] != 0,
            forall|a: int, b: int| 0 <= a < i && a < b < n ==> handles@[a] != handles@[b],
        decreases n - i,
    {
        if handles[i] == 0 {
            return false;
        }
        let mut j: usize = i + 1;
        while j < n
            invariant
                n == handles@.len(),
                i < j <= n,
                forall|b: int| i < b < j ==> handles@[i as int] != handles@[b],
            decreases n - j,
        {
            if handles[i] == handles[j] {
                assert(!handles@.no_duplicates()) by {
                    assert(handles@[i as int] == handles@[j as int]);
                }
                return false;
            }
            j += 1;
        }
        i += 1;
    }
    assert(handles@.no_duplicates()) by {
        assert forall|a: int, b: int|
            0 <= a < handles@.len() && 0 <= b < handles@.len() && a != b implies handles@[a]
            != handles@[b] by {
            if a > b {
                assert(handles@[b] != handles@[a]);
            }
        }
    }
    true
}

} // verus!
