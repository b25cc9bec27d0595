//! Texture objects: ownership of driver handles, binding, parameters and
//! image upload.

use vstd::prelude::*;

use crate::call::{fresh_handles, GlCall};
use crate::codes;
use crate::enums::{ImageFormat, ImageTarget, InternalFormat, PixelDataType, TexTarget};
use crate::param::{TexParam, TexParamPair};

verus! {

/// Texture object: owns one non-zero handle issued by the driver.
pub struct Texture {
    id: u32,
}

/// Texture objects allocated in one batch, in the order the driver gave them.
pub struct Textures {
    textures: Vec<Texture>,
}

/// Error-flag codes that an image upload is expected to report.
#[derive(Debug, Clone, Copy, PartialEq, Eq, Structural)]
pub enum ErrorTag {
    InvalidEnum,
    InvalidValue,
    InvalidOperation,
    Unknown,
}

/// A rejected upload: the raw error code and its tag.
#[derive(Debug, Clone, Copy, PartialEq, Eq, Structural)]
pub struct LoadError {
    pub code: u32,
    pub tag: ErrorTag,
}

impl ErrorTag {
    /// The tag of an error code; any code outside the expected set is `Unknown`.
    pub open spec fn of(code: u32) -> ErrorTag {
        if code == codes::INVALID_ENUM {
            ErrorTag::InvalidEnum
        } else if code == codes::INVALID_VALUE {
            ErrorTag::InvalidValue
        } else if code == codes::INVALID_OPERATION {
            ErrorTag::InvalidOperation
        } else {
            ErrorTag::Unknown
        }
    }

    /// The symbolic name of the error.
    pub fn name(&self) -> (r: &'static str)
        ensures
            *self == ErrorTag::InvalidEnum ==> r@ == "GL_INVALID_ENUM"@,
            *self == ErrorTag::InvalidValue ==> r@ == "GL_INVALID_VALUE"@,
            *self == ErrorTag::InvalidOperation ==> r@ == "GL_INVALID_OPERATION"@,
            *self == ErrorTag::Unknown ==> r@ == "Unknown Error"@,
    {
        match self {
            ErrorTag::InvalidEnum => "GL_INVALID_ENUM",
            ErrorTag::InvalidValue => "GL_INVALID_VALUE",
            ErrorTag::InvalidOperation => "GL_INVALID_OPERATION",
            ErrorTag::Unknown => "Unknown Error",
        }
    }
}

impl Texture {
    #[verifier::type_invariant]
    spec fn inv(&self) -> bool {
        self.id != 0
    }

    /// The driver handle this texture owns.
    pub closed spec fn handle(&self) -> u32 {
        self.id
    }

    /// Takes ownership of a handle that the driver allocated.
    pub fn new(id: u32) -> (r: Self)
        requires
            id != 0,
        ensures
            r.handle() == id,
    {
        Texture { id }
    }

    /// The call that releases this texture's handle, once.
    pub fn delete(self) -> (r: GlCall)
        ensures
            r matches GlCall::DeleteTextures { textures } && textures@ == seq![self.handle()],
    {
        let mut textures: Vec<u32> = Vec::new();
        textures.push(self.id);
        GlCall::DeleteTextures { textures }
    }

    /// Binds this texture to `target` of the active unit.
    pub fn bind(&self, target: TexTarget) -> (r: GlCall)
        ensures
            r == (GlCall::BindTexture { target: target.code(), texture: self.handle() }),
    {
        GlCall::BindTexture { target: target.to_gl_target(), texture: self.id }
    }

    /// Clears `target` of the active unit.
    pub fn unbind(target: TexTarget) -> (r: GlCall)
        ensures
            r == (GlCall::BindTexture { target: target.code(), texture: 0 }),
    {
        GlCall::BindTexture { target: target.to_gl_target(), texture: 0 }
    }

    /// Selects texture unit `index` for the bindings that follow.
    pub fn active(index: u32) -> (r: GlCall)
        requires
            index <= u32::MAX - codes::TEXTURE0,
        ensures
            r == (GlCall::ActiveTexture { texture: (codes::TEXTURE0 + index) as u32 }),
    {
        GlCall::ActiveTexture { texture: codes::TEXTURE0 + index }
    }

    /// The parameter call for `param`, addressed to this texture's handle.
    pub open spec fn param_call(handle: u32, param: TexParam) -> GlCall {
        match param.pair() {
            TexParamPair::GLf(pname, v) => GlCall::TextureParameterf {
                texture: handle,
                pname,
                param: v,
            },
            TexParamPair::GLi(pname, v) => GlCall::TextureParameteri {
                texture: handle,
                pname,
                param: v,
            },
            TexParamPair::GLiv(pname, v) => GlCall::TextureParameteriv {
                texture: handle,
                pname,
                params: v,
            },
        }
    }

    /// Sets one parameter of this texture, by handle, in the shape it takes.
    pub fn set(&self, param: TexParam) -> (r: GlCall)
        ensures
            r == Self::param_call(self.handle(), param),
    {
        match param.to_pair() {
            TexParamPair::GLf(pname, v) => GlCall::TextureParameterf {
                texture: self.id,
                pname,
                param: v,
            },
            TexParamPair::GLi(pname, v) => GlCall::TextureParameteri {
                texture: self.id,
                pname,
                param: v,
            },
            TexParamPair::GLiv(pname, v) => GlCall::TextureParameteriv {
                texture: self.id,
                pname,
                params: v,
            },
        }
    }

    /// Generates the mipmaps of this texture.
    pub fn gen_minmap(&self) -> (r: GlCall)
        ensures
            r == (GlCall::GenerateTextureMipmap { texture: self.handle() }),
    {
        GlCall::GenerateTextureMipmap { texture: self.id }
    }

    /// The upload call: level and border are always 0.
    pub open spec fn image_call(
        target: ImageTarget,
        internal_format: InternalFormat,
        size: (u32, u32),
        format: ImageFormat,
        type_: PixelDataType,
    ) -> GlCall {
        GlCall::TexImage2D {
            target: target.code(),
            level: 0,
            internal_format: internal_format.code(),
            width: size.0,
            height: size.1,
            border: 0,
            format: format.code(),
            type_: type_.code(),
        }
    }

    fn image(
        target: ImageTarget,
        internal_format: InternalFormat,
        size: (u32, u32),
        format: ImageFormat,
        type_: PixelDataType,
    ) -> (r: GlCall)
        ensures
            r == Self::image_call(target, internal_format, size, format, type_),
    {
        GlCall::TexImage2D {
            target: target.to_gl_target(),
            level: 0,
            internal_format: internal_format.to_gl_format(),
            width: size.0,
            height: size.1,
            border: 0,
            format: format.to_gl_format(),
            type_: type_.to_gl_type(),
        }
    }

    /// Uploads an image into the texture bound to `target`, then polls the
    /// error flag; the flag's value goes to `load_result`.
    pub fn load(
        target: ImageTarget,
        internal_format: InternalFormat,
        size: (u32, u32),
        format: ImageFormat,
        type_: PixelDataType,
    ) -> (r: Vec<GlCall>)
        ensures
            r@ == seq![
                Self::image_call(target, internal_format, size, format, type_),
                GlCall::GetError,
            ],
    {
        let mut calls: Vec<GlCall> = Vec::new();
        calls.push(Self::image(target, internal_format, size, format, type_));
        calls.push(GlCall::GetError);
        calls
    }

    /// Uploads an image without polling the error flag: the caller answers
    /// for the arguments being valid.
    pub fn load_unchecked(
        target: ImageTarget,
        internal_format: InternalFormat,
        size: (u32, u32),
        format: ImageFormat,
        type_: PixelDataType,
    ) -> (r: Vec<GlCall>)
        ensures
            r@ == seq![Self::image_call(target, internal_format, size, format, type_)],
            forall|i: int| 0 <= i < r@.len() ==> r@[i] != GlCall::GetError,
    {
        let mut calls: Vec<GlCall> = Vec::new();
        calls.push(Self::image(target, internal_format, size, format, type_));
        calls
    }

    /// Translates the error flag polled after an upload.
    pub fn load_result(err: u32) -> (r: Result<(), LoadError>)
        ensures
            err == codes::NO_ERROR <==> r is Ok,
            err != codes::NO_ERROR ==> r == Err::<(), LoadError>(
                LoadError { code: err, tag: ErrorTag::of(err) },
            ),
    {
        if err == codes::NO_ERROR {
            Ok(())
        } else if err == codes::INVALID_ENUM {
            Err(LoadError { code: err, tag: ErrorTag::InvalidEnum })
        } else if err == codes::INVALID_VALUE {
            Err(LoadError { code: err, tag: ErrorTag::InvalidValue })
        } else if err == codes::INVALID_OPERATION {
            Err(LoadError { code: err, tag: ErrorTag::InvalidOperation })
        } else {
            Err(LoadError { code: err, tag: ErrorTag::Unknown })
        }
    }
}

impl View for Textures {
    type V = Seq<u32>;

    /// The handles of the textures, in order.
    closed spec fn view(&self) -> Seq<u32> {
        self.textures@.map_values(|t: Texture| t.handle())
    }
}

impl Textures {
    /// Takes ownership of the handles of one batched allocation.
    pub fn new(handles: Vec<u32>) -> (r: Self)
        requires
            fresh_handles(handles@),
        ensures
            r@ == handles@,
    {
        let mut textures: Vec<Texture> = Vec::new();
        let mut i: usize = 0;
        while i < handles.len()
            invariant
                i <= handles@.len(),
                fresh_handles(handles@),
                textures@.len() == i,
                forall|j: int| 0 <= j < i ==> #[trigger] textures@[j].handle() == handles@[j],
            decreases handles@.len() - i,
        {
            textures.push(Texture::new(handles[i]));
            i += 1;
        }
        let r = Textures { textures };
        assert(r@ =~= handles@);
        r
    }

    /// The textures, in order.
    pub fn iter(&self) -> (r: &[Texture])
        ensures
            r@.map_values(|t: Texture| t.handle()) == self@,
    {
        self.textures.as_slice()
    }

    /// The textures, in order, for in-place use.
    pub fn iter_mut(&mut self) -> (r: &mut [Texture])
        ensures
            r@.map_values(|t: Texture| t.handle()) == old(self)@,
            final(self)@ == final(r)@.map_values(|t: Texture| t.handle()),
    {
        self.textures.as_mut_slice()
    }

    /// Number of textures in the collection.
    pub fn count(&self) -> (r: usize)
        ensures
            r == self@.len(),
    {
        self.textures.len()
    }

    /// The texture at `index`.
    pub fn get(&self, index: usize) -> (r: &Texture)
        requires
            index < self@.len(),
        ensures
            r.handle() == self@[index as int],
    {
        &self.textures[index]
    }

    /// Gives up the collection, handing each texture to the caller.
    pub fn into_vec(self) -> (r: Vec<Texture>)
        ensures
            r@.map_values(|t: Texture| t.handle()) == self@,
    {
        self.textures
    }

    /// The one batched call that releases every handle of the collection.
    pub fn delete(self) -> (r: GlCall)
        ensures
            r matches GlCall::DeleteTextures { textures } && textures@ == self@,
    {
        let mut handles: Vec<u32> = Vec::new();
        let mut i: usize = 0;
        while i < self.textures.len()
            invariant
                i <= self.textures@.len(),
                handles@ == self@.take(i as int),
            decreases self.textures@.len() - i,
        {
            handles.push(self.textures[i].id);
            assert(handles@ =~= self@.take(i + 1));
            i += 1;
        }
        assert(handles@ =~= self@);
        GlCall::DeleteTextures { textures: handles }
    }
}

} // verus!
