//! Access modes of the image texture that compute shaders write to.
use vstd::prelude::*;

verus! {

/// OpenGL enumerant of read-only image access.
pub const GL_READ_ONLY: u32 = 0x88B8;

/// OpenGL enumerant of write-only image access.
pub const GL_WRITE_ONLY: u32 = 0x88B9;

/// OpenGL enumerant of read-write image access.
pub const GL_READ_WRITE: u32 = 0x88BA;

/// How a shader may access a bound image texture.
#[derive(Clone, Copy, Debug, PartialEq, Eq, Structural)]
pub enum TextureAccess {
    ReadOnly,
    WriteOnly,
    ReadWrite,
}

impl TextureAccess {
    /// The OpenGL enumerant naming this access mode.
    pub open spec fn gl_access_spec(self) -> u32 {
        match self {
            TextureAccess::ReadOnly => GL_READ_ONLY,
            TextureAccess::WriteOnly => GL_WRITE_ONLY,
            TextureAccess::ReadWrite => GL_READ_WRITE,
        }
    }

    /// The OpenGL enumerant naming this access mode.
    pub fn gl_access(&self) -> (r: u32)
        ensures
            r == self.gl_access_spec(),
    {
        match self {
            TextureAccess::ReadOnly => GL_READ_ONLY,
            TextureAccess::WriteOnly => GL_WRITE_ONLY,
            TextureAccess::ReadWrite => GL_READ_WRITE,
        }
    }
}

} // verus!
