//! Raw driver commands.
//!
//! Every mutating operation of this crate returns the command (or command
//! sequence) that an unverified shell must replay, in order, against the real
//! graphics driver. The verified `Device` model states what each replayed
//! sequence leaves behind in the driver's hidden binding state.

use vstd::prelude::*;

use crate::buffer::BufferType;
use crate::buffer::DrawType;
use crate::shader_program::ShaderType;
use crate::texture::TextureFormat;

verus! {

/// Which sampling parameter of the bound 2D texture a `TexParameter` sets.
#[derive(Clone, Copy, PartialEq, Eq, Structural, Debug)]
pub enum TexParam {
    WrapS,
    WrapT,
    MinFilter,
    MagFilter,
}

/// One call into the graphics driver, as plain data.
#[derive(PartialEq, Debug)]
pub enum GlCommand {
    GenBuffer { id: u32 },
    BindBuffer { kind: BufferType, id: u32 },
    BufferData { kind: BufferType, bytes: Vec<u8>, usage: DrawType },
    DeleteBuffer { id: u32 },
    GenVertexArray { id: u32 },
    BindVertexArray { id: u32 },
    VertexAttribPointer {
        index: u32,
        components: u32,
        type_code: u32,
        normalized: bool,
        stride: u32,
        offset: u32,
    },
    EnableVertexAttribArray { index: u32 },
    DeleteVertexArray { id: u32 },
    CreateShader { id: u32, kind: ShaderType },
    ShaderSource { id: u32, source: String },
    CompileShader { id: u32 },
    DeleteShader { id: u32 },
    CreateProgram { id: u32 },
    AttachShader { program: u32, shader: u32 },
    LinkProgram { id: u32 },
    DeleteProgram { id: u32 },
    UseProgram { id: u32 },
    SetUniform { program: u32, name: String, value: u32 },
    GenTexture { id: u32 },
    ActiveTexture { unit: u32 },
    BindTexture { id: u32 },
    TexParameter { param: TexParam, value: u32 },
    TexImage2d { width: u32, height: u32, format: TextureFormat, pixels: Vec<u8> },
    GenerateMipmap,
    DeleteTexture { id: u32 },
}

} // verus!
