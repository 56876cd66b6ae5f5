//! The graphics calls that the wrappers ask for, as plain data.
//!
//! Nothing in this library talks to the graphics driver. A wrapper says which
//! calls are to be made, in which order and with which arguments, as a list of
//! [`GlCall`] values; the program that owns the graphics context makes them and
//! hands back what the last one returned as a [`GlReply`].

use vstd::prelude::*;

verus! {

/// Shader object kind: a vertex shader.
pub const VERTEX_SHADER: u32 = 0x8B31;

/// Shader object kind: a fragment shader.
pub const FRAGMENT_SHADER: u32 = 0x8B30;

/// Shader parameter: whether the last compilation succeeded.
pub const COMPILE_STATUS: u32 = 0x8B81;

/// Program parameter: whether the last link succeeded.
pub const LINK_STATUS: u32 = 0x8B82;

/// Shader or program parameter: the length of the information log.
pub const INFO_LOG_LENGTH: u32 = 0x8B84;

/// The first texture unit; unit `i` is `TEXTURE0 + i`.
pub const TEXTURE0: u32 = 0x84C0;

/// Texture target: a two-dimensional texture.
pub const TEXTURE_2D: u32 = 0x0DE1;

/// Texture parameter: magnification filter.
pub const TEXTURE_MAG_FILTER: u32 = 0x2800;

/// Texture parameter: minification filter.
pub const TEXTURE_MIN_FILTER: u32 = 0x2801;

/// Texture parameter: wrapping along the first texture coordinate.
pub const TEXTURE_WRAP_S: u32 = 0x2802;

/// Texture parameter: wrapping along the second texture coordinate.
pub const TEXTURE_WRAP_T: u32 = 0x2803;

/// Wrapping mode: the texture repeats.
pub const REPEAT: u32 = 0x2901;

/// Filter: linear interpolation.
pub const LINEAR: u32 = 0x2601;

/// Pixel format: red, green, blue.
pub const RGB: u32 = 0x1907;

/// Pixel component type: one unsigned byte.
pub const UNSIGNED_BYTE: u32 = 0x1401;

/// Whether a text can be handed to the graphics API, which takes its strings
/// as ending at the first NUL character: whether it holds none.
pub open spec fn is_c_text(text: Seq<char>) -> bool {
    !text.contains('\0')
}

/// One call into the graphics API, with the values it is made with.
///
/// Each variant carries the name of the API entry point it stands for and that
/// entry point's arguments in their order, pointers left out: a string or a
/// byte vector stands for the memory that a pointer argument refers to.
#[derive(Debug, Clone, PartialEq, Eq)]
pub enum GlCall {
    /// Makes a shader object of the given kind. Answered by its name.
    CreateShader { kind: u32 },
    /// Replaces the source of a shader object by one string.
    ShaderSource { shader: u32, source: String },
    /// Compiles a shader object.
    CompileShader { shader: u32 },
    /// Reads one parameter of a shader object into an integer that holds
    /// `preset` before the call. Answered by that integer after the call.
    GetShaderiv { shader: u32, pname: u32, preset: i32 },
    /// Reads the information log of a shader object into a zeroed buffer of
    /// `len` bytes. Answered by the buffer's `len` bytes after the call. With
    /// a negative `len` there is no such buffer, and the call cannot be made.
    GetShaderInfoLog { shader: u32, len: i32 },
    /// Attaches a shader object to a program object.
    AttachShader { program: u32, shader: u32 },
    /// Links a program object.
    LinkProgram { program: u32 },
    /// Reads one parameter of a program object into an integer that holds
    /// `preset` before the call. Answered by that integer after the call.
    GetProgramiv { program: u32, pname: u32, preset: i32 },
    /// Reads the information log of a program object into a zeroed buffer of
    /// `len` bytes. Answered by the buffer's `len` bytes after the call. With
    /// a negative `len` there is no such buffer, and the call cannot be made.
    GetProgramInfoLog { program: u32, len: i32 },
    /// Makes a program object the current one.
    UseProgram { program: u32 },
    /// Looks up a uniform variable of a program object by name. Answered by
    /// its location.
    GetUniformLocation { program: u32, name: String },
    /// Deletes a program object.
    DeleteProgram { program: u32 },
    /// Deletes a shader object.
    DeleteShader { shader: u32 },
    /// Selects the active texture unit.
    ActiveTexture { unit: u32 },
    /// Binds a texture object to a target of the active unit.
    BindTexture { target: u32, texture: u32 },
    /// Sets one integer parameter of the texture bound to a target.
    TexParameteri { target: u32, pname: u32, param: i32 },
    /// Uploads an image to the texture bound to a target.
    TexImage2D {
        target: u32,
        level: i32,
        internal_format: i32,
        width: i32,
        height: i32,
        border: i32,
        format: u32,
        kind: u32,
        pixels: Vec<u8>,
    },
    /// Builds the mipmaps of the texture bound to a target.
    GenerateMipmap { target: u32 },
}

/// What a [`GlCall`] is, with its strings and bytes as sequences.
pub ghost enum CallView {
    CreateShader { kind: u32 },
    ShaderSource { shader: u32, source: Seq<char> },
    CompileShader { shader: u32 },
    GetShaderiv { shader: u32, pname: u32, preset: i32 },
    GetShaderInfoLog { shader: u32, len: i32 },
    AttachShader { program: u32, shader: u32 },
    LinkProgram { program: u32 },
    GetProgramiv { program: u32, pname: u32, preset: i32 },
    GetProgramInfoLog { program: u32, len: i32 },
    UseProgram { program: u32 },
    GetUniformLocation { program: u32, name: Seq<char> },
    DeleteProgram { program: u32 },
    DeleteShader { shader: u32 },
    ActiveTexture { unit: u32 },
    BindTexture { target: u32, texture: u32 },
    TexParameteri { target: u32, pname: u32, param: i32 },
    TexImage2D {
        target: u32,
        level: i32,
        internal_format: i32,
        width: i32,
        height: i32,
        border: i32,
        format: u32,
        kind: u32,
        pixels: Seq<u8>,
    },
    GenerateMipmap { target: u32 },
}

impl View for GlCall {
    type V = CallView;

    open spec fn view(&self) -> CallView {
        match *self {
            GlCall::CreateShader { kind } => CallView::CreateShader { kind },
            GlCall::ShaderSource { shader, source } => CallView::ShaderSource {
                shader,
                source: source@,
            },
            GlCall::CompileShader { shader } => CallView::CompileShader { shader },
            GlCall::GetShaderiv { shader, pname, preset } => CallView::GetShaderiv {
                shader,
                pname,
                preset,
            },
            GlCall::GetShaderInfoLog { shader, len } => CallView::GetShaderInfoLog { shader, len },
            GlCall::AttachShader { program, shader } => CallView::AttachShader { program, shader },
            GlCall::LinkProgram { program } => CallView::LinkProgram { program },
            GlCall::GetProgramiv { program, pname, preset } => CallView::GetProgramiv {
                program,
                pname,
                preset,
            },
            GlCall::GetProgramInfoLog { program, len } => CallView::GetProgramInfoLog {
                program,
                len,
            },
            GlCall::UseProgram { program } => CallView::UseProgram { program },
            GlCall::GetUniformLocation { program, name } => CallView::GetUniformLocation {
                program,
                name: name@,
            },
            GlCall::DeleteProgram { program } => CallView::DeleteProgram { program },
            GlCall::DeleteShader { shader } => CallView::DeleteShader { shader },
            GlCall::ActiveTexture { unit } => CallView::ActiveTexture { unit },
            GlCall::BindTexture { target, texture } => CallView::BindTexture { target, texture },
            GlCall::TexParameteri { target, pname, param } => CallView::TexParameteri {
                target,
                pname,
                param,
            },
            GlCall::TexImage2D {
                target,
                level,
                internal_format,
                width,
                height,
                border,
                format,
                kind,
                pixels,
            } => CallView::TexImage2D {
                target,
                level,
                internal_format,
                width,
                height,
                border,
                format,
                kind,
                pixels: pixels@,
            },
            GlCall::GenerateMipmap { target } => CallView::GenerateMipmap { target },
        }
    }
}

/// The calls of a list, each by its view, in the list's order.
pub open spec fn plan(calls: Seq<GlCall>) -> Seq<CallView> {
    calls.map_values(|call: GlCall| call@)
}

/// What the graphics API handed back for the last call of a list.
#[derive(Debug, Clone, PartialEq, Eq)]
pub enum GlReply {
    /// The call returns nothing.
    Nothing,
    /// The name of a new object.
    Name(u32),
    /// An integer that the call returned or wrote.
    Int(i32),
    /// The bytes that the call wrote into the buffer it was given.
    Bytes(Vec<u8>),
}

/// What a [`GlReply`] is, with its bytes as a sequence.
pub ghost enum ReplyView {
    Nothing,
    Name(u32),
    Int(i32),
    Bytes(Seq<u8>),
}

impl View for GlReply {
    type V = ReplyView;

    open spec fn view(&self) -> ReplyView {
        match *self {
            GlReply::Nothing => ReplyView::Nothing,
            GlReply::Name(name) => ReplyView::Name(name),
            GlReply::Int(value) => ReplyView::Int(value),
            GlReply::Bytes(bytes) => ReplyView::Bytes(bytes@),
        }
    }
}

/// Which kind of reply a call is answered by.
pub open spec fn reply_fits(call: CallView, reply: ReplyView) -> bool {
    match call {
        CallView::CreateShader { .. } => reply is Name,
        CallView::GetShaderiv { .. }
        | CallView::GetProgramiv { .. }
        | CallView::GetUniformLocation { .. } => reply is Int,
        CallView::GetShaderInfoLog { len, .. } | CallView::GetProgramInfoLog { len, .. } => {
            reply matches ReplyView::Bytes(bytes) && bytes.len() == len
        },
        _ => reply is Nothing,
    }
}

} // verus!
