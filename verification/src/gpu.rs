//! The GPU calls the library asks for, as values.
//!
//! A call names one operation of the graphics interface together with the
//! arguments the library chose for it. Arguments that never vary (the triangle
//! primitive, 32-bit indices, the 2D texture target, dynamic buffer usage) are
//! part of the call's meaning and carry no field.

use vstd::prelude::*;
use crate::render::DebugFilter;
use crate::scalar::{scalar_words, signed_words, unsigned_words, Scalar};
use crate::shader::ShaderType;
use crate::texture::FilteringType;

verus! {

/// A switch of the fixed pipeline.
#[derive(Clone, Copy, Debug, PartialEq, Eq, Structural)]
pub enum Capability {
    DebugOutput,
    DebugOutputSynchronous,
    Multisample,
    DepthTest,
    CullFace,
}

/// Which faces are discarded once face culling is on.
#[derive(Clone, Copy, Debug, PartialEq, Eq, Structural)]
pub enum CullMode {
    Front,
    Back,
    FrontAndBack,
}

/// The binding point of a buffer.
#[derive(Clone, Copy, Debug, PartialEq, Eq, Structural)]
pub enum BufferTarget {
    /// Per-vertex attributes.
    Array,
    /// Vertex indices.
    ElementArray,
}

/// A texture coordinate axis.
#[derive(Clone, Copy, Debug, PartialEq, Eq, Structural)]
pub enum WrapAxis {
    S,
    T,
}

/// What sampling does outside the unit square.
#[derive(Clone, Copy, Debug, PartialEq, Eq, Structural)]
pub enum WrapMode {
    Repeat,
    MirroredRepeat,
    ClampToEdge,
    ClampToBorder,
}

/// The two occasions on which a texture is filtered.
#[derive(Clone, Copy, Debug, PartialEq, Eq, Structural)]
pub enum FilterSlot {
    Magnify,
    Minify,
}

/// The three families of uniform upload.
#[derive(Clone, Copy, Debug, PartialEq, Eq, Structural)]
pub enum UniformForm {
    /// One element whose components are passed by value.
    Values,
    /// `count` elements read from memory.
    Array,
    /// Matrices read from memory, column after column.
    Matrix,
}

/// The component type of a uniform.
#[derive(Clone, Copy, Debug, PartialEq, Eq, Structural)]
pub enum UniformBase {
    Float,
    Int,
    UInt,
}

/// The components of a uniform upload, in the order they are read.
#[derive(Clone, Debug, PartialEq, Eq)]
pub enum UniformPayload {
    Floats(Vec<Scalar>),
    Ints(Vec<i32>),
    UInts(Vec<u32>),
}

impl UniformPayload {
    /// The component type this payload is made of.
    pub open spec fn base(&self) -> UniformBase {
        match self {
            UniformPayload::Floats(_) => UniformBase::Float,
            UniformPayload::Ints(_) => UniformBase::Int,
            UniformPayload::UInts(_) => UniformBase::UInt,
        }
    }

    /// The components as mathematical integers: a number by its bit pattern.
    pub open spec fn words(&self) -> Seq<int> {
        match self {
            UniformPayload::Floats(v) => scalar_words(v@),
            UniformPayload::Ints(v) => signed_words(v@),
            UniformPayload::UInts(v) => unsigned_words(v@),
        }
    }
}

/// What a uniform upload is, mathematically.
///
/// An element has `columns * rows` components; `rows` is 1 except for a
/// matrix. `words` holds the components of all `count` elements.
pub struct UniformValue {
    pub form: UniformForm,
    pub base: UniformBase,
    pub columns: int,
    pub rows: int,
    pub count: int,
    pub words: Seq<int>,
}

impl UniformValue {
    /// The payload holds exactly the components that the shape announces, so
    /// that an upload reads all of it and nothing beyond it.
    pub open spec fn well_formed(self) -> bool {
        &&& 1 <= self.columns <= 4
        &&& 1 <= self.rows <= 4
        &&& self.count >= 0
        &&& self.words.len() == self.columns * self.rows * self.count
    }
}

/// A uniform upload ready to be issued.
#[derive(Clone, Debug, PartialEq, Eq)]
pub struct UniformUpload {
    pub form: UniformForm,
    pub columns: u8,
    pub rows: u8,
    pub count: i32,
    /// Whether the driver is to transpose a matrix while reading it.
    pub transpose: bool,
    pub payload: UniformPayload,
}

impl View for UniformUpload {
    type V = UniformValue;

    open spec fn view(&self) -> UniformValue {
        UniformValue {
            form: self.form,
            base: self.payload.base(),
            columns: self.columns as int,
            rows: self.rows as int,
            count: self.count as int,
            words: self.payload.words(),
        }
    }
}

/// One call into the graphics interface.
#[derive(Clone, Debug, PartialEq, Eq)]
pub enum GpuCall {
    /// Switch a capability on.
    Enable(Capability),
    /// Choose the faces that culling discards.
    CullFace(CullMode),
    /// Install the debug-message hook with the severities it is to drop.
    DebugMessageCallback(Vec<DebugFilter>),
    /// Set the viewport to the rectangle from the origin to `width`, `height`.
    Viewport { width: i32, height: i32 },
    /// Set the color that a clear writes.
    ClearColor(Scalar, Scalar, Scalar, Scalar),
    /// Clear the color and depth planes.
    Clear,
    /// Ask for the name of a new vertex array. Answered with the name.
    GenVertexArray,
    /// Ask for the name of a new buffer. Answered with the name.
    GenBuffer,
    /// Ask for the name of a new texture. Answered with the name.
    GenTexture,
    /// Make a vertex array current.
    BindVertexArray(u32),
    /// Bind a buffer to a target.
    BindBuffer(BufferTarget, u32),
    /// Allocate the bound buffer and fill it with 32-bit words.
    BufferData(BufferTarget, Vec<u32>),
    /// Overwrite the bound buffer from its start with 32-bit words.
    BufferSubData(BufferTarget, Vec<u32>),
    /// Switch a vertex attribute slot on.
    EnableVertexAttribArray(u32),
    /// Describe a slot: `size` unnormalized numbers, `offset` bytes into each
    /// `stride`-byte vertex.
    VertexAttribPointer { index: u32, size: i32, stride: i32, offset: usize },
    /// Draw triangles from `count` indices of the bound index buffer.
    DrawElements { count: i32 },
    /// Draw triangles from the first `count` vertices in order.
    DrawArrays { count: i32 },
    /// Release a vertex array.
    DeleteVertexArray(u32),
    /// Release a buffer.
    DeleteBuffer(u32),
    /// Make a program current.
    UseProgram(u32),
    /// Look `name` up in `program` and upload to the place found. A name the
    /// program does not declare makes the call a no-op.
    Uniform { program: u32, name: String, upload: UniformUpload },
    /// Release a program.
    DeleteProgram(u32),
    /// Select a texture unit by its index.
    ActiveTexture(usize),
    /// Bind a 2D texture to the selected unit.
    BindTexture(u32),
    /// Upload tightly packed RGB bytes as one level of the bound texture.
    TexImage2D { level: i32, width: i32, height: i32, pixels: Vec<u8> },
    /// Derive the remaining levels of the bound texture.
    GenerateMipmap,
    /// Set the wrapping along one axis.
    TexWrap(WrapAxis, WrapMode),
    /// Set the border color.
    TexBorderColor(Scalar, Scalar, Scalar, Scalar),
    /// Set the filter for one occasion.
    TexFilter(FilterSlot, FilteringType),
    /// Ask for a new, empty program. Answered with its name.
    CreateProgram,
    /// Ask for a new shader of a stage. Answered with its name.
    CreateShader(ShaderType),
    /// Replace the source text of a shader.
    ShaderSource { shader: u32, source: String },
    /// Compile a shader.
    CompileShader(u32),
    /// Ask whether the last compile succeeded. Answered with a number.
    GetCompileStatus(u32),
    /// Ask for the size of a shader's log. Answered with a number.
    GetShaderLogLength(u32),
    /// Ask for a shader's log, given its size. Answered with text.
    GetShaderLog { shader: u32, length: i32 },
    /// Attach a shader to a program.
    AttachShader { program: u32, shader: u32 },
    /// Link a program.
    LinkProgram(u32),
    /// Ask whether the last link succeeded. Answered with a number.
    GetLinkStatus(u32),
    /// Ask for the size of a program's log. Answered with a number.
    GetProgramLogLength(u32),
    /// Ask for a program's log, given its size. Answered with text.
    GetProgramLog { program: u32, length: i32 },
}

/// The mathematical content of a [`GpuCall`].
pub enum GpuCallView {
    Enable(Capability),
    CullFace(CullMode),
    DebugMessageCallback(Seq<DebugFilter>),
    Viewport { width: i32, height: i32 },
    ClearColor(Scalar, Scalar, Scalar, Scalar),
    Clear,
    GenVertexArray,
    GenBuffer,
    GenTexture,
    BindVertexArray(u32),
    BindBuffer(BufferTarget, u32),
    BufferData(BufferTarget, Seq<u32>),
    BufferSubData(BufferTarget, Seq<u32>),
    EnableVertexAttribArray(u32),
    VertexAttribPointer { index: u32, size: i32, stride: i32, offset: usize },
    DrawElements { count: i32 },
    DrawArrays { count: i32 },
    DeleteVertexArray(u32),
    DeleteBuffer(u32),
    UseProgram(u32),
    Uniform { program: u32, name: Seq<char>, value: UniformValue, transpose: bool },
    DeleteProgram(u32),
    ActiveTexture(nat),
    BindTexture(u32),
    TexImage2D { level: i32, width: i32, height: i32, pixels: Seq<u8> },
    GenerateMipmap,
    TexWrap(WrapAxis, WrapMode),
    TexBorderColor(Scalar, Scalar, Scalar, Scalar),
    TexFilter(FilterSlot, FilteringType),
    CreateProgram,
    CreateShader(ShaderType),
    ShaderSource { shader: u32, source: Seq<char> },
    CompileShader(u32),
    GetCompileStatus(u32),
    GetShaderLogLength(u32),
    GetShaderLog { shader: u32, length: i32 },
    AttachShader { program: u32, shader: u32 },
    LinkProgram(u32),
    GetLinkStatus(u32),
    GetProgramLogLength(u32),
    GetProgramLog { program: u32, length: i32 },
}

impl View for GpuCall {
    type V = GpuCallView;

    open spec fn view(&self) -> GpuCallView {
        match self {
            GpuCall::Enable(c) => GpuCallView::Enable(*c),
            GpuCall::CullFace(m) => GpuCallView::CullFace(*m),
            GpuCall::DebugMessageCallback(f) => GpuCallView::DebugMessageCallback(f@),
            GpuCall::Viewport { width, height } => GpuCallView::Viewport {
                width: *width,
                height: *height,
            },
            GpuCall::ClearColor(r, g, b, a) => GpuCallView::ClearColor(*r, *g, *b, *a),
            GpuCall::Clear => GpuCallView::Clear,
            GpuCall::GenVertexArray => GpuCallView::GenVertexArray,
            GpuCall::GenBuffer => GpuCallView::GenBuffer,
            GpuCall::GenTexture => GpuCallView::GenTexture,
            GpuCall::BindVertexArray(n) => GpuCallView::BindVertexArray(*n),
            GpuCall::BindBuffer(t, n) => GpuCallView::BindBuffer(*t, *n),
            GpuCall::BufferData(t, w) => GpuCallView::BufferData(*t, w@),
            GpuCall::BufferSubData(t, w) => GpuCallView::BufferSubData(*t, w@),
            GpuCall::EnableVertexAttribArray(i) => GpuCallView::EnableVertexAttribArray(*i),
            GpuCall::VertexAttribPointer { index, size, stride, offset } => {
                GpuCallView::VertexAttribPointer {
                    index: *index,
                    size: *size,
                    stride: *stride,
                    offset: *offset,
                }
            },
            GpuCall::DrawElements { count } => GpuCallView::DrawElements { count: *count },
            GpuCall::DrawArrays { count } => GpuCallView::DrawArrays { count: *count },
            GpuCall::DeleteVertexArray(n) => GpuCallView::DeleteVertexArray(*n),
            GpuCall::DeleteBuffer(n) => GpuCallView::DeleteBuffer(*n),
            GpuCall::UseProgram(p) => GpuCallView::UseProgram(*p),
            GpuCall::Uniform { program, name, upload } => GpuCallView::Uniform {
                program: *program,
                name: name@,
                value: upload@,
                transpose: upload.transpose,
            },
            GpuCall::DeleteProgram(p) => GpuCallView::DeleteProgram(*p),
            GpuCall::ActiveTexture(u) => GpuCallView::ActiveTexture(*u as nat),
            GpuCall::BindTexture(t) => GpuCallView::BindTexture(*t),
            GpuCall::TexImage2D { level, width, height, pixels } => GpuCallView::TexImage2D {
                level: *level,
                width: *width,
                height: *height,
                pixels: pixels@,
            },
            GpuCall::GenerateMipmap => GpuCallView::GenerateMipmap,
            GpuCall::TexWrap(a, m) => GpuCallView::TexWrap(*a, *m),
            GpuCall::TexBorderColor(r, g, b, a) => GpuCallView::TexBorderColor(*r, *g, *b, *a),
            GpuCall::TexFilter(s, f) => GpuCallView::TexFilter(*s, *f),
            GpuCall::CreateProgram => GpuCallView::CreateProgram,
            GpuCall::CreateShader(s) => GpuCallView::CreateShader(*s),
            GpuCall::ShaderSource { shader, source } => GpuCallView::ShaderSource {
                shader: *shader,
                source: source@,
            },
            GpuCall::CompileShader(s) => GpuCallView::CompileShader(*s),
            GpuCall::GetCompileStatus(s) => GpuCallView::GetCompileStatus(*s),
            GpuCall::GetShaderLogLength(s) => GpuCallView::GetShaderLogLength(*s),
            GpuCall::GetShaderLog { shader, length } => GpuCallView::GetShaderLog {
                shader: *shader,
                length: *length,
            },
            GpuCall::AttachShader { program, shader } => GpuCallView::AttachShader {
                program: *program,
                shader: *shader,
            },
            GpuCall::LinkProgram(p) => GpuCallView::LinkProgram(*p),
            GpuCall::GetLinkStatus(p) => GpuCallView::GetLinkStatus(*p),
            GpuCall::GetProgramLogLength(p) => GpuCallView::GetProgramLogLength(*p),
            GpuCall::GetProgramLog { program, length } => GpuCallView::GetProgramLog {
                program: *program,
                length: *length,
            },
        }
    }
}

/// The mathematical content of a list of calls, in order.
pub open spec fn call_views(calls: Seq<GpuCall>) -> Seq<GpuCallView> {
    calls.map_values(|c: GpuCall| c@)
}

/// Joining two lists joins their contents.
pub proof fn lemma_call_views_add(a: Seq<GpuCall>, b: Seq<GpuCall>)
    ensures
        call_views(a + b) == call_views(a) + call_views(b),
{
    assert(call_views(a + b) =~= call_views(a) + call_views(b));
}

/// What the driver answers to a call.
#[derive(Clone, Debug, PartialEq, Eq)]
pub enum GpuReply {
    /// The call has no answer beyond having been made.
    Done,
    /// The name of a freshly made object.
    Name(u32),
    /// A status or a size.
    Number(i32),
    /// The text of a log.
    Text(String),
}

/// The mathematical content of a [`GpuReply`].
pub enum GpuReplyView {
    Done,
    Name(u32),
    Number(i32),
    Text(Seq<char>),
}

impl View for GpuReply {
    type V = GpuReplyView;

    open spec fn view(&self) -> GpuReplyView {
        match self {
            GpuReply::Done => GpuReplyView::Done,
            GpuReply::Name(n) => GpuReplyView::Name(*n),
            GpuReply::Number(n) => GpuReplyView::Number(*n),
            GpuReply::Text(t) => GpuReplyView::Text(t@),
        }
    }
}

/// The mathematical content of a list of answers, in order.
pub open spec fn reply_views(replies: Seq<GpuReply>) -> Seq<GpuReplyView> {
    replies.map_values(|r: GpuReply| r@)
}

} // verus!
