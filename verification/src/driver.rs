//! The calls that this crate asks of the graphics driver, and the driver's
//! answers.
//!
//! A [`Call`] names one entry point of the driver and carries every argument
//! of it as a plain value: handles and enumerants as the driver's own 32-bit
//! numbers, floats as their IEEE-754 bit patterns, blocks of memory as vectors.
//! Whoever owns the graphics context performs the calls of a [`Step`] in order
//! and hands the answer to the last of them back as a [`Reply`].
use vstd::prelude::*;

verus! {

/// Shader stage: vertex.
pub const VERTEX_SHADER: u32 = 0x8B31;

/// Shader stage: fragment.
pub const FRAGMENT_SHADER: u32 = 0x8B30;

/// Shader query: did the last compilation succeed.
pub const COMPILE_STATUS: u32 = 0x8B81;

/// Program query: did the last link succeed.
pub const LINK_STATUS: u32 = 0x8B82;

/// Shader or program query: length of the diagnostic log.
pub const INFO_LOG_LENGTH: u32 = 0x8B84;

/// Texture target: two-dimensional.
pub const TEXTURE_2D: u32 = 0x0DE1;

/// Texture parameter: wrapping along the first axis.
pub const TEXTURE_WRAP_S: u32 = 0x2802;

/// Texture parameter: wrapping along the second axis.
pub const TEXTURE_WRAP_T: u32 = 0x2803;

/// Texture parameter: filter used when the texture is drawn smaller.
pub const TEXTURE_MIN_FILTER: u32 = 0x2801;

/// Texture parameter: filter used when the texture is drawn larger.
pub const TEXTURE_MAG_FILTER: u32 = 0x2800;

/// Texture wrapping: repeat the image.
pub const REPEAT: i32 = 0x2901;

/// Texture filter: nearest texel.
pub const NEAREST: i32 = 0x2600;

/// Pixel format: red, green, blue.
pub const RGB: u32 = 0x1907;

/// Component type: unsigned 8-bit integer.
pub const UNSIGNED_BYTE: u32 = 0x1401;

/// Component type: unsigned 32-bit integer.
pub const UNSIGNED_INT: u32 = 0x1405;

/// Component type: 32-bit float.
pub const FLOAT: u32 = 0x1406;

/// Buffer target: vertex attributes.
pub const ARRAY_BUFFER: u32 = 0x8892;

/// Buffer target: vertex indices.
pub const ELEMENT_ARRAY_BUFFER: u32 = 0x8893;

/// Buffer usage: written once, drawn many times.
pub const STATIC_DRAW: u32 = 0x88E4;

/// Primitive: every three indices form a triangle.
pub const TRIANGLES: u32 = 0x0004;

/// The driver's boolean false.
pub const FALSE: u8 = 0;

/// The handle that names no object.
pub const NO_OBJECT: u32 = 0;

/// One call into the graphics driver, with all of its arguments.
#[allow(inconsistent_fields)]
#[derive(Debug, PartialEq, Eq)]
pub enum Call {
    /// Creates a shader of the given stage. Answer: its handle.
    CreateShader { kind: u32 },
    /// Replaces the source of a shader by one string, given without its
    /// terminating zero.
    ShaderSource { shader: u32, source: Vec<u8> },
    CompileShader { shader: u32 },
    /// Queries an integer property of a shader. Answer: its value.
    GetShaderiv { shader: u32, pname: u32 },
    /// Fetches a shader's diagnostic log into `buffer`, writing at most
    /// `max_length` bytes. Answer: the buffer as the driver left it.
    GetShaderInfoLog { shader: u32, max_length: i32, buffer: Vec<u8> },
    DeleteShader { shader: u32 },
    /// Creates an empty program. Answer: its handle.
    CreateProgram,
    AttachShader { program: u32, shader: u32 },
    LinkProgram { program: u32 },
    /// Queries an integer property of a program. Answer: its value.
    GetProgramiv { program: u32, pname: u32 },
    /// Fetches a program's diagnostic log into `buffer`, writing at most
    /// `max_length` bytes. Answer: the buffer as the driver left it.
    GetProgramInfoLog { program: u32, max_length: i32, buffer: Vec<u8> },
    DetachShader { program: u32, shader: u32 },
    UseProgram { program: u32 },
    DeleteProgram { program: u32 },
    /// Generates one texture name. Answer: the handle.
    GenTextures,
    BindTexture { target: u32, texture: u32 },
    TexParameteri { target: u32, pname: u32, param: i32 },
    TexImage2D {
        target: u32,
        level: i32,
        internal_format: i32,
        width: i32,
        height: i32,
        border: i32,
        format: u32,
        kind: u32,
        pixels: Vec<u8>,
    },
    DeleteTextures { texture: u32 },
    /// Generates one buffer name. Answer: the handle.
    GenBuffers,
    BindBuffer { target: u32, buffer: u32 },
    /// Creates the store of the buffer bound to `target` and fills it with
    /// `data`, 32-bit words in the machine's byte order; `size` is its length
    /// in bytes.
    BufferData { target: u32, size: isize, data: Vec<u32>, usage: u32 },
    DeleteBuffers { buffer: u32 },
    /// Generates one vertex-array name. Answer: the handle.
    GenVertexArrays,
    BindVertexArray { array: u32 },
    EnableVertexAttribArray { index: u32 },
    /// Declares where attribute `index` lies in the bound vertex buffer:
    /// `size` components of type `kind`, `offset` bytes into each record of
    /// `stride` bytes.
    VertexAttribPointer { index: u32, size: i32, kind: u32, normalized: u8, stride: i32, offset: usize },
    DeleteVertexArrays { array: u32 },
    /// Draws `count` indices of type `kind` from the bound index buffer,
    /// starting `offset` bytes into it.
    DrawElements { mode: u32, count: i32, kind: u32, offset: usize },
    /// Looks up a uniform of a linked program by name. Answer: its location,
    /// or -1 where the program has no such uniform.
    GetUniformLocation { program: u32, name: String },
    /// Sets a uniform of three floats, given by their bit patterns.
    Uniform3f { location: i32, x: u32, y: u32, z: u32 },
}

/// What a [`Call`] says: the call with each block of memory taken as the
/// sequence it holds.
#[allow(inconsistent_fields)]
pub enum CallView {
    CreateShader { kind: u32 },
    ShaderSource { shader: u32, source: Seq<u8> },
    CompileShader { shader: u32 },
    GetShaderiv { shader: u32, pname: u32 },
    GetShaderInfoLog { shader: u32, max_length: i32, buffer: Seq<u8> },
    DeleteShader { shader: u32 },
    CreateProgram,
    AttachShader { program: u32, shader: u32 },
    LinkProgram { program: u32 },
    GetProgramiv { program: u32, pname: u32 },
    GetProgramInfoLog { program: u32, max_length: i32, buffer: Seq<u8> },
    DetachShader { program: u32, shader: u32 },
    UseProgram { program: u32 },
    DeleteProgram { program: u32 },
    GenTextures,
    BindTexture { target: u32, texture: u32 },
    TexParameteri { target: u32, pname: u32, param: i32 },
    TexImage2D {
        target: u32,
        level: i32,
        internal_format: i32,
        width: i32,
        height: i32,
        border: i32,
        format: u32,
        kind: u32,
        pixels: Seq<u8>,
    },
    DeleteTextures { texture: u32 },
    GenBuffers,
    BindBuffer { target: u32, buffer: u32 },
    BufferData { target: u32, size: isize, data: Seq<u32>, usage: u32 },
    DeleteBuffers { buffer: u32 },
    GenVertexArrays,
    BindVertexArray { array: u32 },
    EnableVertexAttribArray { index: u32 },
    VertexAttribPointer { index: u32, size: i32, kind: u32, normalized: u8, stride: i32, offset: usize },
    DeleteVertexArrays { array: u32 },
    DrawElements { mode: u32, count: i32, kind: u32, offset: usize },
    GetUniformLocation { program: u32, name: Seq<char> },
    Uniform3f { location: i32, x: u32, y: u32, z: u32 },
}

impl DeepView for Call {
    type V = CallView;

    open spec fn deep_view(&self) -> CallView {
        match *self {
            Call::CreateShader { kind } => CallView::CreateShader { kind },
            Call::ShaderSource { shader, source } => CallView::ShaderSource { shader, source: source@ },
            Call::CompileShader { shader } => CallView::CompileShader { shader },
            Call::GetShaderiv { shader, pname } => CallView::GetShaderiv { shader, pname },
            Call::GetShaderInfoLog { shader, max_length, buffer } => CallView::GetShaderInfoLog {
                shader,
                max_length,
                buffer: buffer@,
            },
            Call::DeleteShader { shader } => CallView::DeleteShader { shader },
            Call::CreateProgram => CallView::CreateProgram,
            Call::AttachShader { program, shader } => CallView::AttachShader { program, shader },
            Call::LinkProgram { program } => CallView::LinkProgram { program },
            Call::GetProgramiv { program, pname } => CallView::GetProgramiv { program, pname },
            Call::GetProgramInfoLog { program, max_length, buffer } => CallView::GetProgramInfoLog {
                program,
                max_length,
                buffer: buffer@,
            },
            Call::DetachShader { program, shader } => CallView::DetachShader { program, shader },
            Call::UseProgram { program } => CallView::UseProgram { program },
            Call::DeleteProgram { program } => CallView::DeleteProgram { program },
            Call::GenTextures => CallView::GenTextures,
            Call::BindTexture { target, texture } => CallView::BindTexture { target, texture },
            Call::TexParameteri { target, pname, param } => CallView::TexParameteri { target, pname, param },
            Call::TexImage2D {
                target,
                level,
                internal_format,
                width,
                height,
                border,
                format,
                kind,
                pixels,
            } => CallView::TexImage2D {
                target,
                level,
                internal_format,
                width,
                height,
                border,
                format,
                kind,
                pixels: pixels@,
            },
            Call::DeleteTextures { texture } => CallView::DeleteTextures { texture },
            Call::GenBuffers => CallView::GenBuffers,
            Call::BindBuffer { target, buffer } => CallView::BindBuffer { target, buffer },
            Call::BufferData { target, size, data, usage } => CallView::BufferData {
                target,
                size,
                data: data@,
                usage,
            },
            Call::DeleteBuffers { buffer } => CallView::DeleteBuffers { buffer },
            Call::GenVertexArrays => CallView::GenVertexArrays,
            Call::BindVertexArray { array } => CallView::BindVertexArray { array },
            Call::EnableVertexAttribArray { index } => CallView::EnableVertexAttribArray { index },
            Call::VertexAttribPointer { index, size, kind, normalized, stride, offset } => {
                CallView::VertexAttribPointer { index, size, kind, normalized, stride, offset }
            },
            Call::DeleteVertexArrays { array } => CallView::DeleteVertexArrays { array },
            Call::DrawElements { mode, count, kind, offset } => CallView::DrawElements {
                mode,
                count,
                kind,
                offset,
            },
            Call::GetUniformLocation { program, name } => CallView::GetUniformLocation {
                program,
                name: name@,
            },
            Call::Uniform3f { location, x, y, z } => CallView::Uniform3f { location, x, y, z },
        }
    }
}

/// The driver's answer to a call.
#[derive(Debug, PartialEq, Eq)]
pub enum Reply {
    /// The call returns nothing.
    Nothing,
    /// The handle of the object that the call created.
    Handle(u32),
    /// The integer that the call queried.
    Value(i32),
    /// The buffer that the call filled.
    Bytes(Vec<u8>),
}

/// One step of an operation that needs the driver: the calls to perform now,
/// in order, and what follows them.
pub enum Step<S, T> {
    /// Perform `calls`, then advance `state` by the answer to the last of them.
    Continue { calls: Vec<Call>, state: S },
    /// Perform `calls`; the operation is then over, with `result`.
    Finish { calls: Vec<Call>, result: T },
}

impl<S, T> Step<S, T> {
    /// The calls of this step, in order.
    pub open spec fn calls(&self) -> Seq<CallView> {
        match *self {
            Step::Continue { calls, .. } => calls.deep_view(),
            Step::Finish { calls, .. } => calls.deep_view(),
        }
    }
}

impl CallView {
    /// Whether `reply` is an answer that the driver can give to this call: a
    /// handle where the call makes an object, an integer where it queries
    /// one, which for the length of a log is not negative, the buffer
    /// where it fills one, and nothing otherwise.
    pub open spec fn answered_by(self, reply: Reply) -> bool {
        match self {
            CallView::CreateShader { .. }
            | CallView::CreateProgram
            | CallView::GenTextures
            | CallView::GenBuffers
            | CallView::GenVertexArrays => reply is Handle,
            CallView::GetShaderiv { pname, .. } | CallView::GetProgramiv { pname, .. } => {
                &&& reply matches Reply::Value(value)
                &&& pname == INFO_LOG_LENGTH ==> value >= 0
            },
            CallView::GetUniformLocation { .. } => reply is Value,
            CallView::GetShaderInfoLog { .. } | CallView::GetProgramInfoLog { .. } => reply is Bytes,
            _ => reply is Nothing,
        }
    }
}

/// An operation that needs the driver, under way: it has had some calls
/// performed and waits for the answer to the last of them.
pub trait Operation: Sized {
    /// What the operation gives when it is over.
    type Output;

    /// Whether `reply` can be the answer that the operation waits for.
    spec fn accepts(&self, reply: Reply) -> bool;

    /// Computes `accepts`.
    fn is_accepted(&self, reply: &Reply) -> (b: bool)
        ensures
            b == self.accepts(*reply),
    ;

    /// Takes the driver's answer and says what follows. Where the operation
    /// goes on, it will accept whatever the driver answers to the last of
    /// the calls that it asks for.
    fn advance(self, reply: Reply) -> (step: Step<Self, Self::Output>)
        requires
            self.accepts(reply),
        ensures
            step matches Step::Continue { calls, state } ==> {
                &&& calls@.len() > 0
                &&& forall|answer: Reply| #[trigger]
                    calls@.last().deep_view().answered_by(answer) ==> state.accepts(answer)
            },
    ;
}

/// Whether an operation in `state` accepts every answer that the driver can
/// give to the last of `calls`, of which there is at least one.
pub open spec fn awaited<S: Operation>(calls: Seq<CallView>, state: S) -> bool {
    &&& calls.len() > 0
    &&& forall|answer: Reply| #[trigger] calls.last().answered_by(answer) ==> state.accepts(answer)
}

/// What a list of calls says: the view of each, in order.
pub open spec fn views(calls: Seq<Call>) -> Seq<CallView> {
    Seq::new(calls.len(), |i: int| calls[i].deep_view())
}

/// A list of calls with one more pushed to it says what the list said, then
/// what the new call says.
pub proof fn lemma_views_push(calls: Seq<Call>, call: Call)
    ensures
        views(calls.push(call)) == views(calls).push(call.deep_view()),
{
    assert(views(calls.push(call)) =~= views(calls).push(call.deep_view()));
}

/// Two lists of calls, one after the other, say what the first said, then
/// what the second said.
pub proof fn lemma_views_concat(first: Seq<Call>, second: Seq<Call>)
    ensures
        views(first + second) == views(first) + views(second),
{
    assert(views(first + second) =~= views(first) + views(second));
}

/// The deep view of a vector of calls is the view of each call in order.
pub proof fn lemma_views_of_vec(calls: &Vec<Call>)
    ensures
        calls.deep_view() == views(calls@),
{
    assert(calls.deep_view() =~= views(calls@));
}

/// What a list of calls has bound in the graphics context so far. `None`
/// stands for a binding that the list has not made: whatever is bound there
/// was left by someone else.
pub struct Bindings {
    pub vertex_array: Option<u32>,
    pub array_buffer: Option<u32>,
    pub element_buffer: Option<u32>,
    pub texture: Option<u32>,
}

impl Bindings {
    /// The bindings before any call: nothing is known of the context.
    pub open spec fn unknown() -> Bindings {
        Bindings { vertex_array: None, array_buffer: None, element_buffer: None, texture: None }
    }

    /// The bindings once `call` is performed. The index buffer's binding
    /// belongs to the vertex array, so it is not known of a vertex array that
    /// has just been bound.
    pub open spec fn after(self, call: CallView) -> Bindings {
        match call {
            CallView::BindVertexArray { array } => Bindings {
                vertex_array: Some(array),
                element_buffer: None,
                ..self
            },
            CallView::BindBuffer { target, buffer } => if target == ARRAY_BUFFER {
                Bindings { array_buffer: Some(buffer), ..self }
            } else if target == ELEMENT_ARRAY_BUFFER {
                Bindings { element_buffer: Some(buffer), ..self }
            } else {
                self
            },
            CallView::BindTexture { target, texture } => if target == TEXTURE_2D {
                Bindings { texture: Some(texture), ..self }
            } else {
                self
            },
            _ => self,
        }
    }

    /// Whether every binding that `call` works through has been made: the
    /// buffer that is filled, the texture that is set up or filled, the
    /// vertex array whose attributes are declared, with the vertex buffer
    /// that they lie in, and the vertex array that is drawn.
    pub open spec fn serves(self, call: CallView) -> bool {
        match call {
            CallView::BufferData { target, .. } => {
                &&& target == ARRAY_BUFFER ==> self.array_buffer is Some
                &&& target == ELEMENT_ARRAY_BUFFER ==> self.element_buffer is Some
            },
            CallView::TexParameteri { target, .. } => target == TEXTURE_2D ==> self.texture is Some,
            CallView::TexImage2D { target, .. } => target == TEXTURE_2D ==> self.texture is Some,
            CallView::EnableVertexAttribArray { .. } => self.vertex_array is Some,
            CallView::VertexAttribPointer { .. } => self.vertex_array is Some
                && self.array_buffer is Some,
            CallView::DrawElements { .. } => self.vertex_array is Some,
            _ => true,
        }
    }

    /// The bindings once all of `calls` are performed, in order.
    pub open spec fn after_all(self, calls: Seq<CallView>) -> Bindings
        decreases calls.len(),
    {
        if calls.len() == 0 {
            self
        } else {
            self.after(calls[0]).after_all(calls.skip(1))
        }
    }

    /// Whether each of `calls`, performed in order, finds made every binding
    /// that it works through.
    pub open spec fn serves_all(self, calls: Seq<CallView>) -> bool
        decreases calls.len(),
    {
        calls.len() == 0 || (self.serves(calls[0]) && self.after(calls[0]).serves_all(
            calls.skip(1),
        ))
    }
}

/// Whether a list of calls relies on no binding but those it makes itself:
/// it can be performed whatever was bound before.
pub open spec fn self_contained(calls: Seq<CallView>) -> bool {
    Bindings::unknown().serves_all(calls)
}

/// Two lists of calls, one after the other, are served where the first is
/// and the second is by what the first leaves bound.
pub proof fn lemma_serves_concat(bindings: Bindings, first: Seq<CallView>, second: Seq<CallView>)
    ensures
        bindings.after_all(first + second) == bindings.after_all(first).after_all(second),
        bindings.serves_all(first + second) == (bindings.serves_all(first) && bindings.after_all(
            first,
        ).serves_all(second)),
    decreases first.len(),
{
    if first.len() == 0 {
        assert(first + second =~= second);
    } else {
        assert((first + second).skip(1) =~= first.skip(1) + second);
        lemma_serves_concat(bindings.after(first[0]), first.skip(1), second);
    }
}

} // verus!
