//! Shader stages: compiling one from source text, and what to make of the
//! driver's verdict.
use crate::driver::{
    awaited, Call, CallView, Operation, Reply, Step, COMPILE_STATUS, FRAGMENT_SHADER, INFO_LOG_LENGTH, VERTEX_SHADER,
};
use crate::ffi_utils::{
    create_whitespace_cstring_of_len, decode_lossy, lossy_text, nul_free, whitespace, CText,
};
use crate::resources::{load_failure, load_failure_message, Error};
use vstd::prelude::*;

verus! {

/// The stage that a shader is written for.
#[derive(Copy, Clone, Debug, PartialEq, Eq)]
pub enum ShaderKind {
    Vertex,
    Fragment,
}

impl ShaderKind {
    /// The driver's number for this stage.
    pub open spec fn stage(self) -> u32 {
        match self {
            ShaderKind::Vertex => VERTEX_SHADER,
            ShaderKind::Fragment => FRAGMENT_SHADER,
        }
    }

    /// Computes `stage`.
    pub fn gl_enum(self) -> (kind: u32)
        ensures
            kind == self.stage(),
    {
        match self {
            ShaderKind::Vertex => VERTEX_SHADER,
            ShaderKind::Fragment => FRAGMENT_SHADER,
        }
    }
}

/// Whether `text` ends with `suffix`.
pub open spec fn ends_with(text: Seq<char>, suffix: Seq<char>) -> bool {
    suffix.len() <= text.len() && text.skip(text.len() - suffix.len()) == suffix
}

/// The stage that a resource's name stands for: a name that ends in `.vert`
/// is a vertex shader, one that ends in `.frag` a fragment shader.
pub open spec fn kind_of(name: Seq<char>) -> Option<ShaderKind> {
    if ends_with(name, ".vert"@) {
        Some(ShaderKind::Vertex)
    } else if ends_with(name, ".frag"@) {
        Some(ShaderKind::Fragment)
    } else {
        None
    }
}

/// The message for a resource whose name stands for no stage.
pub open spec fn unknown_kind(name: Seq<char>) -> Seq<char> {
    "Can not determine shader type for resource "@ + name
}

fn has_suffix(text: &str, suffix: &str) -> (b: bool)
    ensures
        b == ends_with(text@, suffix@),
{
    let length = text.unicode_len();
    let tail = suffix.unicode_len();
    if tail > length {
        return false;
    }
    let first = length - tail;
    let mut matched: usize = 0;
    while matched < tail
        invariant
            length == text@.len(),
            tail == suffix@.len(),
            first == length - tail,
            matched <= tail,
            forall|i: int| 0 <= i < matched ==> text@[first + i] == suffix@[i],
        decreases tail - matched,
    {
        if text.get_char(first + matched) != suffix.get_char(matched) {
            assert(text@.skip(first as int)[matched as int] != suffix@[matched as int]);
            return false;
        }
        matched += 1;
    }
    assert(text@.skip(first as int) =~= suffix@);
    true
}

/// A compiled shader stage on the GPU.
#[derive(Debug, PartialEq, Eq)]
pub struct Shader {
    id: u32,
}

impl View for Shader {
    type V = u32;

    /// The shader's handle.
    closed spec fn view(&self) -> u32 {
        self.id
    }
}

/// A compilation under way.
#[derive(Debug, PartialEq, Eq)]
pub enum Compile {
    /// A shader was asked for; its handle is awaited.
    Created { source: CText },
    /// The source was handed over and compiled; the verdict is awaited.
    Compiled { shader: u32 },
    /// The compilation failed; the length of the diagnostic is awaited.
    Failed { shader: u32 },
    /// The diagnostic was asked for; its text is awaited.
    Logged { shader: u32 },
}

impl Shader {
    /// Begins to compile `source` as a shader of the given kind: asks for a
    /// new shader of that kind.
    fn from_source(source: CText, shader_type: ShaderKind) -> (step: Step<
        Compile,
        Result<Shader, String>,
    >)
        ensures
            step.calls() == seq![CallView::CreateShader { kind: shader_type.stage() }],
            step matches Step::Continue { state, .. } && state == (Compile::Created { source })
                && awaited(step.calls(), state),
    {
        let mut calls: Vec<Call> = Vec::new();
        calls.push(Call::CreateShader { kind: shader_type.gl_enum() });
        assert(calls.deep_view() =~= seq![CallView::CreateShader { kind: shader_type.stage() }]);
        Step::Continue { calls, state: Compile::Created { source } }
    }

    /// Begins to compile `source` as a vertex shader.
    pub fn from_vert_source(source: CText) -> (step: Step<Compile, Result<Shader, String>>)
        ensures
            step.calls() == seq![CallView::CreateShader { kind: VERTEX_SHADER }],
            step matches Step::Continue { state, .. } && state == (Compile::Created { source })
                && awaited(step.calls(), state),
    {
        Shader::from_source(source, ShaderKind::Vertex)
    }

    /// Begins to compile `source` as a fragment shader.
    pub fn from_frag_source(source: CText) -> (step: Step<Compile, Result<Shader, String>>)
        ensures
            step.calls() == seq![CallView::CreateShader { kind: FRAGMENT_SHADER }],
            step matches Step::Continue { state, .. } && state == (Compile::Created { source })
                && awaited(step.calls(), state),
    {
        Shader::from_source(source, ShaderKind::Fragment)
    }

    /// The stage that the resource `name` is to be compiled for, by the end
    /// of its name; for a name that stands for none, the message that says so.
    pub fn kind_for(name: &str) -> (r: Result<ShaderKind, String>)
        ensures
            match kind_of(name@) {
                Some(kind) => r == Ok::<ShaderKind, String>(kind),
                None => r matches Err(message) && message@ == unknown_kind(name@),
            },
    {
        if has_suffix(name, ".vert") {
            Ok(ShaderKind::Vertex)
        } else if has_suffix(name, ".frag") {
            Ok(ShaderKind::Fragment)
        } else {
            Err(String::from_str("Can not determine shader type for resource ").concat(name))
        }
    }

    /// Begins to compile the resource `name`, given what loading it gave. The
    /// name must stand for a stage and the resource must have loaded; where
    /// not, nothing is asked of the driver.
    pub fn from_resource(name: &str, loaded: Result<CText, Error>) -> (step: Step<
        Compile,
        Result<Shader, String>,
    >)
        ensures
            match (kind_of(name@), loaded) {
                (None, _) => {
                    &&& step.calls() == Seq::<CallView>::empty()
                    &&& step matches Step::Finish { result: Err(message), .. }
                    &&& message@ == unknown_kind(name@)
                },
                (Some(_), Err(error)) => {
                    &&& step.calls() == Seq::<CallView>::empty()
                    &&& step matches Step::Finish { result: Err(message), .. }
                    &&& exists|text: Seq<char>|
                        error.named_by(text) && message@ == load_failure(name@, text)
                },
                (Some(kind), Ok(source)) => {
                    &&& step.calls() == seq![CallView::CreateShader { kind: kind.stage() }]
                    &&& step matches Step::Continue { state, .. }
                    &&& state == (Compile::Created { source })
                    &&& awaited(step.calls(), state)
                },
            },
    {
        let shader_type = match Shader::kind_for(name) {
            Ok(kind) => kind,
            Err(message) => {
                let calls: Vec<Call> = Vec::new();
                assert(calls.deep_view() =~= Seq::<CallView>::empty());
                return Step::Finish { calls, result: Err(message) };
            },
        };
        match loaded {
            Ok(source) => Shader::from_source(source, shader_type),
            Err(error) => {
                let calls: Vec<Call> = Vec::new();
                assert(calls.deep_view() =~= Seq::<CallView>::empty());
                Step::Finish { calls, result: Err(load_failure_message(name, &error)) }
            },
        }
    }

    /// The shader's handle.
    pub fn id(&self) -> (id: u32)
        ensures
            id == self@,
    {
        self.id
    }

    /// The call that deletes the shader. The shader is gone with it.
    pub fn release(self) -> (call: Call)
        ensures
            call.deep_view() == (CallView::DeleteShader { shader: self@ }),
    {
        Call::DeleteShader { shader: self.id }
    }
}

impl Operation for Compile {
    type Output = Result<Shader, String>;

    /// Whether `reply` is an answer to the last call of the step before: a
    /// handle for the new shader, an integer for a query, a length that is
    /// not negative, a buffer for the diagnostic.
    open spec fn accepts(&self, reply: Reply) -> bool {
        match *self {
            Compile::Created { .. } => reply is Handle,
            Compile::Compiled { .. } => reply is Value,
            Compile::Failed { .. } => reply matches Reply::Value(length) && length >= 0,
            Compile::Logged { .. } => reply is Bytes,
        }
    }

    fn is_accepted(&self, reply: &Reply) -> (b: bool) {
        match (self, reply) {
            (Compile::Created { .. }, Reply::Handle(_)) => true,
            (Compile::Compiled { .. }, Reply::Value(_)) => true,
            (Compile::Failed { .. }, Reply::Value(length)) => *length >= 0,
            (Compile::Logged { .. }, Reply::Bytes(_)) => true,
            _ => false,
        }
    }

    /// Takes the driver's answer and says what follows.
    ///
    /// With its handle, the shader is given its source and compiled, and the
    /// verdict asked for. A verdict other than 0 is success, and the shader
    /// is there. After a verdict of 0 the diagnostic's length is asked for,
    /// then the diagnostic itself, into a buffer of that length; the shader
    /// is then deleted, and the diagnostic's text is the error.
    fn advance(self, reply: Reply) -> (step: Step<Compile, Result<Shader, String>>)
        ensures
            match (self, reply) {
                (Compile::Created { source }, Reply::Handle(shader)) => {
                    &&& step.calls() == seq![
                        CallView::ShaderSource { shader, source: source@ },
                        CallView::CompileShader { shader },
                        CallView::GetShaderiv { shader, pname: COMPILE_STATUS },
                    ]
                    &&& nul_free(source@)
                    &&& step matches Step::Continue { state, .. }
                    &&& state == (Compile::Compiled { shader })
                },
                (Compile::Compiled { shader }, Reply::Value(status)) => if status == 0 {
                    &&& step.calls() == seq![
                        CallView::GetShaderiv { shader, pname: INFO_LOG_LENGTH },
                    ]
                    &&& step matches Step::Continue { state, .. }
                    &&& state == (Compile::Failed { shader })
                } else {
                    &&& step.calls() == Seq::<CallView>::empty()
                    &&& step matches Step::Finish { result: Ok(compiled), .. }
                    &&& compiled@ == shader
                },
                (Compile::Failed { shader }, Reply::Value(length)) => {
                    &&& step.calls() == seq![
                        CallView::GetShaderInfoLog {
                            shader,
                            max_length: length,
                            buffer: whitespace(length as nat),
                        },
                    ]
                    &&& step matches Step::Continue { state, .. }
                    &&& state == (Compile::Logged { shader })
                },
                (Compile::Logged { shader }, Reply::Bytes(log)) => {
                    &&& step.calls() == seq![CallView::DeleteShader { shader }]
                    &&& step matches Step::Finish { result: Err(message), .. }
                    &&& message@ == lossy_text(log@)
                },
                _ => true,
            },
    {
        let mut calls: Vec<Call> = Vec::new();
        match (self, reply) {
            (Compile::Created { source }, Reply::Handle(shader)) => {
                let ghost text = source@;
                calls.push(Call::ShaderSource { shader, source: source.into_bytes() });
                calls.push(Call::CompileShader { shader });
                calls.push(Call::GetShaderiv { shader, pname: COMPILE_STATUS });
                assert(calls.deep_view() =~= seq![
                    CallView::ShaderSource { shader, source: text },
                    CallView::CompileShader { shader },
                    CallView::GetShaderiv { shader, pname: COMPILE_STATUS },
                ]);
                Step::Continue { calls, state: Compile::Compiled { shader } }
            },
            (Compile::Compiled { shader }, Reply::Value(status)) => {
                if status == 0 {
                    calls.push(Call::GetShaderiv { shader, pname: INFO_LOG_LENGTH });
                    assert(calls.deep_view() =~= seq![
                        CallView::GetShaderiv { shader, pname: INFO_LOG_LENGTH },
                    ]);
                    Step::Continue { calls, state: Compile::Failed { shader } }
                } else {
                    assert(calls.deep_view() =~= Seq::<CallView>::empty());
                    Step::Finish { calls, result: Ok(Shader { id: shader }) }
                }
            },
            (Compile::Failed { shader }, Reply::Value(length)) => {
                let buffer = create_whitespace_cstring_of_len(length as usize);
                calls.push(Call::GetShaderInfoLog { shader, max_length: length, buffer });
                assert(calls.deep_view() =~= seq![
                    CallView::GetShaderInfoLog {
                        shader,
                        max_length: length,
                        buffer: whitespace(length as nat),
                    },
                ]);
                Step::Continue { calls, state: Compile::Logged { shader } }
            },
            (Compile::Logged { shader }, Reply::Bytes(log)) => {
                calls.push(Call::DeleteShader { shader });
                assert(calls.deep_view() =~= seq![CallView::DeleteShader { shader }]);
                Step::Finish { calls, result: Err(decode_lossy(log)) }
            },
            _ => vstd::pervasive::unreached(),
        }
    }
}

} // verus!
