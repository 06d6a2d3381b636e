//! Programs: linking compiled shaders into one, and what to make of the
//! driver's verdict.
use crate::driver::{
    awaited, lemma_views_of_vec, lemma_views_push, views, Call, CallView, Operation, Reply, Step, INFO_LOG_LENGTH,
    LINK_STATUS,
};
use crate::ffi_utils::{create_whitespace_cstring_of_len, decode_lossy, lossy_text, whitespace};
use crate::render::shader::Shader;
use vstd::prelude::*;

verus! {

/// A linked program on the GPU.
#[derive(Debug, PartialEq, Eq)]
pub struct Program {
    id: u32,
}

impl View for Program {
    type V = u32;

    /// The program's handle.
    closed spec fn view(&self) -> u32 {
        self.id
    }
}

/// A link under way.
#[derive(Debug, PartialEq, Eq)]
pub enum Link {
    /// A program was asked for; its handle is awaited.
    Created { shaders: Vec<u32> },
    /// The shaders were attached and linked; the verdict is awaited.
    Linked { program: u32, shaders: Vec<u32> },
    /// The link failed; the length of the diagnostic is awaited.
    Failed { program: u32 },
    /// The diagnostic was asked for; its text is awaited.
    Logged { program: u32 },
}

/// The handles of `shaders`, in order.
pub open spec fn handles(shaders: Seq<Shader>) -> Seq<u32> {
    Seq::new(shaders.len(), |i: int| shaders[i]@)
}

/// The calls that attach each of `shaders` to `program`, in order.
pub open spec fn attach_calls(program: u32, shaders: Seq<u32>) -> Seq<CallView> {
    Seq::new(shaders.len(), |i: int| CallView::AttachShader { program, shader: shaders[i] })
}

/// The calls that detach each of `shaders` from `program`, in order.
pub open spec fn detach_calls(program: u32, shaders: Seq<u32>) -> Seq<CallView> {
    Seq::new(shaders.len(), |i: int| CallView::DetachShader { program, shader: shaders[i] })
}

fn attach(program: u32, shaders: &Vec<u32>) -> (calls: Vec<Call>)
    ensures
        views(calls@) == attach_calls(program, shaders@),
{
    let mut calls: Vec<Call> = Vec::new();
    let mut done: usize = 0;
    while done < shaders.len()
        invariant
            done <= shaders.len(),
            views(calls@) =~= attach_calls(program, shaders@.take(done as int)),
        decreases shaders.len() - done,
    {
        let ghost before = calls@;
        calls.push(Call::AttachShader { program, shader: shaders[done] });
        proof {
            lemma_views_push(before, calls@.last());
        }
        done += 1;
    }
    assert(shaders@.take(done as int) =~= shaders@);
    calls
}

fn detach(program: u32, shaders: &Vec<u32>) -> (calls: Vec<Call>)
    ensures
        views(calls@) == detach_calls(program, shaders@),
{
    let mut calls: Vec<Call> = Vec::new();
    let mut done: usize = 0;
    while done < shaders.len()
        invariant
            done <= shaders.len(),
            views(calls@) =~= detach_calls(program, shaders@.take(done as int)),
        decreases shaders.len() - done,
    {
        let ghost before = calls@;
        calls.push(Call::DetachShader { program, shader: shaders[done] });
        proof {
            lemma_views_push(before, calls@.last());
        }
        done += 1;
    }
    assert(shaders@.take(done as int) =~= shaders@);
    calls
}

impl Program {
    /// Begins to link a program from `shaders`: asks for a new program.
    pub fn from_shaders(shaders: &[Shader]) -> (step: Step<Link, Result<Program, String>>)
        ensures
            step.calls() == seq![CallView::CreateProgram],
            step matches Step::Continue { state: Link::Created { shaders: held }, .. } && held@
                == handles(shaders@),
            step matches Step::Continue { state, .. } && awaited(step.calls(), state),
    {
        let mut held: Vec<u32> = Vec::new();
        let mut done: usize = 0;
        while done < shaders.len()
            invariant
                done <= shaders.len(),
                held@ =~= handles(shaders@.take(done as int)),
            decreases shaders.len() - done,
        {
            held.push(shaders[done].id());
            done += 1;
        }
        assert(shaders@.take(done as int) =~= shaders@);
        let mut calls: Vec<Call> = Vec::new();
        calls.push(Call::CreateProgram);
        assert(calls.deep_view() =~= seq![CallView::CreateProgram]);
        Step::Continue { calls, state: Link::Created { shaders: held } }
    }

    /// The program's handle.
    pub fn id(&self) -> (id: u32)
        ensures
            id == self@,
    {
        self.id
    }

    /// The call that makes this program the one that draws, until another
    /// is set.
    pub fn set(&self) -> (call: Call)
        ensures
            call.deep_view() == (CallView::UseProgram { program: self@ }),
    {
        Call::UseProgram { program: self.id }
    }

    /// The call that deletes the program. The program is gone with it.
    pub fn release(self) -> (call: Call)
        ensures
            call.deep_view() == (CallView::DeleteProgram { program: self@ }),
    {
        Call::DeleteProgram { program: self.id }
    }
}

impl Operation for Link {
    type Output = Result<Program, String>;

    /// Whether `reply` is an answer to the last call of the step before: a
    /// handle for the new program, an integer for a query, a length that is
    /// not negative, a buffer for the diagnostic.
    open spec fn accepts(&self, reply: Reply) -> bool {
        match *self {
            Link::Created { .. } => reply is Handle,
            Link::Linked { .. } => reply is Value,
            Link::Failed { .. } => reply matches Reply::Value(length) && length >= 0,
            Link::Logged { .. } => reply is Bytes,
        }
    }

    fn is_accepted(&self, reply: &Reply) -> (b: bool) {
        match (self, reply) {
            (Link::Created { .. }, Reply::Handle(_)) => true,
            (Link::Linked { .. }, Reply::Value(_)) => true,
            (Link::Failed { .. }, Reply::Value(length)) => *length >= 0,
            (Link::Logged { .. }, Reply::Bytes(_)) => true,
            _ => false,
        }
    }

    /// Takes the driver's answer and says what follows.
    ///
    /// With its handle, the program has every shader attached, is linked,
    /// and the verdict asked for. A verdict other than 0 is success: the
    /// shaders are detached and the program is there. After a verdict of 0
    /// the diagnostic's length is asked for, then the diagnostic itself, into
    /// a buffer of that length; the program is then deleted, and the
    /// diagnostic's text is the error.
    fn advance(self, reply: Reply) -> (step: Step<Link, Result<Program, String>>)
        ensures
            match (self, reply) {
                (Link::Created { shaders }, Reply::Handle(program)) => {
                    &&& step.calls() == attach_calls(program, shaders@) + seq![
                        CallView::LinkProgram { program },
                        CallView::GetProgramiv { program, pname: LINK_STATUS },
                    ]
                    &&& step matches Step::Continue { state, .. }
                    &&& state == (Link::Linked { program, shaders })
                },
                (Link::Linked { program, shaders }, Reply::Value(status)) => if status == 0 {
                    &&& step.calls() == seq![
                        CallView::GetProgramiv { program, pname: INFO_LOG_LENGTH },
                    ]
                    &&& step matches Step::Continue { state, .. }
                    &&& state == (Link::Failed { program })
                } else {
                    &&& step.calls() == detach_calls(program, shaders@)
                    &&& step matches Step::Finish { result: Ok(linked), .. }
                    &&& linked@ == program
                },
                (Link::Failed { program }, Reply::Value(length)) => {
                    &&& step.calls() == seq![
                        CallView::GetProgramInfoLog {
                            program,
                            max_length: length,
                            buffer: whitespace(length as nat),
                        },
                    ]
                    &&& step matches Step::Continue { state, .. }
                    &&& state == (Link::Logged { program })
                },
                (Link::Logged { program }, Reply::Bytes(log)) => {
                    &&& step.calls() == seq![CallView::DeleteProgram { program }]
                    &&& step matches Step::Finish { result: Err(message), .. }
                    &&& message@ == lossy_text(log@)
                },
                _ => true,
            },
    {
        match (self, reply) {
            (Link::Created { shaders }, Reply::Handle(program)) => {
                let mut calls = attach(program, &shaders);
                let ghost attached = calls@;
                calls.push(Call::LinkProgram { program });
                let ghost linked = calls@;
                calls.push(Call::GetProgramiv { program, pname: LINK_STATUS });
                proof {
                    lemma_views_push(attached, linked.last());
                    lemma_views_push(linked, calls@.last());
                    lemma_views_of_vec(&calls);
                    assert(calls.deep_view() =~= attach_calls(program, shaders@) + seq![
                        CallView::LinkProgram { program },
                        CallView::GetProgramiv { program, pname: LINK_STATUS },
                    ]);
                }
                Step::Continue { calls, state: Link::Linked { program, shaders } }
            },
            (Link::Linked { program, shaders }, Reply::Value(status)) => {
                if status == 0 {
                    let mut calls: Vec<Call> = Vec::new();
                    calls.push(Call::GetProgramiv { program, pname: INFO_LOG_LENGTH });
                    assert(calls.deep_view() =~= seq![
                        CallView::GetProgramiv { program, pname: INFO_LOG_LENGTH },
                    ]);
                    Step::Continue { calls, state: Link::Failed { program } }
                } else {
                    let calls = detach(program, &shaders);
                    proof {
                        lemma_views_of_vec(&calls);
                    }
                    Step::Finish { calls, result: Ok(Program { id: program }) }
                }
            },
            (Link::Failed { program }, Reply::Value(length)) => {
                let buffer = create_whitespace_cstring_of_len(length as usize);
                let mut calls: Vec<Call> = Vec::new();
                calls.push(Call::GetProgramInfoLog { program, max_length: length, buffer });
                assert(calls.deep_view() =~= seq![
                    CallView::GetProgramInfoLog {
                        program,
                        max_length: length,
                        buffer: whitespace(length as nat),
                    },
                ]);
                Step::Continue { calls, state: Link::Logged { program } }
            },
            (Link::Logged { program }, Reply::Bytes(log)) => {
                let mut calls: Vec<Call> = Vec::new();
                calls.push(Call::DeleteProgram { program });
                assert(calls.deep_view() =~= seq![CallView::DeleteProgram { program }]);
                Step::Finish { calls, result: Err(decode_lossy(log)) }
            },
            _ => vstd::pervasive::unreached(),
        }
    }
}

} // verus!
