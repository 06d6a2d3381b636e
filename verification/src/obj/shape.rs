//! Shapes, which own geometry on the GPU, and objects, which place a shape in
//! the world.
use crate::driver::{
    awaited, lemma_serves_concat, lemma_views_concat, lemma_views_of_vec, lemma_views_push, self_contained,
    views, Bindings, Call, CallView, Operation, Reply, Step,
    ARRAY_BUFFER, ELEMENT_ARRAY_BUFFER, NO_OBJECT, STATIC_DRAW, TRIANGLES, UNSIGNED_INT,
};
use crate::obj::vertex::{
    law_layout_binds_its_vertex_array, layout_calls, Coords3D, Vertex, ONE,
};
use std::rc::Rc;
use vstd::prelude::*;

verus! {

/// The records of `vertices` one after the other, each as its flat sequence.
pub open spec fn vertex_words<T: Vertex>(vertices: Seq<T>) -> Seq<u32>
    decreases vertices.len(),
{
    if vertices.len() == 0 {
        Seq::empty()
    } else {
        vertex_words(vertices.drop_last()) + vertices.last().sequence()
    }
}

/// The corners of `triangles` one after the other, three to a triangle.
pub open spec fn index_words(triangles: Seq<(u32, u32, u32)>) -> Seq<u32>
    decreases triangles.len(),
{
    if triangles.len() == 0 {
        Seq::empty()
    } else {
        index_words(triangles.drop_last()) + seq![
            triangles.last().0,
            triangles.last().1,
            triangles.last().2,
        ]
    }
}

/// `n` records of `T` hold `n` times the floats of one.
pub proof fn lemma_vertex_words_len<T: Vertex>(vertices: Seq<T>)
    ensures
        vertex_words(vertices).len() == vertices.len() * T::spec_format().arity(),
    decreases vertices.len(),
{
    let arity = T::spec_format().arity();
    if vertices.len() > 0 {
        lemma_vertex_words_len(vertices.drop_last());
        vertices.last().lemma_arity();
        assert((vertices.len() - 1) * arity + arity == vertices.len() * arity) by (nonlinear_arith);
    }
}

/// `n` triangles hold `3 * n` indices.
pub proof fn lemma_index_words_len(triangles: Seq<(u32, u32, u32)>)
    ensures
        index_words(triangles).len() == 3 * triangles.len(),
    decreases triangles.len(),
{
    if triangles.len() > 0 {
        lemma_index_words_len(triangles.drop_last());
    }
}

/// The calls that fill a fresh buffer: bind it to `target`, hand over `data`,
/// four bytes to a word, and unbind.
pub open spec fn upload_calls(target: u32, buffer: u32, data: Seq<u32>) -> Seq<CallView> {
    seq![
        CallView::BindBuffer { target, buffer },
        CallView::BufferData { target, size: (4 * data.len()) as isize, data, usage: STATIC_DRAW },
        CallView::BindBuffer { target, buffer: NO_OBJECT },
    ]
}

/// The calls that draw `count` indices of the vertex array `vao` as
/// triangles, from the start of its index buffer.
pub open spec fn draw_calls(vao: u32, count: i32) -> Seq<CallView> {
    seq![
        CallView::BindVertexArray { array: vao },
        CallView::DrawElements { mode: TRIANGLES, count, kind: UNSIGNED_INT, offset: 0 },
    ]
}

/// What a shape holds.
pub struct ShapeView<T> {
    pub vertices: Seq<T>,
    pub triangles: Seq<(u32, u32, u32)>,
    /// Handle of the vertex buffer; 0 before setup.
    pub vbo: u32,
    /// Handle of the index buffer; 0 before setup.
    pub ebo: u32,
    /// Handle of the vertex array; 0 before setup.
    pub vao: u32,
}

/// One piece of geometry: vertices of one kind, triangles over them, and the
/// three GPU objects that hold them once the shape is set up.
pub struct Shape<T: Vertex> {
    verts: Vec<T>,
    triangles: Vec<(u32, u32, u32)>,
    vbo: u32,
    ebo: u32,
    vao: u32,
}

impl<T: Vertex> View for Shape<T> {
    type V = ShapeView<T>;

    closed spec fn view(&self) -> ShapeView<T> {
        ShapeView {
            vertices: self.verts@,
            triangles: self.triangles@,
            vbo: self.vbo,
            ebo: self.ebo,
            vao: self.vao,
        }
    }
}

impl<T: Vertex> Shape<T> {
    /// Whether the driver's argument types can express a shape of so many
    /// vertices and triangles: both buffers' sizes in bytes as a signed
    /// pointer-sized integer, the number of indices as a signed 32-bit one.
    pub open spec fn representable(vertices: nat, triangles: nat) -> bool {
        &&& vertices * T::spec_format().stride() <= isize::MAX
        &&& triangles * 12 <= isize::MAX
        &&& triangles * 3 <= i32::MAX
    }

    #[verifier::type_invariant]
    spec fn fits(&self) -> bool {
        Self::representable(self.verts@.len(), self.triangles@.len())
    }

    /// Computes `representable`.
    pub fn is_representable(vertices: usize, triangles: usize) -> (b: bool)
        ensures
            b == Self::representable(vertices as nat, triangles as nat),
    {
        let stride: i32 = T::format().record_size();
        assert(vertices * stride <= 0xffff_ffff_ffff_ffff * 36) by (nonlinear_arith)
            requires
                0 <= vertices <= 0xffff_ffff_ffff_ffff,
                0 <= stride <= 36,
        ;
        let vertex_bytes: u128 = vertices as u128 * stride as u128;
        let index_bytes: u128 = triangles as u128 * 12;
        vertex_bytes <= isize::MAX as u128 && index_bytes <= isize::MAX as u128 && triangles
            as u128 * 3 <= i32::MAX as u128
    }

    /// A shape of the given vertices and triangles, not yet on the GPU. The
    /// triangles' indices are taken as they are.
    pub fn from_vertices_and_triangle(verts: Vec<T>, triangles: Vec<(u32, u32, u32)>) -> (shape:
        Shape<T>)
        requires
            Self::representable(verts@.len(), triangles@.len()),
        ensures
            shape@ == (ShapeView {
                vertices: verts@,
                triangles: triangles@,
                vbo: NO_OBJECT,
                ebo: NO_OBJECT,
                vao: NO_OBJECT,
            }),
    {
        Shape { verts, triangles, ebo: 0, vbo: 0, vao: 0 }
    }

    /// Begins to put the shape on the GPU: asks for the first of its three
    /// objects.
    pub fn setup(self) -> (step: Step<Setup<T>, Shape<T>>)
        ensures
            step.calls() == seq![CallView::GenBuffers],
            step matches Step::Continue { state, .. } && state.shape() == self && state.awaiting()
                == Awaiting::VertexBuffer && awaited(step.calls(), state),
    {
        let mut calls: Vec<Call> = Vec::new();
        calls.push(Call::GenBuffers);
        assert(calls.deep_view() =~= seq![CallView::GenBuffers]);
        Step::Continue { calls, state: Setup { shape: self, awaiting: Awaiting::VertexBuffer } }
    }

    /// The vertices as one block of floats.
    fn vertex_data(&self) -> (data: Vec<u32>)
        ensures
            data@ == vertex_words(self@.vertices),
    {
        let mut data: Vec<u32> = Vec::new();
        let mut done: usize = 0;
        assert(self.verts@.take(0) =~= Seq::<T>::empty());
        while done < self.verts.len()
            invariant
                done <= self.verts.len(),
                data@ == vertex_words(self.verts@.take(done as int)),
            decreases self.verts.len() - done,
        {
            let mut record = self.verts[done].to_vec();
            data.append(&mut record);
            assert(self.verts@.take(done + 1).drop_last() =~= self.verts@.take(done as int));
            done += 1;
        }
        assert(self.verts@.take(done as int) =~= self.verts@);
        data
    }

    /// The triangles as one block of indices.
    fn index_data(&self) -> (data: Vec<u32>)
        ensures
            data@ == index_words(self@.triangles),
    {
        let mut data: Vec<u32> = Vec::new();
        let mut done: usize = 0;
        assert(self.triangles@.take(0) =~= Seq::<(u32, u32, u32)>::empty());
        while done < self.triangles.len()
            invariant
                done <= self.triangles.len(),
                data@ == index_words(self.triangles@.take(done as int)),
            decreases self.triangles.len() - done,
        {
            let triangle = self.triangles[done];
            let ghost before = data@;
            data.push(triangle.0);
            data.push(triangle.1);
            data.push(triangle.2);
            assert(data@ =~= before + seq![triangle.0, triangle.1, triangle.2]);
            assert(self.triangles@.take(done + 1).drop_last() =~= self.triangles@.take(
                done as int,
            ));
            done += 1;
        }
        assert(self.triangles@.take(done as int) =~= self.triangles@);
        data
    }

    /// Takes `vbo` for the vertex buffer. The calls that fill it: bind it,
    /// hand over the vertices, unbind.
    fn setup_vbo(&mut self, vbo: u32) -> (calls: Vec<Call>)
        ensures
            final(self)@ == (ShapeView { vbo, ..old(self)@ }),
            views(calls@) == upload_calls(ARRAY_BUFFER, vbo, vertex_words(old(self)@.vertices)),
    {
        proof {
            use_type_invariant(&*self);
            lemma_vertex_words_len(self.verts@);
            assert(self.verts@.len() * (4 * T::spec_format().arity()) == 4 * (self.verts@.len()
                * T::spec_format().arity())) by (nonlinear_arith);
        }
        self.vbo = vbo;
        upload(ARRAY_BUFFER, vbo, self.vertex_data())
    }

    /// Takes `ebo` for the index buffer. The calls that fill it: bind it,
    /// hand over the triangles, unbind.
    fn setup_ebo(&mut self, ebo: u32) -> (calls: Vec<Call>)
        ensures
            final(self)@ == (ShapeView { ebo, ..old(self)@ }),
            views(calls@) == upload_calls(
                ELEMENT_ARRAY_BUFFER,
                ebo,
                index_words(old(self)@.triangles),
            ),
    {
        proof {
            use_type_invariant(&*self);
            lemma_index_words_len(self.triangles@);
        }
        self.ebo = ebo;
        upload(ELEMENT_ARRAY_BUFFER, ebo, self.index_data())
    }

    /// Takes `vao` for the vertex array. The calls that set it up: bind it
    /// and both buffers, declare the layout of the vertices, and unbind, the
    /// index buffer after the vertex array, which would else forget it.
    fn setup_vao(&mut self, vao: u32) -> (calls: Vec<Call>)
        ensures
            final(self)@ == (ShapeView { vao, ..old(self)@ }),
            views(calls@) == Setup::<T>::vertex_array_calls(old(self)@, vao),
    {
        proof {
            use_type_invariant(&*self);
        }
        self.vao = vao;
        let mut calls: Vec<Call> = Vec::new();
        calls.push(Call::BindVertexArray { array: vao });
        calls.push(Call::BindBuffer { target: ARRAY_BUFFER, buffer: self.vbo });
        calls.push(Call::BindBuffer { target: ELEMENT_ARRAY_BUFFER, buffer: self.ebo });
        let mut layout = T::configure_vao(vao);
        let ghost head = calls@;
        let ghost middle = layout@;
        proof {
            lemma_views_of_vec(&layout);
        }
        calls.append(&mut layout);
        let ghost joined = calls@;
        calls.push(Call::BindBuffer { target: ARRAY_BUFFER, buffer: NO_OBJECT });
        calls.push(Call::BindVertexArray { array: NO_OBJECT });
        calls.push(Call::BindBuffer { target: ELEMENT_ARRAY_BUFFER, buffer: NO_OBJECT });
        proof {
            lemma_views_concat(head, middle);
            assert(views(calls@) =~= views(joined) + seq![
                CallView::BindBuffer { target: ARRAY_BUFFER, buffer: NO_OBJECT },
                CallView::BindVertexArray { array: NO_OBJECT },
                CallView::BindBuffer { target: ELEMENT_ARRAY_BUFFER, buffer: NO_OBJECT },
            ]);
            assert(views(head) =~= seq![
                CallView::BindVertexArray { array: vao },
                CallView::BindBuffer { target: ARRAY_BUFFER, buffer: self.vbo },
                CallView::BindBuffer { target: ELEMENT_ARRAY_BUFFER, buffer: self.ebo },
            ]);
        }
        calls
    }

    /// The call that binds this shape's vertex array.
    pub fn bind_vao(&self) -> (call: Call)
        ensures
            call.deep_view() == (CallView::BindVertexArray { array: self@.vao }),
    {
        Call::BindVertexArray { array: self.vao }
    }

    /// How many indices a draw of this shape covers: three to a triangle.
    pub fn index_count(&self) -> (count: i32)
        ensures
            count == 3 * self@.triangles.len(),
    {
        proof {
            use_type_invariant(self);
        }
        (self.triangles.len() * 3) as i32
    }

    /// The calls that draw this shape.
    pub open spec fn drawn(&self) -> Seq<CallView> {
        draw_calls(self@.vao, (3 * self@.triangles.len()) as i32)
    }

    /// The calls that draw this shape: bind its vertex array, then draw all
    /// of its triangles from the start of the index buffer.
    pub fn draw(&self) -> (calls: Vec<Call>)
        ensures
            3 * self@.triangles.len() <= i32::MAX,
            calls.deep_view() == self.drawn(),
    {
        let mut calls: Vec<Call> = Vec::new();
        calls.push(self.bind_vao());
        calls.push(
            Call::DrawElements {
                mode: TRIANGLES,
                count: self.index_count(),
                kind: UNSIGNED_INT,
                offset: 0,
            },
        );
        assert(calls.deep_view() =~= draw_calls(self@.vao, (3 * self@.triangles.len()) as i32));
        calls
    }

    /// The calls that free the shape's three GPU objects. The shape is gone
    /// with them.
    pub fn release(self) -> (calls: Vec<Call>)
        ensures
            calls.deep_view() == seq![
                CallView::DeleteVertexArrays { array: self@.vao },
                CallView::DeleteBuffers { buffer: self@.vbo },
                CallView::DeleteBuffers { buffer: self@.ebo },
            ],
    {
        let mut calls: Vec<Call> = Vec::new();
        calls.push(Call::DeleteVertexArrays { array: self.vao });
        calls.push(Call::DeleteBuffers { buffer: self.vbo });
        calls.push(Call::DeleteBuffers { buffer: self.ebo });
        assert(calls.deep_view() =~= seq![
            CallView::DeleteVertexArrays { array: self@.vao },
            CallView::DeleteBuffers { buffer: self@.vbo },
            CallView::DeleteBuffers { buffer: self@.ebo },
        ]);
        calls
    }
}

/// The GPU object whose handle a setup waits for.
#[derive(Copy, Clone, Debug, PartialEq, Eq)]
pub enum Awaiting {
    VertexBuffer,
    IndexBuffer,
    VertexArray,
}

/// A shape on its way onto the GPU.
pub struct Setup<T: Vertex> {
    shape: Shape<T>,
    awaiting: Awaiting,
}

/// The calls that fill `buffer`, bound to `target`, with `data`.
fn upload(target: u32, buffer: u32, data: Vec<u32>) -> (calls: Vec<Call>)
    requires
        4 * data@.len() <= isize::MAX,
    ensures
        calls@.len() == 3,
        views(calls@) == upload_calls(target, buffer, data@),
{
    let size: isize = (data.len() * 4) as isize;
    let mut calls: Vec<Call> = Vec::new();
    calls.push(Call::BindBuffer { target, buffer });
    calls.push(Call::BufferData { target, size, data, usage: STATIC_DRAW });
    calls.push(Call::BindBuffer { target, buffer: NO_OBJECT });
    assert(views(calls@) =~= upload_calls(target, buffer, data@));
    calls
}

impl<T: Vertex> Setup<T> {
    /// The shape being set up, with the handles it has so far.
    pub closed spec fn shape(&self) -> Shape<T> {
        self.shape
    }

    /// What the setup waits for.
    pub closed spec fn awaiting(&self) -> Awaiting {
        self.awaiting
    }

    /// The calls that follow the arrival of the vertex buffer's handle: fill
    /// the buffer with the vertices, then ask for the index buffer.
    pub open spec fn vertex_buffer_calls(shape: ShapeView<T>, vbo: u32) -> Seq<CallView> {
        upload_calls(ARRAY_BUFFER, vbo, vertex_words(shape.vertices)).push(CallView::GenBuffers)
    }

    /// The calls that follow the arrival of the index buffer's handle: fill
    /// the buffer with the triangles, then ask for the vertex array.
    pub open spec fn index_buffer_calls(shape: ShapeView<T>, ebo: u32) -> Seq<CallView> {
        upload_calls(ELEMENT_ARRAY_BUFFER, ebo, index_words(shape.triangles)).push(
            CallView::GenVertexArrays,
        )
    }

    /// The calls that follow the arrival of the vertex array's handle: bind
    /// it and both buffers, declare the layout of the vertices, and unbind,
    /// the index buffer last.
    pub open spec fn vertex_array_calls(shape: ShapeView<T>, vao: u32) -> Seq<CallView> {
        seq![
            CallView::BindVertexArray { array: vao },
            CallView::BindBuffer { target: ARRAY_BUFFER, buffer: shape.vbo },
            CallView::BindBuffer { target: ELEMENT_ARRAY_BUFFER, buffer: shape.ebo },
        ] + layout_calls(vao, T::spec_format()) + seq![
            CallView::BindBuffer { target: ARRAY_BUFFER, buffer: NO_OBJECT },
            CallView::BindVertexArray { array: NO_OBJECT },
            CallView::BindBuffer { target: ELEMENT_ARRAY_BUFFER, buffer: NO_OBJECT },
        ]
    }
}

impl<T: Vertex> Operation for Setup<T> {
    type Output = Shape<T>;

    /// Whether `reply` is an answer to the last call of the step before: the
    /// handle of a new object.
    open spec fn accepts(&self, reply: Reply) -> bool {
        reply is Handle
    }

    fn is_accepted(&self, reply: &Reply) -> (b: bool) {
        match reply {
            Reply::Handle(_) => true,
            _ => false,
        }
    }

    /// Takes the handle that the driver gave and says what to do with it.
    fn advance(self, reply: Reply) -> (step: Step<Setup<T>, Shape<T>>)
        ensures
            match self.awaiting() {
                Awaiting::VertexBuffer => {
                    &&& step.calls() == Setup::<T>::vertex_buffer_calls(self.shape()@, reply->Handle_0)
                    &&& step matches Step::Continue { state, .. }
                    &&& state.awaiting() == Awaiting::IndexBuffer
                    &&& state.shape()@ == (ShapeView { vbo: reply->Handle_0, ..self.shape()@ })
                },
                Awaiting::IndexBuffer => {
                    &&& step.calls() == Setup::<T>::index_buffer_calls(self.shape()@, reply->Handle_0)
                    &&& step matches Step::Continue { state, .. }
                    &&& state.awaiting() == Awaiting::VertexArray
                    &&& state.shape()@ == (ShapeView { ebo: reply->Handle_0, ..self.shape()@ })
                },
                Awaiting::VertexArray => {
                    &&& step.calls() == Setup::<T>::vertex_array_calls(self.shape()@, reply->Handle_0)
                    &&& step matches Step::Finish { result, .. }
                    &&& result@ == (ShapeView { vao: reply->Handle_0, ..self.shape()@ })
                },
            },
    {
        let handle: u32 = match reply {
            Reply::Handle(handle) => handle,
            _ => vstd::pervasive::unreached(),
        };
        let mut shape = self.shape;
        match self.awaiting {
            Awaiting::VertexBuffer => {
                let mut calls = shape.setup_vbo(handle);
                let ghost before = calls@;
                calls.push(Call::GenBuffers);
                proof {
                    lemma_views_push(before, calls@.last());
                    lemma_views_of_vec(&calls);
                }
                Step::Continue { calls, state: Setup { shape, awaiting: Awaiting::IndexBuffer } }
            },
            Awaiting::IndexBuffer => {
                let mut calls = shape.setup_ebo(handle);
                let ghost before = calls@;
                calls.push(Call::GenVertexArrays);
                proof {
                    lemma_views_push(before, calls@.last());
                    lemma_views_of_vec(&calls);
                }
                Step::Continue { calls, state: Setup { shape, awaiting: Awaiting::VertexArray } }
            },
            Awaiting::VertexArray => {
                let calls = shape.setup_vao(handle);
                proof {
                    lemma_views_of_vec(&calls);
                }
                Step::Finish { calls, result: shape }
            },
        }
    }
}

/// `Rc::clone`: one more pointer to the same shape, so the shape that it
/// points to is the one that `shape` points to.
#[verifier::external_body]
fn share<T: Vertex>(shape: &Rc<Shape<T>>) -> (shared: Rc<Shape<T>>)
    ensures
        shared == *shape,
{
    Rc::clone(shape)
}

/// The uniforms through which an object hands its transform to the shaders.
#[derive(Copy, Clone, Debug, PartialEq, Eq)]
pub enum Uniform {
    Translation,
    Rotation,
    Scale,
}

impl Uniform {
    /// The name by which the shaders declare this uniform.
    pub open spec fn spec_name(self) -> Seq<char> {
        match self {
            Uniform::Translation => "translation"@,
            Uniform::Rotation => "rotation"@,
            Uniform::Scale => "scale"@,
        }
    }

    pub fn name(self) -> (name: String)
        ensures
            name@ == self.spec_name(),
    {
        match self {
            Uniform::Translation => String::from_str("translation"),
            Uniform::Rotation => String::from_str("rotation"),
            Uniform::Scale => String::from_str("scale"),
        }
    }
}

/// One instance of a shape in the world. Many objects may share a shape; each
/// has a rotation, a translation and a scale of its own.
pub struct Object<T: Vertex> {
    pub shape: Rc<Shape<T>>,
    pub rotation: Coords3D,
    pub translation: Coords3D,
    pub scale: Coords3D,
}

/// An object's draw, under way: what is still to be handed to the driver.
#[derive(Copy, Clone, Debug, PartialEq, Eq)]
pub struct Draw {
    /// The uniform whose location the draw waits for.
    pub awaiting: Uniform,
    /// The program whose uniforms are set.
    pub program: u32,
    pub translation: Coords3D,
    pub rotation: Coords3D,
    pub scale: Coords3D,
    /// The vertex array of the object's shape.
    pub vao: u32,
    /// The number of indices of the object's shape.
    pub count: i32,
}

/// The call that asks where `uniform` lies in `program`.
pub open spec fn lookup_call(program: u32, uniform: Uniform) -> CallView {
    CallView::GetUniformLocation { program, name: uniform.spec_name() }
}

/// The call that sets the uniform at `location` to `value`.
pub open spec fn upload_call(location: i32, value: Coords3D) -> CallView {
    CallView::Uniform3f { location, x: value.x, y: value.y, z: value.z }
}

fn lookup(program: u32, uniform: Uniform) -> (call: Call)
    ensures
        call.deep_view() == lookup_call(program, uniform),
{
    Call::GetUniformLocation { program, name: uniform.name() }
}

fn upload_vector(location: i32, value: Coords3D) -> (call: Call)
    ensures
        call.deep_view() == upload_call(location, value),
{
    Call::Uniform3f { location, x: value.x, y: value.y, z: value.z }
}

impl<T: Vertex> Object<T> {
    /// The shape that this object is an instance of.
    pub open spec fn shape(&self) -> Shape<T> {
        *self.shape
    }

    /// The state in which a draw of this object with `program` begins.
    pub open spec fn drawing(&self, program: u32) -> Draw {
        Draw {
            awaiting: Uniform::Translation,
            program,
            translation: self.translation,
            rotation: self.rotation,
            scale: self.scale,
            vao: self.shape()@.vao,
            count: (3 * self.shape()@.triangles.len()) as i32,
        }
    }

    /// A new instance of `shape`, placed as the shape was assembled: not
    /// turned, not moved, and of the shape's own size. Every component of
    /// its rotation and of its translation is 0.0, every component of its
    /// scale 1.0.
    pub fn new(shape: &Rc<Shape<T>>) -> (object: Object<T>)
        ensures
            object.shape() == **shape,
            object.rotation == (Coords3D { x: 0, y: 0, z: 0 }),
            object.translation == (Coords3D { x: 0, y: 0, z: 0 }),
            object.scale == (Coords3D { x: ONE, y: ONE, z: ONE }),
    {
        Object {
            shape: share(shape),
            rotation: Coords3D::new(0, 0, 0),
            translation: Coords3D::new(0, 0, 0),
            scale: Coords3D::new(ONE, ONE, ONE),
        }
    }

    /// Begins a draw of this object with the program `shader_program_id`:
    /// asks where the program keeps the translation.
    pub fn draw(&self, shader_program_id: u32) -> (step: Step<Draw, ()>)
        ensures
            3 * self.shape()@.triangles.len() <= i32::MAX,
            step.calls() == seq![lookup_call(shader_program_id, Uniform::Translation)],
            step matches Step::Continue { state, .. } && state == self.drawing(shader_program_id)
                && awaited(step.calls(), state),
    {
        let state = Draw {
            awaiting: Uniform::Translation,
            program: shader_program_id,
            translation: self.translation,
            rotation: self.rotation,
            scale: self.scale,
            vao: self.shape.vao,
            count: self.shape.index_count(),
        };
        let mut calls: Vec<Call> = Vec::new();
        calls.push(lookup(shader_program_id, Uniform::Translation));
        assert(calls.deep_view() =~= seq![lookup_call(shader_program_id, Uniform::Translation)]);
        Step::Continue { calls, state }
    }
}

impl Draw {
    /// The calls that draw the object's shape.
    pub open spec fn geometry(self) -> Seq<CallView> {
        draw_calls(self.vao, self.count)
    }
}

impl Operation for Draw {
    type Output = ();

    /// Whether `reply` is an answer to the last call of the step before: the
    /// location of a uniform.
    open spec fn accepts(&self, reply: Reply) -> bool {
        reply is Value
    }

    fn is_accepted(&self, reply: &Reply) -> (b: bool) {
        match reply {
            Reply::Value(_) => true,
            _ => false,
        }
    }

    /// Takes the location that the driver gave for the awaited uniform: sets
    /// that uniform to the object's value, then asks for the next uniform
    /// or, after the last, draws the shape.
    fn advance(self, reply: Reply) -> (step: Step<Draw, ()>)
        ensures
            match self.awaiting {
                Uniform::Translation => {
                    &&& step.calls() == seq![
                        upload_call(reply->Value_0, self.translation),
                        lookup_call(self.program, Uniform::Rotation),
                    ]
                    &&& step matches Step::Continue { state, .. }
                    &&& state == (Draw { awaiting: Uniform::Rotation, ..self })
                },
                Uniform::Rotation => {
                    &&& step.calls() == seq![
                        upload_call(reply->Value_0, self.rotation),
                        lookup_call(self.program, Uniform::Scale),
                    ]
                    &&& step matches Step::Continue { state, .. }
                    &&& state == (Draw { awaiting: Uniform::Scale, ..self })
                },
                Uniform::Scale => {
                    &&& step.calls() == seq![upload_call(reply->Value_0, self.scale)]
                        + self.geometry()
                    &&& step is Finish
                },
            },
    {
        let location: i32 = match reply {
            Reply::Value(location) => location,
            _ => vstd::pervasive::unreached(),
        };
        let mut calls: Vec<Call> = Vec::new();
        match self.awaiting {
            Uniform::Translation => {
                calls.push(upload_vector(location, self.translation));
                calls.push(lookup(self.program, Uniform::Rotation));
                assert(calls.deep_view() =~= seq![
                    upload_call(location, self.translation),
                    lookup_call(self.program, Uniform::Rotation),
                ]);
                Step::Continue { calls, state: Draw { awaiting: Uniform::Rotation, ..self } }
            },
            Uniform::Rotation => {
                calls.push(upload_vector(location, self.rotation));
                calls.push(lookup(self.program, Uniform::Scale));
                assert(calls.deep_view() =~= seq![
                    upload_call(location, self.rotation),
                    lookup_call(self.program, Uniform::Scale),
                ]);
                Step::Continue { calls, state: Draw { awaiting: Uniform::Scale, ..self } }
            },
            Uniform::Scale => {
                calls.push(upload_vector(location, self.scale));
                calls.push(Call::BindVertexArray { array: self.vao });
                calls.push(
                    Call::DrawElements {
                        mode: TRIANGLES,
                        count: self.count,
                        kind: UNSIGNED_INT,
                        offset: 0,
                    },
                );
                assert(calls.deep_view() =~= seq![upload_call(location, self.scale)]
                    + self.geometry());
                Step::Finish { calls, result: () }
            },
        }
    }
}

/// A shape of `M` triangles that the driver's types can express draws
/// exactly `3 * M` indices, as triangles and of the unsigned 32-bit kind,
/// however many vertices it has and whether or not it is set up.
pub proof fn law_draw_covers_every_triangle<T: Vertex>(shape: Shape<T>)
    requires
        Shape::<T>::representable(shape@.vertices.len(), shape@.triangles.len()),
    ensures
        shape.drawn().len() == 2,
        shape.drawn()[1] matches CallView::DrawElements { mode, count, kind, offset }
            && mode == TRIANGLES && count == 3 * shape@.triangles.len() && kind == UNSIGNED_INT
            && offset == 0,
{
}

/// Two objects of one shape draw the same geometry, whatever the transform
/// of each and whatever program each is drawn with; and what an object hands
/// to the shaders is its own rotation, translation and scale.
pub proof fn law_instances_share_geometry<T: Vertex>(
    first: Object<T>,
    second: Object<T>,
    first_program: u32,
    second_program: u32,
)
    requires
        first.shape() == second.shape(),
    ensures
        first.drawing(first_program).geometry() == second.drawing(second_program).geometry(),
        first.drawing(first_program).geometry() == first.shape().drawn(),
        first.drawing(first_program).translation == first.translation,
        first.drawing(first_program).rotation == first.rotation,
        first.drawing(first_program).scale == first.scale,
        second.drawing(second_program).translation == second.translation,
        second.drawing(second_program).rotation == second.rotation,
        second.drawing(second_program).scale == second.scale,
{
}

/// A draw binds what it draws: the calls that draw a shape rely on nothing
/// that was bound before them.
pub proof fn law_draw_binds_what_it_draws<T: Vertex>(shape: Shape<T>)
    ensures
        self_contained(shape.drawn()),
{
    reveal_with_fuel(Bindings::serves_all, 3);
}

/// Every step of a setup binds what it works on: the calls of each step rely
/// on nothing that was bound before them, whatever handles the driver gave.
pub proof fn law_setup_binds_what_it_fills<T: Vertex>(shape: ShapeView<T>, handle: u32)
    ensures
        self_contained(Setup::<T>::vertex_buffer_calls(shape, handle)),
        self_contained(Setup::<T>::index_buffer_calls(shape, handle)),
        self_contained(Setup::<T>::vertex_array_calls(shape, handle)),
{
    reveal_with_fuel(Bindings::serves_all, 5);
    reveal_with_fuel(Bindings::after_all, 5);
    let bind = seq![
        CallView::BindVertexArray { array: handle },
        CallView::BindBuffer { target: ARRAY_BUFFER, buffer: shape.vbo },
        CallView::BindBuffer { target: ELEMENT_ARRAY_BUFFER, buffer: shape.ebo },
    ];
    let layout = layout_calls(handle, T::spec_format());
    let unbind = seq![
        CallView::BindBuffer { target: ARRAY_BUFFER, buffer: NO_OBJECT },
        CallView::BindVertexArray { array: NO_OBJECT },
        CallView::BindBuffer { target: ELEMENT_ARRAY_BUFFER, buffer: NO_OBJECT },
    ];
    let bound = Bindings::unknown().after_all(bind);
    law_layout_binds_its_vertex_array(bound, handle, T::spec_format());
    lemma_serves_concat(Bindings::unknown(), bind, layout);
    lemma_serves_concat(Bindings::unknown(), bind + layout, unbind);
}

} // verus!
