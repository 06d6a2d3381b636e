use rusty_craft::driver::{
    Call, Operation, Reply, Step, ARRAY_BUFFER, ELEMENT_ARRAY_BUFFER, FALSE, FLOAT, STATIC_DRAW,
    TRIANGLES, UNSIGNED_INT,
};
use rusty_craft::obj::shape::{Object, Shape, Uniform};
use rusty_craft::obj::vertex::{Coords3D, Vertex, VertexP, VertexPC, VertexPCT, VertexPT, ONE};
use std::rc::Rc;

/// A driver that hands out handles 1, 2, 3, ..., knows the uniforms it is
/// told of, and keeps every call it is given.
struct Scripted {
    calls: Vec<Call>,
    /// Where in `calls` each step began.
    steps: Vec<usize>,
    handles: u32,
    uniforms: Vec<(String, i32)>,
}

impl Scripted {
    fn new() -> Scripted {
        Scripted { calls: Vec::new(), steps: Vec::new(), handles: 0, uniforms: Vec::new() }
    }

    fn with_uniforms(uniforms: &[(&str, i32)]) -> Scripted {
        let mut driver = Scripted::new();
        driver.uniforms = uniforms.iter().map(|(name, at)| (name.to_string(), *at)).collect();
        driver
    }

    fn execute(&mut self, call: Call) -> Reply {
        let reply = match &call {
            Call::GenBuffers | Call::GenVertexArrays => {
                self.handles += 1;
                Reply::Handle(self.handles)
            }
            Call::GetUniformLocation { name, .. } => {
                let found = self.uniforms.iter().find(|(known, _)| known == name);
                Reply::Value(found.map(|(_, at)| *at).unwrap_or(-1))
            }
            _ => Reply::Nothing,
        };
        self.calls.push(call);
        reply
    }

    fn perform(&mut self, calls: Vec<Call>) -> Reply {
        self.steps.push(self.calls.len());
        let mut reply = Reply::Nothing;
        for call in calls {
            reply = self.execute(call);
        }
        reply
    }

    fn run<S: Operation>(&mut self, first: Step<S, S::Output>) -> S::Output {
        let mut step = first;
        loop {
            match step {
                Step::Continue { calls, state } => {
                    let reply = self.perform(calls);
                    assert!(state.is_accepted(&reply));
                    step = state.advance(reply);
                }
                Step::Finish { calls, result } => {
                    self.perform(calls);
                    return result;
                }
            }
        }
    }
}

fn corner(x: f32, y: f32, z: f32, s: f32, t: f32) -> VertexPT {
    VertexPT {
        position: (x.to_bits(), y.to_bits(), z.to_bits()).into(),
        texture_coords: (s.to_bits(), t.to_bits()).into(),
    }
}

fn square() -> Shape<VertexPT> {
    Shape::from_vertices_and_triangle(
        vec![
            corner(-0.5, -0.5, 0.0, 0.0, 0.0),
            corner(0.5, -0.5, 0.0, 1.0, 0.0),
            corner(0.5, 0.5, 0.0, 1.0, 1.0),
            corner(-0.5, 0.5, 0.0, 0.0, 1.0),
        ],
        vec![(0, 1, 2), (2, 3, 0)],
    )
}

fn floats(values: &[f32]) -> Vec<u32> {
    values.iter().map(|value| value.to_bits()).collect()
}

fn draw_of(array: u32, count: i32) -> Vec<Call> {
    vec![
        Call::BindVertexArray { array },
        Call::DrawElements { mode: TRIANGLES, count, kind: UNSIGNED_INT, offset: 0 },
    ]
}

#[test]
fn unit_square_end_to_end() {
    let mut driver = Scripted::new();
    let shape = driver.run(square().setup());
    assert_eq!(
        driver.calls,
        vec![
            Call::GenBuffers,
            Call::BindBuffer { target: ARRAY_BUFFER, buffer: 1 },
            Call::BufferData {
                target: ARRAY_BUFFER,
                size: 80,
                data: floats(&[
                    -0.5, -0.5, 0.0, 0.0, 0.0, 0.5, -0.5, 0.0, 1.0, 0.0, 0.5, 0.5, 0.0, 1.0, 1.0,
                    -0.5, 0.5, 0.0, 0.0, 1.0,
                ]),
                usage: STATIC_DRAW,
            },
            Call::BindBuffer { target: ARRAY_BUFFER, buffer: 0 },
            Call::GenBuffers,
            Call::BindBuffer { target: ELEMENT_ARRAY_BUFFER, buffer: 2 },
            Call::BufferData {
                target: ELEMENT_ARRAY_BUFFER,
                size: 24,
                data: vec![0, 1, 2, 2, 3, 0],
                usage: STATIC_DRAW,
            },
            Call::BindBuffer { target: ELEMENT_ARRAY_BUFFER, buffer: 0 },
            Call::GenVertexArrays,
            Call::BindVertexArray { array: 3 },
            Call::BindBuffer { target: ARRAY_BUFFER, buffer: 1 },
            Call::BindBuffer { target: ELEMENT_ARRAY_BUFFER, buffer: 2 },
            Call::BindVertexArray { array: 3 },
            Call::EnableVertexAttribArray { index: 0 },
            Call::VertexAttribPointer {
                index: 0,
                size: 3,
                kind: FLOAT,
                normalized: FALSE,
                stride: 20,
                offset: 0,
            },
            Call::EnableVertexAttribArray { index: 1 },
            Call::VertexAttribPointer {
                index: 1,
                size: 2,
                kind: FLOAT,
                normalized: FALSE,
                stride: 20,
                offset: 12,
            },
            Call::BindVertexArray { array: 0 },
            Call::BindBuffer { target: ARRAY_BUFFER, buffer: 0 },
            Call::BindVertexArray { array: 0 },
            Call::BindBuffer { target: ELEMENT_ARRAY_BUFFER, buffer: 0 },
        ]
    );
    assert_eq!(
        shape.draw(),
        vec![
            Call::BindVertexArray { array: 3 },
            Call::DrawElements { mode: TRIANGLES, count: 6, kind: UNSIGNED_INT, offset: 0 },
        ]
    );
    assert_eq!(shape.index_count(), 6);
    assert_eq!(shape.bind_vao(), Call::BindVertexArray { array: 3 });
}

#[test]
fn setup_asks_for_one_object_at_a_time() {
    let step = square().setup();
    let state = match step {
        Step::Continue { calls, state } => {
            assert_eq!(calls, vec![Call::GenBuffers]);
            state
        }
        Step::Finish { .. } => panic!("setup ended before it began"),
    };
    assert!(state.is_accepted(&Reply::Handle(11)));
    assert!(!state.is_accepted(&Reply::Nothing));
    assert!(!state.is_accepted(&Reply::Value(11)));
    assert!(!state.is_accepted(&Reply::Bytes(vec![11])));
    let state = match state.advance(Reply::Handle(11)) {
        Step::Continue { calls, state } => {
            assert_eq!(calls.len(), 4);
            assert_eq!(calls[0], Call::BindBuffer { target: ARRAY_BUFFER, buffer: 11 });
            assert_eq!(calls[3], Call::GenBuffers);
            state
        }
        Step::Finish { .. } => panic!("setup ended after the vertex buffer"),
    };
    let state = match state.advance(Reply::Handle(22)) {
        Step::Continue { calls, state } => {
            assert_eq!(calls.len(), 4);
            assert_eq!(calls[0], Call::BindBuffer { target: ELEMENT_ARRAY_BUFFER, buffer: 22 });
            assert_eq!(calls[3], Call::GenVertexArrays);
            state
        }
        Step::Finish { .. } => panic!("setup ended after the index buffer"),
    };
    match state.advance(Reply::Handle(33)) {
        Step::Continue { .. } => panic!("setup went on after the vertex array"),
        Step::Finish { calls, result } => {
            assert_eq!(calls.len(), 12);
            assert_eq!(calls[0], Call::BindVertexArray { array: 33 });
            assert_eq!(calls[1], Call::BindBuffer { target: ARRAY_BUFFER, buffer: 11 });
            assert_eq!(calls[2], Call::BindBuffer { target: ELEMENT_ARRAY_BUFFER, buffer: 22 });
            assert_eq!(calls[11], Call::BindBuffer { target: ELEMENT_ARRAY_BUFFER, buffer: 0 });
            assert_eq!(
                result.release(),
                vec![
                    Call::DeleteVertexArrays { array: 33 },
                    Call::DeleteBuffers { buffer: 11 },
                    Call::DeleteBuffers { buffer: 22 },
                ]
            );
        }
    }
}

#[test]
fn a_shape_that_is_not_set_up_holds_no_object() {
    let shape = square();
    assert_eq!(shape.bind_vao(), Call::BindVertexArray { array: 0 });
    assert_eq!(shape.draw(), draw_of(0, 6));
    assert_eq!(
        shape.release(),
        vec![
            Call::DeleteVertexArrays { array: 0 },
            Call::DeleteBuffers { buffer: 0 },
            Call::DeleteBuffers { buffer: 0 },
        ]
    );
}

fn index_count_of<T: Vertex>(vertices: Vec<T>, triangles: usize) -> i32 {
    assert!(Shape::<T>::is_representable(vertices.len(), triangles));
    let shape = Shape::from_vertices_and_triangle(vertices, vec![(0, 0, 0); triangles]);
    match &shape.draw()[1] {
        Call::DrawElements { mode, count, kind, offset } => {
            assert_eq!((*mode, *kind, *offset), (TRIANGLES, UNSIGNED_INT, 0));
            assert_eq!(*count, shape.index_count());
            *count
        }
        other => panic!("not a draw: {:?}", other),
    }
}

#[test]
fn index_count_is_three_times_the_triangles() {
    let origin = VertexP::from_coords(Coords3D::new(0, 0, 0));
    assert_eq!(index_count_of::<VertexP>(vec![], 0), 0);
    assert_eq!(index_count_of(vec![origin; 3], 1), 3);
    assert_eq!(index_count_of(vec![origin; 1], 7), 21);
    assert_eq!(index_count_of(vec![origin; 100], 1000), 3000);
    assert_eq!(index_count_of(vec![VertexPC::from_vec(vec![0; 7]).unwrap(); 5], 2), 6);
    assert_eq!(index_count_of(vec![VertexPCT::from_vec(vec![0; 9]).unwrap(); 2], 12), 36);
}

#[test]
fn setup_keeps_the_index_count() {
    let mut driver = Scripted::new();
    let shape = driver.run(square().setup());
    assert_eq!(shape.index_count(), 6);
}

#[test]
fn sizes_that_the_driver_cannot_take_are_told_apart() {
    assert!(Shape::<VertexP>::is_representable(0, 0));
    assert!(Shape::<VertexPCT>::is_representable(4, 2));
    assert!(Shape::<VertexP>::is_representable(0, 715_827_882));
    assert!(!Shape::<VertexP>::is_representable(0, 715_827_883));
    assert!(!Shape::<VertexP>::is_representable(0, usize::MAX));
    assert!(Shape::<VertexP>::is_representable(isize::MAX as usize / 12, 0));
    assert!(!Shape::<VertexP>::is_representable(isize::MAX as usize / 12 + 1, 0));
    assert!(Shape::<VertexPCT>::is_representable(isize::MAX as usize / 36, 0));
    assert!(!Shape::<VertexPCT>::is_representable(isize::MAX as usize / 36 + 1, 0));
    assert!(!Shape::<VertexPT>::is_representable(usize::MAX, 0));
}

#[test]
fn upload_sizes_are_in_bytes() {
    let mut driver = Scripted::new();
    let origin = VertexPCT::from_vec(vec![0; 9]).unwrap();
    driver.run(Shape::from_vertices_and_triangle(vec![origin; 3], vec![(0, 1, 2)]).setup());
    let sizes: Vec<(u32, isize, usize)> = driver
        .calls
        .iter()
        .filter_map(|call| match call {
            Call::BufferData { target, size, data, .. } => Some((*target, *size, data.len())),
            _ => None,
        })
        .collect();
    assert_eq!(sizes, vec![(ARRAY_BUFFER, 108, 27), (ELEMENT_ARRAY_BUFFER, 12, 3)]);
}

#[test]
fn a_new_object_has_the_identity_transform() {
    let shape = Rc::new(square());
    let object = Object::new(&shape);
    let zero = Coords3D::new(0.0f32.to_bits(), 0.0f32.to_bits(), 0.0f32.to_bits());
    let one = Coords3D::new(1.0f32.to_bits(), 1.0f32.to_bits(), 1.0f32.to_bits());
    assert_eq!(object.rotation, zero);
    assert_eq!(object.translation, zero);
    assert_eq!(object.scale, one);
    assert_eq!(object.scale, Coords3D::new(0x3F80_0000, 0x3F80_0000, 0x3F80_0000));
    assert_eq!(ONE, 1.0f32.to_bits());
    assert_eq!(Rc::strong_count(&shape), 2);
    assert!(Rc::ptr_eq(&shape, &object.shape));
}

#[test]
fn a_new_object_is_drawn_at_the_shapes_own_size() {
    let shape = Rc::new(square());
    let object = Object::new(&shape);
    let mut driver = Scripted::with_uniforms(&[("translation", 0), ("rotation", 1), ("scale", 2)]);
    driver.run(object.draw(4));
    assert_eq!(driver.calls[1], Call::Uniform3f { location: 0, x: 0, y: 0, z: 0 });
    assert_eq!(driver.calls[3], Call::Uniform3f { location: 1, x: 0, y: 0, z: 0 });
    assert_eq!(
        driver.calls[5],
        Call::Uniform3f {
            location: 2,
            x: 1.0f32.to_bits(),
            y: 1.0f32.to_bits(),
            z: 1.0f32.to_bits()
        }
    );
}

#[test]
fn uniform_names_are_the_shaders_own() {
    assert_eq!(Uniform::Translation.name(), "translation");
    assert_eq!(Uniform::Rotation.name(), "rotation");
    assert_eq!(Uniform::Scale.name(), "scale");
}

#[test]
fn an_object_uploads_its_transform_and_draws_its_shape() {
    let mut setup = Scripted::new();
    let shape = Rc::new(setup.run(square().setup()));
    let mut object = Object::new(&shape);
    object.translation = Coords3D::new(1, 2, 3);
    object.rotation = Coords3D::new(4, 5, 6);
    object.scale = Coords3D::new(7, 8, 9);

    let mut driver = Scripted::with_uniforms(&[("translation", 10), ("rotation", 11), ("scale", 12)]);
    driver.run(object.draw(77));
    assert_eq!(
        driver.calls,
        vec![
            Call::GetUniformLocation { program: 77, name: "translation".to_string() },
            Call::Uniform3f { location: 10, x: 1, y: 2, z: 3 },
            Call::GetUniformLocation { program: 77, name: "rotation".to_string() },
            Call::Uniform3f { location: 11, x: 4, y: 5, z: 6 },
            Call::GetUniformLocation { program: 77, name: "scale".to_string() },
            Call::Uniform3f { location: 12, x: 7, y: 8, z: 9 },
            Call::BindVertexArray { array: 3 },
            Call::DrawElements { mode: TRIANGLES, count: 6, kind: UNSIGNED_INT, offset: 0 },
        ]
    );
}

#[test]
fn a_uniform_that_the_program_lacks_is_set_at_no_location() {
    let shape = Rc::new(square());
    let object = Object::new(&shape);
    let mut driver = Scripted::with_uniforms(&[("rotation", 5)]);
    driver.run(object.draw(1));
    let locations: Vec<i32> = driver
        .calls
        .iter()
        .filter_map(|call| match call {
            Call::Uniform3f { location, .. } => Some(*location),
            _ => None,
        })
        .collect();
    assert_eq!(locations, vec![-1, 5, -1]);
    assert_eq!(driver.calls.len(), 8);
}

#[test]
fn a_draw_takes_only_locations() {
    let shape = Rc::new(square());
    let object = Object::new(&shape);
    match object.draw(1) {
        Step::Continue { state, .. } => {
            assert_eq!(state.awaiting, Uniform::Translation);
            assert_eq!(state.program, 1);
            assert_eq!(state.count, 6);
            assert!(state.is_accepted(&Reply::Value(-1)));
            assert!(state.is_accepted(&Reply::Value(0)));
            assert!(!state.is_accepted(&Reply::Nothing));
            assert!(!state.is_accepted(&Reply::Handle(3)));
            assert!(!state.is_accepted(&Reply::Bytes(vec![])));
        }
        Step::Finish { .. } => panic!("a draw ended before it began"),
    }
}

#[test]
fn objects_of_one_shape_draw_the_same_geometry() {
    let mut setup = Scripted::new();
    let shape = Rc::new(setup.run(square().setup()));
    let mut near = Object::new(&shape);
    let mut far = Object::new(&shape);
    near.translation = Coords3D::new(1.0f32.to_bits(), 0, 0);
    near.scale = Coords3D::new(2.0f32.to_bits(), 2.0f32.to_bits(), 2.0f32.to_bits());
    far.translation = Coords3D::new(0, 0, 9.0f32.to_bits());
    far.rotation = Coords3D::new(0, 0.5f32.to_bits(), 0);

    let uniforms = [("translation", 0), ("rotation", 1), ("scale", 2)];
    let mut first = Scripted::with_uniforms(&uniforms);
    first.run(near.draw(5));
    let mut second = Scripted::with_uniforms(&uniforms);
    second.run(far.draw(5));

    assert_eq!(first.calls[6..], second.calls[6..]);
    assert_eq!(first.calls[6..], shape.draw()[..]);
    assert_ne!(first.calls[1], second.calls[1]);
    assert_ne!(first.calls[3], second.calls[3]);
    assert_ne!(first.calls[5], second.calls[5]);
    assert_eq!(first.calls[1], Call::Uniform3f { location: 0, x: 1.0f32.to_bits(), y: 0, z: 0 });
    assert_eq!(second.calls[1], Call::Uniform3f { location: 0, x: 0, y: 0, z: 9.0f32.to_bits() });
}

#[test]
fn changing_one_object_leaves_the_other() {
    let shape = Rc::new(square());
    let mut moved = Object::new(&shape);
    let still = Object::new(&shape);
    let uniforms = [("translation", 0), ("rotation", 1), ("scale", 2)];

    let mut before = Scripted::with_uniforms(&uniforms);
    before.run(still.draw(5));
    moved.translation = Coords3D::new(1, 2, 3);
    moved.rotation.x = 4;
    moved.scale = Coords3D::new(5, 6, 7);
    let mut after = Scripted::with_uniforms(&uniforms);
    after.run(still.draw(5));

    assert_eq!(before.calls, after.calls);
    assert_eq!(still.translation, Coords3D::new(0, 0, 0));
    assert_eq!(moved.rotation, Coords3D::new(4, 0, 0));
}

/// Whether each call finds bound, by an earlier call of the same list, what
/// it works through.
fn binds_what_it_uses(calls: &[Call]) -> bool {
    let (mut vertex_array, mut array_buffer, mut element_buffer) = (false, false, false);
    for call in calls {
        match call {
            Call::BindVertexArray { .. } => {
                vertex_array = true;
                element_buffer = false;
            }
            Call::BindBuffer { target, .. } if *target == ARRAY_BUFFER => array_buffer = true,
            Call::BindBuffer { target, .. } if *target == ELEMENT_ARRAY_BUFFER => {
                element_buffer = true
            }
            Call::BufferData { target, .. } if *target == ARRAY_BUFFER && !array_buffer => {
                return false
            }
            Call::BufferData { target, .. } if *target == ELEMENT_ARRAY_BUFFER && !element_buffer => {
                return false
            }
            Call::EnableVertexAttribArray { .. } | Call::DrawElements { .. } if !vertex_array => {
                return false
            }
            Call::VertexAttribPointer { .. } if !(vertex_array && array_buffer) => return false,
            _ => {}
        }
    }
    true
}

#[test]
fn every_step_of_a_setup_binds_what_it_uses() {
    let mut driver = Scripted::new();
    let shape = driver.run(square().setup());
    assert_eq!(driver.steps, vec![0, 1, 5, 9]);
    for (at, start) in driver.steps.iter().enumerate() {
        let end = driver.steps.get(at + 1).copied().unwrap_or(driver.calls.len());
        assert!(binds_what_it_uses(&driver.calls[*start..end]));
    }
    assert!(binds_what_it_uses(&shape.draw()));
    assert!(binds_what_it_uses(&square().draw()));
}

#[test]
fn a_layout_alone_relies_on_the_vertex_buffer() {
    assert!(!binds_what_it_uses(&VertexPT::configure_vao(3)));
    let mut calls = vec![Call::BindBuffer { target: ARRAY_BUFFER, buffer: 1 }];
    calls.extend(VertexPT::configure_vao(3));
    assert!(binds_what_it_uses(&calls));
    assert!(!binds_what_it_uses(&[Call::DrawElements {
        mode: TRIANGLES,
        count: 3,
        kind: UNSIGNED_INT,
        offset: 0
    }]));
}
