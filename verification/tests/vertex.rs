use rusty_craft::driver::{Call, FALSE, FLOAT};
use rusty_craft::obj::vertex::{
    Attribute, Colour, Coords2D, Coords3D, Error, Format, Vertex, VertexP, VertexPC, VertexPCT,
    VertexPT, ONE, OPAQUE,
};

fn bits(values: &[f32]) -> Vec<u32> {
    values.iter().map(|value| value.to_bits()).collect()
}

fn point(x: f32, y: f32, z: f32) -> Coords3D {
    Coords3D::new(x.to_bits(), y.to_bits(), z.to_bits())
}

fn colour(r: f32, g: f32, b: f32, a: f32) -> Colour {
    Colour::new(r.to_bits(), g.to_bits(), b.to_bits(), a.to_bits())
}

fn texel(x: f32, y: f32) -> Coords2D {
    Coords2D::from((x.to_bits(), y.to_bits()))
}

#[test]
fn opaque_is_the_float_one() {
    assert_eq!(ONE, 1.0f32.to_bits());
    assert_eq!(OPAQUE, 1.0f32.to_bits());
    assert_eq!(f32::from_bits(OPAQUE), 1.0);
}

#[test]
fn coords3d_from_vec_takes_exactly_three() {
    let read = Coords3D::from_vec(bits(&[1.5, -2.0, 0.25])).unwrap();
    assert_eq!(read, point(1.5, -2.0, 0.25));
    assert_eq!(f32::from_bits(read.y), -2.0);
    assert_eq!(Coords3D::from_vec(bits(&[1.0, 2.0])), Err(Error::InvalidVectorLength));
    assert_eq!(Coords3D::from_vec(bits(&[1.0, 2.0, 3.0, 4.0])), Err(Error::InvalidVectorLength));
    assert_eq!(Coords3D::from_vec(vec![]), Err(Error::InvalidVectorLength));
}

#[test]
fn coords3d_from_tuple_and_new_agree() {
    let made = Coords3D::from((7, 8, 9));
    assert_eq!(made, Coords3D::new(7, 8, 9));
    assert_eq!((made.x, made.y, made.z), (7, 8, 9));
    let turned: Coords3D = (1, 2, 3).into();
    assert_eq!(turned, Coords3D { x: 1, y: 2, z: 3 });
}

#[test]
fn coords2d_from_vec_takes_exactly_two() {
    assert_eq!(Coords2D::from_vec(bits(&[0.0, 1.0])), Ok(texel(0.0, 1.0)));
    assert_eq!(Coords2D::from_vec(bits(&[0.0])), Err(Error::InvalidVectorLength));
    assert_eq!(Coords2D::from_vec(bits(&[0.0, 1.0, 2.0])), Err(Error::InvalidVectorLength));
    let made = Coords2D::from((4, 5));
    assert_eq!((made.x, made.y), (4, 5));
}

#[test]
fn colour_from_vec_defaults_alpha_to_one() {
    let read = Colour::from_vec(bits(&[0.1, 0.2, 0.3])).unwrap();
    assert_eq!(read, colour(0.1, 0.2, 0.3, 1.0));
    assert_eq!(f32::from_bits(read.a), 1.0);
}

#[test]
fn colour_from_vec_takes_a_given_alpha() {
    let read = Colour::from_vec(bits(&[0.1, 0.2, 0.3, 0.5])).unwrap();
    assert_eq!(read, colour(0.1, 0.2, 0.3, 0.5));
}

#[test]
fn colour_from_vec_refuses_other_lengths() {
    assert_eq!(Colour::from_vec(bits(&[0.1, 0.2])), Err(Error::InvalidVectorLength));
    assert_eq!(Colour::from_vec(bits(&[0.1, 0.2, 0.3, 0.4, 0.5])), Err(Error::InvalidVectorLength));
    assert_eq!(Colour::from_vec(vec![]), Err(Error::InvalidVectorLength));
}

#[test]
fn colour_from_tuples() {
    assert_eq!(Colour::from((1, 2, 3, 4)), Colour { r: 1, g: 2, b: 3, a: 4 });
    assert_eq!(Colour::from((1, 2, 3)), Colour { r: 1, g: 2, b: 3, a: OPAQUE });
}

#[test]
fn round_trip_position() {
    let vertex = VertexP::from_coords(point(-0.5, 0.5, 0.0));
    let flat = vertex.to_vec();
    assert_eq!(flat, bits(&[-0.5, 0.5, 0.0]));
    assert_eq!(VertexP::from_vec(flat), Ok(vertex));
}

#[test]
fn round_trip_position_colour() {
    let vertex = VertexPC { position: point(1.0, 2.0, 3.0), colour: colour(0.1, 0.2, 0.3, 0.4) };
    let flat = vertex.to_vec();
    assert_eq!(flat, bits(&[1.0, 2.0, 3.0, 0.1, 0.2, 0.3, 0.4]));
    assert_eq!(VertexPC::from_vec(flat), Ok(vertex));
}

#[test]
fn round_trip_position_texture() {
    let vertex = VertexPT { position: point(1.0, 2.0, 3.0), texture_coords: texel(0.0, 1.0) };
    let flat = vertex.to_vec();
    assert_eq!(flat, bits(&[1.0, 2.0, 3.0, 0.0, 1.0]));
    assert_eq!(VertexPT::from_vec(flat), Ok(vertex));
}

#[test]
fn round_trip_position_colour_texture() {
    let vertex = VertexPCT {
        position: point(1.0, 2.0, 3.0),
        colour: colour(0.1, 0.2, 0.3, 0.4),
        texture_coords: texel(0.75, 0.25),
    };
    let flat = vertex.to_vec();
    assert_eq!(flat, bits(&[1.0, 2.0, 3.0, 0.1, 0.2, 0.3, 0.4, 0.75, 0.25]));
    assert_eq!(VertexPCT::from_vec(flat), Ok(vertex));
}

#[test]
fn round_trip_keeps_every_bit_pattern() {
    let odd = [f32::NAN.to_bits(), (-0.0f32).to_bits(), f32::INFINITY.to_bits(), 0x7fc0_0001, 1];
    let vertex = VertexPT {
        position: Coords3D::new(odd[0], odd[1], odd[2]),
        texture_coords: Coords2D::from((odd[3], odd[4])),
    };
    assert_eq!(vertex.to_vec(), odd.to_vec());
    assert_eq!(VertexPT::from_vec(odd.to_vec()), Ok(vertex));
}

#[test]
fn short_sequences_are_refused() {
    assert_eq!(VertexP::from_vec(vec![0; 2]), Err(Error::InvalidVectorLength));
    assert_eq!(VertexPC::from_vec(vec![0; 6]), Err(Error::InvalidVectorLength));
    assert_eq!(VertexPT::from_vec(vec![0; 4]), Err(Error::InvalidVectorLength));
    assert_eq!(VertexPCT::from_vec(vec![0; 8]), Err(Error::InvalidVectorLength));
    assert_eq!(VertexPCT::from_vec(vec![0; 5]), Err(Error::InvalidVectorLength));
    assert_eq!(VertexPCT::from_vec(vec![]), Err(Error::InvalidVectorLength));
}

#[test]
fn long_sequences_are_refused() {
    assert_eq!(VertexP::from_vec(vec![0; 4]), Err(Error::InvalidVectorLength));
    assert_eq!(VertexPC::from_vec(vec![0; 8]), Err(Error::InvalidVectorLength));
    assert_eq!(VertexPT::from_vec(vec![0; 6]), Err(Error::InvalidVectorLength));
    assert_eq!(VertexPCT::from_vec(vec![0; 10]), Err(Error::InvalidVectorLength));
}

#[test]
fn upgrades_keep_what_was_there() {
    let lesser = VertexP::from_coords(point(1.0, 2.0, 3.0));
    let tint = colour(0.1, 0.2, 0.3, 0.4);
    let corner = texel(0.0, 1.0);

    let coloured = lesser.add_color(tint);
    assert_eq!(coloured, VertexPC { position: lesser.position, colour: tint });
    let textured = lesser.add_texture_coords(corner);
    assert_eq!(textured, VertexPT { position: lesser.position, texture_coords: corner });
    assert_eq!(lesser, VertexP::from_coords(point(1.0, 2.0, 3.0)));

    let full = coloured.add_texture_coords(corner);
    assert_eq!(full, VertexPCT { position: lesser.position, colour: tint, texture_coords: corner });
    assert_eq!(coloured, VertexPC { position: lesser.position, colour: tint });

    let other = textured.add_color(tint);
    assert_eq!(other, full);
    assert_eq!(textured, VertexPT { position: lesser.position, texture_coords: corner });
}

#[test]
fn upgrades_extend_the_flat_sequence() {
    let lesser = VertexP::from_coords(Coords3D::new(1, 2, 3));
    let tint = Colour::new(4, 5, 6, 7);
    let corner = Coords2D::from((8, 9));
    assert_eq!(lesser.add_color(tint).to_vec(), vec![1, 2, 3, 4, 5, 6, 7]);
    assert_eq!(lesser.add_texture_coords(corner).to_vec(), vec![1, 2, 3, 8, 9]);
    assert_eq!(lesser.add_color(tint).add_texture_coords(corner).to_vec(), vec![1, 2, 3, 4, 5, 6, 7, 8, 9]);
    assert_eq!(lesser.add_texture_coords(corner).add_color(tint).to_vec(), vec![1, 2, 3, 4, 5, 6, 7, 8, 9]);
}

#[test]
fn formats_of_the_four_records() {
    assert_eq!(VertexP::format(), Format::Position);
    assert_eq!(VertexPC::format(), Format::PositionColour);
    assert_eq!(VertexPT::format(), Format::PositionTexture);
    assert_eq!(VertexPCT::format(), Format::PositionColourTexture);
    assert!(!Format::Position.has_colour() && !Format::Position.has_texture());
    assert!(Format::PositionColour.has_colour() && !Format::PositionColour.has_texture());
    assert!(!Format::PositionTexture.has_colour() && Format::PositionTexture.has_texture());
    assert!(Format::PositionColourTexture.has_colour());
    assert!(Format::PositionColourTexture.has_texture());
}

#[test]
fn record_sizes_are_four_bytes_a_float() {
    assert_eq!(Format::Position.record_size(), 12);
    assert_eq!(Format::PositionColour.record_size(), 28);
    assert_eq!(Format::PositionTexture.record_size(), 20);
    assert_eq!(Format::PositionColourTexture.record_size(), 36);
    assert_eq!(VertexPCT::format().record_size() as usize, 4 * VertexPCT::from_vec(vec![0; 9]).unwrap().to_vec().len());
}

#[test]
fn layouts_follow_position_colour_texture() {
    assert_eq!(Format::Position.layout(), vec![Attribute { index: 0, size: 3, offset: 0 }]);
    assert_eq!(
        Format::PositionColour.layout(),
        vec![Attribute { index: 0, size: 3, offset: 0 }, Attribute { index: 1, size: 4, offset: 12 }]
    );
    assert_eq!(
        Format::PositionTexture.layout(),
        vec![Attribute { index: 0, size: 3, offset: 0 }, Attribute { index: 1, size: 2, offset: 12 }]
    );
    assert_eq!(
        Format::PositionColourTexture.layout(),
        vec![
            Attribute { index: 0, size: 3, offset: 0 },
            Attribute { index: 1, size: 4, offset: 12 },
            Attribute { index: 2, size: 2, offset: 28 },
        ]
    );
}

fn pointer(index: u32, size: i32, stride: i32, offset: usize) -> Call {
    Call::VertexAttribPointer { index, size, kind: FLOAT, normalized: FALSE, stride, offset }
}

#[test]
fn configure_vao_position() {
    assert_eq!(
        VertexP::configure_vao(9),
        vec![
            Call::BindVertexArray { array: 9 },
            Call::EnableVertexAttribArray { index: 0 },
            pointer(0, 3, 12, 0),
            Call::BindVertexArray { array: 0 },
        ]
    );
}

#[test]
fn configure_vao_position_colour() {
    assert_eq!(
        VertexPC::configure_vao(4),
        vec![
            Call::BindVertexArray { array: 4 },
            Call::EnableVertexAttribArray { index: 0 },
            pointer(0, 3, 28, 0),
            Call::EnableVertexAttribArray { index: 1 },
            pointer(1, 4, 28, 12),
            Call::BindVertexArray { array: 0 },
        ]
    );
}

#[test]
fn configure_vao_position_texture() {
    assert_eq!(
        VertexPT::configure_vao(4),
        vec![
            Call::BindVertexArray { array: 4 },
            Call::EnableVertexAttribArray { index: 0 },
            pointer(0, 3, 20, 0),
            Call::EnableVertexAttribArray { index: 1 },
            pointer(1, 2, 20, 12),
            Call::BindVertexArray { array: 0 },
        ]
    );
}

#[test]
fn configure_vao_position_colour_texture() {
    assert_eq!(
        VertexPCT::configure_vao(1),
        vec![
            Call::BindVertexArray { array: 1 },
            Call::EnableVertexAttribArray { index: 0 },
            pointer(0, 3, 36, 0),
            Call::EnableVertexAttribArray { index: 1 },
            pointer(1, 4, 36, 12),
            Call::EnableVertexAttribArray { index: 2 },
            pointer(2, 2, 36, 28),
            Call::BindVertexArray { array: 0 },
        ]
    );
    assert_eq!(Format::PositionColourTexture.configure_vao(1), VertexPCT::configure_vao(1));
}
