//! Vertex records and the memory layout that each kind of record declares to
//! the driver.
//!
//! Every component of a record is a 32-bit float, held here as its IEEE-754
//! bit pattern in a `u32`: the records are moved, packed and unpacked, never
//! computed with, so each component passes through bit for bit.
use crate::driver::{
    lemma_serves_concat, lemma_views_of_vec, lemma_views_push, views, Bindings, Call, CallView,
    FALSE, FLOAT, NO_OBJECT,
};
use vstd::prelude::*;

verus! {

/// Bit pattern of the float 1.0.
pub const ONE: u32 = 0x3F80_0000;

/// The alpha of a colour given without one: 1.0.
pub const OPAQUE: u32 = ONE;

#[derive(Copy, Clone, Debug, PartialEq, Eq)]
pub enum Error {
    /// A flat sequence does not have the number of components that the
    /// record asks for.
    InvalidVectorLength,
}

/// A point or direction in space.
#[derive(Copy, Clone, Debug, PartialEq, Eq)]
pub struct Coords3D {
    pub x: u32,
    pub y: u32,
    pub z: u32,
}

impl Coords3D {
    /// The components in order: x, y, z.
    pub open spec fn sequence(self) -> Seq<u32> {
        seq![self.x, self.y, self.z]
    }

    /// What `from_vec` makes of a sequence.
    pub open spec fn parsed(s: Seq<u32>) -> Result<Coords3D, Error> {
        if s.len() == 3 {
            Ok(Coords3D { x: s[0], y: s[1], z: s[2] })
        } else {
            Err(Error::InvalidVectorLength)
        }
    }

    /// The point with the three components of `vec`; fails unless `vec` holds
    /// exactly three.
    pub fn from_vec(vec: Vec<u32>) -> (r: Result<Coords3D, Error>)
        ensures
            r == Self::parsed(vec@),
    {
        if vec.len() != 3 {
            return Err(Error::InvalidVectorLength);
        }
        Ok(Coords3D { x: vec[0], y: vec[1], z: vec[2] })
    }

    pub fn new(x: u32, y: u32, z: u32) -> (r: Coords3D)
        ensures
            r == (Coords3D { x, y, z }),
    {
        Coords3D { x, y, z }
    }
}

impl From<(u32, u32, u32)> for Coords3D {
    fn from(other: (u32, u32, u32)) -> (r: Self) {
        Coords3D::new(other.0, other.1, other.2)
    }
}

impl vstd::std_specs::convert::FromSpecImpl<(u32, u32, u32)> for Coords3D {
    open spec fn obeys_from_spec() -> bool {
        true
    }

    open spec fn from_spec(other: (u32, u32, u32)) -> Self {
        Coords3D { x: other.0, y: other.1, z: other.2 }
    }
}

/// A point on a texture.
#[derive(Copy, Clone, Debug, PartialEq, Eq)]
pub struct Coords2D {
    pub x: u32,
    pub y: u32,
}

impl Coords2D {
    /// The components in order: x, y.
    pub open spec fn sequence(self) -> Seq<u32> {
        seq![self.x, self.y]
    }

    /// What `from_vec` makes of a sequence.
    pub open spec fn parsed(s: Seq<u32>) -> Result<Coords2D, Error> {
        if s.len() == 2 {
            Ok(Coords2D { x: s[0], y: s[1] })
        } else {
            Err(Error::InvalidVectorLength)
        }
    }

    /// The point with the two components of `vec`; fails unless `vec` holds
    /// exactly two.
    pub fn from_vec(vec: Vec<u32>) -> (r: Result<Coords2D, Error>)
        ensures
            r == Self::parsed(vec@),
    {
        if vec.len() != 2 {
            return Err(Error::InvalidVectorLength);
        }
        Ok(Coords2D { x: vec[0], y: vec[1] })
    }
}

impl From<(u32, u32)> for Coords2D {
    fn from(other: (u32, u32)) -> (r: Self) {
        Coords2D { x: other.0, y: other.1 }
    }
}

impl vstd::std_specs::convert::FromSpecImpl<(u32, u32)> for Coords2D {
    open spec fn obeys_from_spec() -> bool {
        true
    }

    open spec fn from_spec(other: (u32, u32)) -> Self {
        Coords2D { x: other.0, y: other.1 }
    }
}

/// A colour: red, green, blue and alpha.
#[derive(Copy, Clone, Debug, PartialEq, Eq)]
pub struct Colour {
    pub r: u32,
    pub g: u32,
    pub b: u32,
    pub a: u32,
}

impl Colour {
    /// The components in order: red, green, blue, alpha.
    pub open spec fn sequence(self) -> Seq<u32> {
        seq![self.r, self.g, self.b, self.a]
    }

    /// What `from_vec` makes of a sequence: three components are a colour
    /// without transparency, four give the alpha as well.
    pub open spec fn parsed(s: Seq<u32>) -> Result<Colour, Error> {
        if s.len() == 3 {
            Ok(Colour { r: s[0], g: s[1], b: s[2], a: OPAQUE })
        } else if s.len() == 4 {
            Ok(Colour { r: s[0], g: s[1], b: s[2], a: s[3] })
        } else {
            Err(Error::InvalidVectorLength)
        }
    }

    pub fn new(r: u32, g: u32, b: u32, a: u32) -> (colour: Colour)
        ensures
            colour == (Colour { r, g, b, a }),
    {
        Colour { r, g, b, a }
    }

    /// The colour with the components of `vec`, opaque where `vec` gives no
    /// alpha; fails unless `vec` holds three or four.
    pub fn from_vec(vec: Vec<u32>) -> (r: Result<Colour, Error>)
        ensures
            r == Self::parsed(vec@),
    {
        if vec.len() != 3 && vec.len() != 4 {
            return Err(Error::InvalidVectorLength);
        }
        let mut res = Colour { r: vec[0], g: vec[1], b: vec[2], a: OPAQUE };
        if vec.len() == 4 {
            res.a = vec[3];
        }
        Ok(res)
    }
}

impl From<(u32, u32, u32, u32)> for Colour {
    fn from(other: (u32, u32, u32, u32)) -> (r: Self) {
        Colour::new(other.0, other.1, other.2, other.3)
    }
}

impl vstd::std_specs::convert::FromSpecImpl<(u32, u32, u32, u32)> for Colour {
    open spec fn obeys_from_spec() -> bool {
        true
    }

    open spec fn from_spec(other: (u32, u32, u32, u32)) -> Self {
        Colour { r: other.0, g: other.1, b: other.2, a: other.3 }
    }
}

impl From<(u32, u32, u32)> for Colour {
    fn from(other: (u32, u32, u32)) -> (r: Self) {
        Colour::new(other.0, other.1, other.2, OPAQUE)
    }
}

impl vstd::std_specs::convert::FromSpecImpl<(u32, u32, u32)> for Colour {
    open spec fn obeys_from_spec() -> bool {
        true
    }

    open spec fn from_spec(other: (u32, u32, u32)) -> Self {
        Colour { r: other.0, g: other.1, b: other.2, a: OPAQUE }
    }
}

/// The kinds of vertex record. Each is a position, then a colour where the
/// kind has one, then texture coordinates where the kind has them.
#[derive(Copy, Clone, Debug, PartialEq, Eq)]
pub enum Format {
    Position,
    PositionColour,
    PositionTexture,
    PositionColourTexture,
}

/// One attribute of a vertex record, as the driver is told of it.
#[derive(Copy, Clone, Debug, PartialEq, Eq)]
pub struct Attribute {
    /// The attribute's location in the vertex shader.
    pub index: u32,
    /// How many floats it has.
    pub size: i32,
    /// Where it starts in the record, in bytes.
    pub offset: usize,
}

impl Format {
    /// Whether records of this kind hold a colour.
    pub open spec fn colour(self) -> bool {
        self is PositionColour || self is PositionColourTexture
    }

    /// Whether records of this kind hold texture coordinates.
    pub open spec fn texture(self) -> bool {
        self is PositionTexture || self is PositionColourTexture
    }

    /// How many floats a record of this kind holds.
    pub open spec fn arity(self) -> nat {
        match self {
            Format::Position => 3,
            Format::PositionColour => 7,
            Format::PositionTexture => 5,
            Format::PositionColourTexture => 9,
        }
    }

    /// The size of a record of this kind in bytes, which is also the distance
    /// from one record to the next.
    pub open spec fn stride(self) -> int {
        4 * (self.arity() as int)
    }

    /// The attributes of a record of this kind, in the order of their
    /// locations.
    pub open spec fn attributes(self) -> Seq<Attribute> {
        match self {
            Format::Position => seq![Attribute { index: 0, size: 3, offset: 0 }],
            Format::PositionColour => seq![
                Attribute { index: 0, size: 3, offset: 0 },
                Attribute { index: 1, size: 4, offset: 12 },
            ],
            Format::PositionTexture => seq![
                Attribute { index: 0, size: 3, offset: 0 },
                Attribute { index: 1, size: 2, offset: 12 },
            ],
            Format::PositionColourTexture => seq![
                Attribute { index: 0, size: 3, offset: 0 },
                Attribute { index: 1, size: 4, offset: 12 },
                Attribute { index: 2, size: 2, offset: 28 },
            ],
        }
    }

    pub fn has_colour(self) -> (b: bool)
        ensures
            b == self.colour(),
    {
        match self {
            Format::PositionColour | Format::PositionColourTexture => true,
            _ => false,
        }
    }

    pub fn has_texture(self) -> (b: bool)
        ensures
            b == self.texture(),
    {
        match self {
            Format::PositionTexture | Format::PositionColourTexture => true,
            _ => false,
        }
    }

    /// The attributes of a record of this kind: the position at location 0,
    /// then the colour and the texture coordinates as far as the kind has
    /// them, each at the next location and right behind the one before.
    pub fn layout(self) -> (attributes: Vec<Attribute>)
        ensures
            attributes@ == self.attributes(),
    {
        let mut attributes: Vec<Attribute> = Vec::new();
        let mut index: u32 = 0;
        let mut offset: usize = 0;
        attributes.push(Attribute { index, size: 3, offset });
        index += 1;
        offset += 12;
        if self.has_colour() {
            attributes.push(Attribute { index, size: 4, offset });
            index += 1;
            offset += 16;
        }
        if self.has_texture() {
            attributes.push(Attribute { index, size: 2, offset });
        }
        assert(attributes@ =~= self.attributes());
        attributes
    }

    /// The size in bytes of a record of this kind.
    pub fn record_size(self) -> (size: i32)
        ensures
            size == self.stride(),
    {
        let mut floats: i32 = 3;
        if self.has_colour() {
            floats += 4;
        }
        if self.has_texture() {
            floats += 2;
        }
        4 * floats
    }

    /// The calls that declare the layout of this kind of record for the
    /// vertex array `vao_id`.
    pub fn configure_vao(self, vao_id: u32) -> (calls: Vec<Call>)
        ensures
            calls.deep_view() == layout_calls(vao_id, self),
    {
        let attributes = self.layout();
        let stride = self.record_size();
        let mut calls: Vec<Call> = Vec::new();
        calls.push(Call::BindVertexArray { array: vao_id });
        proof {
            assert(views(calls@) =~= seq![CallView::BindVertexArray { array: vao_id }]);
            assert(attributes@.take(0) =~= Seq::<Attribute>::empty());
        }
        let mut done: usize = 0;
        while done < attributes.len()
            invariant
                done <= attributes.len(),
                views(calls@) == seq![CallView::BindVertexArray { array: vao_id }] + declarations(
                    attributes@.take(done as int),
                    stride,
                ),
            decreases attributes.len() - done,
        {
            let attribute = attributes[done];
            let ghost before = calls@;
            calls.push(Call::EnableVertexAttribArray { index: attribute.index });
            let ghost between = calls@;
            calls.push(
                Call::VertexAttribPointer {
                    index: attribute.index,
                    size: attribute.size,
                    kind: FLOAT,
                    normalized: FALSE,
                    stride,
                    offset: attribute.offset,
                },
            );
            proof {
                lemma_views_push(before, between.last());
                lemma_views_push(between, calls@.last());
                assert(attributes@.take(done + 1).drop_last() =~= attributes@.take(done as int));
                assert(views(calls@) =~= seq![CallView::BindVertexArray { array: vao_id }]
                    + declarations(attributes@.take(done + 1), stride));
            }
            done += 1;
        }
        let ghost before = calls@;
        calls.push(Call::BindVertexArray { array: NO_OBJECT });
        proof {
            lemma_views_push(before, calls@.last());
            assert(attributes@.take(done as int) =~= attributes@);
            lemma_views_of_vec(&calls);
        }
        calls
    }
}

/// The two calls that declare one attribute: switch its location on, then say
/// where it lies. Its components are floats, taken as they are.
pub open spec fn declaration(attribute: Attribute, stride: i32) -> Seq<CallView> {
    seq![
        CallView::EnableVertexAttribArray { index: attribute.index },
        CallView::VertexAttribPointer {
            index: attribute.index,
            size: attribute.size,
            kind: FLOAT,
            normalized: FALSE,
            stride,
            offset: attribute.offset,
        },
    ]
}

/// The declarations of several attributes, one after the other.
pub open spec fn declarations(attributes: Seq<Attribute>, stride: i32) -> Seq<CallView>
    decreases attributes.len(),
{
    if attributes.len() == 0 {
        Seq::empty()
    } else {
        declarations(attributes.drop_last(), stride) + declaration(attributes.last(), stride)
    }
}

/// The calls that declare the layout of `format` for the vertex array
/// `vao_id`: bind the array, declare each attribute, unbind.
pub open spec fn layout_calls(vao_id: u32, format: Format) -> Seq<CallView> {
    seq![CallView::BindVertexArray { array: vao_id }] + declarations(
        format.attributes(),
        format.stride() as i32,
    ) + seq![CallView::BindVertexArray { array: NO_OBJECT }]
}

/// A kind of vertex record: how it turns into a flat sequence of floats and
/// back, and how its layout is declared to the driver.
pub trait Vertex: Sized {
    /// Which of the kinds this is.
    spec fn spec_format() -> Format;

    /// The record as a flat sequence: position, then colour, then texture
    /// coordinates, as far as the kind has them.
    spec fn sequence(&self) -> Seq<u32>;

    /// What `from_vec` makes of a flat sequence.
    spec fn parsed(s: Seq<u32>) -> Result<Self, Error>;

    fn format() -> (format: Format)
        ensures
            format == Self::spec_format(),
    ;

    fn to_vec(&self) -> (v: Vec<u32>)
        ensures
            v@ == self.sequence(),
    ;

    fn from_vec(v: Vec<u32>) -> (r: Result<Self, Error>)
        ensures
            r == Self::parsed(v@),
    ;

    /// The calls that declare this kind's layout for the vertex array
    /// `vao_id`.
    fn configure_vao(vao_id: u32) -> (calls: Vec<Call>)
        ensures
            calls.deep_view() == layout_calls(vao_id, Self::spec_format()),
    ;

    /// A record's sequence has as many floats as its kind says.
    proof fn lemma_arity(&self)
        ensures
            self.sequence().len() == Self::spec_format().arity(),
    ;

    /// A sequence is taken for a record exactly when it has as many floats as
    /// the kind says, and the record then has that sequence.
    proof fn lemma_parsed(s: Seq<u32>)
        ensures
            s.len() == Self::spec_format().arity() ==> Self::parsed(s) is Ok && Self::parsed(
                s,
            )->Ok_0.sequence() == s,
            s.len() != Self::spec_format().arity() ==> Self::parsed(s) == Err::<Self, Error>(
                Error::InvalidVectorLength,
            ),
    ;

    /// A record is found again from its sequence.
    proof fn lemma_round_trip(&self)
        ensures
            Self::parsed(self.sequence()) == Ok::<Self, Error>(*self),
    ;
}

/// A vertex that is a position and nothing else.
#[derive(Copy, Clone, Debug, PartialEq, Eq)]
pub struct VertexP {
    pub position: Coords3D,
}

impl VertexP {
    pub fn from_coords(position: Coords3D) -> (vertex: VertexP)
        ensures
            vertex == (VertexP { position }),
    {
        VertexP { position }
    }

    /// This vertex with a colour.
    pub open spec fn with_colour(self, colour: Colour) -> VertexPC {
        VertexPC { position: self.position, colour }
    }

    /// This vertex with texture coordinates.
    pub open spec fn with_texture_coords(self, texture_coords: Coords2D) -> VertexPT {
        VertexPT { position: self.position, texture_coords }
    }

    pub fn add_color(self, colour: Colour) -> (vertex: VertexPC)
        ensures
            vertex == self.with_colour(colour),
    {
        VertexPC { position: self.position, colour: colour }
    }

    pub fn add_texture_coords(self, texture_coords: Coords2D) -> (vertex: VertexPT)
        ensures
            vertex == self.with_texture_coords(texture_coords),
    {
        VertexPT { position: self.position, texture_coords: texture_coords }
    }
}

impl Vertex for VertexP {
    open spec fn spec_format() -> Format {
        Format::Position
    }

    open spec fn sequence(&self) -> Seq<u32> {
        self.position.sequence()
    }

    open spec fn parsed(s: Seq<u32>) -> Result<VertexP, Error> {
        if s.len() == 3 {
            Ok(VertexP { position: Coords3D { x: s[0], y: s[1], z: s[2] } })
        } else {
            Err(Error::InvalidVectorLength)
        }
    }

    fn format() -> (format: Format) {
        Format::Position
    }

    fn to_vec(&self) -> (v: Vec<u32>) {
        let mut v: Vec<u32> = Vec::new();
        v.push(self.position.x);
        v.push(self.position.y);
        v.push(self.position.z);
        assert(v@ =~= self.sequence());
        v
    }

    fn from_vec(v: Vec<u32>) -> (r: Result<VertexP, Error>) {
        match Coords3D::from_vec(v) {
            Ok(x) => Ok(VertexP { position: x }),
            Err(y) => Err(y),
        }
    }

    fn configure_vao(vao_id: u32) -> (calls: Vec<Call>) {
        Format::Position.configure_vao(vao_id)
    }

    proof fn lemma_arity(&self) {
    }

    proof fn lemma_parsed(s: Seq<u32>) {
        if s.len() == 3 {
            assert(Self::parsed(s)->Ok_0.sequence() =~= s);
        }
    }

    proof fn lemma_round_trip(&self) {
    }
}

/// A vertex with a colour.
#[derive(Copy, Clone, Debug, PartialEq, Eq)]
pub struct VertexPC {
    pub position: Coords3D,
    pub colour: Colour,
}

impl VertexPC {
    /// This vertex with texture coordinates.
    pub open spec fn with_texture_coords(self, texture_coords: Coords2D) -> VertexPCT {
        VertexPCT { position: self.position, colour: self.colour, texture_coords }
    }

    pub fn add_texture_coords(self, texture_coords: Coords2D) -> (vertex: VertexPCT)
        ensures
            vertex == self.with_texture_coords(texture_coords),
    {
        VertexPCT {
            position: self.position,
            colour: self.colour,
            texture_coords: texture_coords,
        }
    }
}

impl Vertex for VertexPC {
    open spec fn spec_format() -> Format {
        Format::PositionColour
    }

    open spec fn sequence(&self) -> Seq<u32> {
        self.position.sequence() + self.colour.sequence()
    }

    open spec fn parsed(s: Seq<u32>) -> Result<VertexPC, Error> {
        if s.len() == 7 {
            Ok(
                VertexPC {
                    position: Coords3D { x: s[0], y: s[1], z: s[2] },
                    colour: Colour { r: s[3], g: s[4], b: s[5], a: s[6] },
                },
            )
        } else {
            Err(Error::InvalidVectorLength)
        }
    }

    fn format() -> (format: Format) {
        Format::PositionColour
    }

    fn to_vec(&self) -> (v: Vec<u32>) {
        let mut v: Vec<u32> = Vec::new();
        v.push(self.position.x);
        v.push(self.position.y);
        v.push(self.position.z);
        v.push(self.colour.r);
        v.push(self.colour.g);
        v.push(self.colour.b);
        v.push(self.colour.a);
        assert(v@ =~= self.sequence());
        v
    }

    fn from_vec(v: Vec<u32>) -> (r: Result<VertexPC, Error>) {
        if v.len() != 7 {
            return Err(Error::InvalidVectorLength);
        }
        let position = Coords3D { x: v[0], y: v[1], z: v[2] };
        let colour = Colour { r: v[3], g: v[4], b: v[5], a: v[6] };
        Ok(VertexPC { position, colour })
    }

    fn configure_vao(vao_id: u32) -> (calls: Vec<Call>) {
        Format::PositionColour.configure_vao(vao_id)
    }

    proof fn lemma_arity(&self) {
    }

    proof fn lemma_parsed(s: Seq<u32>) {
        if s.len() == 7 {
            assert(Self::parsed(s)->Ok_0.sequence() =~= s);
        }
    }

    proof fn lemma_round_trip(&self) {
    }
}

/// A vertex with texture coordinates.
#[derive(Copy, Clone, Debug, PartialEq, Eq)]
pub struct VertexPT {
    pub position: Coords3D,
    pub texture_coords: Coords2D,
}

impl VertexPT {
    /// This vertex with a colour.
    pub open spec fn with_colour(self, colour: Colour) -> VertexPCT {
        VertexPCT { position: self.position, colour, texture_coords: self.texture_coords }
    }

    pub fn add_color(self, colour: Colour) -> (vertex: VertexPCT)
        ensures
            vertex == self.with_colour(colour),
    {
        VertexPCT {
            position: self.position,
            colour: colour,
            texture_coords: self.texture_coords,
        }
    }
}

impl Vertex for VertexPT {
    open spec fn spec_format() -> Format {
        Format::PositionTexture
    }

    open spec fn sequence(&self) -> Seq<u32> {
        self.position.sequence() + self.texture_coords.sequence()
    }

    open spec fn parsed(s: Seq<u32>) -> Result<VertexPT, Error> {
        if s.len() == 5 {
            Ok(
                VertexPT {
                    position: Coords3D { x: s[0], y: s[1], z: s[2] },
                    texture_coords: Coords2D { x: s[3], y: s[4] },
                },
            )
        } else {
            Err(Error::InvalidVectorLength)
        }
    }

    fn format() -> (format: Format) {
        Format::PositionTexture
    }

    fn to_vec(&self) -> (v: Vec<u32>) {
        let mut v: Vec<u32> = Vec::new();
        v.push(self.position.x);
        v.push(self.position.y);
        v.push(self.position.z);
        v.push(self.texture_coords.x);
        v.push(self.texture_coords.y);
        assert(v@ =~= self.sequence());
        v
    }

    fn from_vec(v: Vec<u32>) -> (r: Result<VertexPT, Error>) {
        if v.len() != 5 {
            return Err(Error::InvalidVectorLength);
        }
        let position = Coords3D { x: v[0], y: v[1], z: v[2] };
        let texture_coords = Coords2D { x: v[3], y: v[4] };
        Ok(VertexPT { position, texture_coords })
    }

    fn configure_vao(vao_id: u32) -> (calls: Vec<Call>) {
        Format::PositionTexture.configure_vao(vao_id)
    }

    proof fn lemma_arity(&self) {
    }

    proof fn lemma_parsed(s: Seq<u32>) {
        if s.len() == 5 {
            assert(Self::parsed(s)->Ok_0.sequence() =~= s);
        }
    }

    proof fn lemma_round_trip(&self) {
    }
}

/// A vertex with a colour and texture coordinates.
#[derive(Copy, Clone, Debug, PartialEq, Eq)]
pub struct VertexPCT {
    pub position: Coords3D,
    pub colour: Colour,
    pub texture_coords: Coords2D,
}

impl Vertex for VertexPCT {
    open spec fn spec_format() -> Format {
        Format::PositionColourTexture
    }

    open spec fn sequence(&self) -> Seq<u32> {
        self.position.sequence() + self.colour.sequence() + self.texture_coords.sequence()
    }

    open spec fn parsed(s: Seq<u32>) -> Result<VertexPCT, Error> {
        if s.len() == 9 {
            Ok(
                VertexPCT {
                    position: Coords3D { x: s[0], y: s[1], z: s[2] },
                    colour: Colour { r: s[3], g: s[4], b: s[5], a: s[6] },
                    texture_coords: Coords2D { x: s[7], y: s[8] },
                },
            )
        } else {
            Err(Error::InvalidVectorLength)
        }
    }

    fn format() -> (format: Format) {
        Format::PositionColourTexture
    }

    fn to_vec(&self) -> (v: Vec<u32>) {
        let mut v: Vec<u32> = Vec::new();
        v.push(self.position.x);
        v.push(self.position.y);
        v.push(self.position.z);
        v.push(self.colour.r);
        v.push(self.colour.g);
        v.push(self.colour.b);
        v.push(self.colour.a);
        v.push(self.texture_coords.x);
        v.push(self.texture_coords.y);
        assert(v@ =~= self.sequence());
        v
    }

    fn from_vec(v: Vec<u32>) -> (r: Result<VertexPCT, Error>) {
        if v.len() != 9 {
            return Err(Error::InvalidVectorLength);
        }
        let position = Coords3D { x: v[0], y: v[1], z: v[2] };
        let colour = Colour { r: v[3], g: v[4], b: v[5], a: v[6] };
        let texture_coords = Coords2D { x: v[7], y: v[8] };
        Ok(VertexPCT { position, colour, texture_coords })
    }

    fn configure_vao(vao_id: u32) -> (calls: Vec<Call>) {
        Format::PositionColourTexture.configure_vao(vao_id)
    }

    proof fn lemma_arity(&self) {
    }

    proof fn lemma_parsed(s: Seq<u32>) {
        if s.len() == 9 {
            assert(Self::parsed(s)->Ok_0.sequence() =~= s);
        }
    }

    proof fn lemma_round_trip(&self) {
    }
}

/// Round trip: a record that is turned into its flat sequence and read back
/// from it is the record again, component for component.
pub proof fn law_round_trip<T: Vertex>(vertex: T)
    ensures
        T::parsed(vertex.sequence()) == Ok::<T, Error>(vertex),
{
    vertex.lemma_round_trip();
}

/// A sequence with fewer floats than the kind of record has is refused, and
/// so is one with more: reading succeeds on exactly the kind's arity, and
/// fails with `InvalidVectorLength` otherwise.
pub proof fn law_length_decides<T: Vertex>(s: Seq<u32>)
    ensures
        T::parsed(s) is Ok <==> s.len() == T::spec_format().arity(),
        s.len() < T::spec_format().arity() ==> T::parsed(s) == Err::<T, Error>(
            Error::InvalidVectorLength,
        ),
        T::parsed(s) is Err ==> T::parsed(s) == Err::<T, Error>(Error::InvalidVectorLength),
{
    T::lemma_parsed(s);
}

/// A position that is given a colour keeps its position, and its sequence
/// is the start of the richer record's.
pub proof fn law_colour_extends_position(vertex: VertexP, colour: Colour)
    ensures
        vertex.with_colour(colour).position == vertex.position,
        vertex.with_colour(colour).colour == colour,
        vertex.with_colour(colour).sequence() == vertex.sequence() + colour.sequence(),
{
}

/// A position that is given texture coordinates keeps its position, and its
/// sequence is the start of the richer record's.
pub proof fn law_texture_extends_position(vertex: VertexP, texture_coords: Coords2D)
    ensures
        vertex.with_texture_coords(texture_coords).position == vertex.position,
        vertex.with_texture_coords(texture_coords).texture_coords == texture_coords,
        vertex.with_texture_coords(texture_coords).sequence() == vertex.sequence()
            + texture_coords.sequence(),
{
}

/// A coloured vertex that is given texture coordinates keeps its position
/// and its colour, and its sequence is the start of the richer record's.
pub proof fn law_texture_extends_colour(vertex: VertexPC, texture_coords: Coords2D)
    ensures
        vertex.with_texture_coords(texture_coords).position == vertex.position,
        vertex.with_texture_coords(texture_coords).colour == vertex.colour,
        vertex.with_texture_coords(texture_coords).texture_coords == texture_coords,
        vertex.with_texture_coords(texture_coords).sequence() == vertex.sequence()
            + texture_coords.sequence(),
{
}

/// A textured vertex that is given a colour keeps its position and its
/// texture coordinates; the colour comes to stand between the two.
pub proof fn law_colour_extends_texture(vertex: VertexPT, colour: Colour)
    ensures
        vertex.with_colour(colour).position == vertex.position,
        vertex.with_colour(colour).texture_coords == vertex.texture_coords,
        vertex.with_colour(colour).colour == colour,
        vertex.with_colour(colour).sequence() == vertex.sequence().take(3) + colour.sequence()
            + vertex.sequence().skip(3),
{
    assert(vertex.sequence().take(3) =~= vertex.position.sequence());
    assert(vertex.sequence().skip(3) =~= vertex.texture_coords.sequence());
}

/// The layout that is declared for a kind of record is the layout of its
/// flat sequence: the position comes first, at location 0 and offset 0; the
/// locations count up from there; each attribute begins where the one before
/// it ends; and the last ends where the record ends, after as many floats as
/// the kind has.
pub proof fn law_layout_tiles_record(format: Format)
    ensures
        format.attributes().len() >= 1,
        format.attributes()[0] == (Attribute { index: 0, size: 3, offset: 0 }),
        forall|i: int|
            0 <= i < format.attributes().len() ==> (#[trigger] format.attributes()[i]).index == i,
        forall|i: int|
            0 < i < format.attributes().len() ==> (#[trigger] format.attributes()[i]).offset
                == format.attributes()[i - 1].offset + 4 * format.attributes()[i - 1].size,
        format.attributes().last().offset + 4 * format.attributes().last().size
            == format.stride(),
{
}

/// The declarations of attributes bind nothing, and are served wherever a
/// vertex array and a vertex buffer are bound.
pub proof fn lemma_declarations_served(bindings: Bindings, attributes: Seq<Attribute>, stride: i32)
    requires
        bindings.vertex_array is Some,
        bindings.array_buffer is Some,
    ensures
        bindings.serves_all(declarations(attributes, stride)),
        bindings.after_all(declarations(attributes, stride)) == bindings,
    decreases attributes.len(),
{
    reveal_with_fuel(Bindings::serves_all, 3);
    reveal_with_fuel(Bindings::after_all, 3);
    if attributes.len() > 0 {
        lemma_declarations_served(bindings, attributes.drop_last(), stride);
        lemma_serves_concat(
            bindings,
            declarations(attributes.drop_last(), stride),
            declaration(attributes.last(), stride),
        );
    }
}

/// The declaration of a layout binds the vertex array that it is declared
/// for, so it relies on one binding only that it does not make itself: the
/// vertex buffer in which the attributes lie. It leaves no vertex array
/// bound.
pub proof fn law_layout_binds_its_vertex_array(bindings: Bindings, vao_id: u32, format: Format)
    requires
        bindings.array_buffer is Some,
    ensures
        bindings.serves_all(layout_calls(vao_id, format)),
        bindings.after_all(layout_calls(vao_id, format)) == (Bindings {
            vertex_array: Some(NO_OBJECT),
            element_buffer: None,
            ..bindings
        }),
{
    reveal_with_fuel(Bindings::serves_all, 2);
    reveal_with_fuel(Bindings::after_all, 2);
    let bind = seq![CallView::BindVertexArray { array: vao_id }];
    let declared = declarations(format.attributes(), format.stride() as i32);
    let unbind = seq![CallView::BindVertexArray { array: NO_OBJECT }];
    let bound = bindings.after_all(bind);
    lemma_declarations_served(bound, format.attributes(), format.stride() as i32);
    lemma_serves_concat(bindings, bind, declared);
    lemma_serves_concat(bindings, bind + declared, unbind);
}

} // verus!
