//! Textures: putting a decoded image on the GPU.
use crate::driver::{
    awaited, self_contained, Bindings, Call, CallView, Operation, Reply, Step, NEAREST, REPEAT, RGB, TEXTURE_2D, TEXTURE_MAG_FILTER,
    TEXTURE_MIN_FILTER, TEXTURE_WRAP_S, TEXTURE_WRAP_T, UNSIGNED_BYTE,
};
use crate::resources::{load_failure, load_failure_message, Error, Image};
use vstd::prelude::*;

verus! {

/// An image on the GPU.
#[derive(Debug, PartialEq, Eq)]
pub struct Texture {
    id: u32,
}

impl View for Texture {
    type V = u32;

    /// The texture's handle.
    closed spec fn view(&self) -> u32 {
        self.id
    }
}

/// An image on its way onto the GPU: a texture was asked for, and its handle
/// is awaited.
#[derive(Debug, PartialEq, Eq)]
pub struct Upload {
    pub width: i32,
    pub height: i32,
    pub pixels: Vec<u8>,
}

/// The calls that make the texture `texture` of an image: bind it, have it
/// repeat along both axes and take the nearest texel at every size, then hand
/// the pixels over, three bytes to a pixel: red, green, blue. No smaller
/// copies are made of it.
pub open spec fn upload_calls(texture: u32, width: i32, height: i32, pixels: Seq<u8>) -> Seq<
    CallView,
> {
    seq![
        CallView::BindTexture { target: TEXTURE_2D, texture },
        CallView::TexParameteri { target: TEXTURE_2D, pname: TEXTURE_WRAP_S, param: REPEAT },
        CallView::TexParameteri { target: TEXTURE_2D, pname: TEXTURE_WRAP_T, param: REPEAT },
        CallView::TexParameteri { target: TEXTURE_2D, pname: TEXTURE_MIN_FILTER, param: NEAREST },
        CallView::TexParameteri { target: TEXTURE_2D, pname: TEXTURE_MAG_FILTER, param: NEAREST },
        CallView::TexImage2D {
            target: TEXTURE_2D,
            level: 0,
            internal_format: RGB as i32,
            width,
            height,
            border: 0,
            format: RGB,
            kind: UNSIGNED_BYTE,
            pixels,
        },
    ]
}

impl Texture {
    /// Whether the driver's argument types can express an image of this
    /// size: width and height as signed 32-bit integers.
    pub open spec fn representable(image: Image) -> bool {
        image.width <= i32::MAX && image.height <= i32::MAX
    }

    /// Computes `representable`.
    pub fn is_representable(image: &Image) -> (b: bool)
        ensures
            b == Self::representable(*image),
    {
        image.width <= i32::MAX as u64 && image.height <= i32::MAX as u64
    }

    /// Begins to make a texture of the resource `name`, given what loading
    /// it gave: asks for a new texture. Where the resource has not loaded,
    /// nothing is asked of the driver.
    pub fn from_resource(name: &str, loaded: Result<Image, Error>) -> (step: Step<
        Upload,
        Result<Texture, String>,
    >)
        requires
            loaded matches Ok(image) ==> Self::representable(image),
        ensures
            match loaded {
                Err(error) => {
                    &&& step.calls() == Seq::<CallView>::empty()
                    &&& step matches Step::Finish { result: Err(message), .. }
                    &&& exists|text: Seq<char>|
                        error.named_by(text) && message@ == load_failure(name@, text)
                },
                Ok(image) => {
                    &&& step.calls() == seq![CallView::GenTextures]
                    &&& step matches Step::Continue { state, .. }
                    &&& state == (Upload {
                        width: image.width as i32,
                        height: image.height as i32,
                        pixels: image.data,
                    })
                    &&& awaited(step.calls(), state)
                },
            },
    {
        let mut calls: Vec<Call> = Vec::new();
        match loaded {
            Err(error) => {
                assert(calls.deep_view() =~= Seq::<CallView>::empty());
                Step::Finish { calls, result: Err(load_failure_message(name, &error)) }
            },
            Ok(image) => {
                calls.push(Call::GenTextures);
                assert(calls.deep_view() =~= seq![CallView::GenTextures]);
                Step::Continue {
                    calls,
                    state: Upload {
                        width: image.width as i32,
                        height: image.height as i32,
                        pixels: image.data,
                    },
                }
            },
        }
    }

    /// The texture's handle.
    pub fn id(&self) -> (id: u32)
        ensures
            id == self@,
    {
        self.id
    }

    /// The call that deletes the texture. The texture is gone with it.
    pub fn release(self) -> (call: Call)
        ensures
            call.deep_view() == (CallView::DeleteTextures { texture: self@ }),
    {
        Call::DeleteTextures { texture: self.id }
    }
}

impl Operation for Upload {
    type Output = Result<Texture, String>;

    /// Whether `reply` is an answer to the last call of the step before: the
    /// handle of the new texture.
    open spec fn accepts(&self, reply: Reply) -> bool {
        reply is Handle
    }

    fn is_accepted(&self, reply: &Reply) -> (b: bool) {
        match reply {
            Reply::Handle(_) => true,
            _ => false,
        }
    }

    /// Takes the new texture's handle: the texture is set up and given the
    /// image, and is then there.
    fn advance(self, reply: Reply) -> (step: Step<Upload, Result<Texture, String>>)
        ensures
            step.calls() == upload_calls(reply->Handle_0, self.width, self.height, self.pixels@),
            step matches Step::Finish { result: Ok(texture), .. } && texture@ == reply->Handle_0,
    {
        let id: u32 = match reply {
            Reply::Handle(id) => id,
            _ => vstd::pervasive::unreached(),
        };
        let ghost pixels = self.pixels@;
        let mut calls: Vec<Call> = Vec::new();
        calls.push(Call::BindTexture { target: TEXTURE_2D, texture: id });
        calls.push(Call::TexParameteri { target: TEXTURE_2D, pname: TEXTURE_WRAP_S, param: REPEAT });
        calls.push(Call::TexParameteri { target: TEXTURE_2D, pname: TEXTURE_WRAP_T, param: REPEAT });
        calls.push(
            Call::TexParameteri { target: TEXTURE_2D, pname: TEXTURE_MIN_FILTER, param: NEAREST },
        );
        calls.push(
            Call::TexParameteri { target: TEXTURE_2D, pname: TEXTURE_MAG_FILTER, param: NEAREST },
        );
        calls.push(
            Call::TexImage2D {
                target: TEXTURE_2D,
                level: 0,
                internal_format: RGB as i32,
                width: self.width,
                height: self.height,
                border: 0,
                format: RGB,
                kind: UNSIGNED_BYTE,
                pixels: self.pixels,
            },
        );
        assert(calls.deep_view() =~= upload_calls(id, self.width, self.height, pixels));
        Step::Finish { calls, result: Ok(Texture { id }) }
    }
}

/// An upload binds the texture that it sets up and fills: its calls rely on
/// nothing that was bound before them.
pub proof fn law_upload_binds_its_texture(texture: u32, width: i32, height: i32, pixels: Seq<u8>)
    ensures
        self_contained(upload_calls(texture, width, height, pixels)),
{
    reveal_with_fuel(Bindings::serves_all, 7);
}

} // verus!
