use vstd::prelude::*;
use crate::context::{Command, CommandView, Context, ObjectKind};
use crate::error::Error;

verus! {

/// How texels are sampled between texel centres.
#[derive(Clone, Copy, Debug, PartialEq, Eq, Structural)]
pub enum Interpolation {
    Nearest,
    Linear,
}

/// How texture coordinates outside [0, 1] are mapped.
#[derive(Clone, Copy, Debug, PartialEq, Eq, Structural)]
pub enum Wrapping {
    Repeat,
    MirroredRepeat,
    ClampToEdge,
}

/// The texel format.
#[derive(Clone, Copy, Debug, PartialEq, Eq, Structural)]
pub enum Format {
    /// One 32-bit float channel.
    R32F,
    /// Four 8-bit channels.
    RGBA8,
    /// One 32-bit float depth channel.
    Depth32F,
}

/// Everything fixed about a texture when it is made: size, layer count,
/// filtering, wrapping and format.
#[derive(Clone, Copy, Debug, PartialEq, Eq, Structural)]
pub struct TextureDesc {
    pub width: u32,
    pub height: u32,
    pub layers: u32,
    pub min_filter: Interpolation,
    pub mag_filter: Interpolation,
    pub mip_filter: Option<Interpolation>,
    pub wrap_s: Wrapping,
    pub wrap_t: Wrapping,
    pub format: Format,
}

/// The description of a plain 2D texture of one float channel, before any
/// image is given to it.
pub open spec fn plain_desc() -> TextureDesc {
    TextureDesc {
        width: 0,
        height: 0,
        layers: 1,
        min_filter: Interpolation::Linear,
        mag_filter: Interpolation::Linear,
        mip_filter: None,
        wrap_s: Wrapping::Repeat,
        wrap_t: Wrapping::Repeat,
        format: Format::R32F,
    }
}

/// Image storage on the device. Its size, layer count and format are fixed
/// for its lifetime: another size takes another texture.
pub struct Texture {
    id: u32,
    desc: TextureDesc,
}

impl Texture {
    pub closed spec fn id_spec(&self) -> u32 {
        self.id
    }

    pub closed spec fn desc_spec(&self) -> TextureDesc {
        self.desc
    }

    pub fn id(&self) -> (r: u32)
        ensures
            r == self.id_spec(),
    {
        self.id
    }

    pub fn desc(&self) -> (r: TextureDesc)
        ensures
            r == self.desc_spec(),
    {
        self.desc
    }

    /// A texture with the given description and storage allocated for it.
    /// Fails, creating nothing, only when the device has no name left.
    pub fn new(context: &mut Context, desc: TextureDesc) -> (r: Result<Texture, Error>)
        requires
            old(context).wf(),
        ensures
            final(context).wf(),
            r is Ok <==> old(context).names_left() > 0,
            match r {
                Ok(t) => {
                    &&& final(context).names_left() == old(context).names_left() - 1
                    &&& t.desc_spec() == desc
                    &&& !old(context).live().contains((ObjectKind::Texture, t.id_spec()))
                    &&& final(context).live() == old(context).live().insert((ObjectKind::Texture, t.id_spec()))
                    &&& final(context).log() == old(context).log().push(
                        CommandView::Create { kind: ObjectKind::Texture, id: t.id_spec() },
                    ).push(CommandView::TextureStorage { id: t.id_spec(), desc })
                },
                Err(e) => {
                    &&& e is DeviceError
                    &&& final(context).live() == old(context).live()
                    &&& final(context).log() == old(context).log()
                },
            },
    {
        let id = context.create(ObjectKind::Texture)?;
        context.issue(Command::TextureStorage { id, desc });
        Ok(Texture { id, desc })
    }

    /// A plain 2D texture with no image yet. Fails only when the device has
    /// no name left.
    pub fn create(context: &mut Context) -> (r: Result<Texture, Error>)
        requires
            old(context).wf(),
        ensures
            final(context).wf(),
            r is Ok <==> old(context).names_left() > 0,
            match r {
                Ok(t) => {
                    &&& final(context).names_left() == old(context).names_left() - 1
                    &&& t.desc_spec() == plain_desc()
                    &&& !old(context).live().contains((ObjectKind::Texture, t.id_spec()))
                    &&& final(context).live() == old(context).live().insert((ObjectKind::Texture, t.id_spec()))
                    &&& final(context).log() == old(context).log().push(
                        CommandView::Create { kind: ObjectKind::Texture, id: t.id_spec() },
                    )
                },
                Err(e) => {
                    &&& e is DeviceError
                    &&& final(context).live() == old(context).live()
                    &&& final(context).log() == old(context).log()
                },
            },
    {
        let id = context.create(ObjectKind::Texture)?;
        let desc = TextureDesc {
            width: 0,
            height: 0,
            layers: 1,
            min_filter: Interpolation::Linear,
            mag_filter: Interpolation::Linear,
            mip_filter: None,
            wrap_s: Wrapping::Repeat,
            wrap_t: Wrapping::Repeat,
            format: Format::R32F,
        };
        Ok(Texture { id, desc })
    }

    /// Gives the texture a `width` by `height` image of one float channel,
    /// row by row.
    pub fn fill_with(&self, context: &mut Context, data: &Vec<u32>, width: u32, height: u32)
        requires
            old(context).wf(),
            data@.len() == width * height,
        ensures
            final(context).wf(),
            final(context).live() == old(context).live(),
            final(context).names_left() == old(context).names_left(),
            final(context).log() == old(context).log().push(
                CommandView::TextureData { id: self.id_spec(), width, height, words: data@ },
            ),
    {
        let words = data.clone();
        assert(words@ =~= data@);
        context.issue(Command::TextureData { id: self.id, width, height, words });
    }

    /// Releases the texture's storage, once.
    pub fn destroy(self, context: &mut Context)
        requires
            old(context).wf(),
            old(context).live().contains((ObjectKind::Texture, self.id_spec())),
        ensures
            final(context).wf(),
            final(context).live() == old(context).live().remove((ObjectKind::Texture, self.id_spec())),
            final(context).names_left() == old(context).names_left(),
            final(context).log() == old(context).log().push(CommandView::Delete { kind: ObjectKind::Texture, id: self.id_spec() }),
    {
        context.delete(ObjectKind::Texture, self.id);
    }
}

} // verus!
