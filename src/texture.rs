use vstd::prelude::*;

verus! {

/// The kind of a texture that a material samples for its diffuse colour.
pub const DIFFUSE_TEXTURE: &'static str = "texture_diffuse";

/// The kind of a texture that a material samples for its specular highlights.
pub const SPECULAR_TEXTURE: &'static str = "texture_specular";

/// A texture that has been uploaded to the GPU: its handle, its kind
/// (`texture_diffuse` or `texture_specular`) and the file it was read from.
#[derive(Clone, Debug)]
pub struct Texture {
    pub id: u32,
    pub type_: String,
    pub path: String,
}

/// Whether a texture kind is one that a material knows how to sample.
pub open spec fn is_known_kind(kind: Seq<char>) -> bool {
    kind == DIFFUSE_TEXTURE@ || kind == SPECULAR_TEXTURE@
}

/// The two kinds of texture have different names.
pub proof fn lemma_kinds_differ()
    ensures
        DIFFUSE_TEXTURE@ != SPECULAR_TEXTURE@,
{
    reveal_strlit("texture_diffuse");
    reveal_strlit("texture_specular");
    assert(DIFFUSE_TEXTURE@[8] != SPECULAR_TEXTURE@[8]);
}

/// How the channels of a decoded image are laid out.
#[derive(Clone, Copy, Debug, PartialEq, Eq, Structural)]
pub enum PixelLayout {
    Luma8,
    LumaA8,
    Rgb8,
    Rgba8,
    /// Any other layout (16-bit channels, BGR order, ...).
    Other,
}

/// A pixel format of the graphics API, as a texture's storage format or as the
/// format of the pixels handed over to fill it.
#[derive(Clone, Copy, Debug, PartialEq, Eq, Structural)]
pub enum PixelFormat {
    Red,
    Rg,
    Rgb,
    Rgba,
    Srgb,
    SrgbAlpha,
}

/// The two formats of a texture upload: how the GPU stores the texture, and
/// how the pixels handed over are laid out.
#[derive(Clone, Copy, Debug, PartialEq, Eq, Structural)]
pub struct UploadFormats {
    pub storage: PixelFormat,
    pub pixels: PixelFormat,
}

/// The formats for a material texture. Colour images are stored as sRGB, so
/// that the shader reads them in linear space; one- and two-channel images are
/// data and stored as they are. Other layouts are not supported.
pub open spec fn material_formats(layout: PixelLayout) -> Option<UploadFormats> {
    match layout {
        PixelLayout::Luma8 => Some(UploadFormats { storage: PixelFormat::Red, pixels: PixelFormat::Red }),
        PixelLayout::LumaA8 => Some(UploadFormats { storage: PixelFormat::Rg, pixels: PixelFormat::Rg }),
        PixelLayout::Rgb8 => Some(UploadFormats { storage: PixelFormat::Srgb, pixels: PixelFormat::Rgb }),
        PixelLayout::Rgba8 => Some(
            UploadFormats { storage: PixelFormat::SrgbAlpha, pixels: PixelFormat::Rgba },
        ),
        PixelLayout::Other => None,
    }
}

/// The format of one face of a cube map, used both for storage and for the
/// pixels handed over. Other layouts are not supported.
pub open spec fn cube_face_format(layout: PixelLayout) -> Option<PixelFormat> {
    match layout {
        PixelLayout::Luma8 => Some(PixelFormat::Red),
        PixelLayout::LumaA8 => Some(PixelFormat::Rg),
        PixelLayout::Rgb8 => Some(PixelFormat::Rgb),
        PixelLayout::Rgba8 => Some(PixelFormat::Rgba),
        PixelLayout::Other => None,
    }
}

/// Chooses the upload formats of a material texture from the layout of its
/// image; `None` for a layout that is not supported.
pub fn material_texture_formats(layout: PixelLayout) -> (r: Option<UploadFormats>)
    ensures
        r == material_formats(layout),
{
    match layout {
        PixelLayout::Luma8 => Some(UploadFormats { storage: PixelFormat::Red, pixels: PixelFormat::Red }),
        PixelLayout::LumaA8 => Some(UploadFormats { storage: PixelFormat::Rg, pixels: PixelFormat::Rg }),
        PixelLayout::Rgb8 => Some(UploadFormats { storage: PixelFormat::Srgb, pixels: PixelFormat::Rgb }),
        PixelLayout::Rgba8 => Some(
            UploadFormats { storage: PixelFormat::SrgbAlpha, pixels: PixelFormat::Rgba },
        ),
        PixelLayout::Other => None,
    }
}

/// Chooses the format of a cube-map face from the layout of its image; `None`
/// for a layout that is not supported.
pub fn cube_map_face_format(layout: PixelLayout) -> (r: Option<PixelFormat>)
    ensures
        r == cube_face_format(layout),
{
    match layout {
        PixelLayout::Luma8 => Some(PixelFormat::Red),
        PixelLayout::LumaA8 => Some(PixelFormat::Rg),
        PixelLayout::Rgb8 => Some(PixelFormat::Rgb),
        PixelLayout::Rgba8 => Some(PixelFormat::Rgba),
        PixelLayout::Other => None,
    }
}

} // verus!
