//! 2D textures: decoded pixel uploads, sampling parameters, unit bindings.
//!
//! A texture is created from an already-decoded `{bytes, width, height,
//! format}` tuple. Callers must hand pixel rows bottom-up (and mirrored, as
//! this system's texture-coordinate convention demands); `from_encoded`
//! does both flips itself while decoding.

use vstd::prelude::*;

use crate::command::GlCommand;
use crate::command::TexParam;
use crate::device::clone_bytes;
use crate::device::Device;
use crate::device::DeviceView;
use crate::device::MAX_TEXTURE_UNITS;

verus! {

/// Wrap mode "repeat", as the driver numbers it.
pub const GL_REPEAT: u32 = 0x2901;

/// Linear filtering, as the driver numbers it.
pub const GL_LINEAR: u32 = 0x2601;

/// Trilinear filtering across mipmap levels, as the driver numbers it.
pub const GL_LINEAR_MIPMAP_LINEAR: u32 = 0x2703;

/// Pixel layout of decoded image data handed to a texture.
#[derive(Clone, Copy, PartialEq, Eq, Structural, Debug)]
pub enum TextureFormat {
    Rgb,
    Rgba,
}

impl TextureFormat {
    /// Bytes per pixel for this format.
    pub fn channels(&self) -> (n: u32)
        ensures
            n == self.spec_channels(),
    {
        match self {
            TextureFormat::Rgb => 3,
            TextureFormat::Rgba => 4,
        }
    }

    pub open spec fn spec_channels(&self) -> u32 {
        match self {
            TextureFormat::Rgb => 3u32,
            TextureFormat::Rgba => 4u32,
        }
    }

    /// The driver's code for this pixel layout.
    pub fn resolve(&self) -> (code: u32)
        ensures
            code == self.spec_resolve(),
    {
        match self {
            TextureFormat::Rgb => 0x1907,
            TextureFormat::Rgba => 0x1908,
        }
    }

    pub open spec fn spec_resolve(&self) -> u32 {
        match self {
            TextureFormat::Rgb => 0x1907u32,
            TextureFormat::Rgba => 0x1908u32,
        }
    }
}

/// Owner of one 2D texture object handle, with the texture unit it was
/// assigned to (-1: none assigned; binding then leaves the active unit
/// alone).
pub struct Texture {
    id: u32,
    number: i32,
}

impl Texture {
    /// The owned handle; non-zero once constructed.
    pub closed spec fn spec_id(&self) -> u32 {
        self.id
    }

    /// The assigned texture unit, or -1 for none.
    pub closed spec fn spec_number(&self) -> i32 {
        self.number
    }

    /// The owned handle, for observation and replay.
    pub fn id(&self) -> (id: u32)
        ensures
            id == self.spec_id(),
    {
        self.id
    }

    /// The assigned texture unit, or -1 for none.
    pub fn unit_number(&self) -> (n: i32)
        ensures
            n == self.spec_number(),
    {
        self.number
    }

    /// Allocates a texture, binds it to the active unit, sets both wrap
    /// axes to repeat, minification to trilinear-with-mipmaps and
    /// magnification to linear, uploads the payload as the base level and
    /// derives the full mipmap chain. The payload must match the extent
    /// and format exactly and must not be empty.
    pub fn new(
        dev: &mut Device,
        data: Vec<u8>,
        height: u32,
        width: u32,
        format: TextureFormat,
    ) -> (r: (Texture, Vec<GlCommand>))
        requires
            old(dev)@.wf(),
            old(dev)@.textures.len() < 0xFFFF_FFFF,
            data@.len() == width * height * format.spec_channels(),
            data@.len() > 0,
        ensures
            final(dev)@.wf(),
            r.0.spec_id() == old(dev)@.textures.len() + 1,
            r.0.spec_number() == -1,
            !old(dev)@.texture_live(r.0.spec_id()),
            final(dev)@.texture_live(r.0.spec_id()),
            final(dev)@.textures.len() == old(dev)@.textures.len() + 1,
            forall|j: int|
                0 <= j < old(dev)@.textures.len() ==> final(dev)@.textures[j]
                    == old(dev)@.textures[j],
            final(dev)@.textures.last().alive,
            final(dev)@.textures.last().wrap_s == GL_REPEAT,
            final(dev)@.textures.last().wrap_t == GL_REPEAT,
            final(dev)@.textures.last().min_filter == GL_LINEAR_MIPMAP_LINEAR,
            final(dev)@.textures.last().mag_filter == GL_LINEAR,
            final(dev)@.textures.last().has_image,
            final(dev)@.textures.last().img_width == width,
            final(dev)@.textures.last().img_height == height,
            final(dev)@.textures.last().img_format == format,
            final(dev)@.textures.last().pixels@ == data@,
            final(dev)@.textures.last().mipmapped,
            final(dev)@.units == old(dev)@.units.update(
                old(dev)@.active_unit as int,
                r.0.spec_id(),
            ),
            final(dev)@.bound_texture() == r.0.spec_id(),
            final(dev)@ == (DeviceView {
                textures: final(dev)@.textures,
                units: final(dev)@.units,
                ..old(dev)@
            }),
            r.1@.len() == 8,
            r.1@[0] == (GlCommand::GenTexture { id: r.0.spec_id() }),
            r.1@[1] == (GlCommand::BindTexture { id: r.0.spec_id() }),
            r.1@[2] == (GlCommand::TexParameter { param: TexParam::WrapS, value: GL_REPEAT }),
            r.1@[3] == (GlCommand::TexParameter { param: TexParam::WrapT, value: GL_REPEAT }),
            r.1@[4] == (GlCommand::TexParameter {
                param: TexParam::MinFilter,
                value: GL_LINEAR_MIPMAP_LINEAR,
            }),
            r.1@[5] == (GlCommand::TexParameter { param: TexParam::MagFilter, value: GL_LINEAR }),
            (r.1@[6] matches GlCommand::TexImage2d { width: w6, height: h6, format: f6, pixels: p6 }
                && w6 == width && h6 == height && f6 == format && p6@ == data@),
            r.1@[7] == (GlCommand::GenerateMipmap {}),
    {
        let replay = clone_bytes(&data);
        let id = dev.fresh_texture();
        dev.bind_texture(id);
        dev.tex_parameter(TexParam::WrapS, GL_REPEAT);
        dev.tex_parameter(TexParam::WrapT, GL_REPEAT);
        dev.tex_parameter(TexParam::MinFilter, GL_LINEAR_MIPMAP_LINEAR);
        dev.tex_parameter(TexParam::MagFilter, GL_LINEAR);
        dev.tex_image_2d(width, height, format, data);
        dev.generate_mipmap();
        let mut cs: Vec<GlCommand> = Vec::new();
        cs.push(GlCommand::GenTexture { id });
        cs.push(GlCommand::BindTexture { id });
        cs.push(GlCommand::TexParameter { param: TexParam::WrapS, value: GL_REPEAT });
        cs.push(GlCommand::TexParameter { param: TexParam::WrapT, value: GL_REPEAT });
        cs.push(
            GlCommand::TexParameter { param: TexParam::MinFilter, value: GL_LINEAR_MIPMAP_LINEAR },
        );
        cs.push(GlCommand::TexParameter { param: TexParam::MagFilter, value: GL_LINEAR });
        cs.push(GlCommand::TexImage2d { width, height, format, pixels: replay });
        cs.push(GlCommand::GenerateMipmap {});
        (Texture { id, number: -1 }, cs)
    }

    /// Binds this texture as the current 2D texture: if a unit was assigned
    /// via `set_activate_number`, that unit is activated first; otherwise
    /// the active unit is left as the caller set it. Binding allocates
    /// nothing and uploads nothing: the resource tables are untouched.
    pub fn bind(&self, dev: &mut Device) -> (cs: Vec<GlCommand>)
        requires
            old(dev)@.wf(),
            old(dev)@.texture_live(self.spec_id()),
            self.spec_number() < MAX_TEXTURE_UNITS,
        ensures
            final(dev)@.wf(),
            final(dev)@.bound_texture() == self.spec_id(),
            final(dev)@ == (DeviceView {
                active_unit: final(dev)@.active_unit,
                units: final(dev)@.units,
                ..old(dev)@
            }),
            self.spec_number() > -1 ==> final(dev)@.active_unit == self.spec_number()
                && final(dev)@.units == old(dev)@.units.update(
                self.spec_number() as int,
                self.spec_id(),
            ),
            self.spec_number() <= -1 ==> final(dev)@.active_unit == old(dev)@.active_unit
                && final(dev)@.units == old(dev)@.units.update(
                old(dev)@.active_unit as int,
                self.spec_id(),
            ),
            self.spec_number() > -1 ==> cs@.len() == 2 && cs@[0] == (GlCommand::ActiveTexture {
                unit: self.spec_number() as u32,
            }) && cs@[1] == (GlCommand::BindTexture { id: self.spec_id() }),
            self.spec_number() <= -1 ==> cs@.len() == 1 && cs@[0] == (GlCommand::BindTexture {
                id: self.spec_id(),
            }),
    {
        let mut cs: Vec<GlCommand> = Vec::new();
        if self.number > -1 {
            let unit = self.number as u32;
            dev.active_texture(unit);
            cs.push(GlCommand::ActiveTexture { unit });
        }
        dev.bind_texture(self.id);
        cs.push(GlCommand::BindTexture { id: self.id });
        cs
    }

    /// Records which texture unit this texture is associated with; applied
    /// by later `bind` calls, not now.
    pub fn set_activate_number(&mut self, number: i32)
        requires
            number < MAX_TEXTURE_UNITS,
        ensures
            final(self).spec_number() == number,
            final(self).spec_id() == old(self).spec_id(),
    {
        self.number = number;
    }

    /// Activates a texture unit directly, without binding anything.
    pub fn active_number(dev: &mut Device, number: u32) -> (c: GlCommand)
        requires
            old(dev)@.wf(),
            number < MAX_TEXTURE_UNITS,
        ensures
            final(dev)@.wf(),
            final(dev)@ == (DeviceView { active_unit: number, ..old(dev)@ }),
            c == (GlCommand::ActiveTexture { unit: number }),
    {
        dev.active_texture(number);
        GlCommand::ActiveTexture { unit: number }
    }

    /// Releases the handle: the texture object is freed and every unit it
    /// was bound to is cleared.
    pub fn delete(self, dev: &mut Device) -> (c: GlCommand)
        requires
            old(dev)@.wf(),
        ensures
            final(dev)@.wf(),
            !final(dev)@.texture_live(self.spec_id()),
            final(dev)@.textures.len() == old(dev)@.textures.len(),
            forall|j: int|
                0 <= j < old(dev)@.textures.len() && j != self.spec_id() - 1
                    ==> final(dev)@.textures[j] == old(dev)@.textures[j],
            final(dev)@ == (DeviceView {
                textures: final(dev)@.textures,
                units: final(dev)@.units,
                ..old(dev)@
            }),
            c == (GlCommand::DeleteTexture { id: self.spec_id() }),
    {
        dev.delete_texture(self.id);
        GlCommand::DeleteTexture { id: self.id }
    }
}

/// Decoded image data: pixel rows already reordered for upload.
pub struct DecodedImage {
    pub pixels: Vec<u8>,
    pub width: u32,
    pub height: u32,
    pub format: TextureFormat,
}

/// Whether the byte stream decodes to an 8-bit RGB or RGBA image.
pub uninterp spec fn decode_ok(encoded: Seq<u8>) -> bool;

/// The pixel bytes the decoder yields for the stream, after both flips.
pub uninterp spec fn decoded_pixels(encoded: Seq<u8>) -> Seq<u8>;

/// The decoded image's width in pixels.
pub uninterp spec fn decoded_width(encoded: Seq<u8>) -> u32;

/// The decoded image's height in pixels.
pub uninterp spec fn decoded_height(encoded: Seq<u8>) -> u32;

/// The decoded image's pixel layout.
pub uninterp spec fn decoded_format(encoded: Seq<u8>) -> TextureFormat;

/// Relies on image::load_from_memory and DynamicImage::fliph/flipv:
/// decoding an encoded image is a pure function of its bytes, and the two
/// flips mirror the pixel grid horizontally and vertically, handing back a
/// buffer of exactly `width * height * channels` bytes (the flips copy into
/// a freshly sized buffer). Only 8-bit RGB and RGBA results are accepted;
/// other layouts and undecodable streams yield `None`.
#[verifier::external_body]
fn decode_flipped(encoded: &[u8]) -> (r: Option<DecodedImage>)
    ensures
        r is Some <==> decode_ok(encoded@),
        r matches Some(d) ==> {
            &&& d.pixels@ == decoded_pixels(encoded@)
            &&& d.width == decoded_width(encoded@)
            &&& d.height == decoded_height(encoded@)
            &&& d.format == decoded_format(encoded@)
            &&& d.pixels@.len() == d.width * d.height * d.format.spec_channels()
        },
{
    let img = match image::load_from_memory(encoded) {
        Ok(i) => i.fliph().flipv(),
        Err(_) => return None,
    };
    let format = match img {
        image::DynamicImage::ImageRgb8(_) => TextureFormat::Rgb,
        image::DynamicImage::ImageRgba8(_) => TextureFormat::Rgba,
        _ => return None,
    };
    Some(DecodedImage {
        pixels: img.as_bytes().to_vec(),
        width: img.width(),
        height: img.height(),
        format,
    })
}

impl Texture {
    /// Decodes an encoded image (JPEG, PNG, ...) from memory, reorders it
    /// for upload, and creates a texture from it as `Texture::new` does.
    /// Yields `None`, leaving the device untouched, when the stream does
    /// not decode to a non-empty 8-bit RGB or RGBA image.
    pub fn from_encoded(dev: &mut Device, encoded: &[u8]) -> (r: Option<(Texture, Vec<GlCommand>)>)
        requires
            old(dev)@.wf(),
            old(dev)@.textures.len() < 0xFFFF_FFFF,
        ensures
            final(dev)@.wf(),
            r is Some <==> decode_ok(encoded@) && decoded_width(encoded@) > 0 && decoded_height(
                encoded@,
            ) > 0,
            r is None ==> final(dev)@ == old(dev)@,
            r matches Some((tex, cs)) ==> {
                &&& tex.spec_id() == old(dev)@.textures.len() + 1
                &&& tex.spec_number() == -1
                &&& final(dev)@.texture_live(tex.spec_id())
                &&& final(dev)@.textures.len() == old(dev)@.textures.len() + 1
                &&& final(dev)@.textures.last().pixels@ == decoded_pixels(encoded@)
                &&& final(dev)@.textures.last().img_width == decoded_width(encoded@)
                &&& final(dev)@.textures.last().img_height == decoded_height(encoded@)
                &&& final(dev)@.textures.last().img_format == decoded_format(encoded@)
                &&& final(dev)@.textures.last().wrap_s == GL_REPEAT
                &&& final(dev)@.textures.last().wrap_t == GL_REPEAT
                &&& final(dev)@.textures.last().min_filter == GL_LINEAR_MIPMAP_LINEAR
                &&& final(dev)@.textures.last().mag_filter == GL_LINEAR
                &&& final(dev)@.textures.last().mipmapped
                &&& final(dev)@.bound_texture() == tex.spec_id()
                &&& cs@.len() == 8
            },
    {
        match decode_flipped(encoded) {
            Some(d) => {
                proof {
                    lemma_dims_positive(
                        d.width as int,
                        d.height as int,
                        d.format.spec_channels() as int,
                        d.pixels@.len() as int,
                    );
                }
                if d.pixels.len() == 0 {
                    None
                } else {
                    let DecodedImage { pixels, width, height, format } = d;
                    let (tex, cs) = Texture::new(dev, pixels, height, width, format);
                    Some((tex, cs))
                }
            },
            None => None,
        }
    }
}

/// A product of an extent and a positive channel count is positive exactly
/// when both extent factors are.
proof fn lemma_dims_positive(w: int, h: int, c: int, len: int)
    by (nonlinear_arith)
    requires
        w >= 0,
        h >= 0,
        c > 0,
        len == w * h * c,
    ensures
        (len > 0) <==> (w > 0 && h > 0),
{
}

} // verus!
