//! Textures, the builder that configures them, and framebuffers that render
//! into a texture.

use vstd::prelude::*;

use crate::command::{
    keeps_framebuffer, keeps_program, lemma_framebuffer_kept, lemma_keeps_framebuffer_concat,
    lemma_keeps_program_concat, lemma_run_concat, run_calls, GlCall, GlState,
};
use crate::glenum::{
    CLAMP_TO_BORDER, CLAMP_TO_EDGE, COLOR_ATTACHMENT0, FRAMEBUFFER, LINEAR, LINEAR_MIPMAP_LINEAR,
    LINEAR_MIPMAP_NEAREST, MIRRORED_REPEAT, NEAREST, REPEAT, RGB, RGBA, RGBA8, TEXTURE0, TEXTURE_2D,
    TEXTURE_MAG_FILTER, TEXTURE_MIN_FILTER, TEXTURE_WRAP_S, TEXTURE_WRAP_T, UNSIGNED_BYTE,
    FRAMEBUFFER_COMPLETE,
};

verus! {

/// How texture coordinates outside `[0, 1]` are mapped.
#[derive(Debug, Clone, Copy, PartialEq, Eq, Structural)]
pub enum TextureWrap {
    Repeat,
    MirroredRepeat,
    ClampToEdge,
    ClampToBorder,
}

impl TextureWrap {
    /// The OpenGL enumerant of this wrapping mode.
    pub open spec fn gl_value(self) -> u32 {
        match self {
            TextureWrap::Repeat => REPEAT,
            TextureWrap::MirroredRepeat => MIRRORED_REPEAT,
            TextureWrap::ClampToEdge => CLAMP_TO_EDGE,
            TextureWrap::ClampToBorder => CLAMP_TO_BORDER,
        }
    }

    pub fn to_gl(&self) -> (r: u32)
        ensures
            r == self.gl_value(),
    {
        match self {
            TextureWrap::Repeat => REPEAT,
            TextureWrap::MirroredRepeat => MIRRORED_REPEAT,
            TextureWrap::ClampToEdge => CLAMP_TO_EDGE,
            TextureWrap::ClampToBorder => CLAMP_TO_BORDER,
        }
    }
}

/// How texels are sampled when a texture is minified or magnified.
#[derive(Debug, Clone, Copy, PartialEq, Eq, Structural)]
pub enum TextureFilter {
    Nearest,
    Linear,
    LinearMipmapLinear,
    LinearMipmapNearest,
}

impl TextureFilter {
    /// The OpenGL enumerant of this filter.
    pub open spec fn gl_value(self) -> u32 {
        match self {
            TextureFilter::Nearest => NEAREST,
            TextureFilter::Linear => LINEAR,
            TextureFilter::LinearMipmapLinear => LINEAR_MIPMAP_LINEAR,
            TextureFilter::LinearMipmapNearest => LINEAR_MIPMAP_NEAREST,
        }
    }

    pub fn to_gl(&self) -> (r: u32)
        ensures
            r == self.gl_value(),
    {
        match self {
            TextureFilter::Nearest => NEAREST,
            TextureFilter::Linear => LINEAR,
            TextureFilter::LinearMipmapLinear => LINEAR_MIPMAP_LINEAR,
            TextureFilter::LinearMipmapNearest => LINEAR_MIPMAP_NEAREST,
        }
    }
}

/// The colour layout of a decoded image.
#[derive(Debug, Clone, Copy, PartialEq, Eq, Structural)]
pub enum ImageColor {
    /// Three 8-bit channels.
    Rgb8,
    /// Four 8-bit channels.
    Rgba8,
    /// Any other layout (grey, 16-bit, float, ...).
    Other,
}

/// The layout in which pixels are handed to OpenGL.
#[derive(Debug, Clone, Copy, PartialEq, Eq, Structural)]
pub enum PixelFormat {
    /// Tightly packed 8-bit RGB.
    Rgb8,
    /// Tightly packed 8-bit RGBA.
    Rgba8,
}

impl PixelFormat {
    /// The OpenGL enumerant (`RGB` or `RGBA`) of this layout.
    pub open spec fn gl_value(self) -> u32 {
        match self {
            PixelFormat::Rgb8 => RGB,
            PixelFormat::Rgba8 => RGBA,
        }
    }

    pub fn to_gl(&self) -> (r: u32)
        ensures
            r == self.gl_value(),
    {
        match self {
            PixelFormat::Rgb8 => RGB,
            PixelFormat::Rgba8 => RGBA,
        }
    }
}

/// The upload layout of an image of colour `color`: 8-bit RGB images are
/// uploaded as they are, every other image is converted to 8-bit RGBA.
pub open spec fn upload_format_of(color: ImageColor) -> PixelFormat {
    match color {
        ImageColor::Rgb8 => PixelFormat::Rgb8,
        _ => PixelFormat::Rgba8,
    }
}

pub fn upload_format(color: ImageColor) -> (r: PixelFormat)
    ensures
        r == upload_format_of(color),
{
    match color {
        ImageColor::Rgb8 => PixelFormat::Rgb8,
        _ => PixelFormat::Rgba8,
    }
}

impl PixelFormat {
    /// The number of bytes per pixel.
    pub open spec fn channel_count(self) -> nat {
        match self {
            PixelFormat::Rgb8 => 3,
            PixelFormat::Rgba8 => 4,
        }
    }

    pub fn channels(&self) -> (r: usize)
        ensures
            r == self.channel_count(),
    {
        match self {
            PixelFormat::Rgb8 => 3,
            PixelFormat::Rgba8 => 4,
        }
    }
}

/// The position of byte `x` of row `y` in an image whose rows are `row_len`
/// bytes long.
pub open spec fn pixel_at(y: int, x: int, row_len: int) -> int {
    y * row_len + x
}

proof fn lemma_row_bounds(y: int, x: int, row_len: int, rows: int)
    by (nonlinear_arith)
    requires
        0 <= y < rows,
        0 <= x < row_len,
    ensures
        0 <= y * row_len,
        y * row_len + x < rows * row_len,
        y * row_len + row_len <= rows * row_len,
        (y + 1) * row_len == y * row_len + row_len,
{
}

proof fn lemma_earlier_rows_before(yy: int, y: int, xx: int, row_len: int)
    by (nonlinear_arith)
    requires
        0 <= yy < y,
        0 <= xx < row_len,
    ensures
        yy * row_len + xx < y * row_len,
{
}

/// Whether `out` is the image of `rows` rows of `row_len` bytes at the start
/// of `p`, upside down: row `y` of `out` is row `rows - 1 - y` of `p`.
pub open spec fn is_flipped(out: Seq<u8>, p: Seq<u8>, row_len: int, rows: int) -> bool {
    &&& out.len() == rows * row_len
    &&& forall|y: int, x: int|
        0 <= y < rows && 0 <= x < row_len ==> #[trigger] out[pixel_at(y, x, row_len)] == p[pixel_at(
            rows - 1 - y,
            x,
            row_len,
        )]
}

/// The image of `rows` rows of `row_len` bytes at the start of `pixels`,
/// upside down: row `y` of the result is row `rows - 1 - y` of `pixels`.
/// OpenGL reads images bottom row first, image files store them top row
/// first.
pub fn flip_rows(pixels: &Vec<u8>, row_len: usize, rows: usize) -> (r: Vec<u8>)
    requires
        pixels@.len() >= rows * row_len,
    ensures
        is_flipped(r@, pixels@, row_len as int, rows as int),
{
    let total = pixels.len();
    let mut out: Vec<u8> = Vec::new();
    let mut y: usize = 0;
    while y < rows
        invariant
            y <= rows,
            total == pixels@.len(),
            pixels@.len() >= rows * row_len,
            out@.len() == y * row_len,
            forall|yy: int, x: int|
                0 <= yy < y && 0 <= x < row_len ==> #[trigger] out@[pixel_at(yy, x, row_len as int)]
                    == pixels@[pixel_at(rows - 1 - yy, x, row_len as int)],
        decreases rows - y,
    {
        let src_row = rows - 1 - y;
        proof {
            if row_len > 0 {
                lemma_row_bounds(src_row as int, 0, row_len as int, rows as int);
            }
            assert(0 <= src_row * row_len && src_row * row_len + row_len <= rows * row_len)
                by (nonlinear_arith)
                requires
                    src_row < rows,
            ;
        }
        let start = src_row * row_len;
        let mut x: usize = 0;
        while x < row_len
            invariant
                y < rows,
                src_row == rows - 1 - y,
                start == src_row * row_len,
                start + row_len <= total,
                total == pixels@.len(),
                x <= row_len,
                pixels@.len() >= rows * row_len,
                out@.len() == y * row_len + x,
                forall|yy: int, xx: int|
                    0 <= yy < y && 0 <= xx < row_len ==> #[trigger] out@[pixel_at(
                        yy,
                        xx,
                        row_len as int,
                    )] == pixels@[pixel_at(rows - 1 - yy, xx, row_len as int)],
                forall|xx: int|
                    0 <= xx < x ==> #[trigger] out@[pixel_at(y as int, xx, row_len as int)]
                        == pixels@[pixel_at(rows - 1 - y, xx, row_len as int)],
            decreases row_len - x,
        {
            proof {
                lemma_row_bounds(src_row as int, x as int, row_len as int, rows as int);
                lemma_row_bounds(y as int, x as int, row_len as int, rows as int);
            }
            let ghost before = out@;
            out.push(pixels[start + x]);
            proof {
                assert forall|yy: int, xx: int|
                    0 <= yy < y && 0 <= xx < row_len implies #[trigger] out@[pixel_at(
                        yy,
                        xx,
                        row_len as int,
                    )] == pixels@[pixel_at(rows - 1 - yy, xx, row_len as int)] by {
                    lemma_earlier_rows_before(yy, y as int, xx, row_len as int);
                    assert(out@[pixel_at(yy, xx, row_len as int)] == before[pixel_at(
                        yy,
                        xx,
                        row_len as int,
                    )]);
                }
                assert forall|xx: int|
                    0 <= xx < x + 1 implies #[trigger] out@[pixel_at(y as int, xx, row_len as int)]
                        == pixels@[pixel_at(rows - 1 - y, xx, row_len as int)] by {
                    if xx < x {
                        assert(out@[pixel_at(y as int, xx, row_len as int)] == before[pixel_at(
                            y as int,
                            xx,
                            row_len as int,
                        )]);
                    }
                }
            }
            x = x + 1;
        }
        proof {
            if row_len > 0 {
                lemma_row_bounds(y as int, 0, row_len as int, rows as int);
            } else {
                assert(y * row_len == 0 && (y + 1) * row_len == 0) by (nonlinear_arith)
                    requires
                        row_len == 0,
                ;
            }
            assert forall|yy: int, xx: int|
                0 <= yy < y + 1 && 0 <= xx < row_len implies #[trigger] out@[pixel_at(
                    yy,
                    xx,
                    row_len as int,
                )] == pixels@[pixel_at(rows - 1 - yy, xx, row_len as int)] by {
                if yy == y {
                } else {
                }
            }
        }
        y = y + 1;
    }
    proof {
        if row_len > 0 {
        } else {
            assert(rows * row_len == 0) by (nonlinear_arith)
                requires
                    row_len == 0,
            ;
        }
    }
    out
}

/// What a [`TextureBuilder`] holds.
pub struct TextureSettings {
    pub wrap_s: TextureWrap,
    pub wrap_t: TextureWrap,
    pub min_filter: TextureFilter,
    pub mag_filter: TextureFilter,
    pub generate_mipmaps: bool,
}

pub struct TextureBuilder {
    wrap_s: TextureWrap,
    wrap_t: TextureWrap,
    min_filter: TextureFilter,
    mag_filter: TextureFilter,
    generate_mipmaps: bool,
}

impl View for TextureBuilder {
    type V = TextureSettings;

    closed spec fn view(&self) -> TextureSettings {
        TextureSettings {
            wrap_s: self.wrap_s,
            wrap_t: self.wrap_t,
            min_filter: self.min_filter,
            mag_filter: self.mag_filter,
            generate_mipmaps: self.generate_mipmaps,
        }
    }
}

/// The calls that create the storage of texture `texture` with the settings
/// `s`: bind it, set wrapping and filtering.
pub open spec fn texture_parameter_calls(s: TextureSettings, texture: u32) -> Seq<GlCall> {
    seq![
        GlCall::BindTexture { target: TEXTURE_2D, texture },
        GlCall::TexParameteri {
            target: TEXTURE_2D,
            pname: TEXTURE_WRAP_S,
            param: s.wrap_s.gl_value() as i32,
        },
        GlCall::TexParameteri {
            target: TEXTURE_2D,
            pname: TEXTURE_WRAP_T,
            param: s.wrap_t.gl_value() as i32,
        },
        GlCall::TexParameteri {
            target: TEXTURE_2D,
            pname: TEXTURE_MIN_FILTER,
            param: s.min_filter.gl_value() as i32,
        },
        GlCall::TexParameteri {
            target: TEXTURE_2D,
            pname: TEXTURE_MAG_FILTER,
            param: s.mag_filter.gl_value() as i32,
        },
    ]
}

/// The calls after the upload: mipmaps when asked for, then unbind.
pub open spec fn texture_finish_calls(s: TextureSettings) -> Seq<GlCall> {
    (if s.generate_mipmaps {
        seq![GlCall::GenerateMipmap { target: TEXTURE_2D }]
    } else {
        Seq::empty()
    }) + seq![GlCall::BindTexture { target: TEXTURE_2D, texture: 0 }]
}

/// Storage of `width` x `height` RGBA8 texels, left uninitialised.
pub open spec fn empty_image_call(width: i32, height: i32) -> GlCall {
    GlCall::TexImage2D {
        target: TEXTURE_2D,
        level: 0,
        internal_format: RGBA8 as i32,
        width,
        height,
        format: RGBA,
        kind: UNSIGNED_BYTE,
        pixels: None,
    }
}

/// Upload of the image `pixels` of `width` x `height` pixels laid out as
/// `format`.
pub open spec fn image_upload_call(width: u32, height: u32, format: PixelFormat, pixels: Vec<
    u8,
>) -> GlCall {
    GlCall::TexImage2D {
        target: TEXTURE_2D,
        level: 0,
        internal_format: format.gl_value() as i32,
        width: width as i32,
        height: height as i32,
        format: format.gl_value(),
        kind: UNSIGNED_BYTE,
        pixels: Some(pixels),
    }
}

impl TextureBuilder {
    pub fn new() -> (r: Self)
        ensures
            r@ == (TextureSettings {
                wrap_s: TextureWrap::Repeat,
                wrap_t: TextureWrap::Repeat,
                min_filter: TextureFilter::Nearest,
                mag_filter: TextureFilter::Nearest,
                generate_mipmaps: true,
            }),
    {
        TextureBuilder {
            wrap_s: TextureWrap::Repeat,
            wrap_t: TextureWrap::Repeat,
            min_filter: TextureFilter::Nearest,
            mag_filter: TextureFilter::Nearest,
            generate_mipmaps: true,
        }
    }

    pub fn with_wrapping(self, s: TextureWrap, t: TextureWrap) -> (r: Self)
        ensures
            r@ == (TextureSettings { wrap_s: s, wrap_t: t, ..self@ }),
    {
        let mut b = self;
        b.wrap_s = s;
        b.wrap_t = t;
        b
    }

    pub fn with_filtering(self, min: TextureFilter, mag: TextureFilter) -> (r: Self)
        ensures
            r@ == (TextureSettings { min_filter: min, mag_filter: mag, ..self@ }),
    {
        let mut b = self;
        b.min_filter = min;
        b.mag_filter = mag;
        b
    }

    pub fn generate_mipmaps(self, generate: bool) -> (r: Self)
        ensures
            r@ == (TextureSettings { generate_mipmaps: generate, ..self@ }),
    {
        let mut b = self;
        b.generate_mipmaps = generate;
        b
    }

    fn parameter_calls(&self, texture: u32) -> (r: Vec<GlCall>)
        ensures
            r@ == texture_parameter_calls(self@, texture),
    {
        let mut calls: Vec<GlCall> = Vec::new();
        calls.push(GlCall::BindTexture { target: TEXTURE_2D, texture });
        calls.push(
            GlCall::TexParameteri {
                target: TEXTURE_2D,
                pname: TEXTURE_WRAP_S,
                param: self.wrap_s.to_gl() as i32,
            },
        );
        calls.push(
            GlCall::TexParameteri {
                target: TEXTURE_2D,
                pname: TEXTURE_WRAP_T,
                param: self.wrap_t.to_gl() as i32,
            },
        );
        calls.push(
            GlCall::TexParameteri {
                target: TEXTURE_2D,
                pname: TEXTURE_MIN_FILTER,
                param: self.min_filter.to_gl() as i32,
            },
        );
        calls.push(
            GlCall::TexParameteri {
                target: TEXTURE_2D,
                pname: TEXTURE_MAG_FILTER,
                param: self.mag_filter.to_gl() as i32,
            },
        );
        calls
    }

    fn push_finish_calls(&self, calls: &mut Vec<GlCall>)
        ensures
            final(calls)@ == old(calls)@ + texture_finish_calls(self@),
    {
        if self.generate_mipmaps {
            calls.push(GlCall::GenerateMipmap { target: TEXTURE_2D });
        }
        calls.push(GlCall::BindTexture { target: TEXTURE_2D, texture: 0 });
    }

    /// A texture of `width` x `height` uninitialised RGBA8 texels under the
    /// name `id` (from `glGenTextures`), and the calls that create it.
    pub fn empty(&self, id: u32, width: i32, height: i32) -> (r: (Texture, Vec<GlCall>))
        ensures
            r.0@ == (TextureView { id, width, height }),
            r.1@ == texture_parameter_calls(self@, id) + seq![empty_image_call(width, height)]
                + texture_finish_calls(self@),
    {
        let mut calls = self.parameter_calls(id);
        calls.push(
            GlCall::TexImage2D {
                target: TEXTURE_2D,
                level: 0,
                internal_format: RGBA8 as i32,
                width,
                height,
                format: RGBA,
                kind: UNSIGNED_BYTE,
                pixels: None,
            },
        );
        self.push_finish_calls(&mut calls);
        (Texture { id, width, height }, calls)
    }

    fn upload(
        &self,
        id: u32,
        width: u32,
        height: u32,
        format: PixelFormat,
        pixels: Vec<u8>,
    ) -> (r: (Texture, Vec<GlCall>))
        ensures
            r.0@ == (TextureView { id, width: width as i32, height: height as i32 }),
            r.1@ == texture_parameter_calls(self@, id) + seq![
                image_upload_call(width, height, format, pixels),
            ] + texture_finish_calls(self@),
    {
        let w = width as i32;
        let h = height as i32;
        let gl_format = format.to_gl();
        let mut calls = self.parameter_calls(id);
        calls.push(
            GlCall::TexImage2D {
                target: TEXTURE_2D,
                level: 0,
                internal_format: gl_format as i32,
                width: w,
                height: h,
                format: gl_format,
                kind: UNSIGNED_BYTE,
                pixels: Some(pixels),
            },
        );
        self.push_finish_calls(&mut calls);
        (Texture { id, width: w, height: h }, calls)
    }

    /// A texture under the name `id` holding the decoded image at the start
    /// of `pixels`, of `width` x `height` pixels laid out as `format`, top
    /// row first, and the calls that upload it bottom row first, as OpenGL
    /// expects.
    pub fn from_image(
        &self,
        id: u32,
        width: u32,
        height: u32,
        format: PixelFormat,
        pixels: &Vec<u8>,
    ) -> (r: (Texture, Vec<GlCall>))
        requires
            pixels@.len() >= height * (width * format.channel_count()),
        ensures
            uploads_image(r.0@, r.1@, self@, id, width, height, format, pixels@),
    {
        let total = pixels.len();
        let flipped = if height == 0 {
            let empty: Vec<u8> = Vec::new();
            empty
        } else {
            let channels = format.channels();
            proof {
                assert(width * format.channel_count() <= height * (width * format.channel_count()))
                    by (nonlinear_arith)
                    requires
                        height >= 1,
                ;
                assert(total == pixels@.len());
            }
            let row_len = (width as usize) * channels;
            flip_rows(pixels, row_len, height as usize)
        };
        let r = self.upload(id, width, height, format, flipped);
        assert(r.1@ == texture_parameter_calls(self@, id) + seq![
            image_upload_call(width, height, format, flipped),
        ] + texture_finish_calls(self@));
        r
    }

    /// A texture under the name `id` holding the image encoded in `bytes`,
    /// decoded in the format that the extension of `path` names (as
    /// `image::open` does for the file at `path`), and the calls that upload
    /// it: 8-bit RGB images as RGB, every other image converted to 8-bit
    /// RGBA, bottom row first. When the image cannot be decoded, the error
    /// comes back and nothing else happens.
    pub fn from_encoded(&self, id: u32, bytes: &[u8], path: &str) -> (r: Result<
        (Texture, Vec<GlCall>),
        ImageLoadError,
    >)
        ensures
            r is Err <==> decoded_image(bytes@, path@) is None,
            decoded_image(bytes@, path@) matches Some((width, height, color)) ==> r matches Ok(
                t,
            ) && uploads_image(
                t.0@,
                t.1@,
                self@,
                id,
                width,
                height,
                upload_format_of(color),
                decoded_pixels(bytes@, path@, upload_format_of(color)),
            ),
    {
        let (width, height, color) = match decode_image(bytes, path) {
            Ok(info) => info,
            Err(message) => {
                return Err(ImageLoadError { message });
            },
        };
        let format = upload_format(color);
        let converted = match format {
            PixelFormat::Rgb8 => decode_rgb8(bytes, path),
            PixelFormat::Rgba8 => decode_rgba8(bytes, path),
        };
        match converted {
            Ok(pixels) => Ok(self.from_image(id, width, height, format, &pixels)),
            Err(message) => Err(ImageLoadError { message }),
        }
    }
}

/// Whether `texture` and `calls` are the texture under the name `id` made
/// with `settings` from the image at the start of `pixels`, of `width` x
/// `height` pixels laid out as `format`, and the calls that upload it bottom
/// row first.
pub open spec fn uploads_image(
    texture: TextureView,
    calls: Seq<GlCall>,
    settings: TextureSettings,
    id: u32,
    width: u32,
    height: u32,
    format: PixelFormat,
    pixels: Seq<u8>,
) -> bool {
    &&& texture == TextureView { id, width: width as i32, height: height as i32 }
    &&& exists|flipped: Vec<u8>|
        #![trigger image_upload_call(width, height, format, flipped)]
        is_flipped(flipped@, pixels, width * format.channel_count(), height as int) && calls
            == texture_parameter_calls(settings, id) + seq![
            image_upload_call(width, height, format, flipped),
        ] + texture_finish_calls(settings)
}

/// Why an image could not be decoded: the `image` crate's message.
#[derive(Debug, Clone, PartialEq, Eq)]
pub struct ImageLoadError {
    pub message: String,
}

/// The width, height and colour layout of the image encoded in `bytes` in
/// the format named by the extension of `path`, as the `image` crate decodes
/// it; `None` when the extension names no format it knows or the bytes do
/// not decode.
pub uninterp spec fn decoded_image(bytes: Seq<u8>, path: Seq<char>) -> Option<(u32, u32, ImageColor)>;

/// The pixels of that image converted to 8-bit RGB by the `image` crate, top
/// row first.
pub uninterp spec fn decoded_rgb8(bytes: Seq<u8>, path: Seq<char>) -> Seq<u8>;

/// The pixels of that image converted to 8-bit RGBA by the `image` crate, top
/// row first.
pub uninterp spec fn decoded_rgba8(bytes: Seq<u8>, path: Seq<char>) -> Seq<u8>;

/// The pixels of that image in the layout `format`.
pub open spec fn decoded_pixels(bytes: Seq<u8>, path: Seq<char>, format: PixelFormat) -> Seq<u8> {
    match format {
        PixelFormat::Rgb8 => decoded_rgb8(bytes, path),
        PixelFormat::Rgba8 => decoded_rgba8(bytes, path),
    }
}

/// Decodes `bytes` with `image::load_from_memory_with_format` in the format
/// that `image::ImageFormat::from_path(path)` names, the choice `image::open`
/// makes, and reports the image's width, height and colour type (8-bit RGB,
/// 8-bit RGBA, or another). Decoding is a function of the bytes and the
/// format: the result is named [`decoded_image`]. On failure the error's
/// message comes back.
#[verifier::external_body]
fn decode_image(bytes: &[u8], path: &str) -> (r: Result<(u32, u32, ImageColor), String>)
    ensures
        r is Ok <==> decoded_image(bytes@, path@) is Some,
        r matches Ok(info) ==> decoded_image(bytes@, path@) == Some(info),
{
    let img = match image::ImageFormat::from_path(path) {
        Ok(format) => image::load_from_memory_with_format(bytes, format),
        Err(e) => Err(e),
    };
    let img = match img {
        Ok(img) => img,
        Err(e) => return Err(format!("{}", e)),
    };
    let color = match img.color() {
        image::ColorType::Rgb8 => ImageColor::Rgb8,
        image::ColorType::Rgba8 => ImageColor::Rgba8,
        _ => ImageColor::Other,
    };
    Ok((img.width(), img.height(), color))
}

/// Decodes as [`decode_image`] does and converts the image with
/// `DynamicImage::to_rgb8`, handing out its buffer with `into_raw`. It
/// succeeds exactly when [`decode_image`] does on the same arguments; the
/// buffer holds at least `width * height * 3` bytes, the bound that every
/// `ImageBuffer` of that size keeps.
#[verifier::external_body]
fn decode_rgb8(bytes: &[u8], path: &str) -> (r: Result<Vec<u8>, String>)
    ensures
        r is Ok <==> decoded_image(bytes@, path@) is Some,
        r matches Ok(v) ==> v@ == decoded_rgb8(bytes@, path@),
        r matches Ok(v) ==> (decoded_image(bytes@, path@) matches Some((w, h, c)) ==> v@.len() >= h
            * (w * 3)),
{
    let img = match image::ImageFormat::from_path(path) {
        Ok(format) => image::load_from_memory_with_format(bytes, format),
        Err(e) => Err(e),
    };
    let img = match img {
        Ok(img) => img,
        Err(e) => return Err(format!("{}", e)),
    };
    Ok(img.to_rgb8().into_raw())
}

/// Decodes as [`decode_image`] does and converts the image with
/// `DynamicImage::to_rgba8`, handing out its buffer with `into_raw`. It
/// succeeds exactly when [`decode_image`] does on the same arguments; the
/// buffer holds at least `width * height * 4` bytes, the bound that every
/// `ImageBuffer` of that size keeps.
#[verifier::external_body]
fn decode_rgba8(bytes: &[u8], path: &str) -> (r: Result<Vec<u8>, String>)
    ensures
        r is Ok <==> decoded_image(bytes@, path@) is Some,
        r matches Ok(v) ==> v@ == decoded_rgba8(bytes@, path@),
        r matches Ok(v) ==> (decoded_image(bytes@, path@) matches Some((w, h, c)) ==> v@.len() >= h
            * (w * 4)),
{
    let img = match image::ImageFormat::from_path(path) {
        Ok(format) => image::load_from_memory_with_format(bytes, format),
        Err(e) => Err(e),
    };
    let img = match img {
        Ok(img) => img,
        Err(e) => return Err(format!("{}", e)),
    };
    Ok(img.to_rgba8().into_raw())
}

/// What a [`Texture`] holds: its OpenGL name and its size in texels.
pub struct TextureView {
    pub id: u32,
    pub width: i32,
    pub height: i32,
}

pub struct Texture {
    id: u32,
    width: i32,
    height: i32,
}

impl View for Texture {
    type V = TextureView;

    closed spec fn view(&self) -> TextureView {
        TextureView { id: self.id, width: self.width, height: self.height }
    }
}

impl Texture {
    /// Makes the texture active in texture unit `slot`.
    pub fn bind(&self, slot: u32) -> (r: Vec<GlCall>)
        requires
            slot <= u32::MAX - TEXTURE0,
        ensures
            r@ == seq![
                GlCall::ActiveTexture { unit: (TEXTURE0 + slot) as u32 },
                GlCall::BindTexture { target: TEXTURE_2D, texture: self@.id },
            ],
    {
        let mut calls: Vec<GlCall> = Vec::new();
        calls.push(GlCall::ActiveTexture { unit: TEXTURE0 + slot });
        calls.push(GlCall::BindTexture { target: TEXTURE_2D, texture: self.id });
        calls
    }

    pub fn unbind(&self) -> (r: Vec<GlCall>)
        ensures
            r@ == seq![GlCall::BindTexture { target: TEXTURE_2D, texture: 0 }],
    {
        let mut calls: Vec<GlCall> = Vec::new();
        calls.push(GlCall::BindTexture { target: TEXTURE_2D, texture: 0 });
        calls
    }

    pub fn width(&self) -> (r: i32)
        ensures
            r == self@.width,
    {
        self.width
    }

    pub fn height(&self) -> (r: i32)
        ensures
            r == self@.height,
    {
        self.height
    }

    /// The calls that release the texture's storage.
    pub fn delete_calls(&self) -> (r: Vec<GlCall>)
        ensures
            r@ == seq![GlCall::DeleteTexture { texture: self@.id }],
    {
        let mut calls: Vec<GlCall> = Vec::new();
        calls.push(GlCall::DeleteTexture { texture: self.id });
        calls
    }
}

/// Whether `glCheckFramebufferStatus` reported a complete framebuffer.
pub fn framebuffer_complete(status: u32) -> (r: bool)
    ensures
        r == (status == FRAMEBUFFER_COMPLETE),
{
    status == FRAMEBUFFER_COMPLETE
}

/// What a [`Framebuffer`] holds: its OpenGL name and its colour texture.
pub struct FramebufferView {
    pub id: u32,
    pub color: TextureView,
}

/// Why a framebuffer cannot be used.
#[derive(Debug, Clone, Copy, PartialEq, Eq, Structural)]
pub enum FramebufferError {
    /// The framebuffer was incomplete right after it was created.
    Incomplete,
    /// The framebuffer became incomplete when it was resized.
    IncompleteAfterResize,
}

/// The settings of [`TextureBuilder::new`].
pub open spec fn default_settings() -> TextureSettings {
    TextureSettings {
        wrap_s: TextureWrap::Repeat,
        wrap_t: TextureWrap::Repeat,
        min_filter: TextureFilter::Nearest,
        mag_filter: TextureFilter::Nearest,
        generate_mipmaps: true,
    }
}

/// The calls that create the empty texture `texture` of `width` x `height`
/// texels with the settings `s`.
pub open spec fn empty_texture_calls(s: TextureSettings, texture: u32, width: i32, height: i32) -> Seq<
    GlCall,
> {
    texture_parameter_calls(s, texture) + seq![empty_image_call(width, height)]
        + texture_finish_calls(s)
}

/// The calls that attach `texture` as the colour buffer of `framebuffer`,
/// leaving the framebuffer bound for the completeness check.
pub open spec fn attach_calls(framebuffer: u32, texture: u32) -> Seq<GlCall> {
    seq![
        GlCall::BindFramebuffer { target: FRAMEBUFFER, framebuffer },
        GlCall::FramebufferTexture2D {
            target: FRAMEBUFFER,
            attachment: COLOR_ATTACHMENT0,
            textarget: TEXTURE_2D,
            texture,
            level: 0,
        },
    ]
}

/// The calls that reallocate the colour texture `texture` of `framebuffer`
/// at `width` x `height` and bind the framebuffer for the completeness check.
pub open spec fn resize_calls(framebuffer: u32, texture: u32, width: i32, height: i32) -> Seq<GlCall> {
    seq![
        GlCall::BindTexture { target: TEXTURE_2D, texture },
        empty_image_call(width, height),
        GlCall::BindTexture { target: TEXTURE_2D, texture: 0 },
        GlCall::BindFramebuffer { target: FRAMEBUFFER, framebuffer },
    ]
}

/// The calls that direct drawing back to the window.
pub open spec fn unbind_framebuffer_calls() -> Seq<GlCall> {
    seq![GlCall::BindFramebuffer { target: FRAMEBUFFER, framebuffer: 0 }]
}

/// The framebuffer `f` after a resize to `width` x `height`: a size that is
/// not positive in both directions changes nothing.
pub open spec fn resized(f: FramebufferView, width: i32, height: i32) -> FramebufferView {
    if width > 0 && height > 0 {
        FramebufferView { id: f.id, color: TextureView { id: f.color.id, width, height } }
    } else {
        f
    }
}

/// The framebuffer `f` after the resizes `sizes`, in order.
pub open spec fn resized_all(f: FramebufferView, sizes: Seq<(i32, i32)>) -> FramebufferView
    decreases sizes.len(),
{
    if sizes.len() == 0 {
        f
    } else {
        resized(resized_all(f, sizes.drop_last()), sizes.last().0, sizes.last().1)
    }
}

/// Renders into a texture instead of the window.
///
/// Creation and resizing hand back the calls to run; after them the host
/// reads the completeness status, and [`Framebuffer::complete_setup`] or
/// [`Framebuffer::complete_resize`] say what follows.
pub struct Framebuffer {
    id: u32,
    color: Texture,
}

impl View for Framebuffer {
    type V = FramebufferView;

    closed spec fn view(&self) -> FramebufferView {
        FramebufferView { id: self.id, color: self.color@ }
    }
}

impl Framebuffer {
    /// A framebuffer under the name `id` (from `glGenFramebuffers`) that
    /// draws into a new empty RGBA8 texture of `width` x `height` texels under
    /// the name `texture_id` (from `glGenTextures`), made with the default
    /// texture settings; and the calls that create the texture and attach it.
    pub fn new(id: u32, texture_id: u32, width: i32, height: i32) -> (r: (Framebuffer, Vec<GlCall>))
        ensures
            r.0@ == (FramebufferView { id, color: TextureView { id: texture_id, width, height } }),
            r.1@ == empty_texture_calls(default_settings(), texture_id, width, height) + attach_calls(
                id,
                texture_id,
            ),
    {
        let builder = TextureBuilder::new();
        let (color, mut calls) = builder.empty(texture_id, width, height);
        calls.push(GlCall::BindFramebuffer { target: FRAMEBUFFER, framebuffer: id });
        calls.push(
            GlCall::FramebufferTexture2D {
                target: FRAMEBUFFER,
                attachment: COLOR_ATTACHMENT0,
                textarget: TEXTURE_2D,
                texture: texture_id,
                level: 0,
            },
        );
        (Framebuffer { id, color }, calls)
    }

    /// What follows the creation calls, given the status word that
    /// `glCheckFramebufferStatus` returned after them: the calls that direct
    /// drawing back to the window when the framebuffer is complete, an error
    /// otherwise.
    pub fn complete_setup(&self, status: u32) -> (r: Result<Vec<GlCall>, FramebufferError>)
        ensures
            status == FRAMEBUFFER_COMPLETE ==> r is Ok && r.unwrap()@ == unbind_framebuffer_calls(),
            status != FRAMEBUFFER_COMPLETE ==> r == Err::<Vec<GlCall>, FramebufferError>(
                FramebufferError::Incomplete,
            ),
    {
        if framebuffer_complete(status) {
            Ok(self.unbind())
        } else {
            Err(FramebufferError::Incomplete)
        }
    }

    /// What follows the calls of a resize, given the status word that
    /// `glCheckFramebufferStatus` returned after them: the calls that direct
    /// drawing back to the window when the framebuffer is complete, an error
    /// otherwise.
    pub fn complete_resize(&self, status: u32) -> (r: Result<Vec<GlCall>, FramebufferError>)
        ensures
            status == FRAMEBUFFER_COMPLETE ==> r is Ok && r.unwrap()@ == unbind_framebuffer_calls(),
            status != FRAMEBUFFER_COMPLETE ==> r == Err::<Vec<GlCall>, FramebufferError>(
                FramebufferError::IncompleteAfterResize,
            ),
    {
        if framebuffer_complete(status) {
            Ok(self.unbind())
        } else {
            Err(FramebufferError::IncompleteAfterResize)
        }
    }

    /// Directs the following draw calls into the texture.
    pub fn bind(&self) -> (r: Vec<GlCall>)
        ensures
            r@ == seq![GlCall::BindFramebuffer { target: FRAMEBUFFER, framebuffer: self@.id }],
    {
        let mut calls: Vec<GlCall> = Vec::new();
        calls.push(GlCall::BindFramebuffer { target: FRAMEBUFFER, framebuffer: self.id });
        calls
    }

    /// Directs the following draw calls back to the window.
    pub fn unbind(&self) -> (r: Vec<GlCall>)
        ensures
            r@ == unbind_framebuffer_calls(),
    {
        let mut calls: Vec<GlCall> = Vec::new();
        calls.push(GlCall::BindFramebuffer { target: FRAMEBUFFER, framebuffer: 0 });
        calls
    }

    pub fn texture(&self) -> (r: &Texture)
        ensures
            r@ == self@.color,
    {
        &self.color
    }

    /// Resizes the colour texture to `width` x `height`. A size that is not
    /// positive in both directions is ignored: nothing changes and `None`
    /// comes back. Otherwise the calls that reallocate the texture and bind
    /// the framebuffer for the completeness check come back; what follows them
    /// is [`Framebuffer::complete_resize`].
    pub fn resize(&mut self, width: i32, height: i32) -> (r: Option<Vec<GlCall>>)
        ensures
            final(self)@ == resized(old(self)@, width, height),
            width <= 0 || height <= 0 ==> r is None,
            width > 0 && height > 0 ==> r is Some && r.unwrap()@ == resize_calls(
                old(self)@.id,
                old(self)@.color.id,
                width,
                height,
            ),
    {
        if width <= 0 || height <= 0 {
            return None;
        }
        self.color.width = width;
        self.color.height = height;
        let mut calls: Vec<GlCall> = Vec::new();
        calls.push(GlCall::BindTexture { target: TEXTURE_2D, texture: self.color.id });
        calls.push(
            GlCall::TexImage2D {
                target: TEXTURE_2D,
                level: 0,
                internal_format: RGBA8 as i32,
                width,
                height,
                format: RGBA,
                kind: UNSIGNED_BYTE,
                pixels: None,
            },
        );
        calls.push(GlCall::BindTexture { target: TEXTURE_2D, texture: 0 });
        calls.push(GlCall::BindFramebuffer { target: FRAMEBUFFER, framebuffer: self.id });
        Some(calls)
    }

    /// The calls that release the framebuffer and then its colour texture.
    pub fn delete_calls(&self) -> (r: Vec<GlCall>)
        ensures
            r@ == seq![
                GlCall::DeleteFramebuffer { framebuffer: self@.id },
                GlCall::DeleteTexture { texture: self@.color.id },
            ],
    {
        let mut calls: Vec<GlCall> = Vec::new();
        calls.push(GlCall::DeleteFramebuffer { framebuffer: self.id });
        calls.push(GlCall::DeleteTexture { texture: self.color.id });
        calls
    }
}

/// Distinct wrapping modes, and distinct filters, reach OpenGL as distinct
/// enumerants.
pub proof fn lemma_settings_are_distinguished(
    a: TextureWrap,
    b: TextureWrap,
    c: TextureFilter,
    d: TextureFilter,
)
    ensures
        a != b ==> a.gl_value() != b.gl_value(),
        c != d ==> c.gl_value() != d.gl_value(),
{
}

/// Every texture a builder makes, empty or from pixels, is configured with
/// the builder's settings and ends unbound; the upload in between is the only
/// difference.
pub proof fn lemma_textures_share_settings(s: TextureSettings, id: u32, upload: GlCall)
    requires
        upload is TexImage2D,
    ensures
        ({
            let calls = texture_parameter_calls(s, id) + seq![upload] + texture_finish_calls(s);
            &&& calls[0] == (GlCall::BindTexture { target: TEXTURE_2D, texture: id })
            &&& calls[1] == (GlCall::TexParameteri {
                target: TEXTURE_2D,
                pname: TEXTURE_WRAP_S,
                param: s.wrap_s.gl_value() as i32,
            })
            &&& calls[2] == (GlCall::TexParameteri {
                target: TEXTURE_2D,
                pname: TEXTURE_WRAP_T,
                param: s.wrap_t.gl_value() as i32,
            })
            &&& calls[3] == (GlCall::TexParameteri {
                target: TEXTURE_2D,
                pname: TEXTURE_MIN_FILTER,
                param: s.min_filter.gl_value() as i32,
            })
            &&& calls[4] == (GlCall::TexParameteri {
                target: TEXTURE_2D,
                pname: TEXTURE_MAG_FILTER,
                param: s.mag_filter.gl_value() as i32,
            })
            &&& calls[5] == upload
            &&& s.generate_mipmaps <==> calls.contains(GlCall::GenerateMipmap { target: TEXTURE_2D })
            &&& calls.last() == (GlCall::BindTexture { target: TEXTURE_2D, texture: 0 })
        }),
{
    let calls = texture_parameter_calls(s, id) + seq![upload] + texture_finish_calls(s);
    if s.generate_mipmaps {
        assert(calls[6] == GlCall::GenerateMipmap { target: TEXTURE_2D });
    } else {
        assert(calls.len() == 7);
        if calls.contains(GlCall::GenerateMipmap { target: TEXTURE_2D }) {
            let i = choose|i: int|
                0 <= i < calls.len() && calls[i] == GlCall::GenerateMipmap { target: TEXTURE_2D };
            assert(calls[i] is BindTexture || calls[i] is TexParameteri || calls[i] is TexImage2D);
        }
    }
}

/// An image is uploaded in the layout it is converted to: 8-bit RGB as RGB,
/// anything else as RGBA, with matching internal and external formats.
pub proof fn lemma_upload_layout(color: ImageColor)
    ensures
        upload_format_of(color).gl_value() == (if color == ImageColor::Rgb8 { RGB } else { RGBA }),
        upload_format_of(color).gl_value() as i32 == (if color == ImageColor::Rgb8 {
            RGB as i32
        } else {
            RGBA as i32
        }),
{
}

/// Resizing keeps the framebuffer's and its texture's names, and after a run
/// of resizes the texture has the size of the last one that was positive in
/// both directions, or the size it had when there was none.
pub proof fn lemma_last_positive_resize_wins(f: FramebufferView, sizes: Seq<(i32, i32)>)
    ensures
        resized_all(f, sizes).id == f.id,
        resized_all(f, sizes).color.id == f.color.id,
        (forall|j: int| 0 <= j < sizes.len() ==> !((#[trigger] sizes[j]).0 > 0 && sizes[j].1 > 0))
            ==> resized_all(f, sizes).color == f.color,
        forall|i: int|
            0 <= i < sizes.len() && (#[trigger] sizes[i]).0 > 0 && sizes[i].1 > 0 && (forall|j: int|
                i < j < sizes.len() ==> !((#[trigger] sizes[j]).0 > 0 && sizes[j].1 > 0))
                ==> resized_all(f, sizes).color.width == sizes[i].0 && resized_all(
                f,
                sizes,
            ).color.height == sizes[i].1,
    decreases sizes.len(),
{
    if sizes.len() > 0 {
        let prefix = sizes.drop_last();
        lemma_last_positive_resize_wins(f, prefix);
        assert(sizes.last() == sizes[sizes.len() - 1]);
        assert forall|j: int| 0 <= j < prefix.len() implies prefix[j] == sizes[j] by {}
    }
}

/// Each [`Framebuffer::resize`] is one step of a run of resizes.
pub proof fn lemma_resize_step(f: FramebufferView, sizes: Seq<(i32, i32)>, width: i32, height: i32)
    ensures
        resized_all(f, Seq::empty()) == f,
        resized(resized_all(f, sizes), width, height) == resized_all(f, sizes.push((width, height))),
{
    assert(sizes.push((width, height)).drop_last() =~= sizes);
}

/// Drawing between binding a framebuffer and unbinding it renders into the
/// framebuffer; afterwards drawing renders to the window again. The calls in
/// between (drawing meshes, binding textures and shaders, setting uniforms)
/// bind and delete no framebuffer.
pub proof fn lemma_draws_land_in_framebuffer(
    s: GlState,
    id: u32,
    between: Seq<GlCall>,
    after: Seq<GlCall>,
)
    requires
        keeps_framebuffer(between),
        keeps_framebuffer(after),
    ensures
        ({
            let bound = run_calls(s, seq![GlCall::BindFramebuffer { target: FRAMEBUFFER, framebuffer: id }]);
            let drawn = run_calls(bound, between);
            let back = run_calls(drawn, unbind_framebuffer_calls());
            let later = run_calls(back, after);
            &&& bound.framebuffer == id
            &&& bound.draws == s.draws
            &&& forall|i: int|
                s.draws.len() <= i < drawn.draws.len() ==> (#[trigger] drawn.draws[i]).framebuffer
                    == id
            &&& back.framebuffer == 0
            &&& back.draws == drawn.draws
            &&& forall|i: int|
                drawn.draws.len() <= i < later.draws.len() ==> (#[trigger] later.draws[i]).framebuffer
                    == 0
        }),
{
    reveal_with_fuel(run_calls, 2);
    let bound = run_calls(s, seq![GlCall::BindFramebuffer { target: FRAMEBUFFER, framebuffer: id }]);
    lemma_framebuffer_kept(bound, between);
    let drawn = run_calls(bound, between);
    let back = run_calls(drawn, unbind_framebuffer_calls());
    lemma_framebuffer_kept(back, after);
}

proof fn lemma_finish_bindings(s: GlState, settings: TextureSettings)
    ensures
        keeps_program(texture_finish_calls(settings)),
        keeps_framebuffer(texture_finish_calls(settings)),
        run_calls(s, texture_finish_calls(settings)) == (GlState {
            textures: s.textures.insert(s.active_unit, 0),
            ..s
        }),
{
    reveal_with_fuel(run_calls, 3);
    reveal_with_fuel(keeps_program, 3);
    reveal_with_fuel(keeps_framebuffer, 3);
    let tail = seq![GlCall::BindTexture { target: TEXTURE_2D, texture: 0 }];
    if settings.generate_mipmaps {
        let head = seq![GlCall::GenerateMipmap { target: TEXTURE_2D }];
        lemma_run_concat(s, head, tail);
        lemma_keeps_program_concat(head, tail);
        lemma_keeps_framebuffer_concat(head, tail);
    } else {
        assert(texture_finish_calls(settings) =~= tail);
    }
}

/// Creating a texture switches no program, touches no binding but the
/// texture of the active unit, and leaves that one at 0.
pub proof fn lemma_texture_creation_bindings(
    s: GlState,
    settings: TextureSettings,
    texture: u32,
    upload: GlCall,
)
    requires
        upload is TexImage2D,
    ensures
        ({
            let calls = texture_parameter_calls(settings, texture) + seq![upload]
                + texture_finish_calls(settings);
            &&& keeps_program(calls)
            &&& keeps_framebuffer(calls)
            &&& run_calls(s, calls) == GlState { textures: s.textures.insert(s.active_unit, 0), ..s }
        }),
{
    reveal_with_fuel(run_calls, 6);
    reveal_with_fuel(keeps_program, 6);
    reveal_with_fuel(keeps_framebuffer, 6);
    let head = texture_parameter_calls(settings, texture);
    let mid = seq![upload];
    let tail = texture_finish_calls(settings);
    lemma_run_concat(s, head, mid);
    lemma_run_concat(s, head + mid, tail);
    lemma_keeps_program_concat(head, mid);
    lemma_keeps_program_concat(head + mid, tail);
    lemma_keeps_framebuffer_concat(head, mid);
    lemma_keeps_framebuffer_concat(head + mid, tail);
    let s2 = run_calls(s, head + mid);
    assert(s2 == GlState { textures: s.textures.insert(s.active_unit, texture), ..s });
    lemma_finish_bindings(s2, settings);
    assert(s2.textures.insert(s.active_unit, 0) =~= s.textures.insert(s.active_unit, 0));
}

/// Binding a texture to unit `slot` makes that unit active with the texture
/// bound; unbinding leaves no texture bound to the active unit. Neither
/// switches the program.
pub proof fn lemma_texture_bind_bindings(s: GlState, texture: u32, slot: u32)
    requires
        slot <= u32::MAX - TEXTURE0,
    ensures
        ({
            let unit = (TEXTURE0 + slot) as u32;
            let bind = seq![
                GlCall::ActiveTexture { unit },
                GlCall::BindTexture { target: TEXTURE_2D, texture },
            ];
            &&& keeps_program(bind)
            &&& keeps_framebuffer(bind)
            &&& run_calls(s, bind) == GlState {
                active_unit: unit,
                textures: s.textures.insert(unit, texture),
                ..s
            }
        }),
        keeps_program(seq![GlCall::BindTexture { target: TEXTURE_2D, texture: 0 }]),
        keeps_framebuffer(seq![GlCall::BindTexture { target: TEXTURE_2D, texture: 0 }]),
        run_calls(s, seq![GlCall::BindTexture { target: TEXTURE_2D, texture: 0 }]) == (GlState {
            textures: s.textures.insert(s.active_unit, 0),
            ..s
        }),
{
    reveal_with_fuel(run_calls, 3);
    reveal_with_fuel(keeps_program, 3);
    reveal_with_fuel(keeps_framebuffer, 3);
}

/// Creating a framebuffer and, once it is complete, running what follows,
/// and likewise resizing it, switch no program and leave no framebuffer and
/// no texture of the active unit bound. Binding it directs drawing into it,
/// unbinding back to the window.
pub proof fn lemma_framebuffer_bindings(
    s: GlState,
    id: u32,
    texture: u32,
    width: i32,
    height: i32,
)
    ensures
        ({
            let calls = empty_texture_calls(default_settings(), texture, width, height)
                + attach_calls(id, texture) + unbind_framebuffer_calls();
            &&& keeps_program(calls)
            &&& run_calls(s, calls) == GlState {
                textures: s.textures.insert(s.active_unit, 0),
                framebuffer: 0,
                ..s
            }
        }),
        ({
            let calls = resize_calls(id, texture, width, height) + unbind_framebuffer_calls();
            &&& keeps_program(calls)
            &&& run_calls(s, calls) == GlState {
                textures: s.textures.insert(s.active_unit, 0),
                framebuffer: 0,
                ..s
            }
        }),
        keeps_program(seq![GlCall::BindFramebuffer { target: FRAMEBUFFER, framebuffer: id }]),
        run_calls(s, seq![GlCall::BindFramebuffer { target: FRAMEBUFFER, framebuffer: id }]) == (
        GlState { framebuffer: id, ..s }),
        keeps_program(unbind_framebuffer_calls()),
        run_calls(s, unbind_framebuffer_calls()) == (GlState { framebuffer: 0, ..s }),
{
    reveal_with_fuel(run_calls, 5);
    reveal_with_fuel(keeps_program, 5);
    let create = empty_texture_calls(default_settings(), texture, width, height);
    lemma_texture_creation_bindings(s, default_settings(), texture, empty_image_call(width, height));
    let s1 = run_calls(s, create);
    let attach = attach_calls(id, texture);
    let unbind = unbind_framebuffer_calls();
    lemma_run_concat(s, create, attach);
    lemma_run_concat(s, create + attach, unbind);
    lemma_keeps_program_concat(create, attach);
    lemma_keeps_program_concat(create + attach, unbind);
    let resize = resize_calls(id, texture, width, height);
    lemma_run_concat(s, resize, unbind);
    lemma_keeps_program_concat(resize, unbind);
    assert(run_calls(s, resize).textures =~= s.textures.insert(s.active_unit, 0));
}

/// A texture made from an image, for every pixel layout, has the image's
/// size, and the single upload among its calls stores exactly that size:
/// the image's width and height, in this order, in the layout's format, into
/// the texture's own name.
pub proof fn lemma_upload_has_the_image_size(
    texture: TextureView,
    calls: Seq<GlCall>,
    settings: TextureSettings,
    id: u32,
    width: u32,
    height: u32,
    format: PixelFormat,
    pixels: Seq<u8>,
)
    requires
        uploads_image(texture, calls, settings, id, width, height, format, pixels),
    ensures
        texture.id == id,
        texture.width == width as i32,
        texture.height == height as i32,
        calls[0] == (GlCall::BindTexture { target: TEXTURE_2D, texture: id }),
        calls[5] matches GlCall::TexImage2D {
            target,
            level,
            internal_format,
            width: w,
            height: h,
            format: f,
            kind,
            pixels: Some(p),
        } && target == TEXTURE_2D && level == 0 && w == texture.width && h == texture.height
            && w == width as i32 && h == height as i32 && f == format.gl_value() && internal_format
            == format.gl_value() as i32 && kind == UNSIGNED_BYTE && p@.len() == height * (width
            * format.channel_count()),
{
    let flipped = choose|flipped: Vec<u8>|
        #![trigger image_upload_call(width, height, format, flipped)]
        is_flipped(flipped@, pixels, width * format.channel_count(), height as int) && calls
            == texture_parameter_calls(settings, id) + seq![
            image_upload_call(width, height, format, flipped),
        ] + texture_finish_calls(settings);
    assert(calls[5] == image_upload_call(width, height, format, flipped));
    assert(calls[0] == texture_parameter_calls(settings, id)[0]);
    assert(height * (width * format.channel_count()) == (width * format.channel_count()) * height)
        by (nonlinear_arith);
}

/// An empty texture and a resized framebuffer texture allocate storage of
/// exactly their recorded size.
pub proof fn lemma_empty_storage_has_the_texture_size(
    settings: TextureSettings,
    id: u32,
    width: i32,
    height: i32,
    f: FramebufferView,
)
    ensures
        empty_texture_calls(settings, id, width, height)[5] matches GlCall::TexImage2D {
            width: w,
            height: h,
            ..
        } && w == width && h == height,
        width > 0 && height > 0 ==> (resize_calls(f.id, f.color.id, width, height)[1] matches GlCall::TexImage2D {
            width: w,
            height: h,
            ..
        } && w == resized(f, width, height).color.width && h == resized(f, width, height).color.height),
{
}

} // verus!
