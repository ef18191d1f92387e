//! Rendered images and the renderer's own decisions around the native calls.

use image::{DynamicImage, ImageBuffer, Rgba};
use vstd::endian::{endianness, Endian};
use vstd::prelude::*;

verus! {

/// A rendered map image: RGBA pixel data held by an `image` crate buffer.
///
/// The buffer is reached only through the trusted functions below, which
/// state what it holds.
#[verifier::external_body]
#[derive(Debug, Hash, PartialEq, Eq)]
pub struct Image {
    /// The `image` crate buffer, for any operation of that crate.
    pub buffer: ImageBuffer<Rgba<u8>, Vec<u8>>,
}

/// The raw RGBA samples that an image holds, row by row.
pub uninterp spec fn image_samples(img: Image) -> Seq<u8>;

/// The width in pixels that an image was made with.
pub uninterp spec fn image_width(img: Image) -> u32;

/// The height in pixels that an image was made with.
pub uninterp spec fn image_height(img: Image) -> u32;

/// Whether `ImageBuffer::check_image_fits` of the `image` crate accepts an
/// RGBA buffer of the given size and data length: `image_buffer_len` computes
/// `4 * width` and then `* height` with checked `usize` arithmetic, and the
/// result must not exceed the length.
pub open spec fn rgba_fits(width: int, height: int, len: int) -> bool {
    4 * width <= usize::MAX && 4 * width * height <= len
}

/// Calls `ImageBuffer::from_vec` of the `image` crate for RGBA pixels of `u8`.
/// Its source (`from_raw` / `check_image_fits` / `image_buffer_len`) returns a
/// buffer exactly when `4 * width` does not overflow `usize` and
/// `4 * width * height` is at most the length of the data (a product that
/// overflows `usize` exceeds every length); the buffer then keeps the data,
/// the width and the height as given.
#[verifier::external_body]
fn image_from_vec(width: u32, height: u32, data: Vec<u8>) -> (img: Option<Image>)
    ensures
        img is Some <==> rgba_fits(width as int, height as int, data@.len() as int),
        img matches Some(i) ==> {
            &&& image_samples(i) == data@
            &&& image_width(i) == width
            &&& image_height(i) == height
        },
{
    ImageBuffer::from_vec(width, height, data).map(|buffer| Image { buffer })
}

#[verifier::external_type_specification]
#[verifier::external_body]
pub struct ExDynamicImage(DynamicImage);

/// The width in pixels of an image of any pixel format.
pub uninterp spec fn dynamic_width(source: DynamicImage) -> u32;

/// The height in pixels of an image of any pixel format.
pub uninterp spec fn dynamic_height(source: DynamicImage) -> u32;

/// The RGBA samples of an image of any pixel format, as `to_rgba8` converts
/// them: a function of the image alone.
pub uninterp spec fn rgba8_samples(source: DynamicImage) -> Seq<u8>;

/// Calls `DynamicImage::to_rgba8` of the `image` crate. Its source clones an
/// RGBA8 image and converts any other one with `cast_in_color_space` (fixed
/// coefficients), which builds the result with `ImageBuffer::from_vec` on the
/// source's width and height; either way the result keeps the source's width
/// and height, holds a buffer that `check_image_fits` accepts, and holds the
/// samples that the conversion gives for the source.
#[verifier::external_body]
pub(crate) fn rgba8_of(source: &DynamicImage) -> (img: Image)
    ensures
        image_samples(img) == rgba8_samples(*source),
        image_width(img) == dynamic_width(*source),
        image_height(img) == dynamic_height(*source),
        rgba_fits(
            image_width(img) as int,
            image_height(img) as int,
            image_samples(img).len() as int,
        ),
{
    Image { buffer: source.to_rgba8() }
}

/// The value of four bytes read as an unsigned integer in the given byte order.
pub open spec fn u32_from_bytes(b: Seq<u8>, order: Endian) -> int {
    match order {
        Endian::Little => b[0] + 256 * b[1] + 65536 * b[2] + 16777216 * b[3],
        Endian::Big => b[3] + 256 * b[2] + 65536 * b[1] + 16777216 * b[0],
    }
}

/// Calls `u32::from_ne_bytes`, which reads the bytes in the byte order of the
/// machine that runs the code (vstd's `endianness()`).
#[verifier::external_body]
fn u32_from_ne_bytes(bytes: [u8; 4]) -> (v: u32)
    ensures
        v == u32_from_bytes(bytes@, endianness()),
{
    u32::from_ne_bytes(bytes)
}

/// The width that the native renderer writes in the first four bytes of its output.
pub open spec fn raw_width(bytes: Seq<u8>) -> int {
    u32_from_bytes(bytes.subrange(0, 4), endianness())
}

/// The height that the native renderer writes in the next four bytes of its output.
pub open spec fn raw_height(bytes: Seq<u8>) -> int {
    u32_from_bytes(bytes.subrange(4, 8), endianness())
}

/// Whether the native renderer's output holds a header and enough pixel data for it.
pub open spec fn raw_image_is_valid(bytes: Seq<u8>) -> bool {
    bytes.len() >= 8 && rgba_fits(raw_width(bytes), raw_height(bytes), bytes.len() - 8)
}

/// The four bytes that represent `v` in the given byte order.
pub open spec fn u32_to_bytes(v: u32, order: Endian) -> Seq<u8> {
    let b0 = (v % 256) as u8;
    let b1 = ((v / 256) % 256) as u8;
    let b2 = ((v / 65536) % 256) as u8;
    let b3 = (v / 16777216) as u8;
    match order {
        Endian::Little => seq![b0, b1, b2, b3],
        Endian::Big => seq![b3, b2, b1, b0],
    }
}

/// The output in which the native renderer hands over an image: the width
/// and the height in the machine's byte order, then the pixel data.
pub open spec fn raw_image(width: u32, height: u32, data: Seq<u8>) -> Seq<u8> {
    u32_to_bytes(width, endianness()) + u32_to_bytes(height, endianness()) + data
}

proof fn lemma_u32_bytes_round_trip(v: u32, order: Endian)
    ensures
        u32_to_bytes(v, order).len() == 4,
        u32_from_bytes(u32_to_bytes(v, order), order) == v,
{
    let b0 = v % 256;
    let b1 = (v / 256) % 256;
    let b2 = (v / 65536) % 256;
    let b3 = v / 16777216;
    assert(v == b0 + 256 * b1 + 65536 * b2 + 16777216 * b3 && b3 < 256) by (nonlinear_arith)
        requires
            b0 == v % 256,
            b1 == (v / 256) % 256,
            b2 == (v / 65536) % 256,
            b3 == v / 16777216,
            0 <= v < 0x1_0000_0000,
    ;
}

/// The header of the native renderer's output is read back as it was
/// written: an output made of a width, a height and enough pixel data for
/// them (in a size the `image` crate can count in `usize`) is a valid image
/// with exactly that width, height and data.
pub proof fn lemma_raw_image_round_trip(width: u32, height: u32, data: Seq<u8>)
    requires
        rgba_fits(width as int, height as int, data.len() as int),
    ensures
        raw_image_is_valid(raw_image(width, height, data)),
        raw_width(raw_image(width, height, data)) == width,
        raw_height(raw_image(width, height, data)) == height,
        raw_image(width, height, data).subrange(8, raw_image(width, height, data).len() as int)
            == data,
{
    let raw = raw_image(width, height, data);
    lemma_u32_bytes_round_trip(width, endianness());
    lemma_u32_bytes_round_trip(height, endianness());
    assert(raw.subrange(0, 4) =~= u32_to_bytes(width, endianness()));
    assert(raw.subrange(4, 8) =~= u32_to_bytes(height, endianness()));
    assert(raw.subrange(8, raw.len() as int) =~= data);
}

impl Image {
    /// The raw RGBA samples of this image.
    pub open spec fn samples(&self) -> Seq<u8> {
        image_samples(*self)
    }

    /// The width of this image in pixels.
    pub open spec fn spec_width(&self) -> u32 {
        image_width(*self)
    }

    /// The height of this image in pixels.
    pub open spec fn spec_height(&self) -> u32 {
        image_height(*self)
    }

    /// Create an Image from raw RGBA data: a width and a height in native
    /// byte order, followed by the pixel data.
    pub fn from_raw(bytes: &[u8]) -> (img: Option<Self>)
        ensures
            img is Some <==> raw_image_is_valid(bytes@),
            img matches Some(i) ==> {
                &&& i.spec_width() == raw_width(bytes@)
                &&& i.spec_height() == raw_height(bytes@)
                &&& i.samples() == bytes@.subrange(8, bytes@.len() as int)
            },
    {
        if bytes.len() < 8 {
            return None;
        }
        let width = u32_from_ne_bytes([bytes[0], bytes[1], bytes[2], bytes[3]]);
        let height = u32_from_ne_bytes([bytes[4], bytes[5], bytes[6], bytes[7]]);
        proof {
            assert([bytes[0], bytes[1], bytes[2], bytes[3]]@ =~= bytes@.subrange(0, 4));
        }
        let mut data: Vec<u8> = Vec::new();
        let mut i: usize = 8;
        while i < bytes.len()
            invariant
                8 <= i <= bytes@.len(),
                data@ =~= bytes@.subrange(8, i as int),
            decreases bytes@.len() - i,
        {
            data.push(bytes[i]);
            i = i + 1;
        }
        image_from_vec(width, height, data)
    }
}

/// Calls `Clone::clone` of `ImageBuffer`, which copies the data, the width and
/// the height (and the colour space, which no contract here speaks of).
#[verifier::external_body]
fn image_clone(img: &Image) -> (copy: Image)
    ensures
        image_samples(copy) == image_samples(*img),
        image_width(copy) == image_width(*img),
        image_height(copy) == image_height(*img),
{
    Image { buffer: img.buffer.clone() }
}

impl Clone for Image {
    fn clone(&self) -> (copy: Self)
        ensures
            copy.samples() == self.samples(),
            copy.spec_width() == self.spec_width(),
            copy.spec_height() == self.spec_height(),
    {
        image_clone(self)
    }
}

/// Calls `ImageBuffer::width`, which returns the width the buffer was made with.
#[verifier::external_body]
fn buffer_width(img: &Image) -> (w: u32)
    ensures
        w == image_width(*img),
{
    img.buffer.width()
}

/// Calls `ImageBuffer::height`, which returns the height the buffer was made with.
#[verifier::external_body]
fn buffer_height(img: &Image) -> (h: u32)
    ensures
        h == image_height(*img),
{
    img.buffer.height()
}

/// Calls `ImageBuffer::as_raw`, which returns the data the buffer holds.
#[verifier::external_body]
fn buffer_samples(img: &Image) -> (data: &Vec<u8>)
    ensures
        data@ == image_samples(*img),
{
    img.buffer.as_raw()
}

impl Image {
    /// The width of the image in pixels.
    pub fn width(&self) -> (w: u32)
        ensures
            w == self.spec_width(),
    {
        buffer_width(self)
    }

    /// The height of the image in pixels.
    pub fn height(&self) -> (h: u32)
        ensures
            h == self.spec_height(),
    {
        buffer_height(self)
    }

    /// The raw RGBA samples of the image, row by row.
    pub fn as_raw(&self) -> (data: &Vec<u8>)
        ensures
            data@ == self.samples(),
    {
        buffer_samples(self)
    }
}

/// Internal state type to render a static map image.
#[derive(Debug)]
pub struct Static;

/// Internal state type to render a map tile.
#[derive(Debug)]
pub struct Tile;

/// Internal state type to render continuously
#[derive(Debug)]
pub struct Continuous;

/// Errors that can occur during map rendering operations.
#[derive(Debug, Clone, Copy, PartialEq, Eq, Structural)]
pub enum RenderingError {
    /// Style must be specified before rendering can occur.
    StyleNotSpecified,
    /// The renderer returned invalid or corrupted image data.
    InvalidImageData,
}

/// The text shown for a rendering error.
pub open spec fn rendering_error_text(e: RenderingError) -> Seq<char> {
    match e {
        RenderingError::StyleNotSpecified => "Style must be specified to render a tile"@,
        RenderingError::InvalidImageData => "Invalid image data received from renderer"@,
    }
}

impl RenderingError {
    /// The text shown for this error.
    pub fn to_string(&self) -> (s: String)
        ensures
            s@ == rendering_error_text(*self),
    {
        proof {
            reveal_strlit("Style must be specified to render a tile");
            reveal_strlit("Invalid image data received from renderer");
        }
        match self {
            RenderingError::StyleNotSpecified => "Style must be specified to render a tile".to_owned(),
            RenderingError::InvalidImageData => "Invalid image data received from renderer".to_owned(),
        }
    }
}

/// Why a style file could not be loaded.
#[derive(Debug, Clone, Copy, PartialEq, Eq, Structural)]
pub enum StyleLoadErrorKind {
    /// The path does not name a file.
    NotFound,
    /// The path is not valid UTF-8.
    InvalidData,
}

/// A style file that could not be loaded, with the message shown for it.
#[derive(Debug)]
pub struct StyleLoadError {
    /// Why the style could not be loaded.
    pub kind: StyleLoadErrorKind,
    /// The message shown for it.
    pub message: String,
}

/// The message for a path that does not name a file.
pub open spec fn not_a_file_text(shown: Seq<char>) -> Seq<char> {
    "Path "@ + shown + " is not a file"@
}

/// The message for a path that is not valid UTF-8.
pub open spec fn not_utf8_text(shown: Seq<char>) -> Seq<char> {
    "Path "@ + shown + " is not valid UTF-8"@
}

/// The style URL under which the native renderer loads a style file.
pub open spec fn file_url(path: Seq<char>) -> Seq<char> {
    "file://"@ + path
}

/// Whether a renderer may render: only once it has been given a style.
pub open spec fn render_gate(has_style: bool) -> Result<(), RenderingError> {
    if has_style {
        Ok(())
    } else {
        Err(RenderingError::StyleNotSpecified)
    }
}

/// Whether a renderer has a style after an attempt to load one from a path:
/// the attempt gives it one when the path is a file and valid UTF-8, and
/// otherwise leaves it as it was.
pub open spec fn style_after_path_load(had_style: bool, is_file: bool, is_utf8: bool) -> bool {
    had_style || (is_file && is_utf8)
}

/// Rendering is refused with `StyleNotSpecified` exactly while no style has
/// been given; loading a style from a URL, or from a path that is a UTF-8
/// file, allows it from then on, and a failed attempt to load a style file
/// leaves the renderer as it was.
pub proof fn lemma_style_gates_rendering(had_style: bool, is_file: bool, is_utf8: bool)
    ensures
        render_gate(had_style) is Err <==> !had_style,
        render_gate(had_style) matches Err(e) ==> e == RenderingError::StyleNotSpecified,
        render_gate(true) is Ok,
        is_file && is_utf8 ==> render_gate(style_after_path_load(had_style, is_file, is_utf8)) is Ok,
        !(is_file && is_utf8) ==> style_after_path_load(had_style, is_file, is_utf8) == had_style,
        had_style ==> style_after_path_load(had_style, is_file, is_utf8),
{
}

/// A style file is loaded from a URL made of the seven characters
/// `file://` followed by the path text unchanged, whatever the path is
/// (relative or absolute): nothing is added, dropped or rewritten.
pub proof fn lemma_file_url_keeps_path(path: Seq<char>)
    ensures
        file_url(path).len() == path.len() + 7,
        file_url(path).subrange(0, 7) == seq!['f', 'i', 'l', 'e', ':', '/', '/'],
        file_url(path).subrange(7, file_url(path).len() as int) == path,
        forall|i: int| 0 <= i < path.len() ==> #[trigger] file_url(path)[i + 7] == path[i],
{
    reveal_strlit("file://");
    assert(file_url(path).subrange(0, 7) =~= seq!['f', 'i', 'l', 'e', ':', '/', '/']);
    assert(file_url(path).subrange(7, file_url(path).len() as int) =~= path);
}

/// What a renderer knows of its style: whether one has been given, which the
/// native renderer needs before it can render.
#[derive(Debug)]
pub struct RendererState {
    style_specified: bool,
}

impl RendererState {
    /// Whether a style has been given to the renderer.
    pub closed spec fn has_style(self) -> bool {
        self.style_specified
    }

    /// A renderer that has been given no style yet.
    pub fn new() -> (state: Self)
        ensures
            !state.has_style(),
    {
        RendererState { style_specified: false }
    }

    /// Whether a style has been given to the renderer.
    pub fn style_specified(&self) -> (b: bool)
        ensures
            b == self.has_style(),
    {
        self.style_specified
    }

    /// Set the style URL for the map: returns the URL to load, and the renderer
    /// has a style from then on.
    pub fn load_style_from_url(&mut self, url: &str) -> (target: String)
        ensures
            final(self).has_style(),
            target@ == url@,
    {
        self.style_specified = true;
        url.to_owned()
    }

    /// Load the style from a path. `is_file` tells whether the path names a
    /// file, `utf8_path` is the path as UTF-8 text when it is valid UTF-8, and
    /// `shown` is how the path is displayed. A path that is not a file fails
    /// with `NotFound`, one that is not UTF-8 with `InvalidData`; either way the
    /// renderer is left as it was. Otherwise the style is loaded from the
    /// `file://` URL of the path.
    pub fn load_style_from_path(
        &mut self,
        is_file: bool,
        utf8_path: Option<&str>,
        shown: &str,
    ) -> (r: Result<String, StyleLoadError>)
        ensures
            !is_file ==> (r matches Err(e) && e.kind == StyleLoadErrorKind::NotFound
                && e.message@ == not_a_file_text(shown@)),
            is_file && utf8_path is None ==> (r matches Err(e) && e.kind
                == StyleLoadErrorKind::InvalidData && e.message@ == not_utf8_text(shown@)),
            is_file && utf8_path is Some ==> (r matches Ok(url) && url@ == file_url(
                utf8_path->0@,
            ) && url@.len() == utf8_path->0@.len() + 7 && url@.subrange(
                7,
                url@.len() as int,
            ) == utf8_path->0@),
            final(self).has_style() == style_after_path_load(
                old(self).has_style(),
                is_file,
                utf8_path is Some,
            ),
            r is Ok <==> is_file && utf8_path is Some,
    {
        proof {
            reveal_strlit("Path ");
            reveal_strlit(" is not a file");
            reveal_strlit(" is not valid UTF-8");
            reveal_strlit("file://");
        }
        if !is_file {
            let mut message = String::new();
            message.append("Path ");
            message.append(shown);
            message.append(" is not a file");
            return Err(StyleLoadError { kind: StyleLoadErrorKind::NotFound, message });
        }
        match utf8_path {
            None => {
                let mut message = String::new();
                message.append("Path ");
                message.append(shown);
                message.append(" is not valid UTF-8");
                Err(StyleLoadError { kind: StyleLoadErrorKind::InvalidData, message })
            },
            Some(path) => {
                self.style_specified = true;
                let mut url = String::new();
                url.append("file://");
                url.append(path);
                proof {
                    lemma_file_url_keeps_path(path@);
                }
                Ok(url)
            },
        }
    }

    /// Whether the renderer may render: it fails with `StyleNotSpecified`
    /// exactly when no style has been given.
    pub fn check_style(&self) -> (r: Result<(), RenderingError>)
        ensures
            r == render_gate(self.has_style()),
    {
        if !self.style_specified {
            Err(RenderingError::StyleNotSpecified)
        } else {
            Ok(())
        }
    }
}

/// Turns the native renderer's output into an image, failing with
/// `InvalidImageData` when it does not hold a valid image.
pub fn image_from_output(bytes: &[u8]) -> (r: Result<Image, RenderingError>)
    ensures
        r is Ok <==> raw_image_is_valid(bytes@),
        r matches Err(e) ==> e == RenderingError::InvalidImageData,
        r matches Ok(img) ==> {
            &&& img.spec_width() == raw_width(bytes@)
            &&& img.spec_height() == raw_height(bytes@)
            &&& img.samples() == bytes@.subrange(8, bytes@.len() as int)
        },
{
    match Image::from_raw(bytes) {
        Some(img) => Ok(img),
        None => Err(RenderingError::InvalidImageData),
    }
}

} // verus!
