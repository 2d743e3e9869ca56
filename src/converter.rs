use vstd::prelude::*;

use crate::config::{format_extension, ConversionConfig, OutputFormat};
use crate::files::GprFile;
use crate::text::{decimal, push_decimal};
use crate::paths::{file_stem_of, joined, parent_of, path_file_stem, path_join, path_parent};
use image::ImageEncoder;

verus! {

/// Why one conversion failed.
#[derive(Debug, Clone, Copy, PartialEq, Eq, Structural)]
pub enum ConvertError {
    /// The source could not be read, or the output could not be written.
    Io,
    /// The container was not recognised as a raw image.
    MetadataParse,
    /// The decoder reported failure or handed back no data.
    Decode,
    /// The decoded buffer holds fewer bytes than the chosen layout needs.
    BufferTooSmall { expected: u128, actual: usize },
    /// The output image could not be serialised.
    Encode,
    /// No output path can be formed for the source.
    OutputPath,
}

/// The message shown for an error.
pub open spec fn error_text(e: ConvertError) -> Seq<char> {
    match e {
        ConvertError::Io => "Failed to read or write a file"@,
        ConvertError::MetadataParse => "Failed to parse GPR metadata"@,
        ConvertError::Decode => "Failed to convert GPR to RGB"@,
        ConvertError::BufferTooSmall { expected, actual } => "RGB buffer too small: need "@ + decimal(
            expected as nat,
        ) + " bytes, got "@ + decimal(actual as nat),
        ConvertError::Encode => "Failed to encode the output image"@,
        ConvertError::OutputPath => "Could not determine the output path"@,
    }
}

impl ConvertError {
    /// A message that says what went wrong.
    pub fn describe(&self) -> (r: String)
        ensures
            r@ == error_text(*self),
    {
        match self {
            ConvertError::Io => String::from_str("Failed to read or write a file"),
            ConvertError::MetadataParse => String::from_str("Failed to parse GPR metadata"),
            ConvertError::Decode => String::from_str("Failed to convert GPR to RGB"),
            ConvertError::BufferTooSmall { expected, actual } => {
                let mut s = String::from_str("RGB buffer too small: need ");
                push_decimal(&mut s, *expected);
                s.append(" bytes, got ");
                push_decimal(&mut s, *actual as u128);
                s
            },
            ConvertError::Encode => String::from_str("Failed to encode the output image"),
            ConvertError::OutputPath => String::from_str("Could not determine the output path"),
        }
    }
}

/// What the raw decoder handed back: its output bytes and the dimensions it declared.
pub struct RgbBuffer {
    pub data: Vec<u8>,
    pub width: u32,
    pub height: u32,
}

/// A decoded image, row-major, three bytes per pixel.
pub struct RgbPlane {
    pub width: u32,
    pub height: u32,
    pub data: Vec<u8>,
}

impl RgbPlane {
    pub open spec fn wf(&self) -> bool {
        self.data@.len() == self.width * self.height * 3
    }
}

/// How the decoded buffer is read.
#[derive(Debug, Clone, Copy, PartialEq, Eq, Structural)]
pub enum PixelLayout {
    /// The declared dimensions hold, four bytes per pixel.
    Rgba,
    /// The declared dimensions hold, three bytes per pixel.
    Rgb,
    /// The declared dimensions disagree with the length: a near-square image of three bytes
    /// per pixel is assumed. This is an approximation, not a recovery of the true shape.
    Inferred,
}

/// The layout chosen for a buffer, with the dimensions and pixel size it implies.
#[derive(Debug, Clone, Copy, PartialEq, Eq, Structural)]
pub struct BufferShape {
    pub layout: PixelLayout,
    pub width: u32,
    pub height: u32,
    pub bytes_per_pixel: usize,
}

pub open spec fn is_floor_sqrt(r: nat, n: nat) -> bool {
    r * r <= n < (r + 1) * (r + 1)
}

/// The integer square root, rounded down.
pub open spec fn floor_sqrt(n: nat) -> nat {
    choose|r: nat| is_floor_sqrt(r, n)
}

/// The width that the inference assumes for a buffer of `len` bytes.
pub open spec fn inferred_width(len: nat) -> nat {
    floor_sqrt(len / 3)
}

/// The height that the inference assumes for a buffer of `len` bytes; no rows when no column fits.
pub open spec fn inferred_height(len: nat) -> nat {
    let w = inferred_width(len);
    if w == 0 {
        0
    } else {
        (len / 3) / w
    }
}

pub open spec fn layout_for(len: nat, width: nat, height: nat) -> PixelLayout {
    if len == width * height * 4 {
        PixelLayout::Rgba
    } else if len == width * height * 3 {
        PixelLayout::Rgb
    } else {
        PixelLayout::Inferred
    }
}

/// The width, height and bytes per pixel that the layout chosen for `len` bytes implies.
pub open spec fn chosen_dims(len: nat, width: nat, height: nat) -> (nat, nat, nat) {
    match layout_for(len, width, height) {
        PixelLayout::Rgba => (width, height, 4),
        PixelLayout::Rgb => (width, height, 3),
        PixelLayout::Inferred => (inferred_width(len), inferred_height(len), 3),
    }
}

/// The shape chosen for `len` bytes declared as `width` by `height` pixels.
pub open spec fn shape_matches(s: BufferShape, len: nat, width: nat, height: nat) -> bool {
    &&& s.layout == layout_for(len, width, height)
    &&& (s.width as nat, s.height as nat, s.bytes_per_pixel as nat) == chosen_dims(len, width, height)
}

/// The first three channels of each of the first `pixels` pixels of `src`, which holds
/// `bpp` bytes per pixel.
pub open spec fn rgb_channels(src: Seq<u8>, pixels: nat, bpp: nat) -> Seq<u8> {
    Seq::new(pixels * 3, |k: int| src[bpp * (k / 3) + k % 3])
}

proof fn lemma_square_monotonic(a: nat, b: nat)
    requires
        a <= b,
    ensures
        a * a <= b * b,
{
    assert(a * a <= b * b) by (nonlinear_arith)
        requires
            a <= b,
    ;
}

/// A floor square root is unique, so the chosen one is any that is found.
proof fn lemma_floor_sqrt_unique(r: nat, n: nat)
    requires
        is_floor_sqrt(r, n),
    ensures
        floor_sqrt(n) == r,
{
    let s = floor_sqrt(n);
    assert(is_floor_sqrt(s, n));
    if s < r {
        lemma_square_monotonic(s + 1, r);
    } else if r < s {
        lemma_square_monotonic(r + 1, s);
    }
}

/// Every natural number has a floor square root.
pub proof fn lemma_floor_sqrt_exists(n: nat)
    ensures
        is_floor_sqrt(floor_sqrt(n), n),
    decreases n,
{
    if n == 0 {
        assert(is_floor_sqrt(0, 0)) by (nonlinear_arith);
    } else {
        lemma_floor_sqrt_exists((n - 1) as nat);
        let r = floor_sqrt((n - 1) as nat);
        if (r + 1) * (r + 1) <= n {
            assert(n < (r + 2) * (r + 2)) by (nonlinear_arith)
                requires
                    n - 1 < (r + 1) * (r + 1),
            ;
            assert(is_floor_sqrt(r + 1, n));
        } else {
            assert(is_floor_sqrt(r, n));
        }
    }
}

/// A buffer of exactly four bytes for each declared pixel is read as RGBA at the declared
/// size, so the plane made from it has one pixel for each declared pixel.
pub proof fn lemma_rgba_length_keeps_dimensions(len: nat, width: nat, height: nat)
    requires
        len == width * height * 4,
    ensures
        layout_for(len, width, height) == PixelLayout::Rgba,
        chosen_dims(len, width, height) == (width, height, 4nat),
{
}

/// A buffer of exactly three bytes for each of at least one declared pixel is read as RGB
/// at the declared size.
pub proof fn lemma_rgb_length_keeps_dimensions(len: nat, width: nat, height: nat)
    requires
        len == width * height * 3,
        width * height > 0,
    ensures
        layout_for(len, width, height) == PixelLayout::Rgb,
        chosen_dims(len, width, height) == (width, height, 3nat),
{
}

/// A buffer whose length fits neither pixel size is read as three bytes per pixel, with
/// `floor(sqrt(len / 3))` columns and as many full rows as fit, and the shape inferred
/// never needs more bytes than the buffer holds.
pub proof fn lemma_inferred_shape_fits(len: nat, width: nat, height: nat)
    requires
        len != width * height * 4,
        len != width * height * 3,
    ensures
        layout_for(len, width, height) == PixelLayout::Inferred,
        chosen_dims(len, width, height) == (floor_sqrt(len / 3), inferred_height(len), 3nat),
        inferred_width(len) * inferred_height(len) * 3 <= len,
{
    let t = len / 3;
    let w = floor_sqrt(t);
    lemma_floor_sqrt_exists(t);
    if w > 0 {
        lemma_inferred_height_bound(t, w);
        assert(w * (t / w) * 3 <= len) by (nonlinear_arith)
            requires
                (t / w) * w <= t,
                t == len / 3,
        ;
    }
}

/// The integer square root of `n`, rounded down.
pub fn floor_sqrt_u64(n: u64) -> (r: u32)
    ensures
        is_floor_sqrt(r as nat, n as nat),
        r == floor_sqrt(n as nat),
{
    let mut lo: u64 = 0;
    let mut hi: u64 = 0x1_0000_0000;
    assert(n < hi * hi) by (nonlinear_arith)
        requires
            hi == 0x1_0000_0000u64,
    ;
    while hi - lo > 1
        invariant
            lo < hi <= 0x1_0000_0000,
            lo * lo <= n,
            n < hi * hi,
        decreases hi - lo,
    {
        let mid: u64 = lo + (hi - lo) / 2;
        assert(mid * mid <= 0x1_0000_0000u64 * 0x1_0000_0000u64) by {
            lemma_square_monotonic(mid as nat, 0x1_0000_0000nat);
        }
        let sq: u128 = (mid as u128) * (mid as u128);
        if sq <= n as u128 {
            lo = mid;
        } else {
            hi = mid;
        }
    }
    proof {
        assert(hi == lo + 1);
        lemma_floor_sqrt_unique(lo as nat, n as nat);
    }
    lo as u32
}

/// The inferred height never exceeds the inferred width by more than two rows.
proof fn lemma_inferred_height_bound(t: nat, w: nat)
    requires
        is_floor_sqrt(w, t),
        w > 0,
    ensures
        t / w <= w + 2,
        (t / w) * w <= t,
{
    assert(t < (w + 1) * (w + 1));
    assert((w + 1) * (w + 1) == w * (w + 2) + 1) by (nonlinear_arith);
    assert(t / w <= w + 2) by (nonlinear_arith)
        requires
            t < w * (w + 2) + 1,
            w > 0,
    ;
    assert((t / w) * w <= t) by (nonlinear_arith)
        requires
            w > 0,
    ;
}

/// Chooses how a decoded buffer of `len` bytes declared as `width` by `height` is read.
///
/// The declared dimensions are kept when the length is exactly four or three bytes per
/// pixel of them (four is tried first). Otherwise three bytes per pixel are assumed and a
/// near-square shape is inferred: `floor(sqrt(len / 3))` columns and as many full rows as
/// the pixels fill.
pub fn select_shape(len: usize, width: u32, height: u32) -> (s: BufferShape)
    ensures
        shape_matches(s, len as nat, width as nat, height as nat),
        s.width * s.height * s.bytes_per_pixel <= len,
{
    assert((width as u128) * (height as u128) <= 0x1_0000_0000_0000_0000u128) by (nonlinear_arith)
        requires
            width <= u32::MAX,
            height <= u32::MAX,
    ;
    let pixels: u128 = (width as u128) * (height as u128);
    assert(pixels == width * height);
    if len as u128 == pixels * 4 {
        BufferShape { layout: PixelLayout::Rgba, width, height, bytes_per_pixel: 4 }
    } else if len as u128 == pixels * 3 {
        BufferShape { layout: PixelLayout::Rgb, width, height, bytes_per_pixel: 3 }
    } else {
        let total: usize = len / 3;
        let w: u32 = floor_sqrt_u64(total as u64);
        let h: u32 = if w == 0 {
            0
        } else {
            proof {
                lemma_inferred_height_bound(total as nat, w as nat);
                assert(w < 0xA000_0000u64) by (nonlinear_arith)
                    requires
                        w * w <= total,
                        total <= 0x5555_5555_5555_5555u64,
                ;
            }
            (total as u64 / w as u64) as u32
        };
        proof {
            if w > 0 {
                assert(w * h * 3 <= len) by (nonlinear_arith)
                    requires
                        h * w <= total,
                        total * 3 <= len,
                ;
            }
        }
        BufferShape { layout: PixelLayout::Inferred, width: w, height: h, bytes_per_pixel: 3 }
    }
}

/// Converts decoded output into planes for encoding.
pub struct GprConverter;

impl GprConverter {
    /// Copies the red, green and blue channels of `width * height` pixels of
    /// `bytes_per_pixel` bytes each out of `buffer`, dropping any fourth channel.
    /// Fails, naming both sizes, when the buffer is shorter than those pixels need.
    pub fn rgb_buffer_to_image_with_size(
        buffer: &Vec<u8>,
        width: u32,
        height: u32,
        bytes_per_pixel: usize,
    ) -> (r: Result<RgbPlane, ConvertError>)
        requires
            bytes_per_pixel == 3 || bytes_per_pixel == 4,
        ensures
            match r {
                Ok(p) => {
                    &&& width * height * bytes_per_pixel <= buffer@.len()
                    &&& p.width == width
                    &&& p.height == height
                    &&& p.data@ == rgb_channels(buffer@, (width * height) as nat, bytes_per_pixel as nat)
                },
                Err(e) => {
                    &&& width * height * bytes_per_pixel > buffer@.len()
                    &&& e == ConvertError::BufferTooSmall {
                        expected: (width * height * bytes_per_pixel) as u128,
                        actual: buffer@.len() as usize,
                    }
                },
            },
    {
        assert((width as u128) * (height as u128) <= 0x1_0000_0000_0000_0000u128) by (nonlinear_arith)
            requires
                width <= u32::MAX,
                height <= u32::MAX,
        ;
        let needed: u128 = (width as u128) * (height as u128) * (bytes_per_pixel as u128);
        if (buffer.len() as u128) < needed {
            return Err(ConvertError::BufferTooSmall { expected: needed, actual: buffer.len() });
        }
        let ghost bpp = bytes_per_pixel as int;
        assert((width as u128) * (height as u128) <= needed) by (nonlinear_arith)
            requires
                needed == (width as u128) * (height as u128) * bpp,
                bpp >= 3,
        ;
        let n: usize = ((width as u128) * (height as u128)) as usize;
        let len: usize = buffer.len();
        let mut out: Vec<u8> = Vec::new();
        let mut i: usize = 0;
        while i < n
            invariant
                i <= n,
                len == buffer@.len(),
                n == width * height,
                n * bpp <= buffer@.len(),
                bpp == bytes_per_pixel,
                bpp == 3 || bpp == 4,
                out@.len() == 3 * i,
                forall|k: int| 0 <= k < 3 * i ==> out@[k] == buffer@[bpp * (k / 3) + k % 3],
            decreases n - i,
        {
            assert(bpp * i + bpp <= n * bpp && bpp * i == i * bpp) by (nonlinear_arith)
                requires
                    i < n,
                    bpp >= 0,
            ;
            let base: usize = bytes_per_pixel * i;
            out.push(buffer[base]);
            out.push(buffer[base + 1]);
            out.push(buffer[base + 2]);
            assert forall|k: int| 0 <= k < 3 * (i + 1) implies out@[k] == buffer@[bpp * (k / 3) + k % 3] by {
                if k >= 3 * i {
                    assert(k / 3 == i);
                }
            }
            i = i + 1;
        }
        assert(out@ =~= rgb_channels(buffer@, (width * height) as nat, bytes_per_pixel as nat));
        Ok(RgbPlane { width, height, data: out })
    }

    /// Reads a decoded buffer declared as `width` by `height` pixels under the shape that
    /// `select_shape` chooses for its length, and copies out its colour channels.
    pub fn rgb_buffer_to_image(buffer: &Vec<u8>, width: u32, height: u32) -> (r: Result<
        RgbPlane,
        ConvertError,
    >)
        ensures
            r is Ok,
            ({
                let (w, h, bpp) = chosen_dims(buffer@.len(), width as nat, height as nat);
                let p = r->Ok_0;
                &&& p.width == w
                &&& p.height == h
                &&& p.wf()
                &&& p.data@ == rgb_channels(buffer@, w * h, bpp)
            }),
    {
        let shape = select_shape(buffer.len(), width, height);
        Self::rgb_buffer_to_image_with_size(buffer, shape.width, shape.height, shape.bytes_per_pixel)
    }
}

#[verifier::external_type_specification]
#[verifier::external_body]
pub struct ExImageError(image::ImageError);

/// The JPEG file that the image crate writes for 8-bit RGB pixels at a quality, if any.
pub uninterp spec fn jpeg_encoding(data: Seq<u8>, width: u32, height: u32, quality: u8) -> Option<
    Seq<u8>,
>;

/// The PNG file that the image crate writes for 8-bit RGB pixels, if any.
pub uninterp spec fn png_encoding(data: Seq<u8>, width: u32, height: u32) -> Option<Seq<u8>>;

/// Relies on `image::codecs::jpeg::JpegEncoder::encode` for 8-bit RGB, which panics unless
/// the data holds three bytes per pixel, refuses an empty side or one over 65535, and
/// otherwise cannot fail when it writes into a `Vec`.
#[verifier::external_body]
fn encode_jpeg(data: &Vec<u8>, width: u32, height: u32, quality: u8) -> (r: Result<
    Vec<u8>,
    image::ImageError,
>)
    requires
        data@.len() == width * height * 3,
    ensures
        match r {
            Ok(b) => jpeg_encoding(data@, width, height, quality) == Some(b@),
            Err(_) => jpeg_encoding(data@, width, height, quality) is None,
        },
        width == 0 || height == 0 || width > 65535 || height > 65535 ==> r is Err,
        1 <= width <= 65535 && 1 <= height <= 65535 ==> r is Ok,
{
    let mut out = Vec::new();
    let r = image::codecs::jpeg::JpegEncoder::new_with_quality(&mut out, quality).encode(
        data,
        width,
        height,
        image::ExtendedColorType::Rgb8,
    );
    r.map(|_| out)
}

/// Relies on `image::codecs::png::PngEncoder::write_image` for 8-bit RGB, which panics
/// unless the data holds three bytes per pixel.
#[verifier::external_body]
fn encode_png(data: &Vec<u8>, width: u32, height: u32) -> (r: Result<Vec<u8>, image::ImageError>)
    requires
        data@.len() == width * height * 3,
    ensures
        match r {
            Ok(b) => png_encoding(data@, width, height) == Some(b@),
            Err(_) => png_encoding(data@, width, height) is None,
        },
{
    let mut out = Vec::new();
    let r = image::codecs::png::PngEncoder::new(&mut out).write_image(
        data,
        width,
        height,
        image::ExtendedColorType::Rgb8,
    );
    r.map(|_| out)
}

/// The bytes of the output file for a plane under a configuration, if it can be encoded.
pub open spec fn encoded(data: Seq<u8>, width: u32, height: u32, config: ConversionConfig) -> Option<
    Seq<u8>,
> {
    match config.output_format {
        OutputFormat::Jpeg => jpeg_encoding(data, width, height, config.quality),
        OutputFormat::Png => png_encoding(data, width, height),
    }
}

/// A JPEG output whose sides are within what the encoder accepts, 1 to 65535 pixels.
pub open spec fn jpeg_fits(width: u32, height: u32, config: ConversionConfig) -> bool {
    &&& config.output_format == OutputFormat::Jpeg
    &&& 1 <= width <= 65535
    &&& 1 <= height <= 65535
}

/// Where the output for `source` goes: `<dir>/<stem>.<ext>`, with the configured directory
/// or else the source's own; none when the directory or the stem cannot be found.
pub open spec fn output_path_of(
    source: Seq<char>,
    output_directory: Option<Seq<char>>,
    format: OutputFormat,
) -> Option<Seq<char>> {
    let dir = match output_directory {
        Some(d) => Some(d),
        None => parent_of(source),
    };
    match (dir, file_stem_of(source)) {
        (Some(d), Some(stem)) => Some(joined(d, stem + "."@ + format_extension(format))),
        _ => None,
    }
}

/// The plane that a decoded buffer gives under the shape chosen for it.
pub open spec fn plane_data(b: RgbBuffer) -> Seq<u8> {
    let (w, h, bpp) = chosen_dims(b.data@.len(), b.width as nat, b.height as nat);
    rgb_channels(b.data@, w * h, bpp)
}

pub open spec fn plane_width(b: RgbBuffer) -> u32 {
    chosen_dims(b.data@.len(), b.width as nat, b.height as nat).0 as u32
}

pub open spec fn plane_height(b: RgbBuffer) -> u32 {
    chosen_dims(b.data@.len(), b.width as nat, b.height as nat).1 as u32
}

impl GprConverter {
    /// Serialises a plane in the configured format: JPEG at the configured quality, or PNG.
    pub fn save_image(plane: &RgbPlane, config: &ConversionConfig) -> (r: Result<
        Vec<u8>,
        ConvertError,
    >)
        requires
            plane.wf(),
        ensures
            match encoded(plane.data@, plane.width, plane.height, *config) {
                Some(b) => r is Ok && r->Ok_0@ == b,
                None => r == Err::<Vec<u8>, ConvertError>(ConvertError::Encode),
            },
            jpeg_fits(plane.width, plane.height, *config) ==> r is Ok,
    {
        let r = match config.output_format {
            OutputFormat::Jpeg => encode_jpeg(&plane.data, plane.width, plane.height, config.quality),
            OutputFormat::Png => encode_png(&plane.data, plane.width, plane.height),
        };
        match r {
            Ok(b) => Ok(b),
            Err(_) => Err(ConvertError::Encode),
        }
    }

    /// The path that the output for a file is written to.
    pub fn determine_output_path(gpr_file: &GprFile, config: &ConversionConfig) -> (r: Result<
        String,
        ConvertError,
    >)
        ensures
            match output_path_of(
                gpr_file.path@,
                crate::metadata::opt_view(config.output_directory),
                config.output_format,
            ) {
                Some(p) => r is Ok && r->Ok_0@ == p,
                None => r == Err::<String, ConvertError>(ConvertError::OutputPath),
            },
    {
        let dir = match &config.output_directory {
            Some(d) => d.clone(),
            None => match path_parent(gpr_file.path.as_str()) {
                Some(p) => p,
                None => return Err(ConvertError::OutputPath),
            },
        };
        let stem = match path_file_stem(gpr_file.path.as_str()) {
            Some(s) => s,
            None => return Err(ConvertError::OutputPath),
        };
        let mut name = stem;
        name.append(".");
        name.append(config.output_format.extension());
        Ok(path_join(dir.as_str(), name.as_str()))
    }

    /// Turns what the raw decoder reported into the bytes of the output file.
    ///
    /// `parsed` tells whether the decoder recognised the container; `decoded` is its output,
    /// `None` when decoding failed or gave no buffer. The buffer is read under the shape
    /// that `select_shape` chooses and encoded as the configuration asks.
    pub fn convert(parsed: bool, decoded: Option<RgbBuffer>, config: &ConversionConfig) -> (r: Result<
        Vec<u8>,
        ConvertError,
    >)
        ensures
            !parsed ==> r == Err::<Vec<u8>, ConvertError>(ConvertError::MetadataParse),
            parsed && decoded is None ==> r == Err::<Vec<u8>, ConvertError>(ConvertError::Decode),
            parsed && decoded is Some ==> ({
                let b = decoded->Some_0;
                match encoded(plane_data(b), plane_width(b), plane_height(b), *config) {
                    Some(bytes) => r is Ok && r->Ok_0@ == bytes,
                    None => r == Err::<Vec<u8>, ConvertError>(ConvertError::Encode),
                }
            }),
            parsed && decoded is Some && jpeg_fits(
                plane_width(decoded->Some_0),
                plane_height(decoded->Some_0),
                *config,
            ) ==> r is Ok,
    {
        if !parsed {
            return Err(ConvertError::MetadataParse);
        }
        match decoded {
            None => Err(ConvertError::Decode),
            Some(b) => {
                let plane = match Self::rgb_buffer_to_image(&b.data, b.width, b.height) {
                    Ok(p) => p,
                    Err(e) => return Err(e),
                };
                Self::save_image(&plane, config)
            },
        }
    }
}

/// What a batch of conversions came to: the outputs written, in order, and the sources that
/// failed, each with its error.
pub struct BatchReport {
    pub outputs: Vec<String>,
    pub failures: Vec<(String, ConvertError)>,
}

/// The outputs of the conversions that succeeded, in order.
pub open spec fn batch_outputs(s: Seq<(String, Result<String, ConvertError>)>) -> Seq<String>
    decreases s.len(),
{
    if s.len() == 0 {
        seq![]
    } else {
        let rest = batch_outputs(s.drop_last());
        match s.last().1 {
            Ok(p) => rest.push(p),
            Err(_) => rest,
        }
    }
}

/// The sources whose conversion failed, with their errors, in order.
pub open spec fn batch_failures(s: Seq<(String, Result<String, ConvertError>)>) -> Seq<
    (String, ConvertError),
>
    decreases s.len(),
{
    if s.len() == 0 {
        seq![]
    } else {
        let rest = batch_failures(s.drop_last());
        match s.last().1 {
            Ok(_) => rest,
            Err(e) => rest.push((s.last().0, e)),
        }
    }
}

impl GprConverter {
    /// Gathers the outcomes of converting each source of a batch, given as the source's
    /// name and its outcome. A failure is recorded beside the others and stops nothing.
    pub fn collect_batch(outcomes: Vec<(String, Result<String, ConvertError>)>) -> (r: BatchReport)
        ensures
            r.outputs@ == batch_outputs(outcomes@),
            r.failures@ == batch_failures(outcomes@),
    {
        let mut outputs: Vec<String> = Vec::new();
        let mut failures: Vec<(String, ConvertError)> = Vec::new();
        let mut i: usize = 0;
        while i < outcomes.len()
            invariant
                i <= outcomes@.len(),
                outputs@ == batch_outputs(outcomes@.subrange(0, i as int)),
                failures@ == batch_failures(outcomes@.subrange(0, i as int)),
            decreases outcomes@.len() - i,
        {
            assert(outcomes@.subrange(0, i + 1).drop_last() =~= outcomes@.subrange(0, i as int));
            let (name, outcome) = &outcomes[i];
            match outcome {
                Ok(p) => outputs.push(p.clone()),
                Err(e) => failures.push((name.clone(), *e)),
            }
            i = i + 1;
        }
        assert(outcomes@.subrange(0, outcomes@.len() as int) =~= outcomes@);
        BatchReport { outputs, failures }
    }
}

} // verus!
