//! From an encoded image to its color wheel.
//!
//! Guessing the format, decoding and downscaling are the `image` crate's
//! work. What it returns is taken on trust, under a name each; the palette of
//! the pixels it hands back is computed and proved here.
//!
//! The format is guessed from the first bytes by the crate's built-in table
//! and the image is decoded as that format, so that nothing registered with
//! the crate at run time takes part.

use vstd::prelude::*;
use vstd::string::StringExecFns;
use crate::palette::{color_wheel_from_pixels, spec_color_wheel, ColorWheel};

verus! {

/// Longest edge, in pixels, of the image that the palette is taken from.
pub const THUMBNAIL_EDGE: u32 = 200;

/// The most pixels that a decoded image has: the decoder refuses an image
/// whose buffer would take more than 512 MiB, and a pixel takes a byte at
/// least.
pub const MAX_DECODED_PIXELS: u64 = 536_870_912;

/// The most samples of any depth whose sum fits the 32 bits it is gathered
/// in when a block of them is averaged into one pixel.
pub const MAX_BLOCK_ANY_DEPTH: u64 = 65_536;

/// The most 8-bit samples whose sum fits those 32 bits.
pub const MAX_BLOCK_BYTES: u64 = 16_777_216;

/// What every decoder message starts with.
pub const DECODE_PREFIX: &'static str = "Failed to open image: ";

/// An image format that the decoder knows.
#[verifier::external_type_specification]
#[verifier::external_body]
pub struct ExImageFormat(image::ImageFormat);

/// A decoded image of any pixel layout.
#[verifier::external_type_specification]
#[verifier::external_body]
pub struct ExDynamicImage(image::DynamicImage);

/// Why an image could not be decoded.
#[verifier::external_type_specification]
#[verifier::external_body]
pub struct ExImageError(image::ImageError);

/// The format that `image::guess_format` finds for `encoded`, or `None`
/// where it knows none.
pub uninterp spec fn guessed_format(encoded: Seq<u8>) -> Option<image::ImageFormat>;

/// Whether `format` is the JPEG format.
pub uninterp spec fn format_is_jpeg(format: image::ImageFormat) -> bool;

/// The image that `image::load_from_memory_with_format` decodes from
/// `encoded` as `format`, or `None` where it reports an error. Nothing is
/// said of it for the JPEG format.
pub uninterp spec fn decoded_image(encoded: Seq<u8>, format: image::ImageFormat) -> Option<
    image::DynamicImage,
>;

/// The width of an image, as `DynamicImage::width` gives it.
pub uninterp spec fn image_width(source: image::DynamicImage) -> u32;

/// The height of an image, as `DynamicImage::height` gives it.
pub uninterp spec fn image_height(source: image::DynamicImage) -> u32;

/// Whether the samples of an image are single bytes.
pub uninterp spec fn samples_are_bytes(source: image::DynamicImage) -> bool;

/// The image that `DynamicImage::thumbnail` scales `source` to within a
/// square of `max_edge`.
pub uninterp spec fn thumbnail_image(source: image::DynamicImage, max_edge: u32)
    -> image::DynamicImage;

/// The 8-bit RGB image that `DynamicImage::to_rgb8` makes of `source`.
pub uninterp spec fn rgb8_image(source: image::DynamicImage) -> image::DynamicImage;

/// The buffer of an image as `DynamicImage::into_bytes` hands it out. For an
/// 8-bit RGB image: row by row, three bytes to a pixel, red, green, blue.
pub uninterp spec fn image_bytes(source: image::DynamicImage) -> Seq<u8>;

/// Why no color wheel could be extracted.
#[derive(Debug)]
pub enum ExtractError {
    /// The bytes are not an image that can be decoded. Holds
    /// [`DECODE_PREFIX`] and the decoder's message.
    Decode(String),
}

/// What becomes of an image that is sampled for its palette.
pub ghost enum SampleOutcome {
    /// These pixels are sampled: 8-bit RGB, three bytes each.
    Pixels(Seq<u8>),
    /// The bytes do not decode.
    Undecodable,
}

/// Calls `image::guess_format`, which compares the first bytes with the
/// crate's built-in table of signatures. The contract claims that the
/// outcome is a function of the bytes.
#[verifier::external_body]
fn guess_format(encoded: &[u8]) -> (guessed: Result<image::ImageFormat, image::ImageError>)
    ensures
        match guessed {
            Ok(format) => guessed_format(encoded@) == Some(format),
            Err(_) => guessed_format(encoded@).is_none(),
        },
{
    image::guess_format(encoded)
}

/// Tells the JPEG variant of `image::ImageFormat` from the others.
#[verifier::external_body]
fn is_jpeg(format: &image::ImageFormat) -> (jpeg: bool)
    ensures
        jpeg == format_is_jpeg(*format),
{
    matches!(format, image::ImageFormat::Jpeg)
}

/// Calls `image::load_from_memory_with_format`, which decodes the whole
/// image with the built-in decoder of `format`.
///
/// For every format but JPEG the contract claims that the outcome is a
/// function of the bytes and the format. The JPEG decoder picks its routines
/// by the machine it runs on; nothing is claimed of which image it returns.
/// Of every image returned the contract claims that it has at most
/// [`MAX_DECODED_PIXELS`] pixels: the call reserves the bytes of the whole
/// buffer against a limit of 512 MiB before it decodes.
#[verifier::external_body]
fn load_with_format(encoded: &[u8], format: image::ImageFormat) -> (decoded: Result<
    image::DynamicImage,
    image::ImageError,
>)
    ensures
        !format_is_jpeg(format) ==> match decoded {
            Ok(img) => decoded_image(encoded@, format) == Some(img),
            Err(_) => decoded_image(encoded@, format).is_none(),
        },
        decoded matches Ok(img) ==> within_decoder_limit(img),
{
    image::load_from_memory_with_format(encoded, format)
}

/// Calls `DynamicImage::width`.
#[verifier::external_body]
fn width_of(source: &image::DynamicImage) -> (width: u32)
    ensures
        width == image_width(*source),
{
    source.width()
}

/// Calls `DynamicImage::height`.
#[verifier::external_body]
fn height_of(source: &image::DynamicImage) -> (height: u32)
    ensures
        height == image_height(*source),
{
    source.height()
}

/// Calls `DynamicImage::thumbnail` with a square bound. It scales the image,
/// keeping its aspect ratio, to the largest size that fits the square, and
/// averages a block of source samples into each pixel. The samples of a
/// block are summed in 32 bits.
///
/// The contract claims that the result is a function of the image and the
/// bound, that it fits the square, and that its 8-bit RGB form has three
/// bytes for each of its pixels. The bound is kept small enough for the new
/// buffer. A block has at most [`spec_block_bound`] samples; the call is
/// made only where that many samples cannot outgrow their sum: at most
/// [`MAX_BLOCK_ANY_DEPTH`] of any depth, or at most [`MAX_BLOCK_BYTES`] of
/// single bytes.
#[verifier::external_body]
fn thumbnail(source: &image::DynamicImage, max_edge: u32) -> (scaled: image::DynamicImage)
    requires
        1 <= max_edge <= 8192,
        blocks_fit_their_sums(*source, max_edge),
    ensures
        scaled == thumbnail_image(*source, max_edge),
        image_width(scaled) <= max_edge,
        image_height(scaled) <= max_edge,
        image_bytes(rgb8_image(scaled)).len() == 3 * image_width(scaled) * image_height(scaled),
{
    source.thumbnail(max_edge, max_edge)
}

/// Calls `DynamicImage::to_rgb8` and wraps the buffer as an image again.
/// The contract names the result and claims that it has the size of the
/// source and single bytes as samples. The source is kept within the
/// decoder's limit, so that the size of the new buffer cannot overflow.
#[verifier::external_body]
fn to_rgb8(source: &image::DynamicImage) -> (flat: image::DynamicImage)
    requires
        within_decoder_limit(*source),
    ensures
        flat == rgb8_image(*source),
        image_width(flat) == image_width(*source),
        image_height(flat) == image_height(*source),
        samples_are_bytes(flat),
{
    image::DynamicImage::ImageRgb8(source.to_rgb8())
}

/// Calls `DynamicImage::into_bytes`, which hands out the image's buffer.
/// The contract names the bytes and claims nothing else of them.
#[verifier::external_body]
fn into_bytes(source: image::DynamicImage) -> (bytes: Vec<u8>)
    ensures
        bytes@ == image_bytes(source),
{
    source.into_bytes()
}

/// Calls the `Display` impl of `image::ImageError` for the decoder's
/// message. Nothing is claimed of the text.
#[verifier::external_body]
fn error_text(error: &image::ImageError) -> String {
    format!("{}", error)
}

/// Whether `text` starts with `prefix`.
pub open spec fn has_prefix(text: Seq<char>, prefix: Seq<char>) -> bool {
    text.len() >= prefix.len() && text.take(prefix.len() as int) == prefix
}

/// Whether an image has no more pixels than the decoder hands out.
pub open spec fn within_decoder_limit(source: image::DynamicImage) -> bool {
    image_width(source) * image_height(source) <= MAX_DECODED_PIXELS
}

/// An upper bound on the extent, along one axis, of a block of source
/// samples that is averaged into one pixel, where `source` samples along the
/// axis become `target`. The block spans the ratio of the two, one sample
/// more for the rounding of its ends to whole samples, and what single
/// precision can be off by at that distance; it never spans more than the
/// source.
pub open spec fn spec_extent_bound(source: int, ratio: int) -> int {
    let spanned = ratio + 3 + source / 2_000_000;
    if source <= spanned {
        source
    } else {
        spanned
    }
}

/// An upper bound on the number of samples in a block when an image of
/// `width` by `height` is scaled to fit a square of `max_edge`. The longer
/// edge becomes `max_edge`; the shorter one becomes its share of it, rounded
/// and at least one, so that its ratio is at most one and a half times that
/// of the longer.
pub open spec fn spec_block_bound(width: int, height: int, max_edge: int) -> int {
    let longer = if width >= height {
        width
    } else {
        height
    };
    let shorter = if width >= height {
        height
    } else {
        width
    };
    spec_extent_bound(longer, longer / max_edge) * spec_extent_bound(
        shorter,
        3 * longer / (2 * max_edge) + 1,
    )
}

/// Whether no block of `source` can outgrow the sum it is gathered in when
/// the image is scaled to fit a square of `max_edge`.
pub open spec fn blocks_fit_their_sums(source: image::DynamicImage, max_edge: u32) -> bool {
    let bound = spec_block_bound(
        image_width(source) as int,
        image_height(source) as int,
        max_edge as int,
    );
    bound <= MAX_BLOCK_ANY_DEPTH || (samples_are_bytes(source) && bound <= MAX_BLOCK_BYTES)
}

/// The image that is scaled down: the decoded image itself where its blocks
/// fit their sums whatever its depth, and its 8-bit RGB form otherwise.
pub open spec fn scaled_source(decoded: image::DynamicImage) -> image::DynamicImage {
    if spec_block_bound(
        image_width(decoded) as int,
        image_height(decoded) as int,
        THUMBNAIL_EDGE as int,
    ) <= MAX_BLOCK_ANY_DEPTH {
        decoded
    } else {
        rgb8_image(decoded)
    }
}

/// The pixels sampled from a decoded image: the image scaled to fit a
/// square of [`THUMBNAIL_EDGE`], as 8-bit RGB.
pub open spec fn sampled_from(decoded: image::DynamicImage) -> Seq<u8> {
    image_bytes(rgb8_image(thumbnail_image(scaled_source(decoded), THUMBNAIL_EDGE)))
}

/// What becomes of a decoding when it is sampled. Every image that decodes
/// is sampled.
pub open spec fn spec_sample_of(decoded: Option<image::DynamicImage>) -> SampleOutcome {
    match decoded {
        None => SampleOutcome::Undecodable,
        Some(img) => SampleOutcome::Pixels(sampled_from(img)),
    }
}

/// Whether the outcome of sampling `encoded` is a function of the bytes:
/// true of every format but JPEG, and of bytes of no known format.
pub open spec fn spec_outcome_is_determined(encoded: Seq<u8>) -> bool {
    guessed_format(encoded) matches Some(format) ==> !format_is_jpeg(format)
}

/// Whether `outcome` is what sampling `encoded` may come to. Bytes of no
/// known format do not decode. For every format but JPEG the outcome is the
/// one that the decoding of the bytes has. For JPEG it is the outcome of
/// some decoding.
pub open spec fn may_sample(encoded: Seq<u8>, outcome: SampleOutcome) -> bool {
    match guessed_format(encoded) {
        None => outcome == SampleOutcome::Undecodable,
        Some(format) => if format_is_jpeg(format) {
            exists|decoded: Option<image::DynamicImage>| outcome == #[trigger] spec_sample_of(decoded)
        } else {
            outcome == spec_sample_of(decoded_image(encoded, format))
        },
    }
}

/// The outcome that a result of sampling stands for.
pub open spec fn outcome_of(sampled: Result<Vec<u8>, ExtractError>) -> SampleOutcome {
    match sampled {
        Ok(pixels) => SampleOutcome::Pixels(pixels@),
        Err(ExtractError::Decode(_)) => SampleOutcome::Undecodable,
    }
}

/// Whether a decoder error carries a message that starts with
/// [`DECODE_PREFIX`].
pub open spec fn message_is_prefixed(error: ExtractError) -> bool {
    error matches ExtractError::Decode(message) && has_prefix(message@, DECODE_PREFIX@)
}

/// Whether `extracted` is what extracting the wheel of `encoded` may come
/// to: the wheel of the pixels where pixels are sampled, the decoder's error
/// otherwise.
pub open spec fn is_extraction_of(encoded: Seq<u8>, extracted: Result<ColorWheel, ExtractError>)
    -> bool {
    match extracted {
        Ok(wheel) => exists|pixels: Seq<u8>|
            {
                &&& #[trigger] may_sample(encoded, SampleOutcome::Pixels(pixels))
                &&& wheel == spec_color_wheel(pixels)
            },
        Err(ExtractError::Decode(message)) => {
            &&& may_sample(encoded, SampleOutcome::Undecodable)
            &&& has_prefix(message@, DECODE_PREFIX@)
        },
    }
}

/// The wheel that a result of sampling comes to: the wheel of the pixels,
/// or the error as it is.
pub open spec fn spec_wheel_of_sample(sampled: Result<Vec<u8>, ExtractError>) -> Result<
    ColorWheel,
    ExtractError,
> {
    match sampled {
        Ok(pixels) => Ok(spec_color_wheel(pixels@)),
        Err(e) => Err(e),
    }
}

/// An image within the decoder's limit has no block of more than
/// [`MAX_BLOCK_BYTES`] samples when it is scaled to the thumbnail.
pub proof fn lemma_decoded_blocks_fit(width: int, height: int)
    requires
        0 <= width,
        0 <= height,
        width * height <= MAX_DECODED_PIXELS,
    ensures
        0 <= spec_block_bound(width, height, THUMBNAIL_EDGE as int) <= MAX_BLOCK_BYTES,
{
    let longer = if width >= height {
        width
    } else {
        height
    };
    let shorter = if width >= height {
        height
    } else {
        width
    };
    assert(shorter * longer == width * height) by (nonlinear_arith)
        requires
            (shorter == width && longer == height) || (shorter == height && longer == width),
    ;
    let long_extent = spec_extent_bound(longer, longer / 200);
    let short_extent = spec_extent_bound(shorter, 3 * longer / 400 + 1);
    assert(0 <= long_extent <= longer / 200 + 3 + longer / 2_000_000);
    assert(0 <= short_extent <= shorter);
    if shorter <= 4000 {
        let a = longer / 200;
        let b = longer / 2_000_000;
        assert(shorter * a <= 2_684_354 && shorter * b <= 268) by (nonlinear_arith)
            requires
                0 <= shorter,
                0 <= longer,
                shorter * longer <= 536_870_912,
                a == longer / 200,
                b == longer / 2_000_000,
        ;
        assert(long_extent * short_extent <= (a + 3 + b) * shorter) by (nonlinear_arith)
            requires
                0 <= long_extent <= a + 3 + b,
                0 <= short_extent <= shorter,
        ;
        assert((a + 3 + b) * shorter == shorter * a + 3 * shorter + shorter * b)
            by (nonlinear_arith);
        assert(0 <= long_extent * short_extent) by (nonlinear_arith)
            requires
                0 <= long_extent,
                0 <= short_extent,
        ;
    } else {
        assert(longer <= 134_217) by (nonlinear_arith)
            requires
                shorter > 4000,
                0 <= longer,
                shorter * longer <= 536_870_912,
        ;
        assert(long_extent <= 674);
        assert(short_extent <= 3 * longer / 400 + 1 + 3 + shorter / 2_000_000);
        assert(short_extent <= 1011);
        assert(0 <= long_extent * short_extent <= 674 * 1011) by (nonlinear_arith)
            requires
                0 <= long_extent <= 674,
                0 <= short_extent <= 1011,
        ;
    }
}

/// Computes the upper bound on the number of samples in a block.
pub fn block_bound(width: u32, height: u32, max_edge: u32) -> (bound: u64)
    requires
        max_edge >= 1,
    ensures
        bound == spec_block_bound(width as int, height as int, max_edge as int),
{
    let longer: u64 = if width >= height {
        width as u64
    } else {
        height as u64
    };
    let shorter: u64 = if width >= height {
        height as u64
    } else {
        width as u64
    };
    let edge: u64 = max_edge as u64;
    let long_spanned: u64 = longer / edge + 3 + longer / 2_000_000;
    let long_extent: u64 = if longer <= long_spanned {
        longer
    } else {
        long_spanned
    };
    let short_spanned: u64 = 3 * longer / (2 * edge) + 1 + 3 + shorter / 2_000_000;
    let short_extent: u64 = if shorter <= short_spanned {
        shorter
    } else {
        short_spanned
    };
    assert(long_extent * short_extent <= 0xFFFF_FFFF * 0xFFFF_FFFF) by (nonlinear_arith)
        requires
            0 <= long_extent <= 0xFFFF_FFFF,
            0 <= short_extent <= 0xFFFF_FFFF,
    ;
    long_extent * short_extent
}

/// The error for bytes that do not decode: [`DECODE_PREFIX`], then the
/// decoder's message.
fn decode_error(error: &image::ImageError) -> (failure: ExtractError)
    ensures
        message_is_prefixed(failure),
{
    let detail = error_text(error);
    let mut message = String::from_str(DECODE_PREFIX);
    message.append(detail.as_str());
    assert((DECODE_PREFIX@ + detail@).take(DECODE_PREFIX@.len() as int) =~= DECODE_PREFIX@);
    ExtractError::Decode(message)
}

/// Tells whether the outcome of sampling `encoded` is a function of the
/// bytes: whether they are of any format but JPEG, or of none.
pub fn outcome_is_determined(encoded: &[u8]) -> (determined: bool)
    ensures
        determined == spec_outcome_is_determined(encoded@),
{
    match guess_format(encoded) {
        Ok(format) => !is_jpeg(&format),
        Err(_) => true,
    }
}

/// Takes what the decoder returned and samples it: an image is scaled down
/// to the pixels its palette is taken from, an error becomes the library's
/// own with the decoder's message. An image whose blocks could outgrow
/// their sums at its own depth is scaled in its 8-bit RGB form.
pub fn sample_decoded(decoded: Result<image::DynamicImage, image::ImageError>) -> (sampled: Result<
    Vec<u8>,
    ExtractError,
>)
    requires
        decoded matches Ok(img) ==> within_decoder_limit(img),
    ensures
        outcome_of(sampled) == spec_sample_of(
            match decoded {
                Ok(img) => Some(img),
                Err(_) => None,
            },
        ),
        sampled.is_ok() == decoded.is_ok(),
        sampled matches Err(e) ==> message_is_prefixed(e),
        sampled matches Ok(pixels) ==> pixels.len() <= 3 * THUMBNAIL_EDGE * THUMBNAIL_EDGE,
{
    match decoded {
        Ok(img) => {
            let width = width_of(&img);
            let height = height_of(&img);
            let small = if block_bound(width, height, THUMBNAIL_EDGE) <= MAX_BLOCK_ANY_DEPTH {
                thumbnail(&img, THUMBNAIL_EDGE)
            } else {
                let flat = to_rgb8(&img);
                proof {
                    lemma_decoded_blocks_fit(width as int, height as int);
                }
                thumbnail(&flat, THUMBNAIL_EDGE)
            };
            assert(small == thumbnail_image(scaled_source(img), THUMBNAIL_EDGE));
            assert(image_width(small) * image_height(small) <= 200 * 200) by (nonlinear_arith)
                requires
                    image_width(small) <= 200,
                    image_height(small) <= 200,
            ;
            let pixels = into_bytes(to_rgb8(&small));
            assert(3 * image_width(small) * image_height(small) <= 3 * 200 * 200)
                by (nonlinear_arith)
                requires
                    image_width(small) <= 200,
                    image_height(small) <= 200,
            ;
            Ok(pixels)
        },
        Err(e) => Err(decode_error(&e)),
    }
}

/// Decodes an image and scales it down to the pixels its palette is taken
/// from. Fails exactly where the bytes do not decode.
pub fn sample_image(encoded: &[u8]) -> (sampled: Result<Vec<u8>, ExtractError>)
    ensures
        may_sample(encoded@, outcome_of(sampled)),
        sampled matches Err(e) ==> message_is_prefixed(e),
        sampled matches Ok(pixels) ==> pixels.len() <= 3 * THUMBNAIL_EDGE * THUMBNAIL_EDGE,
{
    match guess_format(encoded) {
        Ok(format) => {
            let decoded = load_with_format(encoded, format);
            sample_decoded(decoded)
        },
        Err(e) => Err(decode_error(&e)),
    }
}

/// Takes a result of sampling to its wheel: the wheel of the pixels, or the
/// error as it is.
pub fn wheel_of_sample(sampled: Result<Vec<u8>, ExtractError>) -> (extracted: Result<
    ColorWheel,
    ExtractError,
>)
    ensures
        extracted == spec_wheel_of_sample(sampled),
        extracted matches Ok(wheel) ==> wheel.is_valid(),
{
    match sampled {
        Ok(pixels) => Ok(color_wheel_from_pixels(pixels.as_slice())),
        Err(e) => Err(e),
    }
}

/// Extracts the color wheel of an encoded image: the wheel of the sampled
/// pixels, or the decoder's error where the bytes do not decode.
pub fn extract_colors_from_image(encoded: &[u8]) -> (extracted: Result<ColorWheel, ExtractError>)
    ensures
        is_extraction_of(encoded@, extracted),
        extracted matches Ok(wheel) ==> wheel.is_valid(),
{
    let sampled = sample_image(encoded);
    assert(sampled matches Ok(pixels) ==> may_sample(encoded@, SampleOutcome::Pixels(pixels@)));
    wheel_of_sample(sampled)
}

/// Where the outcome is determined, equal bytes have one outcome: two
/// results of the extraction agree on success and on the wheel.
pub proof fn lemma_extraction_is_determined(
    encoded: Seq<u8>,
    first: Result<ColorWheel, ExtractError>,
    second: Result<ColorWheel, ExtractError>,
)
    requires
        is_extraction_of(encoded, first),
        is_extraction_of(encoded, second),
        spec_outcome_is_determined(encoded),
    ensures
        first matches Ok(a) ==> second matches Ok(b) && a == b,
        first.is_err() ==> second.is_err(),
{
}

} // verus!
