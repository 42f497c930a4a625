//! Cover images: fitted into a fixed box, keeping their proportions, and
//! written again as JPEG.

use vstd::prelude::*;
use vstd::string::StringExecFns;
use crate::error::{ErrorView, EzBooksError};

verus! {

/// Width of the box that a normalized cover fits in.
pub const COVER_WIDTH: u32 = 300;

/// Height of the box that a normalized cover fits in.
pub const COVER_HEIGHT: u32 = 450;

/// The integer nearest to `n / d`, the upper one of two that are equally
/// near.
pub open spec fn round_div(n: int, d: int) -> int
    recommends
        d > 0,
{
    (2 * n + d) / (2 * d)
}

/// The size of an image of `width` by `height` pixels scaled into a box:
/// as wide as the box where the image is relatively wider than the box,
/// else as high as the box; the other side follows the proportions of the
/// image, rounded to whole pixels.
pub open spec fn fitted(width: int, height: int, box_width: int, box_height: int) -> (int, int)
    recommends
        width >= 0,
        height > 0,
{
    if width * box_height > box_width * height {
        (box_width, round_div(box_width * height, width))
    } else {
        (round_div(box_height * width, height), box_height)
    }
}

/// A rounded quotient lies within half a unit of the exact one.
pub proof fn lemma_round_div(n: int, d: int)
    requires
        n >= 0,
        d > 0,
    ensures
        round_div(n, d) >= 0,
        2 * n - d < 2 * d * round_div(n, d) <= 2 * n + d,
{
    let x = 2 * n + d;
    let y = 2 * d;
    vstd::arithmetic::div_mod::lemma_fundamental_div_mod(x, y);
    vstd::arithmetic::div_mod::lemma_mod_bound(x, y);
    vstd::arithmetic::div_mod::lemma_div_pos_is_pos(x, y);
}

/// A quotient that stays under a bound is rounded to at most that bound.
proof fn lemma_round_div_bound(n: int, d: int, bound: int)
    requires
        n >= 0,
        d > 0,
        bound >= 0,
        n <= bound * d,
    ensures
        round_div(n, d) <= bound,
{
    lemma_round_div(n, d);
    let r = round_div(n, d);
    if r >= bound + 1 {
        assert(2 * d * r >= 2 * d * (bound + 1)) by (nonlinear_arith)
            requires
                r >= bound + 1,
                d > 0,
        ;
        assert(2 * d * (bound + 1) == 2 * (bound * d) + 2 * d) by (nonlinear_arith);
    }
}

/// The fitted size lies in the box and touches it on one side, and its
/// proportions are those of the image to within half a pixel.
pub proof fn lemma_fitted(width: int, height: int, box_width: int, box_height: int)
    requires
        width >= 0,
        height > 0,
        box_width >= 0,
        box_height >= 0,
    ensures
        0 <= fitted(width, height, box_width, box_height).0 <= box_width,
        0 <= fitted(width, height, box_width, box_height).1 <= box_height,
        fitted(width, height, box_width, box_height).0 == box_width || fitted(
            width,
            height,
            box_width,
            box_height,
        ).1 == box_height,
        ({
            let (w, h) = fitted(width, height, box_width, box_height);
            if width * box_height > box_width * height {
                -width <= 2 * (h * width - w * height) <= width
            } else {
                -height <= 2 * (w * height - h * width) <= height
            }
        }),
{
    if width * box_height > box_width * height {
        assert(box_width * height >= 0) by (nonlinear_arith)
            requires
                box_width >= 0,
                height > 0,
        ;
        assert(width > 0) by (nonlinear_arith)
            requires
                width >= 0,
                width * box_height > 0,
        ;
        lemma_round_div(box_width * height, width);
        assert(box_height * width == width * box_height) by (nonlinear_arith);
        lemma_round_div_bound(box_width * height, width, box_height);
        let h = round_div(box_width * height, width);
        assert(2 * width * h == 2 * (h * width)) by (nonlinear_arith);
    } else {
        assert(box_height * width >= 0) by (nonlinear_arith)
            requires
                box_height >= 0,
                width >= 0,
        ;
        lemma_round_div(box_height * width, height);
        assert(box_height * width == width * box_height) by (nonlinear_arith);
        lemma_round_div_bound(box_height * width, height, box_width);
        let w = round_div(box_height * width, height);
        assert(2 * height * w == 2 * (w * height)) by (nonlinear_arith);
    }
}

/// The size of an image of `width` by `height` pixels scaled into a box of
/// `box_width` by `box_height`.
pub fn fit_dimensions(width: u32, height: u32, box_width: u32, box_height: u32) -> (size: (
    u32,
    u32,
))
    requires
        height > 0,
    ensures
        (size.0 as int, size.1 as int) == fitted(
            width as int,
            height as int,
            box_width as int,
            box_height as int,
        ),
        size.0 <= box_width,
        size.1 <= box_height,
        size.0 == box_width || size.1 == box_height,
        width * box_height > box_width * height ==> size.0 == box_width && 2 * width * size.1 <= 2
            * box_width * height + width < 2 * width * size.1 + 2 * width,
        width * box_height <= box_width * height ==> size.1 == box_height && 2 * height * size.0
            <= 2 * box_height * width + height < 2 * height * size.0 + 2 * height,
{
    proof {
        lemma_fitted(width as int, height as int, box_width as int, box_height as int);
        if width * box_height > box_width * height {
            assert(width > 0) by (nonlinear_arith)
                requires
                    width >= 0,
                    width * box_height > 0,
            ;
            lemma_round_div(box_width * height, width as int);
            assert(2 * box_width * height == 2 * (box_width * height)) by (nonlinear_arith);
        } else {
            lemma_round_div(box_height * width, height as int);
            assert(2 * box_height * width == 2 * (box_height * width)) by (nonlinear_arith);
        }
    }
    let w: u128 = width as u128;
    let h: u128 = height as u128;
    let bw: u128 = box_width as u128;
    let bh: u128 = box_height as u128;
    assert(w * bh <= 0xffff_ffff * 0xffff_ffff && bw * h <= 0xffff_ffff * 0xffff_ffff) by (nonlinear_arith)
        requires
            0 <= w <= 0xffff_ffff,
            0 <= h <= 0xffff_ffff,
            0 <= bw <= 0xffff_ffff,
            0 <= bh <= 0xffff_ffff,
    ;
    if w * bh > bw * h {
        assert(w > 0) by (nonlinear_arith)
            requires
                w >= 0,
                w * bh > 0,
        ;
        let scaled: u128 = (2 * (bw * h) + w) / (2 * w);
        (box_width, scaled as u32)
    } else {
        let scaled: u128 = (2 * (bh * w) + h) / (2 * h);
        (scaled as u32, box_height)
    }
}

/// The size of a cover image of `width` by `height` pixels scaled into the
/// cover box.
pub fn cover_dimensions(width: u32, height: u32) -> (size: (u32, u32))
    requires
        height > 0,
    ensures
        (size.0 as int, size.1 as int) == fitted(
            width as int,
            height as int,
            COVER_WIDTH as int,
            COVER_HEIGHT as int,
        ),
        size.0 <= COVER_WIDTH,
        size.1 <= COVER_HEIGHT,
        size.0 == COVER_WIDTH || size.1 == COVER_HEIGHT,
        width * 3 > height * 2 ==> size.0 == COVER_WIDTH && 2 * width * size.1 <= 600 * height
            + width < 2 * width * size.1 + 2 * width,
        width * 3 <= height * 2 ==> size.1 == COVER_HEIGHT && 2 * height * size.0 <= 900 * width
            + height < 2 * height * size.0 + 2 * height,
{
    fit_dimensions(width, height, COVER_WIDTH, COVER_HEIGHT)
}

/// Why an image could not be resampled: it could not be decoded, or what
/// was resampled could not be written.
#[derive(Debug)]
pub enum ResampleFailure {
    Decoding(String),
    Encoding(String),
}

/// The model of a failure to resample.
pub enum ResampleFailureView {
    Decoding(Seq<char>),
    Encoding(Seq<char>),
}

impl View for ResampleFailure {
    type V = ResampleFailureView;

    open spec fn view(&self) -> ResampleFailureView {
        match *self {
            ResampleFailure::Decoding(cause) => ResampleFailureView::Decoding(cause@),
            ResampleFailure::Encoding(cause) => ResampleFailureView::Encoding(cause@),
        }
    }
}

/// The width and height that the header of the image in `data` declares,
/// or the reason for which the image crate does not read them.
pub uninterp spec fn declared_dimensions(data: Seq<u8>) -> Result<(u32, u32), Seq<char>>;

/// The JPEG bytes of the image that `data` encodes, resampled to `width`
/// by `height` pixels, or the reason for which the image crate does not
/// produce them.
pub uninterp spec fn resampled_jpeg(data: Seq<u8>, width: u32, height: u32) -> Result<
    Seq<u8>,
    ResampleFailureView,
>;

/// Calls `image::ImageReader::new` on the bytes, `with_guessed_format`,
/// which tells the format by the first bytes, and `into_dimensions`, which
/// reads the size from the header without decoding the pixels. The
/// contract names the outcome; a failure is carried as the text of the
/// crate's error.
#[verifier::external_body]
fn image_dimensions(data: &[u8]) -> (r: Result<(u32, u32), String>)
    ensures
        match r {
            Ok(size) => declared_dimensions(data@) == Ok::<(u32, u32), Seq<char>>(size),
            Err(cause) => declared_dimensions(data@) == Err::<(u32, u32), Seq<char>>(cause@),
        },
{
    image::ImageReader::new(std::io::Cursor::new(data))
        .with_guessed_format()
        .map_err(|e| e.to_string())?
        .into_dimensions()
        .map_err(|e| e.to_string())
}

/// Calls `image::load_from_memory`, which guesses the format and decodes,
/// then `DynamicImage::resize_exact` with the Lanczos filter of window 3,
/// whose result has exactly the dimensions given, then
/// `DynamicImage::write_to` in the JPEG format. The contract names the
/// outcome; a failure is carried as the text of the crate's error, under
/// the step that it came from.
#[verifier::external_body]
fn resample_as_jpeg(data: &[u8], width: u32, height: u32) -> (r: Result<Vec<u8>, ResampleFailure>)
    requires
        0 < width <= 65535,
        0 < height <= 65535,
    ensures
        match r {
            Ok(bytes) => resampled_jpeg(data@, width, height) == Ok::<
                Seq<u8>,
                ResampleFailureView,
            >(bytes@),
            Err(failure) => resampled_jpeg(data@, width, height) == Err::<
                Seq<u8>,
                ResampleFailureView,
            >(failure@),
        },
{
    let img = image::load_from_memory(data).map_err(|e| ResampleFailure::Decoding(e.to_string()))?;
    let mut out = Vec::new();
    img.resize_exact(width, height, image::imageops::FilterType::Lanczos3).write_to(
        &mut std::io::Cursor::new(&mut out),
        image::ImageFormat::Jpeg,
    ).map_err(|e| ResampleFailure::Encoding(e.to_string()))?;
    Ok(out)
}

/// What normalizing a cover gives, from what reading its header and
/// resampling give: the JPEG bytes of the image fitted into the cover
/// box, or the error that tells which step failed. An image without
/// pixels, or one so flat that a side of its fitted size rounds to
/// nothing, cannot be written.
pub open spec fn normalized_cover(data: Seq<u8>) -> Result<Seq<u8>, ErrorView> {
    match declared_dimensions(data) {
        Err(cause) => Err(ErrorView::ImageProcessing("Failed to load image: "@ + cause)),
        Ok((width, height)) => if width == 0 || height == 0 {
            Err(ErrorView::ImageProcessing("Failed to load image: the image has no pixels"@))
        } else {
            let size = fitted(width as int, height as int, COVER_WIDTH as int, COVER_HEIGHT as int);
            if size.0 == 0 || size.1 == 0 {
                Err(
                    ErrorView::ImageProcessing(
                        "Failed to encode JPEG: the fitted image has no pixels"@,
                    ),
                )
            } else {
                match resampled_jpeg(data, size.0 as u32, size.1 as u32) {
                    Ok(bytes) => Ok(bytes),
                    Err(ResampleFailureView::Decoding(cause)) => Err(
                        ErrorView::ImageProcessing("Failed to load image: "@ + cause),
                    ),
                    Err(ResampleFailureView::Encoding(cause)) => Err(
                        ErrorView::ImageProcessing("Failed to encode JPEG: "@ + cause),
                    ),
                }
            }
        },
    }
}

/// The bytes stored as the cover of a book whose document embeds `raw`:
/// the normalized cover, or `raw` itself where it cannot be normalized.
pub open spec fn cover_artifact(raw: Seq<u8>) -> Seq<u8> {
    match normalized_cover(raw) {
        Ok(bytes) => bytes,
        Err(_) => raw,
    }
}

/// Fits the image that `data` encodes into the cover box and writes it as
/// JPEG.
pub fn process_cover_image(data: &[u8]) -> (result: Result<Vec<u8>, EzBooksError>)
    ensures
        match result {
            Ok(bytes) => normalized_cover(data@) == Ok::<Seq<u8>, ErrorView>(bytes@),
            Err(error) => normalized_cover(data@) == Err::<Seq<u8>, ErrorView>(error@),
        },
{
    let (width, height) = match image_dimensions(data) {
        Ok(size) => size,
        Err(cause) => {
            return Err(
                EzBooksError::ImageProcessing(
                    String::from_str("Failed to load image: ").concat(cause.as_str()),
                ),
            );
        },
    };
    if width == 0 || height == 0 {
        return Err(
            EzBooksError::ImageProcessing(
                String::from_str("Failed to load image: the image has no pixels"),
            ),
        );
    }
    let (new_width, new_height) = cover_dimensions(width, height);
    if new_width == 0 || new_height == 0 {
        return Err(
            EzBooksError::ImageProcessing(
                String::from_str("Failed to encode JPEG: the fitted image has no pixels"),
            ),
        );
    }
    match resample_as_jpeg(data, new_width, new_height) {
        Ok(bytes) => Ok(bytes),
        Err(ResampleFailure::Decoding(cause)) => Err(
            EzBooksError::ImageProcessing(
                String::from_str("Failed to load image: ").concat(cause.as_str()),
            ),
        ),
        Err(ResampleFailure::Encoding(cause)) => Err(
            EzBooksError::ImageProcessing(
                String::from_str("Failed to encode JPEG: ").concat(cause.as_str()),
            ),
        ),
    }
}

/// The cover to store for a document, from what opening its package gave:
/// the embedded cover if there is one, or the cause for which the document
/// could not be opened. A cover that cannot be normalized is kept as it
/// is.
pub fn extract_cover(package_cover: Result<Option<Vec<u8>>, String>) -> (result: Result<
    Option<Vec<u8>>,
    EzBooksError,
>)
    ensures
        match package_cover {
            Ok(Some(raw)) => result matches Ok(Some(bytes)) && bytes@ == cover_artifact(raw@),
            Ok(None) => result matches Ok(None),
            Err(cause) => result matches Err(error) && error@ == ErrorView::EpubParse(
                "Failed to open EPUB: "@ + cause@,
            ),
        },
{
    match package_cover {
        Ok(Some(raw)) => Ok(Some(cover_or_raw(raw))),
        Ok(None) => Ok(None),
        Err(cause) => Err(
            EzBooksError::EpubParse(String::from_str("Failed to open EPUB: ").concat(cause.as_str())),
        ),
    }
}

/// The normalized form of an embedded cover, or the cover as it is where
/// it cannot be normalized.
pub fn cover_or_raw(raw: Vec<u8>) -> (bytes: Vec<u8>)
    ensures
        bytes@ == cover_artifact(raw@),
{
    match process_cover_image(raw.as_slice()) {
        Ok(bytes) => bytes,
        Err(_) => raw,
    }
}

} // verus!
