use crate::errors::AppError;
use vstd::prelude::*;

verus! {

/// Largest side, in pixels, that a reduced variant may have.
pub const THUMBNAIL_MAX_DIM: u32 = 700;

/// Quality factor for the JPEG encoder, on its 0 to 100 scale.
pub const JPEG_QUALITY: u8 = 30;

#[verifier::external_type_specification]
#[verifier::external_body]
pub struct ExDynamicImage(image::DynamicImage);

/// The dimensions that decoding the byte sequence yields, or nothing when
/// the bytes are not a readable image. Decoding is a function of the bytes
/// alone.
pub uninterp spec fn decoded_dims(b: Seq<u8>) -> Option<(u32, u32)>;

/// The dimensions that the bounded scale-down maps a dimension pair to.
pub uninterp spec fn thumb_dims(w: u32, h: u32) -> (u32, u32);

/// The JPEG encoding, at the fixed quality, of the raster decoded from
/// `src` and reduced or not according to `reduced`; nothing when the
/// raster is in no layout the encoder accepts.
pub uninterp spec fn jpeg_encoding(src: Seq<u8>, reduced: bool) -> Option<Seq<u8>>;

/// The raw 8-bit plane layout, and whether it carries an alpha channel, of
/// the raster decoded from `src` and reduced or not according to
/// `reduced`; nothing when the raster cannot be handed out as 8-bit RGB
/// or RGBA planes.
pub uninterp spec fn webp_planes(src: Seq<u8>, reduced: bool) -> Option<(Seq<u8>, bool)>;

/// A decoded raster. The pixel data is opaque to the proof; the
/// dimensions are carried as plain values, and the raster remembers
/// which source bytes it was decoded from and whether the bounded
/// scale-down has been applied.
struct RasterImage<'a> {
    img: image::DynamicImage,
    width: u32,
    height: u32,
    src: &'a [u8],
    reduced: bool,
}

/// Relies on `image::ImageReader::with_guessed_format` and `decode`:
/// format sniffing plus decoding of in-memory bytes, deterministic in the
/// bytes alone.
#[verifier::external_body]
fn decode_image<'a>(file: &'a [u8]) -> (r: Result<RasterImage<'a>, AppError>)
    ensures
        match r {
            Ok(img) => {
                &&& decoded_dims(file@) == Some((img.width, img.height))
                &&& img.src@ == file@
                &&& !img.reduced
            },
            Err(e) => {
                &&& decoded_dims(file@) is None
                &&& e == AppError::UnsupportedImage
            },
        },
{
    let reader = match image::ImageReader::new(std::io::Cursor::new(file)).with_guessed_format() {
        Ok(rd) => rd,
        Err(_) => return Err(AppError::UnsupportedImage),
    };
    match reader.decode() {
        Ok(img) => {
            let width = img.width();
            let height = img.height();
            Ok(RasterImage { img, width, height, src: file, reduced: false })
        },
        Err(_) => Err(AppError::UnsupportedImage),
    }
}

/// Relies on `image::DynamicImage::thumbnail`: scales down to fit in the
/// bound while keeping the aspect ratio; the result dimensions are a
/// function of the input dimensions and each lands between 1 and the
/// bound; the pixel content stays that of the same source.
#[verifier::external_body]
fn thumbnail_bounded<'a>(r: &RasterImage<'a>) -> (t: RasterImage<'a>)
    requires
        !r.reduced,
    ensures
        (t.width, t.height) == thumb_dims(r.width, r.height),
        1 <= t.width <= THUMBNAIL_MAX_DIM,
        1 <= t.height <= THUMBNAIL_MAX_DIM,
        t.src@ == r.src@,
        t.reduced,
{
    let img = r.img.thumbnail(THUMBNAIL_MAX_DIM, THUMBNAIL_MAX_DIM);
    let width = img.width();
    let height = img.height();
    RasterImage { img, width, height, src: r.src, reduced: true }
}

/// Relies on `image::codecs::jpeg::JpegEncoder::new_with_quality` and
/// `DynamicImage::write_with_encoder`: a deterministic encode of the
/// raster at the fixed quality, failing only for layouts the encoder does
/// not take.
#[verifier::external_body]
fn encode_jpeg(r: &RasterImage<'_>) -> (res: Result<Vec<u8>, AppError>)
    ensures
        match res {
            Ok(b) => jpeg_encoding(r.src@, r.reduced) == Some(b@),
            Err(e) => {
                &&& jpeg_encoding(r.src@, r.reduced) is None
                &&& e == AppError::EncodeUnsupportedColorMode
            },
        },
{
    let mut buf: Vec<u8> = Vec::new();
    let encoder = image::codecs::jpeg::JpegEncoder::new_with_quality(&mut buf, JPEG_QUALITY);
    match r.img.write_with_encoder(encoder) {
        Ok(()) => Ok(buf),
        Err(_) => Err(AppError::EncodeUnsupportedColorMode),
    }
}

/// Relies on `image::DynamicImage::as_bytes` and `as_rgb8`: the raw plane
/// bytes of an 8-bit RGB or RGBA raster, a function of the raster alone;
/// other layouts are turned away.
#[verifier::external_body]
fn rgb_planes(r: &RasterImage<'_>) -> (res: Result<(Vec<u8>, bool), AppError>)
    ensures
        match res {
            Ok(p) => webp_planes(r.src@, r.reduced) == Some((p.0@, p.1)),
            Err(e) => {
                &&& webp_planes(r.src@, r.reduced) is None
                &&& e == AppError::EncodeUnsupportedColorMode
            },
        },
{
    match &r.img {
        image::DynamicImage::ImageRgb8(_) => Ok((r.img.as_bytes().to_vec(), false)),
        image::DynamicImage::ImageRgba8(_) => Ok((r.img.as_bytes().to_vec(), true)),
        _ => match r.img.as_rgb8() {
            Some(rgb) => Ok((rgb.as_raw().clone(), false)),
            None => Err(AppError::EncodeUnsupportedColorMode),
        },
    }
}

/// A dimension pair needs a reduced rendition exactly when its larger
/// side exceeds the fixed bound; a raster within the bound is never
/// touched, so small assets are not upscaled or recompressed needlessly.
pub fn if_need_thumbnail(w: u32, h: u32) -> (r: bool)
    ensures
        r == spec_needs_reduction((w, h)),
{
    let m: u32 = if w > h {
        w
    } else {
        h
    };
    m > THUMBNAIL_MAX_DIM
}

/// Whether a raster of these dimensions is reduced by the pipeline.
pub open spec fn spec_needs_reduction(d: (u32, u32)) -> bool {
    d.0 > THUMBNAIL_MAX_DIM || d.1 > THUMBNAIL_MAX_DIM
}

/// The dimensions the pipeline delivers for source bytes `b`: the decoded
/// dimensions untouched when both fit the bound, the scaled-down pair
/// otherwise.
pub open spec fn spec_final_dims(b: Seq<u8>) -> Option<(u32, u32)> {
    match decoded_dims(b) {
        Some(d) => Some(
            if spec_needs_reduction(d) {
                thumb_dims(d.0, d.1)
            } else {
                d
            },
        ),
        None => None,
    }
}

/// The bytes the JPEG pipeline delivers for source bytes `b`.
pub open spec fn spec_jpeg_thumbnail(b: Seq<u8>) -> Option<Seq<u8>> {
    match decoded_dims(b) {
        Some(d) => jpeg_encoding(b, spec_needs_reduction(d)),
        None => None,
    }
}

/// The planes the WebP preparation delivers for source bytes `b`.
pub open spec fn spec_webp_planes(b: Seq<u8>) -> Option<(Seq<u8>, bool)> {
    match decoded_dims(b) {
        Some(d) => webp_planes(b, spec_needs_reduction(d)),
        None => None,
    }
}

/// Decode the source bytes, reduce them only if a dimension exceeds the
/// bound, and encode the result as JPEG at the fixed quality.
pub fn only_thumbnail(file: &[u8]) -> (res: Result<Vec<u8>, AppError>)
    ensures
        match res {
            Ok(b) => spec_jpeg_thumbnail(file@) == Some(b@),
            Err(e) => {
                &&& spec_jpeg_thumbnail(file@) is None
                &&& (decoded_dims(file@) is None <==> e == AppError::UnsupportedImage)
                &&& (decoded_dims(file@) is Some <==> e == AppError::EncodeUnsupportedColorMode)
            },
        },
{
    let img = match decode_image(file) {
        Ok(i) => i,
        Err(e) => {
            return Err(e);
        },
    };
    if if_need_thumbnail(img.width, img.height) {
        let t = thumbnail_bounded(&img);
        encode_jpeg(&t)
    } else {
        encode_jpeg(&img)
    }
}

/// An 8-bit RGB or RGBA plane layout ready for the lossy WebP encoder,
/// with its dimensions and whether an alpha channel is present.
#[derive(Debug)]
pub struct WebpPlanes {
    pub data: Vec<u8>,
    pub width: u32,
    pub height: u32,
    pub alpha: bool,
}

/// Decode the source bytes, reduce them only if a dimension exceeds the
/// bound, and hand the raster out as raw 8-bit planes for the WebP
/// encoder. Both delivered dimensions fit the bound; a source already
/// within the bound keeps its dimensions untouched.
pub fn prepare_webp(file: &[u8]) -> (res: Result<WebpPlanes, AppError>)
    ensures
        match res {
            Ok(p) => {
                &&& spec_webp_planes(file@) == Some((p.data@, p.alpha))
                &&& spec_final_dims(file@) == Some((p.width, p.height))
                &&& p.width <= THUMBNAIL_MAX_DIM
                &&& p.height <= THUMBNAIL_MAX_DIM
                &&& (decoded_dims(file@) matches Some(d) ==> !spec_needs_reduction(d) ==> (
                p.width,
                p.height,
                ) == d)
            },
            Err(e) => {
                &&& spec_webp_planes(file@) is None
                &&& (decoded_dims(file@) is None <==> e == AppError::UnsupportedImage)
                &&& (decoded_dims(file@) is Some <==> e == AppError::EncodeUnsupportedColorMode)
            },
        },
{
    let img = match decode_image(file) {
        Ok(i) => i,
        Err(e) => {
            return Err(e);
        },
    };
    let (out, width, height) = if if_need_thumbnail(img.width, img.height) {
        let t = thumbnail_bounded(&img);
        (rgb_planes(&t), t.width, t.height)
    } else {
        (rgb_planes(&img), img.width, img.height)
    };
    match out {
        Ok(p) => Ok(WebpPlanes { data: p.0, width, height, alpha: p.1 }),
        Err(e) => Err(e),
    }
}

/// Law: the transform is deterministic. Two runs of the JPEG pipeline
/// over the same source bytes, at the same target format and quality,
/// deliver byte-identical output.
pub proof fn lemma_jpeg_transform_deterministic(b: Seq<u8>, r1: Option<Seq<u8>>, r2: Option<
    Seq<u8>,
>)
    requires
        r1 == spec_jpeg_thumbnail(b),
        r2 == spec_jpeg_thumbnail(b),
    ensures
        r1 == r2,
{
}

/// Law: the WebP preparation is deterministic in the source bytes, up to
/// the plane layout handed to the encoder.
pub proof fn lemma_webp_planes_deterministic(
    b: Seq<u8>,
    r1: Option<(Seq<u8>, bool)>,
    r2: Option<(Seq<u8>, bool)>,
)
    requires
        r1 == spec_webp_planes(b),
        r2 == spec_webp_planes(b),
    ensures
        r1 == r2,
{
}

} // verus!
