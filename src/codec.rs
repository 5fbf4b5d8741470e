use vstd::prelude::*;
use crate::error::ConvertError;
use crate::format::{EncodePlan, ImageSettings, PngCompression};
use crate::naming::ends_with_spec;
use crate::text::chars_of;
use image::codecs::png::{CompressionType, PngEncoder};
use image::imageops::FilterType;
use image::io::Reader as ImageReader;
use image::{DynamicImage, ImageError, ImageOutputFormat};
use std::io::Cursor;

verus! {

#[verifier::external_type_specification]
#[verifier::external_body]
pub struct ExDynamicImage(DynamicImage);

#[verifier::external_type_specification]
#[verifier::external_body]
pub struct ExImageError(ImageError);

/// The size of one sample of an image's pixels.
#[derive(Clone, Copy, Debug, PartialEq, Eq, Structural)]
pub enum SampleDepth {
    Eight,
    Sixteen,
    Float,
}

/// A decoded image, with its width, height and sample depth held as plain
/// values beside the pixels.
pub struct Picture {
    pixels: DynamicImage,
    width: u32,
    height: u32,
    depth: SampleDepth,
}

pub struct PictureView {
    pub width: nat,
    pub height: nat,
    pub depth: SampleDepth,
}

impl View for Picture {
    type V = PictureView;

    closed spec fn view(&self) -> PictureView {
        PictureView { width: self.width as nat, height: self.height as nat, depth: self.depth }
    }
}

impl Picture {
    pub fn width(&self) -> (r: u32)
        ensures
            r == self@.width,
    {
        self.width
    }

    pub fn height(&self) -> (r: u32)
        ensures
            r == self@.height,
    {
        self.height
    }

    pub fn depth(&self) -> (r: SampleDepth)
        ensures
            r == self@.depth,
    {
        self.depth
    }

    /// The pixels, for encoders that run outside this library.
    pub fn pixels(&self) -> &DynamicImage {
        &self.pixels
    }
}

/// Whether the generic loader decodes these bytes.
pub uninterp spec fn loads(data: Seq<u8>) -> bool;

/// Whether the reader with a format guessed from the content decodes these bytes.
pub uninterp spec fn loads_guessed(data: Seq<u8>) -> bool;

/// Relies on `image::load_from_memory`: decodes bytes of any enabled format,
/// guessed from their content, under the default limits.
#[verifier::external_body]
fn load_from_memory(data: &Vec<u8>) -> (r: Result<DynamicImage, ImageError>)
    ensures
        r is Ok <==> loads(data@),
{
    image::load_from_memory(data)
}

/// Relies on `image::io::Reader` with a guessed format: decodes bytes whose
/// format is recognised from their content (the route taken for PPM files).
#[verifier::external_body]
fn decode_guessed_format(data: &Vec<u8>) -> (r: Result<DynamicImage, ImageError>)
    ensures
        r is Ok <==> loads_guessed(data@),
{
    ImageReader::new(Cursor::new(data)).with_guessed_format().map_err(ImageError::IoError)?.decode()
}

/// Relies on `DynamicImage::width`, `DynamicImage::height` and the image's
/// variant: records the decoded image's size and sample depth.
#[verifier::external_body]
fn picture_of(img: DynamicImage) -> (r: Picture) {
    let depth = match &img {
        DynamicImage::ImageLuma8(_) => SampleDepth::Eight,
        DynamicImage::ImageLumaA8(_) => SampleDepth::Eight,
        DynamicImage::ImageRgb8(_) => SampleDepth::Eight,
        DynamicImage::ImageRgba8(_) => SampleDepth::Eight,
        DynamicImage::ImageLuma16(_) => SampleDepth::Sixteen,
        DynamicImage::ImageLumaA16(_) => SampleDepth::Sixteen,
        DynamicImage::ImageRgb16(_) => SampleDepth::Sixteen,
        DynamicImage::ImageRgba16(_) => SampleDepth::Sixteen,
        _ => SampleDepth::Float,
    };
    Picture { width: img.width(), height: img.height(), depth, pixels: img }
}

/// Relies on `DynamicImage::resize` with the Lanczos3 filter: the largest size
/// with the image's aspect ratio that fits within `width` x `height`, one side
/// reaching the box; the pixel type is kept.
#[verifier::external_body]
fn resize_within(p: &Picture, width: u32, height: u32) -> (r: Picture)
    ensures
        r@.depth == p@.depth,
        p@.width >= 1 && p@.height >= 1 && width >= 1 && height >= 1 ==> {
            &&& r@.width <= width && r@.height <= height
            &&& r@.width == width || r@.height == height
        },
{
    let out = p.pixels.resize(width, height, FilterType::Lanczos3);
    Picture { width: out.width(), height: out.height(), depth: p.depth, pixels: out }
}

/// Relies on `DynamicImage::resize_exact` with the Lanczos3 filter: exactly
/// `width` x `height`, with the pixel type kept.
#[verifier::external_body]
fn resize_exact(p: &Picture, width: u32, height: u32) -> (r: Picture)
    ensures
        r@.depth == p@.depth,
        r@.width == width,
        r@.height == height,
{
    let out = p.pixels.resize_exact(width, height, FilterType::Lanczos3);
    Picture { width: out.width(), height: out.height(), depth: p.depth, pixels: out }
}

/// Whether the PNG encoder accepts an image: 8- or 16-bit samples and a
/// non-zero size that a PNG header can hold.
pub open spec fn png_encodable(p: PictureView) -> bool {
    &&& p.depth != SampleDepth::Float
    &&& 1 <= p.width <= 0x7fff_ffff
    &&& 1 <= p.height <= 0x7fff_ffff
}

/// Whether the BMP encoder accepts an image: 8-bit samples and a non-zero size
/// whose padded rows fit the format's 32-bit sizes.
pub open spec fn bmp_encodable(p: PictureView) -> bool {
    &&& p.depth == SampleDepth::Eight
    &&& p.width >= 1
    &&& p.height >= 1
    &&& (p.width + 1) * 4 * p.height <= 0x7fff_ffff
}

/// Relies on `DynamicImage::write_with_encoder` with a `PngEncoder` of the
/// given compression and the `Up` filter, into a `Vec`.
#[verifier::external_body]
fn write_png(p: &Picture, tier: PngCompression) -> (r: Result<Vec<u8>, ImageError>)
    ensures
        png_encodable(p@) ==> r is Ok,
{
    let compression = match tier {
        PngCompression::Fast => CompressionType::Fast,
        PngCompression::Default => CompressionType::Default,
        PngCompression::Best => CompressionType::Best,
    };
    let mut out = Cursor::new(Vec::new());
    p.pixels.write_with_encoder(PngEncoder::new_with_quality(&mut out, compression, image::codecs::png::FilterType::Up))?;
    Ok(out.into_inner())
}

/// Relies on `DynamicImage::write_to` with the uncompressed BMP output format,
/// into a `Vec`.
#[verifier::external_body]
fn write_bmp(p: &Picture) -> (r: Result<Vec<u8>, ImageError>)
    ensures
        bmp_encodable(p@) ==> r is Ok,
{
    let mut out = Cursor::new(Vec::new());
    p.pixels.write_to(&mut out, ImageOutputFormat::Bmp)?;
    Ok(out.into_inner())
}

pub open spec fn ppm_extension() -> Seq<char> {
    seq!['.', 'p', 'p', 'm']
}

/// Whether an item decodes: files named `*.ppm` go through the reader with a
/// guessed format, the others through the generic loader.
pub open spec fn decodes(filename: Seq<char>, data: Seq<u8>) -> bool {
    if ends_with_spec(filename, ppm_extension()) {
        loads_guessed(data)
    } else {
        loads(data)
    }
}

/// Decodes an item's raw bytes; any failure is a `Decode` error.
pub fn decode_item(filename: &str, data: &Vec<u8>) -> (r: Result<Picture, ConvertError>)
    ensures
        r is Ok <==> decodes(filename@, data@),
        r matches Err(e) ==> e == ConvertError::Decode,
{
    let name = chars_of(filename);
    let n = name.len();
    let is_ppm = n >= 4 && name[n - 4] == '.' && name[n - 3] == 'p' && name[n - 2] == 'p' && name[n - 1] == 'm';
    proof {
        if n >= 4 {
            assert(is_ppm == (name@.subrange(n - 4, n as int) =~= ppm_extension()));
        }
    }
    let decoded = if is_ppm {
        decode_guessed_format(data)
    } else {
        load_from_memory(data)
    };
    match decoded {
        Ok(img) => Ok(picture_of(img)),
        Err(_) => Err(ConvertError::Decode),
    }
}

/// Resizes to the settings' target resolution, if one is set: to the exact
/// box when the aspect ratio is not kept; within the box, one side reaching
/// it, when it is kept; for upscaling and downscaling alike. Without a target
/// the image is returned unchanged.
pub fn resize_for(p: Picture, settings: &ImageSettings) -> (r: Picture)
    ensures
        settings.resolution is None ==> r == p,
        r@.depth == p@.depth,
        settings.resolution is Some && !settings.keep_aspect_ratio ==> {
            &&& r@.width == settings.resolution->Some_0.0
            &&& r@.height == settings.resolution->Some_0.1
        },
        settings.resolution is Some && settings.keep_aspect_ratio ==> ({
            let (w, h) = settings.resolution->Some_0;
            p@.width >= 1 && p@.height >= 1 && w >= 1 && h >= 1 ==> {
                &&& r@.width <= w && r@.height <= h
                &&& r@.width == w || r@.height == h
            }
        }),
{
    match settings.resolution {
        None => p,
        Some((w, h)) => {
            if settings.keep_aspect_ratio {
                resize_within(&p, w, h)
            } else {
                resize_exact(&p, w, h)
            }
        },
    }
}

/// Encodes with the codecs that this library drives itself: the lossless
/// raster format and the uncompressed bitmap format. `None` for the formats
/// whose encoders take a floating-point quality, which the caller drives.
pub fn encode_in_library(p: &Picture, plan: EncodePlan) -> (r: Option<Result<Vec<u8>, ConvertError>>)
    ensures
        r is Some <==> (plan is Png || plan is Bmp),
        r matches Some(Err(e)) ==> e == ConvertError::Encode,
        plan is Png && png_encodable(p@) ==> r matches Some(Ok(_)),
        plan is Bmp && bmp_encodable(p@) ==> r matches Some(Ok(_)),
{
    match plan {
        EncodePlan::Png(tier) => match write_png(p, tier) {
            Ok(bytes) => Some(Ok(bytes)),
            Err(_) => Some(Err(ConvertError::Encode)),
        },
        EncodePlan::Bmp => match write_bmp(p) {
            Ok(bytes) => Some(Ok(bytes)),
            Err(_) => Some(Err(ConvertError::Encode)),
        },
        _ => None,
    }
}

} // verus!
