use vstd::prelude::*;
use crate::error::ConvertError;
use crate::job::Mode;
use crate::text::{chars_equal, chars_of};

verus! {

/// The formats that items can be converted to.
#[derive(Clone, Copy, Debug, PartialEq, Eq, Structural)]
pub enum ImageFormat {
    Png,
    Jpg,
    Avif,
    Webp,
    Bmp,
}

/// The name of a format, which is also its file extension.
pub open spec fn format_name(f: ImageFormat) -> Seq<char> {
    match f {
        ImageFormat::Png => seq!['p', 'n', 'g'],
        ImageFormat::Jpg => seq!['j', 'p', 'g'],
        ImageFormat::Avif => seq!['a', 'v', 'i', 'f'],
        ImageFormat::Webp => seq!['w', 'e', 'b', 'p'],
        ImageFormat::Bmp => seq!['b', 'm', 'p'],
    }
}

pub open spec fn format_from_name_spec(name: Seq<char>) -> Option<ImageFormat> {
    if name == format_name(ImageFormat::Png) {
        Some(ImageFormat::Png)
    } else if name == format_name(ImageFormat::Jpg) {
        Some(ImageFormat::Jpg)
    } else if name == format_name(ImageFormat::Avif) {
        Some(ImageFormat::Avif)
    } else if name == format_name(ImageFormat::Webp) {
        Some(ImageFormat::Webp)
    } else if name == format_name(ImageFormat::Bmp) {
        Some(ImageFormat::Bmp)
    } else {
        None
    }
}


impl ImageFormat {
    /// The format named `name`, if it is one of the supported formats.
    pub fn from_name(name: &str) -> (r: Option<ImageFormat>)
        ensures
            r == format_from_name_spec(name@),
    {
        let n = chars_of(name);
        if chars_equal(&n, &vec!['p', 'n', 'g']) {
            Some(ImageFormat::Png)
        } else if chars_equal(&n, &vec!['j', 'p', 'g']) {
            Some(ImageFormat::Jpg)
        } else if chars_equal(&n, &vec!['a', 'v', 'i', 'f']) {
            Some(ImageFormat::Avif)
        } else if chars_equal(&n, &vec!['w', 'e', 'b', 'p']) {
            Some(ImageFormat::Webp)
        } else if chars_equal(&n, &vec!['b', 'm', 'p']) {
            Some(ImageFormat::Bmp)
        } else {
            None
        }
    }

    /// Whether the codec of this format parallelizes internally, so that its
    /// items must be converted one at a time.
    pub fn is_sequential_only(&self) -> (r: bool)
        ensures
            r == (*self == ImageFormat::Avif),
    {
        match self {
            ImageFormat::Avif => true,
            _ => false,
        }
    }
}

/// The execution mode of a job whose target format is named `format`.
pub open spec fn execution_mode_spec(format: Seq<char>) -> Mode {
    if format_from_name_spec(format) == Some(ImageFormat::Avif) {
        Mode::Sequential
    } else {
        Mode::Parallel
    }
}

/// Sequential for a sequential-only format, parallel otherwise (an unknown
/// format too: each of its items then fails on its own).
pub fn execution_mode(format: &str) -> (r: Mode)
    ensures
        r == execution_mode_spec(format@),
{
    match ImageFormat::from_name(format) {
        Some(f) => if f.is_sequential_only() { Mode::Sequential } else { Mode::Parallel },
        None => Mode::Parallel,
    }
}

/// The settings of a conversion job.
#[derive(Clone, Debug)]
pub struct ImageSettings {
    pub format: String,
    pub resolution: Option<(u32, u32)>,
    pub keep_aspect_ratio: bool,
    pub quality: Option<u8>,
    pub compression: Option<u8>,
}

/// Effort tiers of the lossless raster encoder.
#[derive(Clone, Copy, Debug, PartialEq, Eq, Structural)]
pub enum PngCompression {
    Fast,
    Default,
    Best,
}

/// Presets of the lossy encoder: chroma subsampling, smoothing and scan mode.
#[derive(Clone, Copy, Debug, PartialEq, Eq, Structural)]
pub enum JpegPreset {
    /// 4:2:0, trellis over scans, optimized scans, smoothing 3, progressive.
    SmallerFile,
    /// 4:2:2, trellis over scans, optimized scans, smoothing 1, progressive.
    Medium,
    /// 4:4:4, no scan optimization, no smoothing, baseline.
    HigherFidelity,
    /// 4:2:2, smoothing 1, progressive, encoder defaults otherwise.
    Standard,
}

/// How one item is to be encoded.
#[derive(Clone, Copy, Debug, PartialEq, Eq, Structural)]
pub enum EncodePlan {
    Png(PngCompression),
    Jpeg { quality: u8, preset: JpegPreset },
    Avif { quality: u8, speed: u8 },
    Webp { quality: u8 },
    Bmp,
}

pub const DEFAULT_QUALITY: u8 = 80;

pub const DEFAULT_COMPRESSION: u8 = 8;

pub const DEFAULT_PNG_COMPRESSION: u8 = 2;

pub open spec fn png_compression_spec(level: u8) -> PngCompression {
    if level == 1 {
        PngCompression::Fast
    } else if level == 3 {
        PngCompression::Best
    } else {
        PngCompression::Default
    }
}

pub open spec fn jpeg_preset_spec(level: u8) -> JpegPreset {
    if level == 1 {
        JpegPreset::SmallerFile
    } else if level == 2 {
        JpegPreset::Medium
    } else if level == 3 {
        JpegPreset::HigherFidelity
    } else {
        JpegPreset::Standard
    }
}

pub open spec fn unwrap_or_spec(o: Option<u8>, d: u8) -> u8 {
    match o {
        Some(x) => x,
        None => d,
    }
}

/// The encode plan that the settings call for. Quality defaults to 80; the
/// compression level defaults to 2 for PNG and to 8 otherwise, and is the
/// encoder speed for AVIF, whose encoder takes a quality in 1..=100 and a
/// speed in 1..=10 only.
pub open spec fn encode_plan_spec(format: Seq<char>, quality: Option<u8>, compression: Option<u8>) -> Result<EncodePlan, ConvertError> {
    let q = unwrap_or_spec(quality, DEFAULT_QUALITY);
    let c = unwrap_or_spec(compression, DEFAULT_COMPRESSION);
    match format_from_name_spec(format) {
        None => Err(ConvertError::UnsupportedFormat),
        Some(ImageFormat::Png) => Ok(EncodePlan::Png(png_compression_spec(unwrap_or_spec(compression, DEFAULT_PNG_COMPRESSION)))),
        Some(ImageFormat::Jpg) => Ok(EncodePlan::Jpeg { quality: q, preset: jpeg_preset_spec(c) }),
        Some(ImageFormat::Avif) => if 1 <= q <= 100 && 1 <= c <= 10 {
            Ok(EncodePlan::Avif { quality: q, speed: c })
        } else {
            Err(ConvertError::Encode)
        },
        Some(ImageFormat::Webp) => Ok(EncodePlan::Webp { quality: q }),
        Some(ImageFormat::Bmp) => Ok(EncodePlan::Bmp),
    }
}

fn unwrap_or(o: Option<u8>, d: u8) -> (r: u8)
    ensures
        r == unwrap_or_spec(o, d),
{
    match o {
        Some(x) => x,
        None => d,
    }
}

impl ImageSettings {
    /// How items are to be encoded under these settings.
    pub fn encode_plan(&self) -> (r: Result<EncodePlan, ConvertError>)
        ensures
            r == encode_plan_spec(self.format@, self.quality, self.compression),
    {
        let q = unwrap_or(self.quality, DEFAULT_QUALITY);
        let c = unwrap_or(self.compression, DEFAULT_COMPRESSION);
        match ImageFormat::from_name(self.format.as_str()) {
            None => Err(ConvertError::UnsupportedFormat),
            Some(ImageFormat::Png) => {
                let level = unwrap_or(self.compression, DEFAULT_PNG_COMPRESSION);
                let tier = if level == 1 {
                    PngCompression::Fast
                } else if level == 3 {
                    PngCompression::Best
                } else {
                    PngCompression::Default
                };
                Ok(EncodePlan::Png(tier))
            },
            Some(ImageFormat::Jpg) => {
                let preset = if c == 1 {
                    JpegPreset::SmallerFile
                } else if c == 2 {
                    JpegPreset::Medium
                } else if c == 3 {
                    JpegPreset::HigherFidelity
                } else {
                    JpegPreset::Standard
                };
                Ok(EncodePlan::Jpeg { quality: q, preset })
            },
            Some(ImageFormat::Avif) => if 1 <= q && q <= 100 && 1 <= c && c <= 10 {
                Ok(EncodePlan::Avif { quality: q, speed: c })
            } else {
                Err(ConvertError::Encode)
            },
            Some(ImageFormat::Webp) => Ok(EncodePlan::Webp { quality: q }),
            Some(ImageFormat::Bmp) => Ok(EncodePlan::Bmp),
        }
    }
}

} // verus!
