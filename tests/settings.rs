use rust_backend::error::ConvertError;
use rust_backend::form::{parse_resolution, ImageSettingsForm, Resolution};
use rust_backend::format::{execution_mode, EncodePlan, ImageFormat, ImageSettings, JpegPreset, PngCompression};
use rust_backend::job::Mode;
use rust_backend::naming::output_filename;
use rust_backend::validation::{files_validation, ValidationError, ValidationLimits};

fn with(format: &str, quality: Option<u8>, compression: Option<u8>) -> ImageSettings {
    ImageSettings {
        format: format.to_string(),
        resolution: None,
        keep_aspect_ratio: false,
        quality,
        compression,
    }
}

#[test]
fn png_compression_tiers() {
    assert_eq!(with("png", None, Some(1)).encode_plan(), Ok(EncodePlan::Png(PngCompression::Fast)));
    assert_eq!(with("png", None, None).encode_plan(), Ok(EncodePlan::Png(PngCompression::Default)));
    assert_eq!(with("png", None, Some(3)).encode_plan(), Ok(EncodePlan::Png(PngCompression::Best)));
    assert_eq!(with("png", None, Some(9)).encode_plan(), Ok(EncodePlan::Png(PngCompression::Default)));
}

#[test]
fn jpeg_presets_and_default_quality() {
    assert_eq!(
        with("jpg", None, Some(1)).encode_plan(),
        Ok(EncodePlan::Jpeg { quality: 80, preset: JpegPreset::SmallerFile })
    );
    assert_eq!(
        with("jpg", Some(55), Some(2)).encode_plan(),
        Ok(EncodePlan::Jpeg { quality: 55, preset: JpegPreset::Medium })
    );
    assert_eq!(
        with("jpg", Some(90), Some(3)).encode_plan(),
        Ok(EncodePlan::Jpeg { quality: 90, preset: JpegPreset::HigherFidelity })
    );
    assert_eq!(
        with("jpg", None, None).encode_plan(),
        Ok(EncodePlan::Jpeg { quality: 80, preset: JpegPreset::Standard })
    );
}

#[test]
fn avif_speed_and_quality() {
    assert_eq!(with("avif", None, None).encode_plan(), Ok(EncodePlan::Avif { quality: 80, speed: 8 }));
    assert_eq!(with("avif", Some(60), Some(3)).encode_plan(), Ok(EncodePlan::Avif { quality: 60, speed: 3 }));
    assert_eq!(with("avif", Some(0), Some(3)).encode_plan(), Err(ConvertError::Encode));
    assert_eq!(with("avif", Some(50), Some(11)).encode_plan(), Err(ConvertError::Encode));
}

#[test]
fn webp_bmp_and_unknown_formats() {
    assert_eq!(with("webp", Some(70), None).encode_plan(), Ok(EncodePlan::Webp { quality: 70 }));
    assert_eq!(with("bmp", Some(70), Some(1)).encode_plan(), Ok(EncodePlan::Bmp));
    assert_eq!(with("tiff", None, None).encode_plan(), Err(ConvertError::UnsupportedFormat));
    assert_eq!(with("PNG", None, None).encode_plan(), Err(ConvertError::UnsupportedFormat));
}

#[test]
fn format_names_and_modes() {
    assert_eq!(ImageFormat::from_name("webp"), Some(ImageFormat::Webp));
    assert_eq!(ImageFormat::from_name("jpeg"), None);
    assert!(ImageFormat::Avif.is_sequential_only());
    assert!(!ImageFormat::Png.is_sequential_only());
    assert_eq!(execution_mode("avif"), Mode::Sequential);
    assert_eq!(execution_mode("png"), Mode::Parallel);
    assert_eq!(execution_mode("nope"), Mode::Parallel);
}

#[test]
fn output_filenames() {
    assert_eq!(output_filename("photo.png", "webp"), "photo.webp");
    assert_eq!(output_filename("photo.jpeg", "png"), "photo.png");
    assert_eq!(output_filename("a.png.png", "jpg"), "a.jpg");
    assert_eq!(output_filename("a.jpg.png", "bmp"), "a.bmp");
    assert_eq!(output_filename("a.png.jpg", "bmp"), "a.png.bmp");
    assert_eq!(output_filename("archive.tar", "png"), "archive.tar.png");
    assert_eq!(output_filename("scan.ppm", "avif"), "scan.avif");
    assert_eq!(output_filename("", "png"), ".png");
}

#[test]
fn resolution_texts() {
    assert_eq!(parse_resolution("800,600"), Some((800, 600)));
    assert_eq!(parse_resolution("+5,6"), Some((5, 6)));
    assert_eq!(parse_resolution("4294967295,1"), Some((4294967295, 1)));
    assert_eq!(parse_resolution("4294967296,1"), None);
    assert_eq!(parse_resolution("800"), None);
    assert_eq!(parse_resolution("1,2,3"), None);
    assert_eq!(parse_resolution("a,b"), None);
    assert_eq!(parse_resolution(",5"), None);
    assert_eq!(parse_resolution(" 8,5"), None);
    assert_eq!(parse_resolution("-8,5"), None);
}

#[test]
fn resolution_field_refuses_quotes() {
    assert_eq!(Resolution::from_field("3,4").0, Some((3, 4)));
    assert_eq!(Resolution::from_field("3\",4").0, None);
    assert_eq!(Resolution::from_field("3\\,4").0, None);
}

#[test]
fn form_fields_fill_settings() {
    let mut form = ImageSettingsForm::new();
    form.apply_field("format", "webp");
    form.apply_field("quality", "75");
    form.apply_field("compression", "2");
    form.apply_field("keep_aspect_ratio", "true");
    form.apply_field("resolution", "640,480");
    form.apply_field("other", "ignored");
    let s = form.into_settings();
    assert_eq!(s.format, "webp");
    assert_eq!(s.quality, Some(75));
    assert_eq!(s.compression, Some(2));
    assert!(s.keep_aspect_ratio);
    assert_eq!(s.resolution, Some((640, 480)));
}

#[test]
fn form_fields_that_do_not_read() {
    let mut form = ImageSettingsForm::new();
    form.apply_field("quality", "75");
    form.apply_field("quality", "256");
    form.apply_field("keep_aspect_ratio", "yes");
    form.apply_field("resolution", "wide");
    assert_eq!(form.quality, None);
    assert!(!form.keep_aspect_ratio);
    assert_eq!(form.resolution.0, None);
}

fn limits() -> ValidationLimits {
    ValidationLimits {
        max_files: 2,
        max_file_size: 4,
        allowed_formats: vec!["png".to_string(), "jpg".to_string()],
    }
}

#[test]
fn validation_accepts_a_good_upload() {
    let files = vec![("a".to_string(), vec![0u8; 4]), ("b".to_string(), vec![])];
    assert_eq!(files_validation(&files, "jpg", &limits()), Ok(()));
}

#[test]
fn validation_errors() {
    let three = vec![("a".to_string(), vec![]), ("b".to_string(), vec![]), ("c".to_string(), vec![])];
    assert_eq!(files_validation(&three, "png", &limits()), Err(ValidationError::TooManyFiles { max: 2, got: 3 }));
    let big = vec![("a".to_string(), vec![0u8; 1]), ("b".to_string(), vec![0u8; 5])];
    assert_eq!(files_validation(&big, "png", &limits()), Err(ValidationError::FileTooLarge { index: 1 }));
    let ok = vec![("a".to_string(), vec![0u8; 1])];
    assert_eq!(files_validation(&ok, "webp", &limits()), Err(ValidationError::FormatNotAllowed));
}
