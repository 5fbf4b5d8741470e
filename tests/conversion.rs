use image::codecs::pnm::{PnmSubtype, SampleEncoding};
use image::{DynamicImage, GenericImageView, ImageOutputFormat, RgbImage};
use rust_backend::archive::build_archive;
use rust_backend::codec::{decode_item, encode_in_library, resize_for, SampleDepth};
use rust_backend::error::ConvertError;
use rust_backend::format::{EncodePlan, ImageSettings, JpegPreset, PngCompression};
use rust_backend::job::{item_sizes, Action, Job};
use rust_backend::naming::output_filename;
use std::io::{Cursor, Read};

fn png_bytes(width: u32, height: u32) -> Vec<u8> {
    let img = DynamicImage::ImageRgb8(RgbImage::from_fn(width, height, |x, y| {
        image::Rgb([(x * 40) as u8, (y * 60) as u8, 128])
    }));
    let mut out = Cursor::new(Vec::new());
    img.write_to(&mut out, ImageOutputFormat::Png).unwrap();
    out.into_inner()
}

fn settings(format: &str, resolution: Option<(u32, u32)>, keep: bool) -> ImageSettings {
    ImageSettings {
        format: format.to_string(),
        resolution,
        keep_aspect_ratio: keep,
        quality: None,
        compression: None,
    }
}

fn convert(filename: &str, data: &[u8], s: &ImageSettings) -> Result<(String, Vec<u8>), ConvertError> {
    let plan = s.encode_plan()?;
    let img = decode_item(filename, &data.to_vec())?;
    let img = resize_for(img, s);
    let bytes = encode_in_library(&img, plan).expect("encoded in the library")?;
    Ok((output_filename(filename, &s.format), bytes))
}

fn run_job(files: Vec<(String, Vec<u8>)>, s: &ImageSettings, cores: usize) -> (Result<Vec<u8>, ConvertError>, Vec<u32>) {
    let mut job = Job::for_format_on(item_sizes(&files), &s.format, cores);
    let mut progress = vec![job.published()];
    let mut running: Vec<usize> = Vec::new();
    loop {
        match job.next_action() {
            Action::Dispatch(i) => running.push(i),
            Action::Wait => {
                let i = running.remove(0);
                let outcome = convert(&files[i].0, &files[i].1, s);
                if let Some(p) = job.on_item_finished(i, outcome) {
                    progress.push(p);
                }
            }
            Action::Done => break,
        }
    }
    let result = job.finish().and_then(|entries| build_archive(&entries));
    (result, progress)
}

fn archive_names(bytes: &[u8]) -> Vec<String> {
    let mut zip = zip::ZipArchive::new(Cursor::new(bytes.to_vec())).unwrap();
    (0..zip.len()).map(|i| zip.by_index(i).unwrap().name().to_string()).collect()
}

#[test]
fn three_png_items_with_two_slots() {
    let files = vec![
        ("one.png".to_string(), png_bytes(4, 3)),
        ("two.jpg".to_string(), png_bytes(5, 5)),
        ("three.bmp".to_string(), png_bytes(2, 7)),
    ];
    let (result, progress) = run_job(files, &settings("png", None, false), 2);
    let archive = result.expect("job succeeds");
    assert_eq!(archive_names(&archive), vec!["one.png", "two.png", "three.png"]);
    assert!(progress.windows(2).all(|w| w[0] <= w[1]));
    assert_eq!(*progress.last().unwrap(), 9000);
}

#[test]
fn corrupt_second_item_fails_the_job() {
    let files = vec![
        ("a.png".to_string(), png_bytes(3, 3)),
        ("b.png".to_string(), b"not an image at all".to_vec()),
        ("c.png".to_string(), png_bytes(3, 3)),
    ];
    let (result, _) = run_job(files, &settings("png", None, false), 4);
    assert_eq!(result, Err(ConvertError::Decode));
}

#[test]
fn unknown_format_fails_each_item() {
    let files = vec![("a.png".to_string(), png_bytes(3, 3))];
    let (result, _) = run_job(files, &settings("gif", None, false), 4);
    assert_eq!(result, Err(ConvertError::UnsupportedFormat));
}

#[test]
fn lossless_round_trip_has_target_dimensions() {
    let s = settings("png", Some((7, 2)), false);
    let (_, bytes) = convert("in.png", &png_bytes(4, 3), &s).unwrap();
    let back = image::load_from_memory(&bytes).unwrap();
    assert_eq!(back.dimensions(), (7, 2));
}

#[test]
fn lossless_round_trip_keeps_pixels() {
    let source = png_bytes(4, 3);
    let (_, bytes) = convert("in.png", &source, &settings("png", None, false)).unwrap();
    let a = image::load_from_memory(&source).unwrap().to_rgb8();
    let b = image::load_from_memory(&bytes).unwrap().to_rgb8();
    assert_eq!(a, b);
}

#[test]
fn keep_aspect_ratio_fits_within_box() {
    let s = settings("bmp", Some((4, 4)), true);
    let (name, bytes) = convert("wide.png", &png_bytes(8, 4), &s).unwrap();
    assert_eq!(name, "wide.bmp");
    let back = image::load_from_memory(&bytes).unwrap();
    assert_eq!(back.dimensions(), (4, 2));
}

#[test]
fn upscaling_is_allowed() {
    let s = settings("png", Some((10, 9)), false);
    let (_, bytes) = convert("small.png", &png_bytes(2, 3), &s).unwrap();
    assert_eq!(image::load_from_memory(&bytes).unwrap().dimensions(), (10, 9));
}

#[test]
fn resize_without_target_keeps_image() {
    let img = decode_item("a.png", &png_bytes(3, 5)).unwrap();
    assert_eq!((img.width(), img.height(), img.depth()), (3, 5, SampleDepth::Eight));
    let same = resize_for(img, &settings("png", None, false));
    assert_eq!((same.width(), same.height()), (3, 5));
    assert_eq!(same.pixels().dimensions(), (3, 5));
}

#[test]
fn wide_target_is_resized() {
    let img = decode_item("a.png", &png_bytes(3, 5)).unwrap();
    let wide = resize_for(img, &settings("png", Some((70000, 1)), false));
    assert_eq!((wide.width(), wide.height()), (70000, 1));
    assert_eq!(wide.pixels().dimensions(), (70000, 1));
}

#[test]
fn wide_box_keeps_aspect_ratio() {
    let img = decode_item("a.png", &png_bytes(4, 2)).unwrap();
    let fit = resize_for(img, &settings("png", Some((70000, 3)), true));
    assert_eq!((fit.width(), fit.height()), (6, 3));
    assert_eq!(fit.pixels().dimensions(), (6, 3));
}

#[test]
fn ppm_items_are_decoded() {
    let img = DynamicImage::ImageRgb8(RgbImage::from_pixel(2, 1, image::Rgb([255, 0, 0])));
    let mut out = Cursor::new(Vec::new());
    let pixmap = PnmSubtype::Pixmap(SampleEncoding::Binary);
    img.write_to(&mut out, ImageOutputFormat::Pnm(pixmap)).unwrap();
    let ppm = out.into_inner();
    let (name, bytes) = convert("pic.ppm", &ppm, &settings("png", None, false)).unwrap();
    assert_eq!(name, "pic.png");
    assert_eq!(image::load_from_memory(&bytes).unwrap().dimensions(), (2, 1));
}

#[test]
fn decode_failure_is_decode_error() {
    assert_eq!(decode_item("x.png", &vec![1, 2, 3]).err(), Some(ConvertError::Decode));
    assert_eq!(decode_item("x.ppm", &vec![1, 2, 3]).err(), Some(ConvertError::Decode));
}

#[test]
fn sixteen_bit_images_encode_as_png() {
    let img = DynamicImage::ImageLuma16(image::ImageBuffer::from_pixel(3, 2, image::Luma([40000u16])));
    let mut out = Cursor::new(Vec::new());
    img.write_to(&mut out, ImageOutputFormat::Png).unwrap();
    let p = decode_item("deep.png", &out.into_inner()).unwrap();
    assert_eq!(p.depth(), SampleDepth::Sixteen);
    let bytes = encode_in_library(&p, EncodePlan::Png(PngCompression::Fast)).unwrap().unwrap();
    assert_eq!(image::load_from_memory(&bytes).unwrap().dimensions(), (3, 2));
}

#[test]
fn float_quality_formats_are_left_to_the_caller() {
    let img = decode_item("a.png", &png_bytes(2, 2)).unwrap();
    assert!(encode_in_library(&img, EncodePlan::Webp { quality: 80 }).is_none());
    assert!(encode_in_library(&img, EncodePlan::Jpeg { quality: 80, preset: JpegPreset::Medium }).is_none());
    assert!(encode_in_library(&img, EncodePlan::Avif { quality: 80, speed: 8 }).is_none());
    let png = encode_in_library(&img, EncodePlan::Png(PngCompression::Best)).unwrap().unwrap();
    assert_eq!(&png[1..4], b"PNG");
    let bmp = encode_in_library(&img, EncodePlan::Bmp).unwrap().unwrap();
    assert_eq!(&bmp[0..2], b"BM");
}

#[test]
fn archive_holds_entries_in_order() {
    let entries = vec![
        ("b.png".to_string(), b"second".to_vec()),
        ("a.png".to_string(), b"first".to_vec()),
    ];
    let bytes = build_archive(&entries).unwrap();
    assert_eq!(archive_names(&bytes), vec!["b.png", "a.png"]);
    let mut zip = zip::ZipArchive::new(Cursor::new(bytes)).unwrap();
    let mut text = String::new();
    zip.by_index(0).unwrap().read_to_string(&mut text).unwrap();
    assert_eq!(text, "second");
}

#[test]
fn empty_archive_is_valid() {
    let bytes = build_archive(&Vec::new()).unwrap();
    assert!(archive_names(&bytes).is_empty());
}
