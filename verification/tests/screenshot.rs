use std::io::Cursor;

use image::{DynamicImage, GenericImageView, ImageFormat};
use teamlens_agent::platform::Platform;
use teamlens_agent::screenshot::{
    capture_is_spent, capture_step, take_screenshot, target_size, CaptureStep, ScreenshotError,
};

fn png(width: u32, height: u32) -> Vec<u8> {
    let picture = image::GrayImage::from_fn(width, height, |x, y| image::Luma([(x * 7 + y * 3) as u8]));
    let mut bytes = Vec::new();
    DynamicImage::ImageLuma8(picture)
        .write_to(&mut Cursor::new(&mut bytes), ImageFormat::Png)
        .unwrap();
    bytes
}

fn decode(text: &str) -> Vec<u8> {
    let value = |c: u8| -> u32 {
        match c {
            b'A'..=b'Z' => (c - b'A') as u32,
            b'a'..=b'z' => (c - b'a') as u32 + 26,
            b'0'..=b'9' => (c - b'0') as u32 + 52,
            b'+' => 62,
            b'/' => 63,
            _ => 0,
        }
    };
    let mut bytes = Vec::new();
    for group in text.as_bytes().chunks(4) {
        let n = value(group[0]) << 18 | value(group[1]) << 12 | value(group[2]) << 6 | value(group[3]);
        let kept = 3 - group.iter().filter(|&&c| c == b'=').count();
        bytes.extend_from_slice(&[(n >> 16) as u8, (n >> 8) as u8, n as u8][..kept]);
    }
    bytes
}

fn size_of(text: &str) -> (u32, u32) {
    image::load_from_memory_with_format(&decode(text), ImageFormat::Jpeg).unwrap().dimensions()
}

#[test]
fn low_quality_is_640_wide_at_most() {
    assert_eq!(size_of(&take_screenshot(&png(1300, 650), "low").unwrap()), (640, 320));
    assert_eq!(size_of(&take_screenshot(&png(640, 480), "low").unwrap()), (640, 480));
}

#[test]
fn medium_quality_is_1920_wide_at_most() {
    assert_eq!(size_of(&take_screenshot(&png(2000, 100), "medium").unwrap()), (1920, 96));
    assert_eq!(size_of(&take_screenshot(&png(1920, 10), "medium").unwrap()), (1920, 10));
}

#[test]
fn any_other_quality_keeps_the_size() {
    assert_eq!(size_of(&take_screenshot(&png(2100, 20), "high").unwrap()), (2100, 20));
    assert_eq!(size_of(&take_screenshot(&png(2100, 20), "Low").unwrap()), (2100, 20));
}

#[test]
fn screenshot_is_a_jpeg() {
    let bytes = decode(&take_screenshot(&png(16, 16), "high").unwrap());
    assert_eq!(&bytes[..3], &[0xff, 0xd8, 0xff]);
    assert_eq!(&bytes[bytes.len() - 2..], &[0xff, 0xd9]);
}

#[test]
fn what_is_no_image_is_refused() {
    assert_eq!(take_screenshot(b"", "low"), Err(ScreenshotError::Undecodable));
    assert_eq!(take_screenshot(b"not a picture", "high"), Err(ScreenshotError::Undecodable));
    let mut cut = png(100, 100);
    cut.truncate(60);
    assert_eq!(take_screenshot(&cut, "high"), Err(ScreenshotError::Undecodable));
}

#[test]
fn what_does_not_fit_in_a_jpeg_is_refused() {
    assert_eq!(take_screenshot(&png(65536, 1), "high"), Err(ScreenshotError::Unencodable));
    assert_eq!(take_screenshot(&png(1, 65536), "low"), Err(ScreenshotError::Unencodable));
    assert_eq!(size_of(&take_screenshot(&png(65535, 1), "high").unwrap()), (65535, 1));
}

#[test]
fn a_flat_image_is_scaled_to_a_pixel() {
    assert_eq!(size_of(&take_screenshot(&png(65536, 1), "low").unwrap()), (1, 1));
}

#[test]
fn bounds_keep_the_shape() {
    assert_eq!(target_size("low", 1280, 720), Some((640, 360)));
    assert_eq!(target_size("low", 641, 641), Some((640, 640)));
    assert_eq!(target_size("low", 640, 9999), None);
    assert_eq!(target_size("medium", 3840, 2160), Some((1920, 1080)));
    assert_eq!(target_size("medium", 2561, 1440), Some((1920, 1079)));
    assert_eq!(target_size("medium", 1920, 1080), None);
    assert_eq!(target_size("high", 10000, 10000), None);
    let (w, h) = target_size("low", 3000, 2000).unwrap();
    assert_eq!(target_size("low", w, h), None);
}

#[test]
fn capture_on_linux_has_a_second_command() {
    let path = "/tmp/shot.png";
    match capture_step(Platform::Linux, path, &[]) {
        CaptureStep::Run(command) => {
            assert_eq!(command.program, "scrot");
            assert_eq!(command.args, vec![path.to_string()]);
        }
        other => panic!("{:?}", other),
    }
    match capture_step(Platform::Linux, path, &[false]) {
        CaptureStep::Run(command) => {
            assert_eq!(command.program, "import");
            assert_eq!(command.args.join(" "), "-window root /tmp/shot.png");
        }
        other => panic!("{:?}", other),
    }
    assert_eq!(capture_step(Platform::Linux, path, &[true]), CaptureStep::ReadImage);
    assert_eq!(capture_step(Platform::Linux, path, &[false, false]), CaptureStep::ReadImage);
    assert_eq!(capture_step(Platform::Linux, path, &[false, true]), CaptureStep::ReadImage);
}

#[test]
fn capture_on_macos_has_one_command() {
    match capture_step(Platform::MacOs, "/tmp/shot.png", &[]) {
        CaptureStep::Run(command) => {
            assert_eq!(command.program, "python3");
            assert_eq!(command.args[0], "-c");
            assert_eq!(command.args.len(), 2);
            assert!(command.args[1].starts_with("import Quartz.CoreGraphics as CG; "));
            assert!(command.args[1].contains("PathStyle") && command.args[1].contains("(None, '/tmp/shot.png', CF."));
            assert!(command.args[1].ends_with("Quartz.CGImageDestinationFinalize(dest)"));
        }
        other => panic!("{:?}", other),
    }
    assert_eq!(capture_step(Platform::MacOs, "p", &[true]), CaptureStep::ReadImage);
    assert_eq!(capture_step(Platform::MacOs, "p", &[false]), CaptureStep::GiveUp);
}

#[test]
fn capture_elsewhere_runs_nothing() {
    assert_eq!(capture_step(Platform::Windows, "p", &[]), CaptureStep::GiveUp);
    assert_eq!(capture_step(Platform::Other, "p", &[]), CaptureStep::ReadImage);
}

#[test]
fn a_captured_file_goes_once_it_was_an_image() {
    assert!(capture_is_spent(&Ok(String::new())));
    assert!(capture_is_spent(&Err(ScreenshotError::Unencodable)));
    assert!(!capture_is_spent(&Err(ScreenshotError::Undecodable)));
}

#[test]
fn every_kind_of_colour_is_encoded() {
    let grey = DynamicImage::ImageLuma8(image::GrayImage::from_pixel(700, 7, image::Luma([90])));
    let kinds = [
        DynamicImage::ImageLumaA8(grey.to_luma_alpha8()),
        DynamicImage::ImageRgb8(grey.to_rgb8()),
        DynamicImage::ImageRgba8(grey.to_rgba8()),
        DynamicImage::ImageLuma16(grey.to_luma16()),
        DynamicImage::ImageLumaA16(grey.to_luma_alpha16()),
        DynamicImage::ImageRgb16(grey.to_rgb16()),
        DynamicImage::ImageRgba16(grey.to_rgba16()),
    ];
    for kind in kinds {
        let mut bytes = Vec::new();
        kind.write_to(&mut Cursor::new(&mut bytes), ImageFormat::Png).unwrap();
        assert_eq!(size_of(&take_screenshot(&bytes, "low").unwrap()), (600, 6));
        assert_eq!(size_of(&take_screenshot(&bytes, "high").unwrap()), (700, 7));
    }
}

/// The first value of the first quantization table in a JPEG.
fn first_quantizer(jpeg: &[u8]) -> u8 {
    let at = jpeg.windows(2).position(|marker| marker == [0xff, 0xdb]).unwrap();
    jpeg[at + 5]
}

#[test]
fn every_quality_is_encoded_alike() {
    // 16 in the standard table, scaled by 80 percent for a JPEG quality of 60.
    for quality in ["low", "medium", "high"] {
        let jpeg = decode(&take_screenshot(&png(700, 70), quality).unwrap());
        assert_eq!(first_quantizer(&jpeg), 13);
    }
}

#[test]
fn the_jpeg_quality_is_sixty() {
    let bytes = png(700, 70);
    let picture = image::load_from_memory_with_format(&bytes, ImageFormat::Png).unwrap();
    let encode = |picture: &DynamicImage| {
        let mut jpeg = Vec::new();
        let encoder = image::codecs::jpeg::JpegEncoder::new_with_quality(&mut jpeg, 60);
        picture.write_with_encoder(encoder).unwrap();
        jpeg
    };
    assert_eq!(decode(&take_screenshot(&bytes, "high").unwrap()), encode(&picture));
    let scaled = picture.resize(640, 64, image::imageops::FilterType::Lanczos3);
    assert_eq!(decode(&take_screenshot(&bytes, "low").unwrap()), encode(&scaled));
}
