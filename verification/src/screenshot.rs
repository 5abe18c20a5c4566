//! Screenshots: how one is captured, scaled down and turned into text.
use vstd::prelude::*;

use crate::base64;
use crate::platform::Platform;
use crate::program::{CommandLine, ShellCommand};
use crate::text;

verus! {

/// The largest width that a screenshot of the given quality keeps.
pub open spec fn width_limit(quality: Seq<char>) -> Option<u32> {
    if quality == "low"@ {
        Some(640)
    } else if quality == "medium"@ {
        Some(1920)
    } else {
        None
    }
}

/// The bounds that an image of `width` times `height` pixels is scaled into:
/// none where its width is within the limit, else the limit and the height in
/// proportion, rounded down.
pub open spec fn scaled_size(quality: Seq<char>, width: u32, height: u32) -> Option<(u32, u32)> {
    match width_limit(quality) {
        Some(limit) if width > limit => Some((limit, (limit * height / width as int) as u32)),
        _ => None,
    }
}

/// Whether the product of limit and height, from which the height in proportion
/// is computed, fits in 32 bits wherever it is needed.
pub open spec fn product_fits(quality: Seq<char>, width: u32, height: u32) -> bool {
    match width_limit(quality) {
        Some(limit) if width > limit => limit * height <= u32::MAX,
        _ => true,
    }
}

/// Finds the bounds that an image is scaled into, if it is scaled at all.
pub fn target_size(quality: &str, width: u32, height: u32) -> (size: Option<(u32, u32)>)
    requires
        product_fits(quality@, width, height),
    ensures
        size == scaled_size(quality@, width, height),
{
    let limit: u32 = if text::same_text(quality, "low") {
        640
    } else if text::same_text(quality, "medium") {
        1920
    } else {
        return None;
    };
    if width > limit {
        proof {
            lemma_scaled(limit, width, height);
        }
        Some((limit, limit * height / width))
    } else {
        None
    }
}

/// The height in proportion is the largest whole number that keeps the image's
/// shape from growing taller, and is no larger than the height it had.
proof fn lemma_scaled(limit: u32, width: u32, height: u32)
    requires
        0 < limit < width,
    ensures
        0 <= limit * height / width as int <= height,
        limit * height / width as int * width <= limit * height,
        limit * height < (limit * height / width as int + 1) * width,
{
    let product = limit * height;
    let scaled = product / width as int;
    assert(0 <= product <= width * height) by (nonlinear_arith)
        requires
            product == limit * height,
            0 < limit < width,
    ;
    vstd::arithmetic::div_mod::lemma_fundamental_div_mod(product, width as int);
    assert(width * scaled <= product < width * scaled + width) by {
        vstd::arithmetic::div_mod::lemma_mod_bound(product, width as int);
    }
    assert(scaled * width == width * scaled) by (nonlinear_arith);
    assert((scaled + 1) * width == width * scaled + width) by (nonlinear_arith);
    assert(0 <= scaled <= height) by (nonlinear_arith)
        requires
            0 <= product <= width * height,
            width * scaled <= product < width * scaled + width,
            0 < width,
    ;
}

/// Scaling only ever shrinks an image, and keeps its shape but for the part of
/// a pixel that rounding down drops.
pub proof fn law_scaling_shrinks(quality: Seq<char>, width: u32, height: u32)
    ensures
        scaled_size(quality, width, height) matches Some((w, h)) ==> {
            &&& w < width
            &&& h <= height
            &&& h * width <= w * height < (h + 1) * width
        },
{
    if let Some(limit) = width_limit(quality) {
        if width > limit {
            lemma_scaled(limit, width, height);
        }
    }
}

/// A scaled image is within the limit, and is not scaled again.
pub proof fn law_scaled_once(quality: Seq<char>, width: u32, height: u32)
    ensures
        scaled_size(quality, width, height) matches Some((w, h)) ==> scaled_size(quality, w, h)
            is None,
{
}

/// The bytes behind an optional vector.
pub open spec fn optional_bytes(bytes: Option<Vec<u8>>) -> Option<Seq<u8>> {
    match bytes {
        Some(bytes) => Some(bytes@),
        None => None,
    }
}

/// Whether an image of that many pixels in width and height fits in a JPEG.
pub open spec fn within_jpeg(size: Option<(u32, u32)>) -> bool {
    match size {
        Some((width, height)) => width <= 65535 && height <= 65535,
        None => false,
    }
}

/// The name of the width and height of the image that
/// `image::load_from_memory_with_format` decodes from `png`, where it does.
pub uninterp spec fn png_size(png: Seq<u8>) -> Option<(u32, u32)>;

/// The quality at which every screenshot is encoded, of 1 to 100.
pub const JPEG_QUALITY: u8 = 60;

/// Whether `jpeg` is what encoding the image in `png` at the JPEG quality
/// `quality` may give. Colours are converted in floating point, whose last bits
/// may differ from one machine to the next, so one image may have several
/// encodings.
pub uninterp spec fn may_encode(png: Seq<u8>, quality: u8, jpeg: Option<Seq<u8>>) -> bool;

/// Whether `jpeg` is what scaling the image in `png` into `width` times
/// `height` pixels and encoding it at the JPEG quality `quality` may give, on
/// one machine or another.
pub uninterp spec fn may_encode_scaled(
    png: Seq<u8>,
    width: u32,
    height: u32,
    quality: u8,
    jpeg: Option<Seq<u8>>,
) -> bool;

/// Calls `image::load_from_memory_with_format` for the PNG format, and
/// `dimensions` on the image. What comes back depends on the bytes alone and is
/// called `png_size`. An image without pixels is refused, and so is one whose
/// pixels take more than 512 MiB, the decoder's default limit.
#[verifier::external_body]
fn decode_size(png: &[u8]) -> (size: Option<(u32, u32)>)
    ensures
        size == png_size(png@),
        size matches Some((width, height)) ==> 0 < width && 0 < height && width * height
            <= 0x2000_0000,
{
    let image = image::load_from_memory_with_format(png, image::ImageFormat::Png).ok()?;
    Some(image::GenericImageView::dimensions(&image))
}

/// Decodes `png` with `image::load_from_memory_with_format` and calls
/// `DynamicImage::write_with_encoder` with a `JpegEncoder` of that quality, which
/// fails on an image of more than 65535 pixels in either direction and on no
/// other, as the bytes are written to memory. The bytes are one of the encodings
/// that `may_encode` stands for.
#[verifier::external_body]
fn encode_jpeg(png: &[u8], quality: u8) -> (jpeg: Option<Vec<u8>>)
    requires
        png_size(png@) is Some,
    ensures
        may_encode(png@, quality, optional_bytes(jpeg)),
        jpeg is Some <==> within_jpeg(png_size(png@)),
{
    let image = image::load_from_memory_with_format(png, image::ImageFormat::Png).ok()?;
    let mut jpeg: Vec<u8> = Vec::new();
    let encoder = image::codecs::jpeg::JpegEncoder::new_with_quality(&mut jpeg, quality);
    image.write_with_encoder(encoder).ok()?;
    Some(jpeg)
}

/// Decodes `png` with `image::load_from_memory_with_format`, calls
/// `DynamicImage::resize` with the Lanczos filter, and then
/// `DynamicImage::write_with_encoder` with a `JpegEncoder` of that quality.
/// `resize` keeps the image's shape and fills the bounds as far as it can; the bounds here shrink the
/// image, and `height` is the one that binds, so that the scaled image is as
/// high as it says, or one pixel high where it says none. Encoding then fails
/// where that is more than 65535 pixels.
/// The bytes are one of the encodings that `may_encode_scaled` stands for.
#[verifier::external_body]
fn encode_scaled_jpeg(png: &[u8], width: u32, height: u32, quality: u8) -> (jpeg: Option<Vec<u8>>)
    requires
        png_size(png@) matches Some((w, h)) && 0 < width <= w && height <= h && height * w <= width
            * h,
        width <= 65535,
    ensures
        may_encode_scaled(png@, width, height, quality, optional_bytes(jpeg)),
        jpeg is Some <==> height <= 65535,
{
    let image = image::load_from_memory_with_format(png, image::ImageFormat::Png).ok()?;
    let scaled = image.resize(width, height, image::imageops::FilterType::Lanczos3);
    let mut jpeg: Vec<u8> = Vec::new();
    let encoder = image::codecs::jpeg::JpegEncoder::new_with_quality(&mut jpeg, quality);
    scaled.write_with_encoder(encoder).ok()?;
    Some(jpeg)
}

/// Why there is no screenshot.
#[derive(Clone, Copy, Debug, PartialEq, Eq, Structural)]
pub enum ScreenshotError {
    /// What was captured is not an image.
    Undecodable,
    /// The image does not fit in a JPEG.
    Unencodable,
}

/// Whether `jpeg` is what a screenshot of the given quality may make of `png`.
/// That quality only decides on the size; the JPEG quality is always the same.
pub open spec fn may_shrink_to(png: Seq<u8>, quality: Seq<char>, jpeg: Option<Seq<u8>>) -> bool {
    match png_size(png) {
        Some((width, height)) => match scaled_size(quality, width, height) {
            Some((w, h)) => may_encode_scaled(png, w, h, JPEG_QUALITY, jpeg),
            None => may_encode(png, JPEG_QUALITY, jpeg),
        },
        None => false,
    }
}

/// Whether an image of `width` times `height` pixels fits in a JPEG once it has
/// the given quality.
pub open spec fn fits_jpeg(quality: Seq<char>, width: u32, height: u32) -> bool {
    match scaled_size(quality, width, height) {
        Some((_, h)) => h <= 65535,
        None => within_jpeg(Some((width, height))),
    }
}

/// Whether `shot` is what a screenshot of the given quality may give for `png`.
pub open spec fn may_give(
    png: Seq<u8>,
    quality: Seq<char>,
    shot: Result<String, ScreenshotError>,
) -> bool {
    match png_size(png) {
        None => shot == Err::<String, _>(ScreenshotError::Undecodable),
        Some((width, height)) => if fits_jpeg(quality, width, height) {
            shot matches Ok(shot) && exists|jpeg: Seq<u8>|
                may_shrink_to(png, quality, Some(jpeg)) && shot@ == base64::base64_text(jpeg)
        } else {
            shot == Err::<String, _>(ScreenshotError::Unencodable)
        },
    }
}

/// Turns a captured image into the Base64 text of a JPEG of the given quality.
pub fn take_screenshot(png: &[u8], quality: &str) -> (shot: Result<String, ScreenshotError>)
    ensures
        may_give(png@, quality@, shot),
{
    let (width, height) = match decode_size(png) {
        Some(size) => size,
        None => {
            return Err(ScreenshotError::Undecodable);
        },
    };
    proof {
        if let Some(limit) = width_limit(quality@) {
            if width > limit {
                assert(limit * height <= width * height) by (nonlinear_arith)
                    requires
                        0 < limit < width,
                ;
                law_scaling_shrinks(quality@, width, height);
            }
        }
    }
    let jpeg = match target_size(quality, width, height) {
        Some((w, h)) => encode_scaled_jpeg(png, w, h, JPEG_QUALITY),
        None => encode_jpeg(png, JPEG_QUALITY),
    };
    match jpeg {
        Some(jpeg) => {
            assert(may_shrink_to(png@, quality@, Some(jpeg@)));
            Ok(base64::base64_encode(jpeg.as_slice()))
        },
        None => Err(ScreenshotError::Unencodable),
    }
}

/// Whether the captured file has served its purpose: it was an image, whatever
/// became of it then.
pub fn capture_is_spent(shot: &Result<String, ScreenshotError>) -> (spent: bool)
    ensures
        spent == (*shot != Err::<String, _>(ScreenshotError::Undecodable)),
{
    match shot {
        Err(ScreenshotError::Undecodable) => false,
        _ => true,
    }
}

/// What to do next to capture the screen.
#[derive(Debug, PartialEq, Eq)]
pub enum CaptureStep {
    /// Run the command, then ask again.
    Run(ShellCommand),
    /// Read the image file.
    ReadImage,
    /// There is nothing to read.
    GiveUp,
}

/// What a [`CaptureStep`] says.
#[verifier::ext_equal]
pub enum CaptureStepView {
    Run(CommandLine),
    ReadImage,
    GiveUp,
}

impl View for CaptureStep {
    type V = CaptureStepView;

    open spec fn view(&self) -> CaptureStepView {
        match self {
            CaptureStep::Run(command) => CaptureStepView::Run(command@),
            CaptureStep::ReadImage => CaptureStepView::ReadImage,
            CaptureStep::GiveUp => CaptureStepView::GiveUp,
        }
    }
}

/// The Python program that writes the main display to the file `path`.
pub open spec fn quartz_script(path: Seq<char>) -> Seq<char> {
    "import Quartz.CoreGraphics as CG; import Quartz; import CoreFoundation as CF; url=CF.CFURLCreateWithFileSystemPath(None, '"@
        + path
        + "', CF.kCFURLPOSIXPathStyle, False); dest=Quartz.CGImageDestinationCreateWithURL(url, 'public.png', 1, None); img=CG.CGDisplayCreateImage(CG.CGMainDisplayID()); Quartz.CGImageDestinationAddImage(dest, img, None); Quartz.CGImageDestinationFinalize(dest)"@
}

/// The next step, once the commands of the earlier steps have run or, where
/// `ran` says so, could not be started. On macOS there is one command, which
/// has to run. On Linux a second command stands in for the first, and the file
/// is read whether or not it ran. Windows has no command, and on any other
/// system the file is read as it is.
pub open spec fn capture_step_after(
    platform: Platform,
    path: Seq<char>,
    ran: Seq<bool>,
) -> CaptureStepView {
    match platform {
        Platform::MacOs => if ran.len() == 0 {
            CaptureStepView::Run(
                CommandLine { program: "python3"@, args: seq!["-c"@, quartz_script(path)] },
            )
        } else if ran[0] {
            CaptureStepView::ReadImage
        } else {
            CaptureStepView::GiveUp
        },
        Platform::Linux => if ran.len() == 0 {
            CaptureStepView::Run(CommandLine { program: "scrot"@, args: seq![path] })
        } else if ran.len() == 1 && !ran[0] {
            CaptureStepView::Run(
                CommandLine { program: "import"@, args: seq!["-window"@, "root"@, path] },
            )
        } else {
            CaptureStepView::ReadImage
        },
        Platform::Windows => CaptureStepView::GiveUp,
        Platform::Other => CaptureStepView::ReadImage,
    }
}

/// Decides the next step of a capture into the file `path`.
pub fn capture_step(platform: Platform, path: &str, ran: &[bool]) -> (step: CaptureStep)
    ensures
        step@ == capture_step_after(platform, path@, ran@),
{
    match platform {
        Platform::MacOs => if ran.len() == 0 {
            let mut script =
                "import Quartz.CoreGraphics as CG; import Quartz; import CoreFoundation as CF; url=CF.CFURLCreateWithFileSystemPath(None, '".to_string();
            script.append(path);
            script.append(
                "', CF.kCFURLPOSIXPathStyle, False); dest=Quartz.CGImageDestinationCreateWithURL(url, 'public.png', 1, None); img=CG.CGDisplayCreateImage(CG.CGMainDisplayID()); Quartz.CGImageDestinationAddImage(dest, img, None); Quartz.CGImageDestinationFinalize(dest)",
            );
            CaptureStep::Run(ShellCommand::new("python3").arg("-c").arg(script.as_str()))
        } else if ran[0] {
            CaptureStep::ReadImage
        } else {
            CaptureStep::GiveUp
        },
        Platform::Linux => if ran.len() == 0 {
            CaptureStep::Run(ShellCommand::new("scrot").arg(path))
        } else if ran.len() == 1 && !ran[0] {
            CaptureStep::Run(ShellCommand::new("import").arg("-window").arg("root").arg(path))
        } else {
            CaptureStep::ReadImage
        },
        Platform::Windows => CaptureStep::GiveUp,
        Platform::Other => CaptureStep::ReadImage,
    }
}

/// A capture runs two commands at most.
pub proof fn law_capture_ends(platform: Platform, path: Seq<char>, ran: Seq<bool>)
    requires
        ran.len() >= 2,
    ensures
        !(capture_step_after(platform, path, ran) is Run),
{
}

/// Low quality is 640 pixels wide at most, and medium quality 1920; any other
/// keeps the width. An image is scaled exactly where it is wider, and then to
/// that width.
pub proof fn law_quality_limits_the_width(quality: Seq<char>, width: u32, height: u32)
    ensures
        ({
            let size = scaled_size(quality, width, height);
            &&& quality == "low"@ ==> (size is Some <==> width > 640) && (size matches Some((w, _))
                ==> w == 640)
            &&& quality == "medium"@ ==> (size is Some <==> width > 1920) && (size matches Some((w, _))
                ==> w == 1920)
            &&& quality != "low"@ && quality != "medium"@ ==> size is None
        }),
{
    lemma_qualities_differ();
}

proof fn lemma_qualities_differ()
    ensures
        "low"@ != "medium"@,
{
    reveal_strlit("low");
    reveal_strlit("medium");
    assert("low"@.len() != "medium"@.len());
}

/// The only images that cannot be scaled are those whose height times the limit
/// takes more than 32 bits.
pub proof fn law_product_is_bounded(quality: Seq<char>, width: u32, height: u32)
    ensures
        quality == "low"@ ==> (product_fits(quality, width, height) <==> width <= 640 || 640 * height
            < 0x1_0000_0000),
        quality == "medium"@ ==> (product_fits(quality, width, height) <==> width <= 1920 || 1920
            * height < 0x1_0000_0000),
        quality != "low"@ && quality != "medium"@ ==> product_fits(quality, width, height),
{
    lemma_qualities_differ();
}

/// What a screenshot makes of an image: one within the limit is encoded as it
/// is, and one that is wider is scaled to the limit and to the height in
/// proportion first; always at the JPEG quality 60.
pub proof fn law_screenshot_shows_the_image(
    png: Seq<u8>,
    quality: Seq<char>,
    width: u32,
    height: u32,
    limit: u32,
    jpeg: Option<Seq<u8>>,
)
    requires
        png_size(png) == Some((width, height)),
        limit == 640 ==> quality == "low"@,
        limit == 1920 ==> quality == "medium"@,
        limit == 640 || limit == 1920,
    ensures
        width <= limit ==> may_shrink_to(png, quality, jpeg) == may_encode(png, 60, jpeg),
        width <= limit ==> (fits_jpeg(quality, width, height) <==> height <= 65535),
        width > limit ==> exists|h: u32|
            h * width <= limit * height < (h + 1) * width && may_shrink_to(png, quality, jpeg)
                == #[trigger] may_encode_scaled(png, limit, h, 60, jpeg) && (fits_jpeg(
                quality,
                width,
                height,
            ) <==> h <= 65535),
{
    lemma_qualities_differ();
    law_scaling_shrinks(quality, width, height);
    if let Some((w, h)) = scaled_size(quality, width, height) {
        assert(may_shrink_to(png, quality, jpeg) == may_encode_scaled(png, limit, h, 60, jpeg));
    }
}

/// At any other quality the image is encoded as it is, where it fits.
pub proof fn law_full_quality_keeps_the_image(
    png: Seq<u8>,
    quality: Seq<char>,
    width: u32,
    height: u32,
    jpeg: Option<Seq<u8>>,
)
    requires
        quality != "low"@,
        quality != "medium"@,
    ensures
        png_size(png) == Some((width, height)) ==> may_shrink_to(png, quality, jpeg)
            == may_encode(png, 60, jpeg),
        fits_jpeg(quality, width, height) <==> width <= 65535 && height <= 65535,
        png_size(png) is None ==> !may_shrink_to(png, quality, jpeg),
{
}

/// What fits in a JPEG, and what bytes mean where there may be none.
pub proof fn law_jpeg_holds_sixteen_bits(width: u32, height: u32, bytes: Vec<u8>)
    ensures
        within_jpeg(Some((width, height))) <==> width <= 65535 && height <= 65535,
        !within_jpeg(None),
        optional_bytes(Some(bytes)) == Some(bytes@),
        optional_bytes(None) is None,
{
}

/// The Python program differs from one path to another in the path alone, which
/// stands in it as it is.
pub proof fn law_script_names_the_path(path: Seq<char>, other: Seq<char>)
    ensures
        ({
            let start =
                "import Quartz.CoreGraphics as CG; import Quartz; import CoreFoundation as CF; url=CF.CFURLCreateWithFileSystemPath(None, '"@;
            let end =
                "', CF.kCFURLPOSIXPathStyle, False); dest=Quartz.CGImageDestinationCreateWithURL(url, 'public.png', 1, None); img=CG.CGDisplayCreateImage(CG.CGMainDisplayID()); Quartz.CGImageDestinationAddImage(dest, img, None); Quartz.CGImageDestinationFinalize(dest)"@;
            let script = quartz_script(path);
            let n = start.len() as int;
            let m = n + path.len();
            &&& script.len() == m + end.len()
            &&& script.take(n) == start
            &&& script.subrange(n, m) == path
            &&& script.skip(m) == end
            &&& quartz_script(other).take(n) == script.take(n)
            &&& quartz_script(other).skip(n + other.len()) == script.skip(m)
        }),
{
}

/// What a capture does on each system, step by step.
pub proof fn law_capture_tries_what_there_is(path: Seq<char>, ran: Seq<bool>, first: bool)
    ensures
        ({
            let mac = |ran: Seq<bool>| capture_step_after(Platform::MacOs, path, ran);
            let linux = |ran: Seq<bool>| capture_step_after(Platform::Linux, path, ran);
            &&& mac(seq![]) matches CaptureStepView::Run(command) && command.program == "python3"@
                && command.args.len() == 2 && command.args[0] == "-c"@ && command.args[1]
                == quartz_script(path)
            &&& mac(seq![true]) is ReadImage
            &&& mac(seq![false]) is GiveUp
            &&& linux(seq![]) matches CaptureStepView::Run(command) && command.program == "scrot"@
                && command.args.len() == 1 && command.args[0] == path
            &&& linux(seq![true]) is ReadImage
            &&& linux(seq![false]) matches CaptureStepView::Run(command) && command.program
                == "import"@ && command.args.len() == 3 && command.args[0] == "-window"@
                && command.args[1] == "root"@ && command.args[2] == path
            &&& linux(seq![false, first]) is ReadImage
            &&& capture_step_after(Platform::Windows, path, ran) is GiveUp
            &&& capture_step_after(Platform::Other, path, ran) is ReadImage
        }),
{
}

/// A step says what it holds.
pub proof fn law_capture_steps_say_what_they_hold(command: ShellCommand)
    ensures
        CaptureStep::Run(command)@ == CaptureStepView::Run(command@),
        CaptureStep::ReadImage@ == CaptureStepView::ReadImage,
        CaptureStep::GiveUp@ == CaptureStepView::GiveUp,
{
}

/// A screenshot decodes to a JPEG of the image; there is none exactly where the
/// capture is no image, or does not fit, and the error says which.
pub proof fn law_screenshot_decodes(
    png: Seq<u8>,
    quality: Seq<char>,
    shot: Result<String, ScreenshotError>,
)
    requires
        may_give(png, quality, shot),
    ensures
        shot matches Ok(text) ==> (base64::base64_bytes(text@) matches Some(jpeg) && may_shrink_to(
            png,
            quality,
            Some(jpeg),
        )),
        shot == Err::<String, _>(ScreenshotError::Undecodable) <==> png_size(png) is None,
        shot is Ok <==> (png_size(png) matches Some((width, height)) && fits_jpeg(
            quality,
            width,
            height,
        )),
{
    if let Ok(text) = shot {
        let jpeg = choose|jpeg: Seq<u8>|
            may_shrink_to(png, quality, Some(jpeg)) && text@ == base64::base64_text(jpeg);
        base64::law_base64_is_read_back(jpeg);
    }
}

} // verus!
