//! The computing parts of the two capture loops: pixel-format conversion,
//! PNG encoding and the timestamped file names.  Grabbing frames, spawning
//! the encoder subprocess and writing files stay outside the library; the
//! loops hand frames and stamps in as plain values and take bytes and names
//! back.

use vstd::prelude::*;
use vstd::string::StringExecFns;
use image::ImageEncoder;
use crate::text::dec_str;

verus! {

/// A captured frame's native 4-byte pixel order (blue, green, red, unused)
/// rewritten to the target order (red, green, blue, opaque alpha); any
/// trailing bytes short of a whole pixel are dropped.
pub open spec fn bgra_to_rgba_spec(s: Seq<u8>) -> Seq<u8> {
    Seq::new(
        (s.len() / 4 * 4) as nat,
        |i: int|
            if i % 4 == 0 {
                s[i + 2]
            } else if i % 4 == 1 {
                s[i]
            } else if i % 4 == 2 {
                s[i - 2]
            } else {
                255u8
            },
    )
}

/// Converts a frame from its native blue-green-red-alpha byte order to
/// red-green-blue with a fixed opaque alpha, pixel by pixel.
pub fn bgra_to_rgba(frame: &Vec<u8>) -> (r: Vec<u8>)
    ensures
        r@ == bgra_to_rgba_spec(frame@),
{
    let len = frame.len();
    let n = len / 4;
    let mut r: Vec<u8> = Vec::new();
    let mut k: usize = 0;
    while k < n
        invariant
            k <= n,
            len == frame@.len(),
            n == frame@.len() / 4,
            4 * n <= len,
            r@.len() == 4 * k,
            forall|i: int| 0 <= i < 4 * k ==> r@[i] == bgra_to_rgba_spec(frame@)[i],
        decreases n - k,
    {
        let base = 4 * k;
        r.push(frame[base + 2]);
        r.push(frame[base + 1]);
        r.push(frame[base]);
        r.push(255);
        k = k + 1;
    }
    proof {
        assert(r@ =~= bgra_to_rgba_spec(frame@));
    }
    r
}

/// The PNG encoding of an image: a pure function of the pixel bytes (in
/// red-green-blue-alpha order, row by row) and the dimensions.
pub uninterp spec fn png_bytes_of(width: u32, height: u32, data: Seq<u8>) -> Seq<u8>;

/// Relies on image's PngEncoder: `write_image` with the 8-bit RGBA color
/// type encodes exactly the given pixel buffer into the writer, here a byte
/// vector; the encoding is a pure function of pixels and dimensions, and it
/// succeeds whenever both dimensions are positive.  The buffer length must
/// match the dimensions exactly, which the encoder otherwise refuses.
#[verifier::external_body]
fn png_encode_rgba(width: u32, height: u32, data: &Vec<u8>) -> (r: Option<Vec<u8>>)
    requires
        data@.len() == 4 * width * height,
    ensures
        r is Some ==> r->0@ == png_bytes_of(width, height, data@),
        width > 0 && height > 0 ==> r is Some,
{
    let mut out: Vec<u8> = Vec::new();
    let encoder = image::codecs::png::PngEncoder::new(&mut out);
    match encoder.write_image(data, width, height, image::ExtendedColorType::Rgba8) {
        Ok(()) => Some(out),
        Err(_) => None,
    }
}

/// One screenshot iteration's computing half: converts a captured frame
/// from its native byte order and encodes it as a PNG.  Returns the file's
/// bytes, or nothing when the frame does not hold exactly the stated
/// dimensions or a dimension is zero.
pub fn frame_to_png(width: u32, height: u32, frame: &Vec<u8>) -> (r: Option<Vec<u8>>)
    ensures
        r is Some <==> frame@.len() / 4 * 4 == 4 * width * height && width > 0 && height > 0,
        r is Some ==> r->0@ == png_bytes_of(width, height, bgra_to_rgba_spec(frame@)),
        frame@.len() == 4 * width * height && width > 0 && height > 0 ==> r is Some,
{
    let rgba = bgra_to_rgba(frame);
    proof {
        assert(4 * (width as int) * (height as int) <= 4 * 0xffff_ffff * 0xffff_ffff)
            by (nonlinear_arith)
            requires
                0 <= width as int <= 0xffff_ffff,
                0 <= height as int <= 0xffff_ffff,
        ;
    }
    let expected = 4u128 * (width as u128) * (height as u128);
    proof {
        assert(4 * (width as int) * (height as int) == 4 * ((width as int) * (height as int)))
            by (nonlinear_arith);
        if frame@.len() == 4 * (width as int) * (height as int) {
            assert(frame@.len() % 4 == 0);
            assert(frame@.len() / 4 * 4 == frame@.len());
        }
    }
    if width > 0 && height > 0 && rgba.len() as u128 == expected {
        png_encode_rgba(width, height, &rgba)
    } else {
        None
    }
}

/// The screenshot file name for a capture at the given epoch millisecond.
pub fn screenshot_file_name(ts_millis: u64) -> (r: String)
    ensures
        r@ == "screenshot_"@ + dec_str(ts_millis as nat) + ".png"@,
{
    let mut out = String::from_str("screenshot_");
    let d = crate::text::u64_to_string(ts_millis);
    out.append(d.as_str());
    out.append(".png");
    out
}

/// The video-clip file name for a capture at the given compact local-time
/// stamp (`yyyyMMdd_HHmmss`).
pub fn video_file_name(stamp: &str) -> (r: String)
    ensures
        r@ == "capture_"@ + stamp@ + ".mp4"@,
{
    let mut out = String::from_str("capture_");
    out.append(stamp);
    out.append(".mp4");
    out
}

/// A screenshot file name stamped with the clock at the call.
pub fn make_screenshot_file_name() -> (r: String)
    ensures
        exists|ts: u64| r@ == "screenshot_"@ + dec_str(ts as nat) + ".png"@,
{
    let ts = crate::clock::current_ts_millis();
    let r = screenshot_file_name(ts);
    proof {
        assert(r@ == "screenshot_"@ + dec_str(ts as nat) + ".png"@);
    }
    r
}

/// A video-clip file name stamped with the clock at the call.
pub fn make_video_file_name() -> (r: String)
    ensures
        exists|stamp: Seq<char>| r@ == "capture_"@ + stamp + ".mp4"@,
{
    let stamp = crate::clock::now_compact_stamp();
    let r = video_file_name(stamp.as_str());
    proof {
        assert(r@ == "capture_"@ + stamp@ + ".mp4"@);
    }
    r
}

/// The length of the prefix before the first NUL in a wide-character
/// buffer, as the process-name lookup trims an executable-name field.
pub fn nul_prefix_len(buf: &Vec<u16>) -> (n: usize)
    ensures
        n <= buf@.len(),
        forall|i: int| 0 <= i < n ==> buf@[i] != 0,
        n < buf@.len() ==> buf@[n as int] == 0,
{
    let mut i: usize = 0;
    while i < buf.len()
        invariant
            i <= buf@.len(),
            forall|j: int| 0 <= j < i ==> buf@[j] != 0,
        decreases buf@.len() - i,
    {
        if buf[i] == 0 {
            return i;
        }
        i = i + 1;
    }
    i
}

} // verus!
