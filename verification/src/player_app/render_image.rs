//! Images for the window: the picture of a decoded frame, and the icon of the window.

use crate::player_core::frame::{law_tight_size, tight_rows, DecodedFrame};
use vstd::prelude::*;

verus! {

/// `image::Frame`, an image with a place and a delay.
#[verifier::external_type_specification]
#[verifier::external_body]
pub struct ExFrame(image::Frame);

/// The bytes of the image that a frame holds, row by row, four for each pixel.
pub uninterp spec fn frame_bytes(frame: image::Frame) -> Seq<u8>;

/// Width and height of the image that a frame holds.
pub uninterp spec fn frame_size(frame: image::Frame) -> (u32, u32);

/// Calls `image::RgbaImage::from_raw`, and `image::Frame::new` on the image. An image comes about
/// exactly where the buffer holds at least four bytes for each pixel; it then holds the buffer
/// and has the size that was asked for.
#[verifier::external_body]
fn frame_from_raw(width: u32, height: u32, buf: Vec<u8>) -> (r: Option<image::Frame>)
    ensures
        r is Some == (4 * width <= usize::MAX && 4 * width * height <= buf@.len()),
        r is Some ==> frame_bytes(r->0) == buf@,
        r is Some ==> frame_size(r->0) == (width, height),
{
    image::RgbaImage::from_raw(width, height, buf).map(image::Frame::new)
}

impl DecodedFrame {
    /// The pixels fill a picture of this size.
    pub open spec fn fills_picture(self) -> bool {
        &&& self.width * 4 <= usize::MAX
        &&& if self.stride == self.width * 4 {
            4 * self.width * self.height <= self.data@.len()
        } else {
            self.rows_inside()
        }
    }

    /// Whether the pixels fill a picture of this size.
    pub fn can_be_shown(&self) -> (r: bool)
        ensures
            r == self.fills_picture(),
    {
        let row: u64 = self.width as u64 * 4;
        if row > usize::MAX as u64 {
            return false;
        }
        let height: u128 = self.height as u128;
        let len: u128 = self.data.len() as u128;
        let stride: u128 = self.stride as u128;
        assert(row * height <= 0x4_0000_0000 * 0x1_0000_0000) by (nonlinear_arith)
            requires
                row <= 0x4_0000_0000,
                height <= 0x1_0000_0000,
        ;
        assert(row * height == 4 * self.width * self.height) by (nonlinear_arith)
            requires
                row == self.width * 4,
                height == self.height,
        ;
        assert(height > 0 ==> 0 <= (height - 1) * stride <= 0x1_0000_0000 * u64::MAX)
            by (nonlinear_arith)
            requires
                height <= 0x1_0000_0000,
                0 <= stride <= u64::MAX,
        ;
        if stride == row as u128 {
            row as u128 * height <= len
        } else {
            height == 0 || (height - 1) * stride + row as u128 <= len
        }
    }

    /// The pixels without the padding of the rows.
    pub open spec fn tight(self) -> Seq<u8> {
        if self.stride == self.width * 4 {
            self.data@
        } else {
            tight_rows(self.data@, self.stride as int, self.width * 4, self.height as nat)
        }
    }
}

/// The image of a decoded frame. The bytes of a pixel stay in their order: the window reads them
/// as blue, green, red, alpha, just as the decoder wrote them.
pub fn decoded_to_render_image(frame: &DecodedFrame) -> (r: image::Frame)
    requires
        frame.fills_picture(),
    ensures
        frame_bytes(r) == frame.tight(),
        frame_size(r) == (frame.width, frame.height),
{
    let tight: Vec<u8> = frame.to_tight_bgra();
    proof {
        if frame.stride != frame.width * 4 {
            lemma_tight_fits(*frame);
        }
    }
    frame_from_raw(frame.width, frame.height, tight).unwrap()
}

proof fn lemma_tight_fits(frame: DecodedFrame)
    requires
        frame.rows_inside(),
    ensures
        tight_rows(
            frame.data@,
            frame.stride as int,
            frame.width * 4,
            frame.height as nat,
        ).len() == 4 * frame.width * frame.height,
{
    crate::player_core::frame::lemma_tight_len(
        frame.data@,
        frame.stride as int,
        frame.width * 4,
        frame.height as nat,
    );
    assert(frame.height * (frame.width * 4) == 4 * frame.width * frame.height) by (nonlinear_arith);
}

/// A frame that holds exactly its rows fills a picture, so that every frame of a decoder can be
/// shown.
pub proof fn law_exact_frames_can_be_shown(frame: DecodedFrame)
    requires
        frame.exact(),
        frame.width * 4 <= usize::MAX,
    ensures
        frame.fills_picture(),
        frame.tight().len() == 4 * frame.width * frame.height,
{
    law_tight_size(frame);
    let h = frame.height as int;
    let s = frame.stride as int;
    if h > 0 {
        assert((h - 1) * s + s == s * h) by (nonlinear_arith);
    }
    assert(frame.width * 4 * h == 4 * frame.width * h) by (nonlinear_arith);
}

/// An icon: its pixels row by row, in the order red, green, blue, alpha.
#[derive(Debug)]
pub struct WindowIcon {
    pub width: u32,
    pub height: u32,
    pub pixels: Vec<u8>,
}

/// `image::ImageError`, why bytes are no image. Nothing is claimed of its values.
#[verifier::external_type_specification]
#[verifier::external_body]
pub struct ExImageError(image::ImageError);

/// Calls `image::load_from_memory`, and on the image `DynamicImage::to_rgba8`; gives width, height
/// and pixels. Claimed is only that the pixels fill the size: which bytes are an image, and of what
/// pixels, rests on the decoders that the process has, registered ones included.
#[verifier::external_body]
fn decode_rgba8(bytes: &Vec<u8>) -> (r: Result<(u32, u32, Vec<u8>), image::ImageError>)
    ensures
        r matches Ok(i) ==> 4 * i.0 * i.1 <= i.2@.len(),
{
    let image = image::load_from_memory(bytes)?.to_rgba8();
    Ok((image.width(), image.height(), image.into_raw()))
}

/// Decoding these bytes can come to this.
pub closed spec fn decodes_to(
    bytes: Vec<u8>,
    decoded: Result<(u32, u32, Vec<u8>), image::ImageError>,
) -> bool {
    call_ensures(decode_rgba8, (&bytes,), decoded)
}

/// The icon that decoding came to.
pub open spec fn icon_of(
    decoded: Result<(u32, u32, Vec<u8>), image::ImageError>,
) -> Option<WindowIcon> {
    match decoded {
        Ok((width, height, pixels)) => Some(WindowIcon { width, height, pixels }),
        Err(_) => None,
    }
}

/// The icon that decoding came to: every image is one, with its size and all of its pixels, and
/// bytes that are no image give none.
pub fn icon_from(decoded: Result<(u32, u32, Vec<u8>), image::ImageError>) -> (r: Option<WindowIcon>)
    ensures
        r == icon_of(decoded),
{
    match decoded {
        Ok((width, height, pixels)) => Some(WindowIcon { width, height, pixels }),
        Err(_) => None,
    }
}

/// The icon of the window, from the bytes of the embedded file: what decoding these bytes comes to.
/// There is none where the file is missing or is no image; the window does without.
pub fn load_window_icon(asset: Option<Vec<u8>>) -> (r: Option<WindowIcon>)
    ensures
        asset is None ==> r is None,
        asset matches Some(bytes) ==> exists|decoded: Result<(u32, u32, Vec<u8>), image::ImageError>|
            #[trigger] decodes_to(bytes, decoded) && r == icon_of(decoded),
        r matches Some(i) ==> 4 * i.width * i.height <= i.pixels@.len(),
{
    match asset {
        Some(bytes) => {
            let decoded = decode_rgba8(&bytes);
            assert(decodes_to(bytes, decoded));
            icon_from(decoded)
        },
        None => None,
    }
}

/// Every pixel is shown where it stands: the byte in column `col` of row `row` of the picture is the
/// one that the decoder wrote there, whatever lies between its rows.
pub proof fn law_pixels_stay_where_they_are(frame: DecodedFrame, row: int, col: int)
    requires
        frame.fills_picture(),
        frame.rows_inside(),
        0 <= row < frame.height,
        0 <= col < frame.width * 4,
    ensures
        0 <= row * (frame.width * 4) + col < frame.tight().len(),
        frame.tight()[row * (frame.width * 4) + col] == frame.data@[row * frame.stride + col],
{
    let w = frame.width * 4;
    crate::player_core::frame::law_tight_rows_keep_pixels(
        frame.data@,
        frame.stride as int,
        w,
        frame.height as nat,
        row,
        col,
    );
    if frame.stride == w {
        let h = frame.height as int;
        assert(row * w + w <= h * w) by (nonlinear_arith)
            requires
                row + 1 <= h,
                w >= 0,
        ;
        assert(4 * frame.width * h == h * w) by (nonlinear_arith)
            requires
                w == frame.width * 4,
        ;
    }
}

/// A picture can be shown exactly where all its rows lie inside the data, the padding of the last one
/// left out.
pub proof fn law_which_frames_can_be_shown(frame: DecodedFrame)
    requires
        frame.width * 4 <= usize::MAX,
        frame.height > 0,
    ensures
        frame.fills_picture() <==> (frame.height - 1) * frame.stride + frame.width * 4
            <= frame.data@.len(),
        frame.fills_picture() ==> frame.rows_inside(),
{
    let h = frame.height as int;
    let w = frame.width * 4;
    if frame.stride == w {
        assert(4 * frame.width * h == (h - 1) * w + w) by (nonlinear_arith)
            requires
                w == frame.width * 4,
        ;
    }
}

/// The icon has the size and the pixels that decoding came to; without an image there is none.
pub proof fn law_icon_is_the_image(
    width: u32,
    height: u32,
    pixels: Vec<u8>,
    error: image::ImageError,
)
    ensures
        icon_of(Ok((width, height, pixels))) is Some,
        icon_of(Ok((width, height, pixels)))->0.width == width,
        icon_of(Ok((width, height, pixels)))->0.height == height,
        icon_of(Ok((width, height, pixels)))->0.pixels == pixels,
        icon_of(Err(error)) is None,
{
}

/// What decoding came to belongs to the very bytes that were given.
proof fn law_decoding_is_of_these_bytes(
    bytes: Vec<u8>,
    decoded: Result<(u32, u32, Vec<u8>), image::ImageError>,
)
    ensures
        decodes_to(bytes, decoded) <==> call_ensures(decode_rgba8, (&bytes,), decoded),
{
}

} // verus!
