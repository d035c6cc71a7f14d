use aa_player::player_app::render_image::{decoded_to_render_image, icon_from, load_window_icon};
use aa_player::player_core::frame::{stream_duration, AudioChunk, DecodedFrame, Rational};
use aa_player::time::Duration;

fn frame(width: u32, height: u32, stride: usize) -> DecodedFrame {
    DecodedFrame {
        data: (0..stride * height as usize).map(|i| i as u8).collect(),
        stride,
        width,
        height,
        pts: Duration::zero(),
    }
}

#[test]
fn rows_lose_their_padding() {
    let f = frame(2, 3, 12);
    assert_eq!(f.row_offset(2), 24);
    assert_eq!(
        f.to_tight_bgra(),
        vec![
            0, 1, 2, 3, 4, 5, 6, 7, 12, 13, 14, 15, 16, 17, 18, 19, 24, 25, 26, 27, 28, 29, 30, 31
        ]
    );
}

#[test]
fn tight_rows_stay_as_they_are() {
    let f = frame(2, 3, 8);
    assert_eq!(f.to_tight_bgra(), f.data);
    assert_eq!(f.to_tight_bgra().len(), 24);
}

#[test]
fn last_row_needs_no_padding() {
    let mut f = frame(1, 2, 16);
    f.data.truncate(20);
    assert_eq!(f.to_tight_bgra(), vec![0, 1, 2, 3, 16, 17, 18, 19]);
    let empty = frame(1, 0, 16);
    assert_eq!(empty.to_tight_bgra(), Vec::<u8>::new());
}

#[test]
fn frames_become_images_of_their_size() {
    let f = frame(2, 3, 12);
    let image = decoded_to_render_image(&f);
    assert_eq!(image.buffer().dimensions(), (2, 3));
    assert_eq!(image.buffer().as_raw(), &f.to_tight_bgra());
    assert_eq!(image.buffer().get_pixel(1, 2).0, [28, 29, 30, 31]);
    assert_eq!((image.left(), image.top()), (0, 0));
}

#[test]
fn frames_with_too_few_bytes_cannot_be_shown() {
    for stride in [8, 12] {
        let mut f = frame(2, 3, stride);
        assert!(f.can_be_shown());
        f.data.truncate(2 * stride + 8);
        assert!(f.can_be_shown());
        f.data.truncate(2 * stride + 7);
        assert!(!f.can_be_shown());
    }
    assert!(frame(2, 0, 0).can_be_shown());
    let huge = DecodedFrame {
        width: u32::MAX,
        height: u32::MAX,
        stride: usize::MAX,
        ..frame(0, 0, 0)
    };
    assert!(!huge.can_be_shown());
}

#[test]
fn icons_are_decoded_or_missing() {
    assert!(load_window_icon(None).is_none());
    assert!(load_window_icon(Some(vec![1, 2, 3])).is_none());
    // A bitmap of two by one pixels: red and blue.
    let mut bmp: Vec<u8> = Vec::new();
    bmp.extend_from_slice(b"BM");
    bmp.extend_from_slice(&62u32.to_le_bytes());
    bmp.extend_from_slice(&0u32.to_le_bytes());
    bmp.extend_from_slice(&54u32.to_le_bytes());
    bmp.extend_from_slice(&40u32.to_le_bytes());
    bmp.extend_from_slice(&2i32.to_le_bytes());
    bmp.extend_from_slice(&1i32.to_le_bytes());
    bmp.extend_from_slice(&1u16.to_le_bytes());
    bmp.extend_from_slice(&24u16.to_le_bytes());
    bmp.extend_from_slice(&[0u8; 24]);
    bmp.extend_from_slice(&[0, 0, 255, 255, 0, 0, 0, 0]);
    let icon = load_window_icon(Some(bmp)).expect("an icon");
    assert_eq!((icon.width, icon.height), (2, 1));
    assert_eq!(icon.pixels, vec![255, 0, 0, 255, 0, 0, 255, 255]);
}

#[test]
fn every_decoded_image_is_an_icon() {
    let icon = icon_from(Ok((1, 2, vec![1, 2, 3, 4, 5, 6, 7, 8]))).expect("an icon");
    assert_eq!((icon.width, icon.height), (1, 2));
    assert_eq!(icon.pixels, vec![1, 2, 3, 4, 5, 6, 7, 8]);
    let error = image::load_from_memory(&[1, 2, 3]).expect_err("no image");
    assert!(icon_from(Err(error)).is_none());
}

#[test]
fn chunks_are_measured() {
    let c = AudioChunk {
        samples: vec![0u8; 2048],
        channels: 2,
        sample_rate: 48_000,
        pts: Duration::zero(),
    };
    assert_eq!(c.frames(), 1024);
    assert_eq!(c.duration(), Duration::from_nanos(21_333_333));
    let odd = AudioChunk {
        samples: vec![0u8; 3],
        channels: 0,
        sample_rate: 0,
        pts: Duration::zero(),
    };
    assert_eq!(odd.frames(), 3);
    assert_eq!(odd.duration(), Duration::from_secs(3));
}

#[test]
fn lengths_come_from_time_bases() {
    let ms = Rational { num: 1, den: 1000 };
    assert_eq!(stream_duration(1500, ms), Duration::from_millis(1500));
    assert_eq!(stream_duration(-1500, ms), Duration::from_millis(1500));
    let third = Rational { num: 1, den: 3 };
    assert_eq!(stream_duration(2, third), Duration::from_nanos(666_666_667));
    assert_eq!(
        stream_duration(i64::MIN, Rational { num: 1, den: i32::MAX }),
        Duration::from_nanos(4_294_967_298_000_000_001)
    );
    assert!(third.is_positive());
    assert!(!Rational { num: 0, den: 3 }.is_positive());
    assert!(!Rational { num: 1, den: -3 }.is_positive());
    assert_eq!(Rational { num: i32::MIN, den: -1 }.sizes(), (0x8000_0000, 1));
}
