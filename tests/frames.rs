use gifcap::assemble::{create_gif, encode_gif, AnimatedImage};
use gifcap::convert::{convert_frame, convert_frames, Bgr, NormalizedImage, RawFrame, Rgba};
use gifcap::error::CaptureError;
use gifcap::pipeline::render_animation;
use gifcap::sampler::{FrameSampler, SampleAction, SamplerPhase};

fn bgr(b: u8, g: u8, r: u8) -> Bgr {
    Bgr { b, g, r }
}

fn one_pixel_frame(p: Bgr) -> RawFrame {
    RawFrame { width: 1, height: 1, pixels: vec![p] }
}

fn solid_image(w: u32, h: u32, p: Rgba) -> NormalizedImage {
    NormalizedImage { width: w, height: h, pixels: vec![p; (w * h) as usize] }
}

/// Counts graphic control extensions whose delay is `centis` hundredths.
fn count_delay_blocks(bytes: &[u8], centis: u8) -> usize {
    bytes.windows(6).filter(|w| w[0] == 0x21 && w[1] == 0xF9 && w[2] == 4 && w[4] == centis && w[5] == 0).count()
}

#[test]
fn zero_duration_still_captures_one_frame() {
    let mut s = FrameSampler::new(0, 10);
    assert_eq!(s.next_action(), SampleAction::CaptureFrame);
    s.on_captured(Some(one_pixel_frame(bgr(1, 2, 3))));
    assert_eq!(s.next_action(), SampleAction::Sleep { millis: 100 });
    s.on_slept(100);
    assert_eq!(s.phase(), SamplerPhase::Finished);
    assert_eq!(s.next_action(), SampleAction::Stop);
    let frames = s.into_frames().unwrap();
    assert_eq!(frames.len(), 1);
    assert_eq!(frames[0].pixels, vec![bgr(1, 2, 3)]);
}

#[test]
fn sampler_keeps_capturing_until_duration_exceeded() {
    let mut s = FrameSampler::new(2, 4);
    let mut elapsed = 0u64;
    let mut captured = 0u8;
    loop {
        match s.next_action() {
            SampleAction::CaptureFrame => {
                s.on_captured(Some(one_pixel_frame(bgr(captured, 0, 0))));
                captured += 1;
            }
            SampleAction::Sleep { millis } => {
                assert_eq!(millis, 250);
                elapsed += 900;
                s.on_slept(elapsed);
            }
            SampleAction::Stop => break,
        }
    }
    let frames = s.into_frames().unwrap();
    assert_eq!(frames.len(), 3);
    for (i, f) in frames.iter().enumerate() {
        assert_eq!(f.pixels[0].b, i as u8);
    }
}

#[test]
fn sampler_stops_just_after_duration() {
    let mut s = FrameSampler::new(1, 10);
    s.on_captured(Some(one_pixel_frame(bgr(0, 0, 0))));
    s.on_slept(1000);
    assert_eq!(s.phase(), SamplerPhase::Capturing);
    s.on_captured(Some(one_pixel_frame(bgr(0, 0, 0))));
    s.on_slept(1001);
    assert_eq!(s.phase(), SamplerPhase::Finished);
    assert_eq!(s.into_frames().unwrap().len(), 2);
}

#[test]
fn sampler_handles_largest_times() {
    let mut s = FrameSampler::new(u64::MAX, 1);
    assert_eq!(s.next_action(), SampleAction::CaptureFrame);
    s.on_captured(Some(one_pixel_frame(bgr(0, 0, 0))));
    assert_eq!(s.next_action(), SampleAction::Sleep { millis: 1000 });
    s.on_slept(u64::MAX);
    assert_eq!(s.phase(), SamplerPhase::Capturing);
}

#[test]
fn failure_on_third_capture_discards_frames() {
    let mut s = FrameSampler::new(10, 10);
    s.on_captured(Some(one_pixel_frame(bgr(0, 0, 0))));
    s.on_slept(100);
    s.on_captured(Some(one_pixel_frame(bgr(1, 1, 1))));
    s.on_slept(200);
    s.on_captured(None);
    assert_eq!(s.phase(), SamplerPhase::Failed { index: 2 });
    assert_eq!(s.next_action(), SampleAction::Stop);
    assert!(matches!(s.into_frames(), Err(CaptureError::FrameCaptureFailed { index: 2 })));
}

#[test]
fn failure_on_first_capture_has_index_zero() {
    let mut s = FrameSampler::new(3, 10);
    s.on_captured(None);
    assert!(matches!(s.into_frames(), Err(CaptureError::FrameCaptureFailed { index: 0 })));
}

#[test]
fn convert_two_by_two_frame() {
    let c = [bgr(1, 2, 3), bgr(4, 5, 6), bgr(7, 8, 9), bgr(10, 11, 12)];
    let frame = RawFrame { width: 2, height: 2, pixels: c.to_vec() };
    let img = convert_frame(&frame);
    assert_eq!(img.width, 2);
    assert_eq!(img.height, 2);
    let at = |x: usize, y: usize| img.pixels[y * 2 + x];
    assert_eq!(at(0, 0), Rgba { r: 3, g: 2, b: 1, a: 255 });
    assert_eq!(at(1, 0), Rgba { r: 6, g: 5, b: 4, a: 255 });
    assert_eq!(at(0, 1), Rgba { r: 9, g: 8, b: 7, a: 255 });
    assert_eq!(at(1, 1), Rgba { r: 12, g: 11, b: 10, a: 255 });
    assert!(img.pixels.iter().all(|p| p.a == 255));
}

#[test]
fn convert_empty_frame() {
    let img = convert_frame(&RawFrame { width: 0, height: 5, pixels: vec![] });
    assert_eq!((img.width, img.height), (0, 5));
    assert!(img.pixels.is_empty());
}

#[test]
fn convert_frames_keeps_order() {
    let frames = vec![one_pixel_frame(bgr(1, 0, 0)), one_pixel_frame(bgr(2, 0, 0))];
    let imgs = convert_frames(&frames);
    assert_eq!(imgs.len(), 2);
    assert_eq!(imgs[0].pixels[0].b, 1);
    assert_eq!(imgs[1].pixels[0].b, 2);
}

#[test]
fn assemble_three_identical_frames() {
    let p = Rgba { r: 200, g: 40, b: 90, a: 255 };
    let frames = vec![solid_image(1, 1, p), solid_image(1, 1, p), solid_image(1, 1, p)];
    let anim: AnimatedImage = create_gif(&frames, 10).unwrap();
    assert_eq!(anim.delay_millis, 100);
    assert_eq!((anim.width, anim.height), (1, 1));
    assert_eq!(anim.frames.len(), 3);
    assert_eq!(anim.palette.len(), 768);
    assert!(anim.frames.iter().all(|f| f.len() == 1 && f[0] == anim.frames[0][0]));
    assert_eq!(anim.transparency, None);
    let bytes = encode_gif(&anim).unwrap();
    assert_eq!(&bytes[..6], b"GIF89a");
    assert_eq!(count_delay_blocks(&bytes, 10), 3);
    assert_eq!(*bytes.last().unwrap(), 0x3B);
}

#[test]
fn assemble_delay_follows_frame_rate() {
    let p = Rgba { r: 1, g: 2, b: 3, a: 255 };
    let anim = create_gif(&vec![solid_image(2, 3, p)], 4).unwrap();
    assert_eq!(anim.delay_millis, 250);
    assert_eq!((anim.width, anim.height), (2, 3));
    assert_eq!(anim.frames[0].len(), 6);
}

#[test]
fn assemble_equal_pixels_share_an_index() {
    let a = Rgba { r: 10, g: 200, b: 30, a: 255 };
    let b = Rgba { r: 250, g: 5, b: 5, a: 255 };
    let f1 = NormalizedImage { width: 2, height: 1, pixels: vec![a, b] };
    let f2 = NormalizedImage { width: 2, height: 1, pixels: vec![b, a] };
    let anim = create_gif(&vec![f1, f2], 10).unwrap();
    assert_eq!(anim.frames[0][0], anim.frames[1][1]);
    assert_eq!(anim.frames[0][1], anim.frames[1][0]);
}

#[test]
fn assemble_rejects_frames_wider_than_container() {
    let p = Rgba { r: 0, g: 0, b: 0, a: 255 };
    let wide = solid_image(70000, 1, p);
    assert!(matches!(create_gif(&vec![wide], 10), Err(CaptureError::EncodingFailed)));
    let widest = solid_image(65535, 1, p);
    assert_eq!(create_gif(&vec![widest], 10).unwrap().width, 65535);
}

#[test]
fn assemble_empty_sequence_fails() {
    assert!(matches!(create_gif(&vec![], 10), Err(CaptureError::EncodingFailed)));
}

#[test]
fn assemble_mismatched_sizes_fails() {
    let p = Rgba { r: 0, g: 0, b: 0, a: 255 };
    let frames = vec![solid_image(2, 2, p), solid_image(2, 1, p)];
    assert!(matches!(create_gif(&frames, 10), Err(CaptureError::EncodingFailed)));
}

#[test]
fn assemble_short_pixel_buffer_fails() {
    let p = Rgba { r: 0, g: 0, b: 0, a: 255 };
    let bad = NormalizedImage { width: 2, height: 2, pixels: vec![p; 3] };
    assert!(matches!(create_gif(&vec![bad], 10), Err(CaptureError::EncodingFailed)));
}

#[test]
fn encode_rejects_oversized_palette() {
    let anim = AnimatedImage {
        palette: vec![0; 769],
        transparency: None,
        width: 1,
        height: 1,
        frames: vec![vec![0]],
        delay_millis: 100,
    };
    assert!(matches!(encode_gif(&anim), Err(CaptureError::EncodingFailed)));
}

#[test]
fn render_captured_frames() {
    let frames = vec![
        RawFrame { width: 2, height: 1, pixels: vec![bgr(0, 0, 255), bgr(255, 0, 0)] },
        RawFrame { width: 2, height: 1, pixels: vec![bgr(255, 0, 0), bgr(0, 0, 255)] },
    ];
    let bytes = render_animation(&frames, 10).unwrap();
    assert_eq!(&bytes[..6], b"GIF89a");
    assert_eq!(count_delay_blocks(&bytes, 10), 2);
}

#[test]
fn render_rejects_malformed_frames() {
    let bad = vec![RawFrame { width: 2, height: 2, pixels: vec![bgr(0, 0, 0)] }];
    assert!(matches!(render_animation(&bad, 10), Err(CaptureError::EncodingFailed)));
    assert!(matches!(render_animation(&vec![], 10), Err(CaptureError::EncodingFailed)));
}
