use std::time::{Duration, Instant};

use webp_anim::frame::WebpVideo;
use webp_anim::pacing::RemoteControl;
use webp_anim::player::FramePlayer;
use webp_anim::registry::{FramePoll, WebpAnimator, DEFAULT_PREPARED_FRAMES_COUNT};

/// A solid `w` x `h` RGBA buffer of one color.
fn solid(w: u32, h: u32, rgba: [u8; 4]) -> Vec<u8> {
    let mut out = Vec::new();
    for _ in 0..(w * h) {
        out.extend_from_slice(&rgba);
    }
    out
}

/// Lossless-encode one RGBA frame and return the raw VP8L chunk payload.
fn vp8l_payload(w: u32, h: u32, rgba: &[u8]) -> Vec<u8> {
    let mut out = Vec::new();
    image::codecs::webp::WebPEncoder::new_lossless(&mut out)
        .encode(rgba, w, h, image::ColorType::Rgba8)
        .unwrap();
    assert_eq!(&out[12..16], b"VP8L");
    let len = u32::from_le_bytes([out[16], out[17], out[18], out[19]]) as usize;
    out[20..20 + len].to_vec()
}

/// A static (single-image, non-animated) lossless webp file.
fn static_webp(w: u32, h: u32, rgba: &[u8]) -> Vec<u8> {
    let mut out = Vec::new();
    image::codecs::webp::WebPEncoder::new_lossless(&mut out)
        .encode(rgba, w, h, image::ColorType::Rgba8)
        .unwrap();
    out
}

fn le24(v: u32) -> [u8; 3] {
    [(v & 0xff) as u8, ((v >> 8) & 0xff) as u8, ((v >> 16) & 0xff) as u8]
}

/// Assemble an animated webp container holding the given full-canvas frames.
fn animated_webp(w: u32, h: u32, frames: &[Vec<u8>]) -> Vec<u8> {
    let mut body: Vec<u8> = Vec::new();
    body.extend_from_slice(b"WEBP");
    body.extend_from_slice(b"VP8X");
    body.extend_from_slice(&10u32.to_le_bytes());
    body.push(0x02); // animation flag
    body.extend_from_slice(&[0, 0, 0]);
    body.extend_from_slice(&le24(w - 1));
    body.extend_from_slice(&le24(h - 1));
    body.extend_from_slice(b"ANIM");
    body.extend_from_slice(&6u32.to_le_bytes());
    body.extend_from_slice(&[0, 0, 0, 255]); // background color
    body.extend_from_slice(&0u16.to_le_bytes()); // loop count
    for rgba in frames {
        let data = vp8l_payload(w, h, rgba);
        let mut inner: Vec<u8> = Vec::new();
        inner.extend_from_slice(&le24(0)); // frame x / 2
        inner.extend_from_slice(&le24(0)); // frame y / 2
        inner.extend_from_slice(&le24(w - 1));
        inner.extend_from_slice(&le24(h - 1));
        inner.extend_from_slice(&le24(40)); // duration, ignored by replay
        inner.push(0b10); // no alpha blending, no dispose
        inner.extend_from_slice(b"VP8L");
        inner.extend_from_slice(&(data.len() as u32).to_le_bytes());
        inner.extend_from_slice(&data);
        if data.len() % 2 == 1 {
            inner.push(0);
        }
        body.extend_from_slice(b"ANMF");
        body.extend_from_slice(&(inner.len() as u32).to_le_bytes());
        body.extend_from_slice(&inner);
    }
    let mut out: Vec<u8> = Vec::new();
    out.extend_from_slice(b"RIFF");
    out.extend_from_slice(&(body.len() as u32).to_le_bytes());
    out.extend_from_slice(&body);
    out
}

const COLORS: [[u8; 4]; 4] = [
    [200, 10, 10, 255],
    [10, 200, 10, 255],
    [10, 10, 200, 255],
    [100, 100, 100, 255],
];

fn four_frame_video(label: &str) -> WebpVideo {
    let frames: Vec<Vec<u8>> = COLORS.iter().map(|c| solid(2, 2, *c)).collect();
    WebpVideo { bytes: animated_webp(2, 2, &frames), label: label.to_string() }
}

/// Poll, ignoring `Empty`, until a frame comes; panic on anything terminal.
fn next_ready(animator: &mut WebpAnimator<u32>, rc: &RemoteControl) -> Vec<u8> {
    let deadline = Instant::now() + Duration::from_secs(10);
    while Instant::now() < deadline {
        match animator.try_next_frame_for(rc) {
            FramePoll::Ready(frame) => {
                assert_eq!(frame.width, 2);
                assert_eq!(frame.height, 2);
                return frame.pixels;
            }
            FramePoll::Empty => {}
            FramePoll::NotRegistered => panic!("registered video polled as NotRegistered"),
            FramePoll::Closed => panic!("live video polled as Closed"),
        }
    }
    panic!("no frame arrived in time");
}

#[test]
fn decoded_frames_replay_cyclically() {
    let video = four_frame_video("cyclic");
    let mut player = FramePlayer::from_video(&video).expect("valid animation decodes");
    for _ in 0..3 {
        for color in COLORS {
            let frame = player.next_frame();
            assert_eq!(frame.width, 2);
            assert_eq!(frame.height, 2);
            assert_eq!(frame.pixels, solid(2, 2, color));
        }
    }
}

#[test]
fn corrupted_bytes_make_no_player() {
    let video = WebpVideo { bytes: vec![0x52, 0x49, 0x46, 0x46, 1, 2, 3], label: "bad".to_string() };
    assert!(FramePlayer::from_video(&video).is_none());
}

#[test]
fn truncated_animation_makes_no_player() {
    let mut bytes = four_frame_video("cut").bytes;
    bytes.truncate(40);
    let video = WebpVideo { bytes, label: "cut".to_string() };
    assert!(FramePlayer::from_video(&video).is_none());
}

#[test]
fn static_image_makes_no_player() {
    let video = WebpVideo {
        bytes: static_webp(2, 2, &solid(2, 2, COLORS[0])),
        label: "static".to_string(),
    };
    assert!(FramePlayer::from_video(&video).is_none());
}

#[test]
fn unknown_identity_polls_not_registered() {
    let mut animator = WebpAnimator::<u32>::new(2);
    let rc = RemoteControl::new(24);
    for _ in 0..5 {
        assert!(matches!(animator.try_next_frame_for(&rc), FramePoll::NotRegistered));
    }
}

#[test]
fn registering_one_video_leaves_other_handles_unregistered() {
    let mut animator = WebpAnimator::<u32>::new(2);
    let _rc = animator.add_already_loaded(four_frame_video("one"), 24);
    let other = RemoteControl::new(24);
    assert!(matches!(animator.try_next_frame_for(&other), FramePoll::NotRegistered));
}

#[test]
fn default_buffer_bound() {
    let animator: WebpAnimator<u8> = Default::default();
    assert_eq!(animator.prepared_frames_count, 16);
    assert_eq!(animator.prepared_frames_count, DEFAULT_PREPARED_FRAMES_COUNT);
}

#[test]
fn four_frames_capacity_two_paced_consumer() {
    let mut animator = WebpAnimator::<u32>::new(2);
    let mut rc = animator.add_already_loaded(four_frame_video("paced"), 1000);
    let mut got: Vec<Vec<u8>> = Vec::new();
    let deadline = Instant::now() + Duration::from_secs(10);
    while got.len() < 12 && Instant::now() < deadline {
        // one simulated host tick of half a pacing interval
        if rc.fps_tracker.tick(500) {
            match animator.try_next_frame_for(&rc) {
                FramePoll::Ready(frame) => got.push(frame.pixels),
                FramePoll::Empty => {}
                FramePoll::NotRegistered => panic!("registered video polled as NotRegistered"),
                FramePoll::Closed => panic!("live video polled as Closed"),
            }
        }
    }
    assert_eq!(got.len(), 12, "three full periods should arrive in time");
    for (i, pixels) in got.iter().enumerate() {
        assert_eq!(pixels, &solid(2, 2, COLORS[i % 4]), "frame {i} out of order");
    }
}

#[test]
fn capacity_one_still_delivers_in_order() {
    let mut animator = WebpAnimator::<u32>::new(1);
    let rc = animator.add_already_loaded(four_frame_video("tight"), 24);
    for i in 0..8 {
        let pixels = next_ready(&mut animator, &rc);
        assert_eq!(pixels, solid(2, 2, COLORS[i % 4]), "frame {i} out of order");
    }
}

#[test]
fn changing_fps_leaves_frame_content_alone() {
    let mut animator = WebpAnimator::<u32>::new(2);
    let mut rc = animator.add_already_loaded(four_frame_video("refps"), 24);
    let first = next_ready(&mut animator, &rc);
    let second = next_ready(&mut animator, &rc);
    rc.set_fps(60);
    let third = next_ready(&mut animator, &rc);
    let fourth = next_ready(&mut animator, &rc);
    assert_eq!(first, solid(2, 2, COLORS[0]));
    assert_eq!(second, solid(2, 2, COLORS[1]));
    assert_eq!(third, solid(2, 2, COLORS[2]));
    assert_eq!(fourth, solid(2, 2, COLORS[3]));
}

#[test]
fn corrupted_source_polls_closed_never_ready() {
    let mut animator = WebpAnimator::<u32>::new(2);
    let video = WebpVideo { bytes: b"not a webp at all".to_vec(), label: "garbage".to_string() };
    let rc = animator.add_already_loaded(video, 24);
    let deadline = Instant::now() + Duration::from_secs(10);
    loop {
        match animator.try_next_frame_for(&rc) {
            FramePoll::Ready(_) => panic!("a corrupted source must never yield a frame"),
            FramePoll::NotRegistered => panic!("registered video polled as NotRegistered"),
            FramePoll::Empty => {
                if Instant::now() >= deadline {
                    panic!("poll never became Closed");
                }
            }
            FramePoll::Closed => break,
        }
    }
    // closure is permanent
    for _ in 0..5 {
        assert!(matches!(animator.try_next_frame_for(&rc), FramePoll::Closed));
    }
}

#[test]
fn pending_promotes_to_ready() {
    let mut animator = WebpAnimator::<u32>::new(2);
    let rc = animator.add_and_wait_for_asset_load(77u32, 24);
    assert!(matches!(animator.try_next_frame_for(&rc), FramePoll::NotRegistered));
    assert_eq!(animator.pending_sources().len(), 1);
    assert_eq!(animator.pending_sources()[0].0, rc.id);
    assert_eq!(animator.pending_sources()[0].1, 77u32);

    // the source has not resolved yet: the entry is retained, polls stay pending
    animator.promote_ready_pending(vec![None]);
    assert_eq!(animator.pending_sources().len(), 1);
    assert!(matches!(animator.try_next_frame_for(&rc), FramePoll::NotRegistered));

    // now it resolves: the entry leaves the queue and frames start arriving
    animator.promote_ready_pending(vec![Some(four_frame_video("promoted"))]);
    assert_eq!(animator.pending_sources().len(), 0);
    let pixels = next_ready(&mut animator, &rc);
    assert_eq!(pixels, solid(2, 2, COLORS[0]));
}

#[test]
fn promotion_keeps_unresolved_order() {
    let mut animator = WebpAnimator::<u32>::new(2);
    let rc_a = animator.add_and_wait_for_asset_load(1u32, 24);
    let rc_b = animator.add_and_wait_for_asset_load(2u32, 24);
    let rc_c = animator.add_and_wait_for_asset_load(3u32, 24);
    animator.promote_ready_pending(vec![None, Some(four_frame_video("middle")), None]);
    let pending = animator.pending_sources();
    assert_eq!(pending.len(), 2);
    assert_eq!(pending[0].0, rc_a.id);
    assert_eq!(pending[1].0, rc_c.id);
    assert!(matches!(animator.try_next_frame_for(&rc_a), FramePoll::NotRegistered));
    assert!(matches!(animator.try_next_frame_for(&rc_c), FramePoll::NotRegistered));
    let pixels = next_ready(&mut animator, &rc_b);
    assert_eq!(pixels, solid(2, 2, COLORS[0]));
}

#[test]
fn host_supplied_runtime_works() {
    let runtime =
        tokio::runtime::Builder::new_multi_thread().worker_threads(1).build().unwrap();
    let mut animator = WebpAnimator::<u32>::new_with_runtime(2, runtime);
    let rc = animator.add_already_loaded(four_frame_video("own_rt"), 24);
    let pixels = next_ready(&mut animator, &rc);
    assert_eq!(pixels, solid(2, 2, COLORS[0]));
}
