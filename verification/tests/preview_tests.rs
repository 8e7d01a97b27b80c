use yt_spout_syphon_bridge::preview::{
    encode_preview, ControlChannel, PreviewHandle, RateLimiter, RenderCommand,
    PREVIEW_INTERVAL_MS,
};
use yt_spout_syphon_bridge::pump::Dims;
use yt_spout_syphon_bridge::surface::{preview_dims, FrameSurface, PreviewSurface, PREVIEW_WIDTH};

#[test]
fn rate_limiter_emits_at_most_duration_over_interval_plus_one() {
    // A pump ticking every 16 ms for one second offers the relay 63
    // chances; the ceiling is 992 / 66 + 1 = 16 emissions.
    let mut rl = RateLimiter::new(PREVIEW_INTERVAL_MS);
    let mut emitted = 0u64;
    let mut last: Option<u64> = None;
    for tick in 0..63u64 {
        let now = tick * 16;
        if rl.note_tick(now) {
            emitted += 1;
            if let Some(prev) = last {
                assert!(now - prev >= PREVIEW_INTERVAL_MS);
            }
            last = Some(now);
        }
    }
    assert!(emitted <= 992 / PREVIEW_INTERVAL_MS + 1);
    assert!(emitted >= 1);
}

#[test]
fn rate_limiter_waits_a_full_interval() {
    let mut rl = RateLimiter::new(66);
    assert!(rl.note_tick(1000));
    assert!(!rl.note_tick(1050));
    assert!(!rl.note_tick(1065));
    assert!(rl.note_tick(1066));
    assert!(!rl.note_tick(1070));
}

#[test]
fn encode_preview_produces_standard_base64() {
    let dims = Dims { width: 320, height: 180 };
    let frame = encode_preview(&b"Man".to_vec(), dims);
    assert_eq!(frame.data, "TWFu");
    assert_eq!(frame.width, 320);
    assert_eq!(frame.height, 180);
}

#[test]
fn encode_preview_pads_partial_groups() {
    let dims = Dims { width: 2, height: 1 };
    let frame = encode_preview(&vec![0xFF], dims);
    assert_eq!(frame.data, "/w==");
    let frame = encode_preview(&vec![0xFF, 0x00], dims);
    assert_eq!(frame.data, "/wA=");
    let empty = encode_preview(&Vec::new(), dims);
    assert_eq!(empty.data, "");
}

#[test]
fn preview_dimensions_keep_aspect_ratio() {
    let d = preview_dims(Dims { width: 1280, height: 720 });
    assert_eq!((d.width, d.height), (320, 180));
    let square = preview_dims(Dims { width: 100, height: 100 });
    assert_eq!((square.width, square.height), (320, 320));
    // A pathologically wide source still gets a one-pixel-high preview.
    let wide = preview_dims(Dims { width: 4000, height: 2 });
    assert_eq!((wide.width, wide.height), (320, 1));
}

#[test]
fn preview_surface_is_sized_once_from_the_negotiated_size() {
    let s = PreviewSurface::new(Dims { width: 1920, height: 1080 });
    assert_eq!(s.dims.width, PREVIEW_WIDTH);
    assert_eq!(s.dims.height, 1080 * 320 / 1920);
}

#[test]
fn frame_surface_matches_negotiated_size() {
    let s = FrameSurface::new(Dims { width: 1920, height: 1080 });
    assert_eq!(s.dims, Dims { width: 1920, height: 1080 });
}

#[test]
fn control_channel_delivers_one_stop() {
    let mut chan = ControlChannel::new();
    assert_eq!(chan.try_recv(), None);
    chan.send_stop();
    chan.send_stop();
    assert_eq!(chan.try_recv(), Some(RenderCommand::Stop));
    assert_eq!(chan.try_recv(), None);
}

#[test]
fn preview_handle_stop_is_idempotent() {
    let mut h = PreviewHandle::new();
    h.stop();
    h.stop();
    assert!(h.chan.stop_pending);
}
