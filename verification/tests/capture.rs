use as2p_server::capture::{capture_plan, needs_resampling, CapturePlan, FrameBuffer, FRAME_SAMPLES};

#[test]
fn restart_comes_first() {
    assert_eq!(capture_plan(true, false, 0), CapturePlan::Reinitialize);
    assert_eq!(capture_plan(false, true, 100), CapturePlan::Reinitialize);
    assert_eq!(capture_plan(true, true, 100), CapturePlan::Reinitialize);
}

#[test]
fn silence_after_25_ms() {
    assert_eq!(capture_plan(false, false, 24), CapturePlan::Poll { silence_if_empty: false });
    assert_eq!(capture_plan(false, false, 25), CapturePlan::Poll { silence_if_empty: true });
    assert_eq!(capture_plan(false, false, 1_000), CapturePlan::Poll { silence_if_empty: true });
}

#[test]
fn resampling_unless_48k_stereo() {
    assert!(!needs_resampling(48_000, 2));
    assert!(needs_resampling(44_100, 2));
    assert!(needs_resampling(48_000, 1));
    assert!(needs_resampling(96_000, 6));
}

#[test]
fn frames_are_cut_in_order() {
    let mut buf: FrameBuffer<f32> = FrameBuffer::new();
    assert_eq!(buf.pop_frame(), None);
    buf.push_samples((0..1000).map(|i| i as f32).collect());
    assert_eq!(buf.pop_frame(), None);
    assert_eq!(buf.len(), 1000);
    buf.push_samples((1000..5000).map(|i| i as f32).collect());
    let first = buf.pop_frame().unwrap();
    assert_eq!(first.len(), FRAME_SAMPLES);
    assert_eq!(first[0], 0.0);
    assert_eq!(first[1919], 1919.0);
    let second = buf.pop_frame().unwrap();
    assert_eq!(second[0], 1920.0);
    assert_eq!(buf.pop_frame(), None);
    assert_eq!(buf.len(), 5000 - 2 * 1920);
    buf.clear();
    assert_eq!(buf.len(), 0);
}
