use avis::audio::refill_samples;
use avis::geometry::{quad_index_bytes, quad_index_count, quad_indices, QUAD_VERTEX_COUNT};
use avis::render_loop::{
    render_result_action, window_event_action, FrameGate, Key, KeyState, LoopAction,
    RenderAction, RenderFailure, WindowInput, SKIP_SAMPLES,
};
use avis::version::{get_avis_audio_lib_version, get_avis_graphics_lib_version};
use avis::viewport::SurfaceSize;
use avis::window::{fill_window, AUDIO_BUFFER_SIZE};

#[test]
fn versions_are_v0_0_0() {
    assert_eq!(get_avis_audio_lib_version(), "v0.0.0");
    assert_eq!(get_avis_graphics_lib_version(), "v0.0.0");
}

#[test]
fn window_copies_short_audio_and_pads() {
    let mut window = [9i32; 6];
    fill_window(&mut window, &[1, 2, 3], 0);
    assert_eq!(window, [1, 2, 3, 0, 0, 0]);
}

#[test]
fn window_truncates_long_audio() {
    let mut window = [0i32; 4];
    fill_window(&mut window, &[5, 6, 7, 8, 9, 10], -1);
    assert_eq!(window, [5, 6, 7, 8]);
}

#[test]
fn window_of_empty_audio_is_all_fill() {
    let mut window = [3.5f32; 5];
    fill_window(&mut window, &[], 0.0);
    assert_eq!(window, [0.0; 5]);
}

#[test]
fn window_forgets_earlier_contents() {
    let mut window = [0.0f32; AUDIO_BUFFER_SIZE];
    let loud: Vec<f32> = (0..2000).map(|i| i as f32).collect();
    fill_window(&mut window, &loud, 0.0);
    assert_eq!(window[AUDIO_BUFFER_SIZE - 1], (AUDIO_BUFFER_SIZE - 1) as f32);
    fill_window(&mut window, &[0.25, 0.5], 0.0);
    assert_eq!(window[0], 0.25);
    assert_eq!(window[1], 0.5);
    assert!(window[2..].iter().all(|x| *x == 0.0));
}

#[test]
fn window_exact_fit() {
    let mut window = [0u8; 3];
    fill_window(&mut window, &[4, 5, 6], 1);
    assert_eq!(window, [4, 5, 6]);
}

#[test]
fn audio_buffer_size_is_1024() {
    assert_eq!(AUDIO_BUFFER_SIZE, 1024);
}

#[test]
fn refill_replaces_buffer_with_converted_samples() {
    let mut buffer: Vec<f32> = vec![7.0, 7.0, 7.0, 7.0, 7.0];
    let samples: [i16; 3] = [0, i16::MAX, i16::MIN];
    refill_samples(&samples, &mut buffer, |s: &i16| *s as f32 / 32768.0);
    assert_eq!(buffer.len(), 3);
    assert_eq!(buffer[0], 0.0);
    assert!((buffer[1] - 32767.0 / 32768.0).abs() < 1e-6);
    assert_eq!(buffer[2], -1.0);
}

#[test]
fn refill_with_no_samples_empties_buffer() {
    let mut buffer: Vec<u32> = vec![1, 2, 3];
    refill_samples(&[], &mut buffer, |s: &u16| *s as u32);
    assert!(buffer.is_empty());
}

#[test]
fn gate_renders_every_fourth_batch() {
    assert_eq!(SKIP_SAMPLES, 3);
    let mut gate = FrameGate::new();
    let mut rendered = Vec::new();
    for _ in 0..12 {
        rendered.push(gate.on_audio_frame());
        assert!(gate.skipped() <= SKIP_SAMPLES);
    }
    assert_eq!(
        rendered,
        vec![false, false, false, true, false, false, false, true, false, false, false, true]
    );
}

#[test]
fn gate_counts_skipped_batches() {
    let mut gate = FrameGate::new();
    assert_eq!(gate.skipped(), 0);
    gate.on_audio_frame();
    gate.on_audio_frame();
    assert_eq!(gate.skipped(), 2);
    gate.on_audio_frame();
    assert!(gate.on_audio_frame());
    assert_eq!(gate.skipped(), 0);
}

#[test]
fn close_request_exits() {
    assert_eq!(window_event_action(&WindowInput::CloseRequested, false), LoopAction::Exit);
}

#[test]
fn escape_press_exits() {
    let ev = WindowInput::KeyboardInput { state: KeyState::Pressed, key: Some(Key::Escape) };
    assert_eq!(window_event_action(&ev, false), LoopAction::Exit);
}

#[test]
fn escape_release_and_other_keys_continue() {
    let released = WindowInput::KeyboardInput { state: KeyState::Released, key: Some(Key::Escape) };
    let other = WindowInput::KeyboardInput { state: KeyState::Pressed, key: Some(Key::Other) };
    let unknown = WindowInput::KeyboardInput { state: KeyState::Pressed, key: None };
    assert_eq!(window_event_action(&released, false), LoopAction::Continue);
    assert_eq!(window_event_action(&other, false), LoopAction::Continue);
    assert_eq!(window_event_action(&unknown, false), LoopAction::Continue);
    assert_eq!(window_event_action(&WindowInput::Other, false), LoopAction::Continue);
}

#[test]
fn consumed_events_never_exit() {
    assert_eq!(window_event_action(&WindowInput::CloseRequested, true), LoopAction::Continue);
}

#[test]
fn render_outcomes() {
    assert_eq!(render_result_action(Ok(())), RenderAction::Continue);
    assert_eq!(render_result_action(Err(RenderFailure::Lost)), RenderAction::Reconfigure);
    assert_eq!(render_result_action(Err(RenderFailure::OutOfMemory)), RenderAction::Exit);
    assert_eq!(render_result_action(Err(RenderFailure::Timeout)), RenderAction::Report);
    assert_eq!(render_result_action(Err(RenderFailure::Outdated)), RenderAction::Report);
}

#[test]
fn resize_accepts_drawable_size() {
    let mut size = SurfaceSize::new(800, 600);
    assert!(size.resize(SurfaceSize::new(1024, 768)));
    assert_eq!(size, SurfaceSize::new(1024, 768));
}

#[test]
fn resize_ignores_zero_sides() {
    let mut size = SurfaceSize::new(800, 600);
    assert!(!size.resize(SurfaceSize::new(0, 768)));
    assert!(!size.resize(SurfaceSize::new(1024, 0)));
    assert!(!size.resize(SurfaceSize::new(0, 0)));
    assert_eq!(size, SurfaceSize::new(800, 600));
}

#[test]
fn resize_twice_is_resize_once() {
    let mut once = SurfaceSize::new(10, 10);
    let mut twice = SurfaceSize::new(10, 10);
    once.resize(SurfaceSize::new(30, 40));
    twice.resize(SurfaceSize::new(30, 40));
    twice.resize(SurfaceSize::new(30, 40));
    assert_eq!(once, twice);
}

#[test]
fn quad_indices_are_two_triangles() {
    assert_eq!(quad_indices(), vec![2, 1, 0, 3, 2, 0]);
    assert_eq!(quad_index_count(), 6);
    assert!(quad_indices().iter().all(|i| *i < QUAD_VERTEX_COUNT));
    for v in 0..QUAD_VERTEX_COUNT {
        assert!(quad_indices().contains(&v));
    }
}

#[test]
fn quad_index_bytes_hold_the_indices() {
    let bytes = quad_index_bytes();
    assert_eq!(bytes.len(), 12);
    let decoded: Vec<u16> =
        bytes.chunks(2).map(|c| u16::from_ne_bytes([c[0], c[1]])).collect();
    assert_eq!(decoded, vec![2, 1, 0, 3, 2, 0]);
}
