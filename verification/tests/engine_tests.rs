use yape::ButtonState;
use yape::KeyboardKey;
use yape::MouseButton;
use yape::Pixel;
use yape::PixelMode;
use yape::YapeEngine;
use yape::YapeError;
use yape::KEY_COUNT;
use yape::key_index;

fn engine_4x4() -> YapeEngine {
    YapeEngine::construct(4, 4, 2, 2)
}

#[test]
fn construct_initial_state() {
    let e = engine_4x4();
    assert_eq!(e.get_screen_width(), 4);
    assert_eq!(e.get_screen_height(), 4);
    assert_eq!(e.get_fps(), 0);
    assert_eq!(e.get_pixel_blend(), 255);
    assert_eq!(e.get_pixel_mode(), PixelMode::Normal);
    assert_eq!(e.get_mouse_x(), 0);
    assert_eq!(e.get_mouse_y(), 0);
    assert_eq!(e.get_mouse_wheel(), 0);
    assert!(!e.is_window_focused());
    assert!(e.should_continue(true));
    assert_eq!(e.buffer.data.len(), 16);
    for p in &e.buffer.data {
        assert_eq!(*p, Pixel::rbg_a(0, 0, 0, 0));
    }
    for k in [KeyboardKey::A, KeyboardKey::Escape, KeyboardKey::Space] {
        assert_eq!(e.get_key_state(&k), ButtonState::empty());
    }
    for b in [MouseButton::Left, MouseButton::Middle, MouseButton::Right] {
        assert_eq!(e.get_mouse_button_state(&b), ButtonState::empty());
    }
}

#[test]
fn mouse_position_scales_to_cells() {
    let mut e = engine_4x4();
    e.set_mouse_position(7, 5);
    assert_eq!(e.get_mouse_x(), 3);
    assert_eq!(e.get_mouse_y(), 2);
}

#[test]
fn wheel_delta_resets_at_end_of_frame() {
    let mut e = engine_4x4();
    e.set_mouse_wheel(3);
    assert_eq!(e.get_mouse_wheel(), 3);
    e.end_frame(1000);
    assert_eq!(e.get_mouse_wheel(), 0);
}

#[test]
fn window_focus_is_recorded() {
    let mut e = engine_4x4();
    e.set_window_active(true);
    assert!(e.is_window_focused());
    e.set_window_active(false);
    assert!(!e.is_window_focused());
}

#[test]
fn mouse_button_edges() {
    let mut e = engine_4x4();
    e.update_mouse_buttons(true, false, false);
    let l = e.get_mouse_button_state(&MouseButton::Left);
    assert!(l.pressed && l.held && !l.released);
    assert_eq!(e.get_mouse_button_state(&MouseButton::Middle), ButtonState::empty());
    e.update_mouse_buttons(true, false, false);
    let l = e.get_mouse_button_state(&MouseButton::Left);
    assert!(!l.pressed && l.held);
    e.update_mouse_buttons(false, false, false);
    let l = e.get_mouse_button_state(&MouseButton::Left);
    assert!(l.released && !l.held && !l.pressed);
}

#[test]
fn keyboard_edges_from_raw_samples() {
    let mut e = engine_4x4();
    let a = key_index(KeyboardKey::A);
    // Frame 1: A goes down.
    let mut raw = vec![false; KEY_COUNT];
    raw[a] = true;
    e.update_keyboard(&raw);
    let s = e.get_key_state(&KeyboardKey::A);
    assert!(s.pressed && s.held && !s.released);
    assert_eq!(e.get_key_state(&KeyboardKey::B), ButtonState::empty());
    // Frame 2: still down, no new edge.
    e.update_keyboard(&raw);
    let s = e.get_key_state(&KeyboardKey::A);
    assert!(!s.pressed && s.held);
    // Frame 3: up again.
    raw[a] = false;
    e.update_keyboard(&raw);
    let s = e.get_key_state(&KeyboardKey::A);
    assert!(s.released && !s.held && !s.pressed);
}

#[test]
fn normal_mode_overwrites_ignoring_alpha() {
    let mut e = engine_4x4();
    let translucent = Pixel::rbg_a(10, 20, 30, 0);
    e.draw_pixel(1, 1, &translucent);
    assert_eq!(e.buffer.data[1 * 4 + 1], translucent);
}

#[test]
fn mask_mode_needs_full_opacity() {
    let mut e = engine_4x4();
    e.set_pixel_mode(PixelMode::Mask);
    let almost = Pixel::rbg_a(9, 9, 9, 254);
    e.draw_pixel(0, 0, &almost);
    // Alpha 254 never mutates the destination.
    assert_eq!(e.buffer.data[0], Pixel::rbg_a(0, 0, 0, 0));
    let opaque = Pixel::rbg_a(9, 9, 9, 255);
    e.draw_pixel(0, 0, &opaque);
    // Alpha 255 always overwrites it.
    assert_eq!(e.buffer.data[0], opaque);
    let almost2 = Pixel::rbg_a(70, 80, 90, 254);
    e.draw_pixel(0, 0, &almost2);
    assert_eq!(e.buffer.data[0], opaque);
}

#[test]
fn alpha_mode_blend_endpoints() {
    let mut e = engine_4x4();
    e.clear(&Pixel::rbg_a(0, 0, 0, 255));
    e.set_pixel_mode(PixelMode::Alpha);
    let source = Pixel::rbg_a(255, 255, 255, 255);
    // Full blend factor: full replace of the colour channels.
    e.set_pixel_blend(255);
    e.draw_pixel(0, 0, &source);
    let p = e.buffer.data[0];
    assert_eq!((p.red, p.green, p.blue), (255, 255, 255));
    // Zero blend factor: the background survives.
    e.set_pixel_blend(0);
    e.draw_pixel(1, 0, &source);
    assert_eq!(e.buffer.data[1], Pixel::rbg_a(0, 0, 0, 255));
}

#[test]
fn clear_fills_the_framebuffer() {
    let mut e = engine_4x4();
    let red = Pixel::rgb(255, 0, 0);
    e.clear(&red);
    for p in &e.buffer.data {
        assert_eq!(*p, red);
    }
}

#[test]
fn packed_buffer_matches_pixels() {
    let mut e = YapeEngine::construct(2, 2, 1, 1);
    e.draw_pixel(0, 0, &Pixel::rgb(0x12, 0x34, 0x56));
    e.draw_pixel(1, 1, &Pixel::rgb(255, 0, 0));
    let packed = e.to_rgb_buffer();
    assert_eq!(packed.len(), 4);
    assert_eq!(packed[0], 0x123456);
    assert_eq!(packed[1], 0);
    assert_eq!(packed[2], 0);
    assert_eq!(packed[3], 0xFF0000);
}

#[test]
fn stops_after_third_frame() {
    let mut e = engine_4x4();
    // The update callback answers false on frame 3: exactly three update
    // calls happen, and the loop will not start a fourth frame.
    let answers = vec![true, true, false, true, true];
    let n = e.run_frames(&answers);
    assert_eq!(n, 3);
    assert!(!e.should_continue(true));
    // Once stopped, no further frame runs.
    assert_eq!(e.run_frames(&answers), 0);
}

#[test]
fn create_hook_failure_stops_before_any_frame() {
    let mut e = engine_4x4();
    e.apply_update_result(false);
    assert!(!e.should_continue(true));
    assert_eq!(e.run_frames(&vec![true, true]), 0);
}

#[test]
fn window_close_stops_the_loop() {
    let e = engine_4x4();
    assert!(e.should_continue(true));
    assert!(!e.should_continue(false));
}

#[test]
fn fps_reading_after_exactly_one_second() {
    let mut e = engine_4x4();
    // Sixty update calls whose elapsed times sum to exactly one second.
    for i in 0..60 {
        let elapsed = if i < 40 { 16_667 } else { 16_666 };
        let updated = e.end_frame(elapsed);
        if i < 59 {
            assert!(!updated);
            assert_eq!(e.get_fps(), 0);
        } else {
            assert!(updated);
        }
    }
    assert_eq!(e.get_fps(), 60);
    assert_eq!(e.frame_counter, 0);
    assert_eq!(e.frame_timer_micros, 0);
}

#[test]
fn fps_accumulator_keeps_the_remainder() {
    let mut e = engine_4x4();
    let updated = e.end_frame(1_500_000);
    assert!(updated);
    assert_eq!(e.get_fps(), 1);
    assert_eq!(e.frame_counter, 0);
    assert_eq!(e.frame_timer_micros, 500_000);
}

#[test]
fn error_carries_kind_and_message() {
    let err = YapeError::new("WindowCreate", "no backend");
    assert_eq!(err.kind, "WindowCreate");
    assert_eq!(err.message, "no backend");
    let r: yape::YapeResult<u32> = Err(YapeError::new("UpdateFailed", ""));
    assert!(r.is_err());
}
