use spinquad::assets::Assets;
use spinquad::input::{ControlKey, InputState, KeyEvent};
use spinquad::rotation::RotationAngles;
use spinquad::timing::{sleep_ns, TimeState, FRAME_TIME_TARGET_NS};

#[test]
fn input_starts_all_false() {
    let s = InputState::new();
    assert!(!s.left && !s.right && !s.up && !s.down && !s.exit_requested);
}

#[test]
fn press_sets_only_its_flag() {
    let mut s = InputState::new();
    s.on_key_press(ControlKey::Left);
    assert!(s.left && !s.right && !s.up && !s.down && !s.exit_requested);
    s.on_key_press(ControlKey::Down);
    assert!(s.left && !s.right && !s.up && s.down && !s.exit_requested);
}

#[test]
fn release_clears_only_its_flag() {
    let mut s = InputState::new();
    s.on_key_press(ControlKey::Up);
    s.on_key_press(ControlKey::Right);
    s.on_key_release(ControlKey::Up);
    assert!(!s.left && s.right && !s.up && !s.down);
}

#[test]
fn repeated_press_is_idempotent() {
    let mut s = InputState::new();
    s.on_key_press(ControlKey::Left);
    let before = s;
    s.on_key_press(ControlKey::Left);
    assert_eq!(s, before);
}

#[test]
fn quit_press_sets_exit_and_release_keeps_it() {
    let mut s = InputState::new();
    s.on_key_press(ControlKey::Quit);
    assert!(s.exit_requested);
    s.on_key_release(ControlKey::Quit);
    assert!(s.exit_requested);
}

#[test]
fn press_then_release_within_one_tick_leaves_flag_false() {
    let mut s = InputState::new();
    let events = vec![KeyEvent::Press(ControlKey::Up), KeyEvent::Release(ControlKey::Up)];
    s.apply_events(&events);
    assert!(!s.up);
}

#[test]
fn event_order_within_a_tick_matters() {
    let mut s = InputState::new();
    s.on_key_press(ControlKey::Down);
    let events = vec![KeyEvent::Release(ControlKey::Down), KeyEvent::Press(ControlKey::Down)];
    s.apply_events(&events);
    assert!(s.down);
}

#[test]
fn no_input_tick_leaves_angles_unchanged() {
    let input = InputState::new();
    let mut angles = RotationAngles { horizontal_nanorad: 123_456, vertical_nanorad: -789 };
    angles.update(&input, 987_654_321);
    assert_eq!(angles.horizontal_nanorad, 123_456);
    assert_eq!(angles.vertical_nanorad, -789);
}

#[test]
fn left_and_right_together_cancel() {
    let mut both = InputState::new();
    both.on_key_press(ControlKey::Left);
    both.on_key_press(ControlKey::Right);
    let neither = InputState::new();

    let mut a = RotationAngles { horizontal_nanorad: 42, vertical_nanorad: 0 };
    let mut b = a;
    a.update(&both, 100_000_000);
    b.update(&neither, 100_000_000);
    assert_eq!(a.horizontal_nanorad, b.horizontal_nanorad);
    assert_eq!(a.horizontal_nanorad, 42);
}

#[test]
fn holding_left_a_tenth_of_a_second_adds_half_a_radian() {
    let mut input = InputState::new();
    input.on_key_press(ControlKey::Left);
    let mut angles = RotationAngles::new();
    angles.update(&input, 100_000_000);
    assert_eq!(angles.horizontal_nanorad, 500_000_000);
    assert_eq!(angles.vertical_nanorad, 0);
}

#[test]
fn each_axis_integrates_independently() {
    let mut input = InputState::new();
    input.on_key_press(ControlKey::Right);
    input.on_key_press(ControlKey::Up);
    let mut angles = RotationAngles::new();
    angles.update(&input, 10_000_000);
    assert_eq!(angles.horizontal_nanorad, -50_000_000);
    assert_eq!(angles.vertical_nanorad, 50_000_000);
}

#[test]
fn timing_initial_state() {
    let t = TimeState::init();
    assert_eq!(t.frame_time_ns, FRAME_TIME_TARGET_NS);
    assert_eq!(t.frame_count, 0);
    assert_eq!(t.fps, 60);
}

#[test]
fn early_frame_sleeps_out_the_interval() {
    // 0.005 s elapsed: the pacer must sleep the remaining ~0.01167 s.
    let slept = sleep_ns(5_000_000);
    assert_eq!(slept, 11_666_667);

    let mut t = TimeState::init();
    t.record_frame_time(5_000_000 + slept);
    assert!(t.frame_time_ns >= FRAME_TIME_TARGET_NS);
    assert_eq!(t.frame_time_ns, 16_666_667);
}

#[test]
fn late_frame_sleeps_nothing() {
    assert_eq!(sleep_ns(FRAME_TIME_TARGET_NS), 0);
    assert_eq!(sleep_ns(20_000_000), 0);
    assert_eq!(sleep_ns(0), FRAME_TIME_TARGET_NS);
}

#[test]
fn fps_is_floor_of_inverse_frame_time_plus_one() {
    let mut t = TimeState::init();
    t.record_frame_time(16_666_667);
    assert_eq!(t.fps, 60);
    t.record_frame_time(20_000_000);
    assert_eq!(t.fps, 51);
    t.record_frame_time(1_000_000_000);
    assert_eq!(t.fps, 2);
    t.record_frame_time(2_000_000_000);
    assert_eq!(t.fps, 1);
}

#[test]
fn recording_frame_time_does_not_count_frames() {
    let mut t = TimeState::init();
    t.record_frame_time(17_000_000);
    assert_eq!(t.frame_count, 0);
}

#[test]
fn data_shown_every_sixtieth_frame() {
    let mut t = TimeState::init();
    assert!(t.show_data_due());
    t.advance_frame();
    assert!(!t.show_data_due());
    while t.frame_count < 60 {
        t.advance_frame();
    }
    assert!(t.show_data_due());
    assert_eq!(t.frame_count, 60);
}

#[test]
fn pixels_group_four_bytes_each_in_order() {
    let bytes = vec![1u8, 2, 3, 4, 5, 6, 7, 8];
    let a = Assets::from_rgba_bytes(&bytes, 2, 1).unwrap();
    assert_eq!(a.width, 2);
    assert_eq!(a.height, 1);
    assert_eq!(a.tex, vec![[1u8, 2, 3, 4], [5u8, 6, 7, 8]]);
}

#[test]
fn mismatched_byte_count_is_rejected() {
    let bytes = vec![0u8; 9];
    assert!(Assets::from_rgba_bytes(&bytes, 2, 1).is_none());
    let bytes = vec![0u8; 8];
    assert!(Assets::from_rgba_bytes(&bytes, 2, 2).is_none());
}

#[test]
fn empty_image_is_accepted() {
    let bytes: Vec<u8> = Vec::new();
    let a = Assets::from_rgba_bytes(&bytes, 0, 0).unwrap();
    assert!(a.tex.is_empty());
}
