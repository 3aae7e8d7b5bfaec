use kiosk_menu::adapters::{
    touch_events, ButtonInput, EncoderSample, KeySample, KeyboardInput, RotaryEncoder, KEY_A,
    KEY_B, KEY_DOWN, KEY_ENTER, KEY_LEFT, KEY_RIGHT, KEY_SPACE, KEY_UP,
};
use kiosk_menu::arbitrator::{InputManager, RawFrame};
use kiosk_menu::debounce::{DebounceState, Edge};
use kiosk_menu::events::{InputEvent, InputMode, MODE_TOGGLE_BUTTON};
use kiosk_menu::quadrature::QuadratureDecoder;

fn idle(n: usize) -> Vec<EncoderSample> {
    vec![EncoderSample { phase_a: false, phase_b: false, button: false }; n]
}

fn frame(now: u64) -> RawFrame {
    RawFrame { now, touches: vec![], encoders: idle(2), buttons: vec![false; 3], keys: vec![] }
}

fn manager() -> InputManager {
    InputManager::new(
        vec![RotaryEncoder::new(0, 0), RotaryEncoder::new(1, 0)],
        vec![ButtonInput::new(0, 0), ButtonInput::new(3, 0), ButtonInput::new(MODE_TOGGLE_BUTTON, 0)],
        KeyboardInput::Real,
    )
}

#[test]
fn debounce_accepts_change_after_guard_interval() {
    let mut d = DebounceState::new(0);
    assert_eq!(d.poll(true, 10), None);
    assert_eq!(d.poll(true, 50), Some(Edge::Pressed));
    assert!(d.last_stable_level);
    assert_eq!(d.last_change_at, 50);
    assert_eq!(d.poll(false, 99), None);
    assert_eq!(d.poll(false, 100), Some(Edge::Released));
    assert_eq!(d.poll(false, 500), None);
}

#[test]
fn debounce_collapses_rapid_flips_into_one_edge() {
    let mut d = DebounceState::new(0);
    let samples = [(true, 100), (false, 110), (true, 120), (false, 130), (true, 149)];
    let edges: Vec<Edge> = samples.iter().filter_map(|&(level, now)| d.poll(level, now)).collect();
    assert_eq!(edges, vec![Edge::Pressed]);
    assert!(d.last_stable_level);
    assert_eq!(d.last_change_at, 100);
}

#[test]
fn debounce_reports_flip_held_past_guard() {
    let mut d = DebounceState::new(0);
    assert_eq!(d.poll(true, 100), Some(Edge::Pressed));
    assert_eq!(d.poll(false, 120), None);
    assert_eq!(d.poll(false, 140), None);
    assert_eq!(d.poll(false, 150), Some(Edge::Released));
}

#[test]
fn debounce_ignores_clock_going_back() {
    let mut d = DebounceState::new(1000);
    assert_eq!(d.poll(true, 10), None);
    assert_eq!(d.last_change_at, 1000);
}

#[test]
fn quadrature_phase_a_rising_with_b_inactive_is_positive() {
    let mut q = QuadratureDecoder::new();
    assert_eq!(q.poll(false, false), None);
    assert_eq!(q.poll(true, false), Some(1));
}

#[test]
fn quadrature_phase_a_rising_with_b_active_is_negative() {
    let mut q = QuadratureDecoder::new();
    assert_eq!(q.poll(false, true), None);
    assert_eq!(q.poll(true, true), Some(-1));
}

#[test]
fn quadrature_other_edges_report_nothing() {
    let mut q = QuadratureDecoder::new();
    assert_eq!(q.poll(true, false), Some(1));
    assert_eq!(q.poll(true, true), None);
    assert_eq!(q.poll(false, true), None);
    assert_eq!(q.poll(false, false), None);
    assert!(!q.last_a);
    assert!(!q.last_b);
    assert_eq!(q.poll(true, true), Some(-1));
}

#[test]
fn encoder_reports_rotation_then_button() {
    let mut e = RotaryEncoder::new(1, 0);
    let events = e.poll(EncoderSample { phase_a: true, phase_b: false, button: true }, 60);
    assert_eq!(
        events,
        vec![InputEvent::EncoderRotated { encoder_id: 1, delta: 1 }, InputEvent::EncoderButtonPressed(1)]
    );
    let events = e.poll(EncoderSample { phase_a: true, phase_b: false, button: false }, 70);
    assert!(events.is_empty());
}

#[test]
fn fake_sources_report_nothing() {
    let mut e = RotaryEncoder::fake();
    assert!(e.poll(EncoderSample { phase_a: true, phase_b: false, button: true }, 100).is_empty());
    let mut b = ButtonInput::fake();
    assert!(b.poll(true, 100).is_empty());
}

#[test]
fn button_reports_press_but_not_release() {
    let mut b = ButtonInput::new(2, 0);
    assert_eq!(b.poll(true, 60), vec![InputEvent::ButtonPressed(2)]);
    assert!(b.poll(false, 200).is_empty());
    assert_eq!(b.poll(true, 300), vec![InputEvent::ButtonPressed(2)]);
}

#[test]
fn keyboard_key_table() {
    let down = |code| KeySample::Key { code, value: 1 };
    let samples = vec![
        down(KEY_UP),
        down(KEY_DOWN),
        down(KEY_LEFT),
        down(KEY_RIGHT),
        down(KEY_SPACE),
        down(KEY_ENTER),
        down(KEY_A),
        down(KEY_B),
        down(1),
        KeySample::Key { code: KEY_ENTER, value: 0 },
        KeySample::Key { code: KEY_ENTER, value: 2 },
        KeySample::Console(b'1'),
    ];
    assert_eq!(
        KeyboardInput::Real.poll(&samples),
        vec![
            InputEvent::NavigateUp,
            InputEvent::NavigateDown,
            InputEvent::NavigateLeft,
            InputEvent::NavigateRight,
            InputEvent::Activate,
            InputEvent::Select,
            InputEvent::KeyPress('a'),
            InputEvent::KeyPress('b'),
        ]
    );
}

#[test]
fn console_fallback_maps_digits_and_line_ends() {
    let samples = vec![
        KeySample::Console(b'1'),
        KeySample::Console(b'2'),
        KeySample::Console(b'3'),
        KeySample::Console(b'4'),
        KeySample::Console(b'\n'),
        KeySample::Console(b'\r'),
        KeySample::Key { code: KEY_ENTER, value: 1 },
    ];
    assert_eq!(
        KeyboardInput::fake().poll(&samples),
        vec![
            InputEvent::ButtonPressed(0),
            InputEvent::ButtonPressed(1),
            InputEvent::ButtonPressed(2),
            InputEvent::Select,
            InputEvent::Select,
        ]
    );
}

#[test]
fn touch_presses_become_touch_events() {
    assert_eq!(
        touch_events(&vec![(1, 2), (300, 400)]),
        vec![InputEvent::Touch(1, 2), InputEvent::Touch(300, 400)]
    );
    assert!(touch_events(&vec![]).is_empty());
}

#[test]
fn arbitrator_orders_touch_encoders_buttons_keyboard() {
    let mut m = manager();
    let mut f = frame(100);
    f.keys = vec![KeySample::Key { code: KEY_ENTER, value: 1 }];
    f.buttons = vec![true, false, false];
    f.encoders = vec![
        EncoderSample { phase_a: false, phase_b: false, button: true },
        EncoderSample { phase_a: true, phase_b: true, button: false },
    ];
    f.touches = vec![(10, 20)];
    assert_eq!(
        m.poll_inputs(&f),
        vec![
            InputEvent::Touch(10, 20),
            InputEvent::EncoderButtonPressed(0),
            InputEvent::EncoderRotated { encoder_id: 1, delta: -1 },
            InputEvent::ButtonPressed(0),
            InputEvent::Select,
        ]
    );
    assert_eq!(m.mode, InputMode::Hardware);
}

#[test]
fn mode_toggle_press_is_consumed_and_reported_first() {
    let mut m = manager();
    let mut f = frame(100);
    f.buttons = vec![false, true, true];
    f.touches = vec![(5, 5)];
    f.keys = vec![KeySample::Key { code: KEY_UP, value: 1 }];
    let events = m.poll_inputs(&f);
    assert_eq!(
        events,
        vec![
            InputEvent::ModeChanged(InputMode::Keyboard),
            InputEvent::Touch(5, 5),
            InputEvent::ButtonPressed(3),
        ]
    );
    assert!(!events.contains(&InputEvent::ButtonPressed(MODE_TOGGLE_BUTTON)));
    assert_eq!(m.mode, InputMode::Keyboard);

    // Held down: no second toggle.
    let mut f = frame(200);
    f.buttons = vec![false, true, true];
    assert!(m.poll_inputs(&f).is_empty());

    // Released, then pressed again past the guard: back to hardware.
    let mut f = frame(300);
    f.buttons = vec![false, false, false];
    assert!(m.poll_inputs(&f).is_empty());
    let mut f = frame(400);
    f.buttons = vec![false, false, true];
    f.keys = vec![KeySample::Key { code: KEY_DOWN, value: 1 }];
    assert_eq!(
        m.poll_inputs(&f),
        vec![InputEvent::ModeChanged(InputMode::Hardware), InputEvent::NavigateDown]
    );
    assert_eq!(m.mode, InputMode::Hardware);
}

#[test]
fn channels_without_samples_are_left_alone() {
    let mut m = manager();
    let f = RawFrame { now: 100, touches: vec![], encoders: vec![], buttons: vec![true], keys: vec![] };
    assert_eq!(m.poll_inputs(&f), vec![InputEvent::ButtonPressed(0)]);
    let mut f = frame(200);
    f.buttons = vec![true, true, false];
    assert_eq!(m.poll_inputs(&f), vec![InputEvent::ButtonPressed(3)]);
}
