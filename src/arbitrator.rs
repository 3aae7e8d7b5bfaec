//! The input arbitrator: merges every source into one ordered stream per
//! tick and owns the input mode.

use vstd::prelude::*;
use crate::adapters::{
    touch_events, touch_events_of, ButtonInput, EncoderSample, KeySample, KeyboardInput,
    RotaryEncoder,
};
use crate::events::{toggled_mode, InputEvent, InputMode, MODE_TOGGLE_BUTTON};

verus! {

/// Interval, in milliseconds, between two polling cycles.
pub const POLL_INTERVAL_MS: u64 = 5;

/// Everything read from the devices in one tick.
pub struct RawFrame {
    /// Milliseconds on a monotonic clock.
    pub now: u64,
    /// Pointer presses drained from the window's event queue, in order.
    pub touches: Vec<(i32, i32)>,
    /// One sample per encoder channel, by channel index.
    pub encoders: Vec<EncoderSample>,
    /// The active level of each button channel, by channel index.
    pub buttons: Vec<bool>,
    /// Keyboard readings, in order.
    pub keys: Vec<KeySample>,
}

/// The state of every source and the current input mode.
///
/// A channel without a sample in a frame is left as it is and reports
/// nothing for that tick.
pub struct InputManager {
    pub encoders: Vec<RotaryEncoder>,
    pub buttons: Vec<ButtonInput>,
    pub keyboard: KeyboardInput,
    pub mode: InputMode,
}

impl ButtonInput {
    /// This channel is the mode-toggle button.
    pub open spec fn is_mode_toggle(self) -> bool {
        self matches ButtonInput::Real { id, .. } && id == MODE_TOGGLE_BUTTON
    }
}

/// Encoder `i` after the frame.
pub open spec fn encoder_after(encs: Seq<RotaryEncoder>, samples: Seq<EncoderSample>, now: u64, i: int) -> RotaryEncoder {
    if i < samples.len() {
        encs[i].step(samples[i], now).0
    } else {
        encs[i]
    }
}

/// The events of encoder `i` in the frame.
pub open spec fn encoder_out(encs: Seq<RotaryEncoder>, samples: Seq<EncoderSample>, now: u64, i: int) -> Seq<InputEvent> {
    if i < samples.len() {
        encs[i].step(samples[i], now).1
    } else {
        Seq::empty()
    }
}

/// The events of the first `n` encoders, channel by channel.
pub open spec fn encoder_events(encs: Seq<RotaryEncoder>, samples: Seq<EncoderSample>, now: u64, n: int) -> Seq<InputEvent>
    decreases n,
{
    if n <= 0 {
        Seq::empty()
    } else {
        encoder_events(encs, samples, now, n - 1) + encoder_out(encs, samples, now, n - 1)
    }
}

/// Button channel `i` after the frame.
pub open spec fn button_after(buttons: Seq<ButtonInput>, levels: Seq<bool>, now: u64, i: int) -> ButtonInput {
    if i < levels.len() {
        buttons[i].step(levels[i], now).0
    } else {
        buttons[i]
    }
}

/// The events of button channel `i` that go downstream: none for the
/// mode-toggle channel.
pub open spec fn button_out(buttons: Seq<ButtonInput>, levels: Seq<bool>, now: u64, i: int) -> Seq<InputEvent> {
    if i < levels.len() && !buttons[i].is_mode_toggle() {
        buttons[i].step(levels[i], now).1
    } else {
        Seq::empty()
    }
}

/// The forwarded events of the first `n` button channels, channel by channel.
pub open spec fn button_events(buttons: Seq<ButtonInput>, levels: Seq<bool>, now: u64, n: int) -> Seq<InputEvent>
    decreases n,
{
    if n <= 0 {
        Seq::empty()
    } else {
        button_events(buttons, levels, now, n - 1) + button_out(buttons, levels, now, n - 1)
    }
}

/// Button channel `i` is the mode toggle and has a fresh press edge.
pub open spec fn toggle_hit(buttons: Seq<ButtonInput>, levels: Seq<bool>, now: u64, i: int) -> bool {
    &&& i < levels.len()
    &&& buttons[i].is_mode_toggle()
    &&& buttons[i].step(levels[i], now).1.len() > 0
}

impl InputManager {
    /// The mode toggle was pressed in this frame.
    pub open spec fn toggle_pressed(self, frame: RawFrame) -> bool {
        exists|i: int| 0 <= i < self.buttons@.len() && #[trigger] toggle_hit(self.buttons@, frame.buttons@, frame.now, i)
    }

    /// The input mode after the frame.
    pub open spec fn mode_after(self, frame: RawFrame) -> InputMode {
        if self.toggle_pressed(frame) {
            toggled_mode(self.mode)
        } else {
            self.mode
        }
    }

    /// The events of the frame, in the fixed order: the mode change, if any;
    /// then touch, encoders, buttons, and the keyboard, this last only in
    /// hardware mode.
    pub open spec fn output(self, frame: RawFrame) -> Seq<InputEvent> {
        let mode = self.mode_after(frame);
        (if self.toggle_pressed(frame) {
            seq![InputEvent::ModeChanged(mode)]
        } else {
            Seq::empty()
        }) + touch_events_of(frame.touches@) + encoder_events(
            self.encoders@,
            frame.encoders@,
            frame.now,
            self.encoders@.len() as int,
        ) + button_events(self.buttons@, frame.buttons@, frame.now, self.buttons@.len() as int) + (
        if mode == InputMode::Hardware {
            self.keyboard.events_of(frame.keys@)
        } else {
            Seq::empty()
        })
    }

    /// An arbitrator over these sources, in hardware mode.
    pub fn new(encoders: Vec<RotaryEncoder>, buttons: Vec<ButtonInput>, keyboard: KeyboardInput) -> (r: Self)
        ensures
            r.encoders@ == encoders@,
            r.buttons@ == buttons@,
            r.keyboard == keyboard,
            r.mode == InputMode::Hardware,
    {
        InputManager { encoders, buttons, keyboard, mode: InputMode::Hardware }
    }

    fn poll_encoders(&mut self, frame: &RawFrame) -> (r: Vec<InputEvent>)
        ensures
            final(self).buttons@ == old(self).buttons@,
            final(self).keyboard == old(self).keyboard,
            final(self).mode == old(self).mode,
            final(self).encoders@.len() == old(self).encoders@.len(),
            forall|j: int|
                0 <= j < old(self).encoders@.len() ==> final(self).encoders@[j] == encoder_after(
                    old(self).encoders@,
                    frame.encoders@,
                    frame.now,
                    j,
                ),
            r@ == encoder_events(old(self).encoders@, frame.encoders@, frame.now, old(self).encoders@.len() as int),
    {
        let ghost start = self.encoders@;
        let mut events: Vec<InputEvent> = Vec::new();
        let mut i: usize = 0;
        while i < self.encoders.len()
            invariant
                self.buttons@ == old(self).buttons@,
                self.keyboard == old(self).keyboard,
                self.mode == old(self).mode,
                start == old(self).encoders@,
                self.encoders@.len() == start.len(),
                i <= start.len(),
                forall|j: int| 0 <= j < i ==> self.encoders@[j] == encoder_after(start, frame.encoders@, frame.now, j),
                forall|j: int| i <= j < start.len() ==> self.encoders@[j] == start[j],
                events@ == encoder_events(start, frame.encoders@, frame.now, i as int),
            decreases start.len() - i,
        {
            if i < frame.encoders.len() {
                let mut e = self.encoders[i];
                let mut out = e.poll(frame.encoders[i], frame.now);
                self.encoders.set(i, e);
                events.append(&mut out);
            }
            i += 1;
        }
        events
    }

    fn poll_buttons(&mut self, frame: &RawFrame) -> (r: (Vec<InputEvent>, bool))
        ensures
            final(self).encoders@ == old(self).encoders@,
            final(self).keyboard == old(self).keyboard,
            final(self).mode == old(self).mode,
            final(self).buttons@.len() == old(self).buttons@.len(),
            forall|j: int|
                0 <= j < old(self).buttons@.len() ==> final(self).buttons@[j] == button_after(
                    old(self).buttons@,
                    frame.buttons@,
                    frame.now,
                    j,
                ),
            r.0@ == button_events(old(self).buttons@, frame.buttons@, frame.now, old(self).buttons@.len() as int),
            r.1 == old(self).toggle_pressed(*frame),
    {
        let ghost start = self.buttons@;
        let mut events: Vec<InputEvent> = Vec::new();
        let mut toggled = false;
        let mut i: usize = 0;
        while i < self.buttons.len()
            invariant
                self.encoders@ == old(self).encoders@,
                self.keyboard == old(self).keyboard,
                self.mode == old(self).mode,
                start == old(self).buttons@,
                self.buttons@.len() == start.len(),
                i <= start.len(),
                forall|j: int| 0 <= j < i ==> self.buttons@[j] == button_after(start, frame.buttons@, frame.now, j),
                forall|j: int| i <= j < start.len() ==> self.buttons@[j] == start[j],
                events@ == button_events(start, frame.buttons@, frame.now, i as int),
                toggled == exists|j: int| 0 <= j < i && #[trigger] toggle_hit(start, frame.buttons@, frame.now, j),
            decreases start.len() - i,
        {
            if i < frame.buttons.len() {
                let mut b = self.buttons[i];
                let is_toggle = match b {
                    ButtonInput::Real { id, .. } => id == MODE_TOGGLE_BUTTON,
                    ButtonInput::Fake => false,
                };
                let mut out = b.poll(frame.buttons[i], frame.now);
                self.buttons.set(i, b);
                if is_toggle {
                    if out.len() > 0 {
                        toggled = true;
                        assert(toggle_hit(start, frame.buttons@, frame.now, i as int));
                    }
                } else {
                    events.append(&mut out);
                }
            }
            proof {
                if !toggle_hit(start, frame.buttons@, frame.now, i as int) {
                    assert((exists|j: int| 0 <= j < i + 1 && #[trigger] toggle_hit(start, frame.buttons@, frame.now, j))
                        == (exists|j: int| 0 <= j < i && #[trigger] toggle_hit(start, frame.buttons@, frame.now, j)));
                }
            }
            i += 1;
        }
        (events, toggled)
    }

    /// One polling cycle: conditions every source's samples, consumes a
    /// press of the mode toggle (flipping the mode and reporting it first),
    /// and returns the tick's events in the fixed order of sources.
    pub fn poll_inputs(&mut self, frame: &RawFrame) -> (r: Vec<InputEvent>)
        ensures
            r@ == old(self).output(*frame),
            final(self).mode == old(self).mode_after(*frame),
            final(self).keyboard == old(self).keyboard,
            final(self).encoders@.len() == old(self).encoders@.len(),
            forall|j: int|
                0 <= j < old(self).encoders@.len() ==> final(self).encoders@[j] == encoder_after(
                    old(self).encoders@,
                    frame.encoders@,
                    frame.now,
                    j,
                ),
            final(self).buttons@.len() == old(self).buttons@.len(),
            forall|j: int|
                0 <= j < old(self).buttons@.len() ==> final(self).buttons@[j] == button_after(
                    old(self).buttons@,
                    frame.buttons@,
                    frame.now,
                    j,
                ),
    {
        let (mut button_out, toggled) = self.poll_buttons(frame);
        let mut encoder_out = self.poll_encoders(frame);
        if toggled {
            self.mode = self.mode.toggled();
        }
        let mut events: Vec<InputEvent> = Vec::new();
        if toggled {
            events.push(InputEvent::ModeChanged(self.mode));
        }
        let mut touches = touch_events(&frame.touches);
        events.append(&mut touches);
        events.append(&mut encoder_out);
        events.append(&mut button_out);
        let hardware = match self.mode {
            InputMode::Hardware => true,
            InputMode::Keyboard => false,
        };
        if hardware {
            let mut keys = self.keyboard.poll(&frame.keys);
            events.append(&mut keys);
        }
        proof {
            let ghost expected = old(self).output(*frame);
            assert(events@ =~= expected);
        }
        events
    }
}

/// Neither a press of the mode toggle nor a mode change.
pub open spec fn is_plain(e: InputEvent) -> bool {
    e != InputEvent::ButtonPressed(MODE_TOGGLE_BUTTON) && !(e is ModeChanged)
}

/// Every event of `s` is plain.
pub open spec fn all_plain(s: Seq<InputEvent>) -> bool {
    forall|i: int| 0 <= i < s.len() ==> is_plain(#[trigger] s[i])
}

proof fn lemma_plain_concat(a: Seq<InputEvent>, b: Seq<InputEvent>)
    requires
        all_plain(a),
        all_plain(b),
    ensures
        all_plain(a + b),
{
    assert forall|i: int| 0 <= i < (a + b).len() implies is_plain(#[trigger] (a + b)[i]) by {
        if i >= a.len() {
            assert((a + b)[i] == b[i - a.len()]);
        }
    }
}

proof fn lemma_encoder_events_plain(encs: Seq<RotaryEncoder>, samples: Seq<EncoderSample>, now: u64, n: int)
    ensures
        all_plain(encoder_events(encs, samples, now, n)),
    decreases n,
{
    if n > 0 {
        lemma_encoder_events_plain(encs, samples, now, n - 1);
        lemma_plain_concat(encoder_events(encs, samples, now, n - 1), encoder_out(encs, samples, now, n - 1));
    }
}

proof fn lemma_button_events_plain(buttons: Seq<ButtonInput>, levels: Seq<bool>, now: u64, n: int)
    ensures
        all_plain(button_events(buttons, levels, now, n)),
    decreases n,
{
    if n > 0 {
        lemma_button_events_plain(buttons, levels, now, n - 1);
        lemma_plain_concat(button_events(buttons, levels, now, n - 1), button_out(buttons, levels, now, n - 1));
    }
}

proof fn lemma_keyboard_events_plain(keyboard: KeyboardInput, samples: Seq<KeySample>)
    ensures
        all_plain(keyboard.events_of(samples)),
    decreases samples.len(),
{
    if samples.len() > 0 {
        lemma_keyboard_events_plain(keyboard, samples.drop_last());
    }
}

/// A press of the mode-toggle button never reaches the stream as a
/// `ButtonPressed`: it surfaces only as the `ModeChanged` that leads the
/// tick's events, carrying the flipped mode, and no other `ModeChanged` is
/// ever produced.
pub proof fn lemma_mode_toggle_consumed(m: InputManager, frame: RawFrame)
    ensures
        forall|i: int|
            0 <= i < m.output(frame).len() ==> #[trigger] m.output(frame)[i] != InputEvent::ButtonPressed(
                MODE_TOGGLE_BUTTON,
            ),
        forall|i: int|
            0 <= i < m.output(frame).len() && (#[trigger] m.output(frame)[i] is ModeChanged) ==> i == 0
                && m.toggle_pressed(frame),
        m.toggle_pressed(frame) ==> m.output(frame)[0] == InputEvent::ModeChanged(toggled_mode(m.mode)),
{
    let rest = touch_events_of(frame.touches@) + encoder_events(
        m.encoders@,
        frame.encoders@,
        frame.now,
        m.encoders@.len() as int,
    ) + button_events(m.buttons@, frame.buttons@, frame.now, m.buttons@.len() as int) + (
    if m.mode_after(frame) == InputMode::Hardware {
        m.keyboard.events_of(frame.keys@)
    } else {
        Seq::empty()
    });
    let touches = touch_events_of(frame.touches@);
    assert(all_plain(touches)) by {
        assert forall|i: int| 0 <= i < touches.len() implies is_plain(#[trigger] touches[i]) by {
            let p = frame.touches@[i];
            assert(touches[i] == InputEvent::Touch(p.0, p.1));
        }
    }
    lemma_encoder_events_plain(m.encoders@, frame.encoders@, frame.now, m.encoders@.len() as int);
    lemma_button_events_plain(m.buttons@, frame.buttons@, frame.now, m.buttons@.len() as int);
    lemma_keyboard_events_plain(m.keyboard, frame.keys@);
    assert(all_plain(Seq::<InputEvent>::empty()));
    lemma_plain_concat(
        touches,
        encoder_events(m.encoders@, frame.encoders@, frame.now, m.encoders@.len() as int),
    );
    lemma_plain_concat(
        touches + encoder_events(m.encoders@, frame.encoders@, frame.now, m.encoders@.len() as int),
        button_events(m.buttons@, frame.buttons@, frame.now, m.buttons@.len() as int),
    );
    lemma_plain_concat(
        touches + encoder_events(m.encoders@, frame.encoders@, frame.now, m.encoders@.len() as int)
            + button_events(m.buttons@, frame.buttons@, frame.now, m.buttons@.len() as int),
        if m.mode_after(frame) == InputMode::Hardware {
            m.keyboard.events_of(frame.keys@)
        } else {
            Seq::empty()
        },
    );
    let head = if m.toggle_pressed(frame) {
        seq![InputEvent::ModeChanged(m.mode_after(frame))]
    } else {
        Seq::empty()
    };
    assert(m.output(frame) == head + rest);
    assert forall|i: int| 0 <= i < m.output(frame).len() implies #[trigger] m.output(frame)[i]
        != InputEvent::ButtonPressed(MODE_TOGGLE_BUTTON) && (m.output(frame)[i] is ModeChanged ==> i == 0
        && m.toggle_pressed(frame)) by {
        if i >= head.len() {
            assert(m.output(frame)[i] == rest[i - head.len()]);
        }
    }
}

} // verus!
