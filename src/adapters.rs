//! Source adapters: each turns the raw samples of one device into events.
//!
//! A device that could not be acquired is represented by the `Fake` variant,
//! which never produces an event.

use vstd::prelude::*;
use crate::debounce::{DebounceState, Edge};
use crate::events::{InputEvent, BUTTON_APPS, BUTTON_PROFILE, BUTTON_SETTINGS};
use crate::quadrature::QuadratureDecoder;

verus! {

/// Linux input code of the Enter key.
pub const KEY_ENTER: u16 = 28;

/// Linux input code of the A key.
pub const KEY_A: u16 = 30;

/// Linux input code of the B key.
pub const KEY_B: u16 = 48;

/// Linux input code of the space bar.
pub const KEY_SPACE: u16 = 57;

/// Linux input code of the Up arrow.
pub const KEY_UP: u16 = 103;

/// Linux input code of the Left arrow.
pub const KEY_LEFT: u16 = 105;

/// Linux input code of the Right arrow.
pub const KEY_RIGHT: u16 = 106;

/// Linux input code of the Down arrow.
pub const KEY_DOWN: u16 = 108;

/// Value of a key event that reports a key going down.
pub const KEY_VALUE_DOWN: i32 = 1;

/// The events that one button sample produces: a press edge of a real
/// channel becomes `ButtonPressed` with the channel's id.
pub open spec fn press_events(edge: Option<Edge>, event: InputEvent) -> Seq<InputEvent> {
    if edge == Some(Edge::Pressed) {
        seq![event]
    } else {
        Seq::empty()
    }
}

/// A discrete push button on one channel.
#[derive(Clone, Copy, Debug)]
pub enum ButtonInput {
    Real { id: u8, state: DebounceState },
    Fake,
}

impl ButtonInput {
    /// One sample of the channel's active level at time `now`.
    pub open spec fn step(self, pressed: bool, now: u64) -> (ButtonInput, Seq<InputEvent>) {
        match self {
            ButtonInput::Real { id, state } => {
                let (next, edge) = state.step(pressed, now);
                (ButtonInput::Real { id, state: next }, press_events(edge, InputEvent::ButtonPressed(id)))
            },
            ButtonInput::Fake => (self, Seq::empty()),
        }
    }

    /// A released button on channel `id`, debounced from `now` on.
    pub fn new(id: u8, now: u64) -> (r: Self)
        ensures
            r == (ButtonInput::Real { id, state: DebounceState { last_stable_level: false, last_change_at: now } }),
    {
        ButtonInput::Real { id, state: DebounceState::new(now) }
    }

    /// A button that is not there.
    pub fn fake() -> (r: Self)
        ensures
            r is Fake,
    {
        ButtonInput::Fake
    }

    /// Feeds one sample; `pressed` is the active level of the contact.
    pub fn poll(&mut self, pressed: bool, now: u64) -> (r: Vec<InputEvent>)
        ensures
            (*final(self), r@) == old(self).step(pressed, now),
    {
        let mut events: Vec<InputEvent> = Vec::new();
        match self {
            ButtonInput::Real { id, state } => {
                let edge = state.poll(pressed, now);
                if let Some(Edge::Pressed) = edge {
                    events.push(InputEvent::ButtonPressed(*id));
                }
                assert(events@ =~= press_events(edge, InputEvent::ButtonPressed(*id)));
            },
            ButtonInput::Fake => {},
        }
        events
    }
}

/// One sample of an encoder: both phases and its push button, as active levels.
#[derive(Clone, Copy, Debug)]
pub struct EncoderSample {
    pub phase_a: bool,
    pub phase_b: bool,
    pub button: bool,
}

/// A rotary encoder with an integrated push button.
#[derive(Clone, Copy, Debug)]
pub struct RealEncoder {
    pub id: u8,
    pub decoder: QuadratureDecoder,
    pub button: DebounceState,
}

/// The rotation event of one decoded detent, if any.
pub open spec fn rotation_events(id: u8, delta: Option<i8>) -> Seq<InputEvent> {
    match delta {
        Some(d) => seq![InputEvent::EncoderRotated { encoder_id: id, delta: d }],
        None => Seq::empty(),
    }
}

impl RealEncoder {
    /// One sample: the next record, and the rotation (first) and button
    /// press (second) it reports.
    pub open spec fn step(self, sample: EncoderSample, now: u64) -> (RealEncoder, Seq<InputEvent>) {
        let (decoder, delta) = self.decoder.step(sample.phase_a, sample.phase_b);
        let (button, edge) = self.button.step(sample.button, now);
        (
            RealEncoder { id: self.id, decoder, button },
            rotation_events(self.id, delta) + press_events(edge, InputEvent::EncoderButtonPressed(self.id)),
        )
    }

    fn poll(&mut self, sample: EncoderSample, now: u64) -> (r: Vec<InputEvent>)
        ensures
            (*final(self), r@) == old(self).step(sample, now),
    {
        let mut events: Vec<InputEvent> = Vec::new();
        let delta = self.decoder.poll(sample.phase_a, sample.phase_b);
        if let Some(d) = delta {
            events.push(InputEvent::EncoderRotated { encoder_id: self.id, delta: d });
        }
        let edge = self.button.poll(sample.button, now);
        if let Some(Edge::Pressed) = edge {
            events.push(InputEvent::EncoderButtonPressed(self.id));
        }
        assert(events@ =~= rotation_events(self.id, delta) + press_events(
            edge,
            InputEvent::EncoderButtonPressed(self.id),
        ));
        events
    }
}

/// A rotary encoder channel.
#[derive(Clone, Copy, Debug)]
pub enum RotaryEncoder {
    Real(RealEncoder),
    Fake,
}

impl RotaryEncoder {
    /// One sample: the next record and the events it reports.
    pub open spec fn step(self, sample: EncoderSample, now: u64) -> (RotaryEncoder, Seq<InputEvent>) {
        match self {
            RotaryEncoder::Real(e) => {
                let (next, events) = e.step(sample, now);
                (RotaryEncoder::Real(next), events)
            },
            RotaryEncoder::Fake => (self, Seq::empty()),
        }
    }

    /// Encoder `id` at rest, its button debounced from `now` on.
    pub fn new(id: u8, now: u64) -> (r: Self)
        ensures
            r == RotaryEncoder::Real(
                RealEncoder {
                    id,
                    decoder: QuadratureDecoder { last_a: false, last_b: false },
                    button: DebounceState { last_stable_level: false, last_change_at: now },
                },
            ),
    {
        RotaryEncoder::Real(
            RealEncoder { id, decoder: QuadratureDecoder::new(), button: DebounceState::new(now) },
        )
    }

    /// An encoder that is not there.
    pub fn fake() -> (r: Self)
        ensures
            r is Fake,
    {
        RotaryEncoder::Fake
    }

    /// Feeds one sample of the encoder.
    pub fn poll(&mut self, sample: EncoderSample, now: u64) -> (r: Vec<InputEvent>)
        ensures
            (*final(self), r@) == old(self).step(sample, now),
    {
        match self {
            RotaryEncoder::Real(e) => e.poll(sample, now),
            RotaryEncoder::Fake => Vec::new(),
        }
    }
}

/// The events of the touch presses drained in one tick, in order.
pub open spec fn touch_events_of(presses: Seq<(i32, i32)>) -> Seq<InputEvent> {
    presses.map_values(|p: (i32, i32)| InputEvent::Touch(p.0, p.1))
}

/// One `Touch` event per pointer press, in the order the presses came.
pub fn touch_events(presses: &Vec<(i32, i32)>) -> (r: Vec<InputEvent>)
    ensures
        r@ == touch_events_of(presses@),
{
    let mut events: Vec<InputEvent> = Vec::new();
    let mut i: usize = 0;
    while i < presses.len()
        invariant
            i <= presses@.len(),
            events@ == touch_events_of(presses@.take(i as int)),
        decreases presses@.len() - i,
    {
        let (x, y) = presses[i];
        events.push(InputEvent::Touch(x, y));
        i += 1;
        assert(touch_events_of(presses@.take(i as int)) =~= touch_events_of(
            presses@.take(i - 1 as int),
        ).push(InputEvent::Touch(x, y)));
    }
    assert(presses@.take(i as int) =~= presses@);
    events
}

/// The event of a key going down, by Linux input code.
pub open spec fn key_event(code: u16) -> Option<InputEvent> {
    if code == KEY_UP {
        Some(InputEvent::NavigateUp)
    } else if code == KEY_DOWN {
        Some(InputEvent::NavigateDown)
    } else if code == KEY_LEFT {
        Some(InputEvent::NavigateLeft)
    } else if code == KEY_RIGHT {
        Some(InputEvent::NavigateRight)
    } else if code == KEY_SPACE {
        Some(InputEvent::Activate)
    } else if code == KEY_ENTER {
        Some(InputEvent::Select)
    } else if code == KEY_A {
        Some(InputEvent::KeyPress('a'))
    } else if code == KEY_B {
        Some(InputEvent::KeyPress('b'))
    } else {
        None
    }
}

/// The event of one byte typed on the console: a digit names a section,
/// a line end selects.
pub open spec fn console_event(byte: u8) -> Option<InputEvent> {
    if byte == 0x31 {
        Some(InputEvent::ButtonPressed(BUTTON_APPS))
    } else if byte == 0x32 {
        Some(InputEvent::ButtonPressed(BUTTON_PROFILE))
    } else if byte == 0x33 {
        Some(InputEvent::ButtonPressed(BUTTON_SETTINGS))
    } else if byte == 0x0a || byte == 0x0d {
        Some(InputEvent::Select)
    } else {
        None
    }
}

/// One raw keyboard reading.
#[derive(Clone, Copy, Debug)]
pub enum KeySample {
    /// A key event of an input device: its code and value (`1` down,
    /// `0` up, `2` repeat).
    Key { code: u16, value: i32 },
    /// A byte read from the console.
    Console(u8),
}

/// The keyboard source: a raw input device, or the console in its place.
#[derive(Clone, Copy, Debug, PartialEq, Eq, Structural)]
pub enum KeyboardInput {
    Real,
    Fake,
}

impl KeyboardInput {
    /// The event of one reading. A real keyboard maps key-down events
    /// through the key table; the console fallback maps typed bytes. A
    /// reading of the other kind yields nothing.
    pub open spec fn sample_event(self, sample: KeySample) -> Option<InputEvent> {
        match (self, sample) {
            (KeyboardInput::Real, KeySample::Key { code, value }) => {
                if value == KEY_VALUE_DOWN {
                    key_event(code)
                } else {
                    None
                }
            },
            (KeyboardInput::Fake, KeySample::Console(byte)) => console_event(byte),
            _ => None,
        }
    }

    /// The events of a run of readings, in order.
    pub open spec fn events_of(self, samples: Seq<KeySample>) -> Seq<InputEvent>
        decreases samples.len(),
    {
        if samples.len() == 0 {
            Seq::empty()
        } else {
            let earlier = self.events_of(samples.drop_last());
            match self.sample_event(samples.last()) {
                Some(e) => earlier.push(e),
                None => earlier,
            }
        }
    }

    /// The console fallback.
    pub fn fake() -> (r: Self)
        ensures
            r == KeyboardInput::Fake,
    {
        KeyboardInput::Fake
    }

    fn sample_to_event(&self, sample: KeySample) -> (r: Option<InputEvent>)
        ensures
            r == self.sample_event(sample),
    {
        match (self, sample) {
            (KeyboardInput::Real, KeySample::Key { code, value }) => {
                if value != KEY_VALUE_DOWN {
                    None
                } else if code == KEY_UP {
                    Some(InputEvent::NavigateUp)
                } else if code == KEY_DOWN {
                    Some(InputEvent::NavigateDown)
                } else if code == KEY_LEFT {
                    Some(InputEvent::NavigateLeft)
                } else if code == KEY_RIGHT {
                    Some(InputEvent::NavigateRight)
                } else if code == KEY_SPACE {
                    Some(InputEvent::Activate)
                } else if code == KEY_ENTER {
                    Some(InputEvent::Select)
                } else if code == KEY_A {
                    Some(InputEvent::KeyPress('a'))
                } else if code == KEY_B {
                    Some(InputEvent::KeyPress('b'))
                } else {
                    None
                }
            },
            (KeyboardInput::Fake, KeySample::Console(byte)) => {
                if byte == 0x31 {
                    Some(InputEvent::ButtonPressed(BUTTON_APPS))
                } else if byte == 0x32 {
                    Some(InputEvent::ButtonPressed(BUTTON_PROFILE))
                } else if byte == 0x33 {
                    Some(InputEvent::ButtonPressed(BUTTON_SETTINGS))
                } else if byte == 0x0a || byte == 0x0d {
                    Some(InputEvent::Select)
                } else {
                    None
                }
            },
            _ => None,
        }
    }

    /// Maps the readings of one tick to events, in order; readings that
    /// the table does not name are dropped.
    pub fn poll(&self, samples: &Vec<KeySample>) -> (r: Vec<InputEvent>)
        ensures
            r@ == self.events_of(samples@),
    {
        let mut events: Vec<InputEvent> = Vec::new();
        let mut i: usize = 0;
        while i < samples.len()
            invariant
                i <= samples@.len(),
                events@ == self.events_of(samples@.take(i as int)),
            decreases samples@.len() - i,
        {
            let e = self.sample_to_event(samples[i]);
            proof {
                assert(samples@.take(i + 1 as int).drop_last() =~= samples@.take(i as int));
            }
            if let Some(ev) = e {
                events.push(ev);
            }
            i += 1;
        }
        assert(samples@.take(i as int) =~= samples@);
        events
    }
}

} // verus!
