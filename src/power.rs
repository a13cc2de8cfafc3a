//! What the power button does to the DC power supply.
use vstd::prelude::*;

verus! {

/// The states we can be in controlling the DC power.
#[derive(Debug, Copy, Clone, PartialEq, Eq, Structural)]
pub enum DcPowerState {
    /// We've just enabled the DC power (so ignore any incoming long presses!)
    Starting,
    /// We are now fully on. Look for a long press to turn off.
    On,
    /// We are fully off.
    Off,
}

/// A change of a debounced button: pressed, or released.
#[derive(Debug, Copy, Clone, PartialEq, Eq, Structural)]
pub enum Edge {
    Rising,
    Falling,
}

/// What the board must do after a button poll.
#[derive(Debug, Copy, Clone, PartialEq, Eq, Structural)]
pub enum PowerAction {
    /// Light the power LED, enable the DC supply and take the system out of
    /// reset.
    PowerOn,
    /// Put the system in reset, disable the DC supply, dark the power LED and
    /// start blinking it again.
    PowerOff,
}

/// The next state and action, given the long-press and short-press edges
/// seen at one poll: a short press while off powers on, its release makes
/// the power fully on, and a long press while fully on powers off.
pub open spec fn power_transition(
    state: DcPowerState,
    long_edge: Option<Edge>,
    short_edge: Option<Edge>,
) -> (DcPowerState, Option<PowerAction>) {
    match (long_edge, short_edge, state) {
        (None, Some(Edge::Rising), DcPowerState::Off) => (DcPowerState::Starting, Some(PowerAction::PowerOn)),
        (None, Some(Edge::Falling), DcPowerState::Starting) => (DcPowerState::On, None),
        (Some(Edge::Rising), None, DcPowerState::On) => (DcPowerState::Off, Some(PowerAction::PowerOff)),
        _ => (state, None),
    }
}

impl DcPowerState {
    /// Dispatch the edges of one button poll.
    pub fn on_button_poll(self, long_edge: Option<Edge>, short_edge: Option<Edge>) -> (r: (
        DcPowerState,
        Option<PowerAction>,
    ))
        ensures
            r == power_transition(self, long_edge, short_edge),
    {
        match (long_edge, short_edge, self) {
            (None, Some(Edge::Rising), DcPowerState::Off) => (DcPowerState::Starting, Some(PowerAction::PowerOn)),
            (None, Some(Edge::Falling), DcPowerState::Starting) => (DcPowerState::On, None),
            (Some(Edge::Rising), None, DcPowerState::On) => (DcPowerState::Off, Some(PowerAction::PowerOff)),
            _ => (self, None),
        }
    }
}

/// Power is switched on only from off, and off only from fully on.
pub proof fn lemma_power_actions(state: DcPowerState, long_edge: Option<Edge>, short_edge: Option<Edge>)
    ensures
        power_transition(state, long_edge, short_edge).1 == Some(PowerAction::PowerOn) ==> state
            == DcPowerState::Off,
        power_transition(state, long_edge, short_edge).1 == Some(PowerAction::PowerOff) ==> state
            == DcPowerState::On,
{
}

#[verifier::external_type_specification]
#[verifier::external_body]
#[verifier::reject_recursive_types(S)]
#[verifier::reject_recursive_types(M)]
pub struct ExDebouncer<S, M>(debouncr::Debouncer<S, M>);

#[verifier::external_type_specification]
#[verifier::external_body]
pub struct ExRepeat2(debouncr::Repeat2);

#[verifier::external_type_specification]
#[verifier::external_body]
pub struct ExRepeat16(debouncr::Repeat16);

/// The last two samples a two-sample debouncer holds, newest in bit 0.
pub uninterp spec fn short_history(d: debouncr::Debouncer<u8, debouncr::Repeat2>) -> u8;

/// The last sixteen samples a sixteen-sample debouncer holds, newest in bit 0.
pub uninterp spec fn long_history(d: debouncr::Debouncer<u16, debouncr::Repeat16>) -> u16;

/// One debouncer step on a history of samples under `mask`: a sample that
/// agrees with a settled history changes nothing; otherwise it is shifted
/// in, and an edge is reported when the history becomes all pressed
/// (`Rising`) or all released (`Falling`).
pub open spec fn debounce_step(history: u16, mask: u16, pressed: bool) -> (u16, Option<Edge>) {
    if (history == mask && pressed) || (history == 0 && !pressed) {
        (history, None)
    } else {
        let next = ((history << 1u16) | (if pressed { 1u16 } else { 0u16 })) & mask;
        (next, if next == mask {
            Some(Edge::Rising)
        } else if next == 0 {
            Some(Edge::Falling)
        } else {
            None
        })
    }
}

/// Relies on debouncr::debounce_2: the history starts all pressed or all
/// released.
#[verifier::external_body]
fn new_short_debouncer(pressed: bool) -> (r: debouncr::Debouncer<u8, debouncr::Repeat2>)
    ensures
        short_history(r) == (if pressed { 3u8 } else { 0u8 }),
{
    debouncr::debounce_2(pressed)
}

/// Relies on debouncr::debounce_16: the history starts all pressed or all
/// released.
#[verifier::external_body]
fn new_long_debouncer(pressed: bool) -> (r: debouncr::Debouncer<u16, debouncr::Repeat16>)
    ensures
        long_history(r) == (if pressed { 0xFFFFu16 } else { 0u16 }),
{
    debouncr::debounce_16(pressed)
}

/// Relies on debouncr's `Debouncer<u8, Repeat2>::update`: one step of
/// `debounce_step` on the two-bit history.
#[verifier::external_body]
fn update_short_debouncer(d: &mut debouncr::Debouncer<u8, debouncr::Repeat2>, pressed: bool) -> (r: Option<Edge>)
    ensures
        short_history(*final(d)) as u16 == debounce_step(short_history(*old(d)) as u16, 3, pressed).0,
        r == debounce_step(short_history(*old(d)) as u16, 3, pressed).1,
{
    match d.update(pressed) {
        Some(debouncr::Edge::Rising) => Some(Edge::Rising),
        Some(debouncr::Edge::Falling) => Some(Edge::Falling),
        None => None,
    }
}

/// Relies on debouncr's `Debouncer<u16, Repeat16>::update`: one step of
/// `debounce_step` on the sixteen-bit history.
#[verifier::external_body]
fn update_long_debouncer(d: &mut debouncr::Debouncer<u16, debouncr::Repeat16>, pressed: bool) -> (r: Option<Edge>)
    ensures
        long_history(*final(d)) == debounce_step(long_history(*old(d)), 0xFFFF, pressed).0,
        r == debounce_step(long_history(*old(d)), 0xFFFF, pressed).1,
{
    match d.update(pressed) {
        Some(debouncr::Edge::Rising) => Some(Edge::Rising),
        Some(debouncr::Edge::Falling) => Some(Edge::Falling),
        None => None,
    }
}

/// The power button: a short-press and a long-press debouncer, sampled at
/// each poll, and the DC power state they drive.
pub struct PowerButton {
    /// Tracks power button state for short presses (two polls).
    short_press: debouncr::Debouncer<u8, debouncr::Repeat2>,
    /// Tracks power button state for long presses (sixteen polls).
    long_press: debouncr::Debouncer<u16, debouncr::Repeat16>,
    /// Tracks DC power state
    state: DcPowerState,
}

/// The state of a [`PowerButton`].
pub struct PowerButtonView {
    pub short_history: u16,
    pub long_history: u16,
    pub state: DcPowerState,
}

impl View for PowerButton {
    type V = PowerButtonView;

    closed spec fn view(&self) -> PowerButtonView {
        PowerButtonView {
            short_history: short_history(self.short_press) as u16,
            long_history: long_history(self.long_press),
            state: self.state,
        }
    }
}

impl PowerButton {
    /// A released button with the power off.
    pub fn new() -> (r: PowerButton)
        ensures
            r@ == (PowerButtonView { short_history: 0, long_history: 0, state: DcPowerState::Off }),
    {
        PowerButton {
            short_press: new_short_debouncer(false),
            long_press: new_long_debouncer(false),
            state: DcPowerState::Off,
        }
    }

    /// The DC power state.
    pub fn state(&self) -> (r: DcPowerState)
        ensures
            r == self@.state,
    {
        self.state
    }

    /// Sample the button once: feed both debouncers and dispatch their
    /// edges.
    pub fn poll(&mut self, pressed: bool) -> (r: Option<PowerAction>)
        ensures
            ({
                let short = debounce_step(old(self)@.short_history, 3, pressed);
                let long = debounce_step(old(self)@.long_history, 0xFFFF, pressed);
                let next = power_transition(old(self)@.state, long.1, short.1);
                &&& final(self)@ == (PowerButtonView {
                    short_history: short.0,
                    long_history: long.0,
                    state: next.0,
                })
                &&& r == next.1
            }),
    {
        let short_edge = update_short_debouncer(&mut self.short_press, pressed);
        let long_edge = update_long_debouncer(&mut self.long_press, pressed);
        let (state, action) = self.state.on_button_poll(long_edge, short_edge);
        self.state = state;
        action
    }
}

} // verus!
