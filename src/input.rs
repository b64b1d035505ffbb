use vstd::prelude::*;

verus! {

/// The state of the single swing button, as the systems see it in one tick.
#[derive(Clone, Copy, Debug, PartialEq, Eq, Structural)]
pub enum InputState {
    JustPressed,
    Pressed,
    JustReleased,
    Released,
}

/// What one tick of the simulation is told: the time since the last tick and
/// the finalized button state.
#[derive(Clone, Copy, Debug, PartialEq, Eq, Structural)]
pub struct TickData {
    pub delta_ms: u32,
    pub input_state: InputState,
}

impl TickData {
    /// A tick with no elapsed time and the button up.
    pub fn new() -> (r: Self)
        ensures
            r.delta_ms == 0,
            r.input_state == InputState::Released,
    {
        TickData { input_state: InputState::Released, delta_ms: 0 }
    }
}

/// The button counts as held: held down since an earlier tick, or let go
/// just now after being held.
pub open spec fn is_held(s: InputState) -> bool {
    s is Pressed || s is JustReleased
}

pub fn key_pressed(input: &InputState) -> (r: bool)
    ensures
        r == is_held(*input),
{
    match *input {
        InputState::Pressed | InputState::JustReleased => true,
        _ => false,
    }
}

/// The finalized state of this tick: an edge state that was already seen
/// last tick, and that no new event has set again, becomes the level state.
pub open spec fn decayed(last: InputState, current: InputState) -> InputState {
    if last is JustPressed && current is JustPressed {
        InputState::Pressed
    } else if last is JustReleased && current is JustReleased {
        InputState::Released
    } else {
        current
    }
}

/// The state after the button goes down; a key repeat while it is held
/// changes nothing.
pub open spec fn after_key_down(s: InputState) -> InputState {
    if s is Pressed {
        s
    } else {
        InputState::JustPressed
    }
}

/// The last finalized tick and the tick being gathered from input events.
#[derive(Clone, Copy, Debug)]
pub struct InputTracker {
    pub last_tick: TickData,
    pub current_tick: TickData,
}

impl InputTracker {
    pub fn new() -> (r: Self)
        ensures
            r.last_tick == (TickData { delta_ms: 0, input_state: InputState::Released }),
            r.current_tick == (TickData { delta_ms: 0, input_state: InputState::Released }),
    {
        InputTracker { last_tick: TickData::new(), current_tick: TickData::new() }
    }

    /// The swing button went down.
    pub fn key_down_event(&mut self)
        ensures
            final(self).last_tick == old(self).last_tick,
            final(self).current_tick.delta_ms == old(self).current_tick.delta_ms,
            final(self).current_tick.input_state == after_key_down(
                old(self).current_tick.input_state,
            ),
    {
        if self.current_tick.input_state != InputState::Pressed {
            self.current_tick.input_state = InputState::JustPressed;
        }
    }

    /// The swing button went up.
    pub fn key_up_event(&mut self)
        ensures
            final(self).last_tick == old(self).last_tick,
            final(self).current_tick.delta_ms == old(self).current_tick.delta_ms,
            final(self).current_tick.input_state == InputState::JustReleased,
    {
        self.current_tick.input_state = InputState::JustReleased;
    }

    /// Finalizes the current tick: records the elapsed time and decays the
    /// button state against the last tick. Returns the finalized tick.
    pub fn update_current_tick_data(&mut self, delta_ms: u32) -> (r: TickData)
        ensures
            final(self).last_tick == old(self).last_tick,
            final(self).current_tick.delta_ms == delta_ms,
            final(self).current_tick.input_state == decayed(
                old(self).last_tick.input_state,
                old(self).current_tick.input_state,
            ),
            r == final(self).current_tick,
    {
        self.current_tick.delta_ms = delta_ms;
        match self.last_tick.input_state {
            InputState::JustPressed => {
                if self.current_tick.input_state == InputState::JustPressed {
                    self.current_tick.input_state = InputState::Pressed;
                }
            },
            InputState::JustReleased => {
                if self.current_tick.input_state == InputState::JustReleased {
                    self.current_tick.input_state = InputState::Released;
                }
            },
            _ => {},
        }
        self.current_tick
    }

    /// Closes the tick: the finalized tick becomes the last tick.
    pub fn finish_tick(&mut self)
        ensures
            final(self).last_tick == old(self).current_tick,
            final(self).current_tick == old(self).current_tick,
    {
        self.last_tick = self.current_tick;
    }
}

/// A press that was already seen last tick settles into `Pressed`. With no
/// new event the rule reaches a fixed point: decaying again against the same
/// last tick changes nothing, and one more tick without events leaves a level
/// state (`Pressed` or `Released`) that never decays further.
pub proof fn lemma_decay_settles(last: InputState, current: InputState)
    ensures
        last is JustPressed && current is JustPressed ==> decayed(last, current) is Pressed,
        decayed(last, decayed(last, current)) == decayed(last, current),
        ({
            let settled = decayed(decayed(last, current), decayed(last, current));
            &&& settled is Pressed || settled is Released
            &&& decayed(settled, settled) == settled
        }),
{
}

} // verus!
