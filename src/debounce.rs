use vstd::prelude::*;

verus! {

/// Milliseconds a press must last before it counts.
pub const SETTLE_MS: u32 = 50;

/// Where the debounced button reader stands between two samples.
#[derive(Clone, Copy, Debug, PartialEq, Eq, Structural)]
pub enum ButtonState {
    /// Waiting for a press.
    Stable,
    /// A press was seen; the next sample, taken after the settling delay,
    /// decides whether it was real.
    Confirming,
    /// A press was confirmed; waiting for the button to be released.
    AwaitRelease,
}

/// What the caller does after a sample.
#[derive(Clone, Copy, Debug, PartialEq, Eq, Structural)]
pub enum ButtonAction {
    /// Sample again.
    Idle,
    /// Wait the settling delay, then sample again.
    Settle,
    /// A press is confirmed: emit one toggle, then sample again.
    Toggle,
}

pub open spec fn button_step_spec(state: ButtonState, pressed: bool) -> (ButtonState, ButtonAction) {
    match state {
        ButtonState::Stable => if pressed {
            (ButtonState::Confirming, ButtonAction::Settle)
        } else {
            (ButtonState::Stable, ButtonAction::Idle)
        },
        ButtonState::Confirming => if pressed {
            (ButtonState::AwaitRelease, ButtonAction::Toggle)
        } else {
            (ButtonState::Stable, ButtonAction::Idle)
        },
        ButtonState::AwaitRelease => if pressed {
            (ButtonState::AwaitRelease, ButtonAction::Idle)
        } else {
            (ButtonState::Stable, ButtonAction::Idle)
        },
    }
}

/// Advances the debounced button reader by one sample of the pin.
pub fn button_step(state: ButtonState, pressed: bool) -> (r: (ButtonState, ButtonAction))
    ensures
        r == button_step_spec(state, pressed),
{
    match state {
        ButtonState::Stable => if pressed {
            (ButtonState::Confirming, ButtonAction::Settle)
        } else {
            (ButtonState::Stable, ButtonAction::Idle)
        },
        ButtonState::Confirming => if pressed {
            (ButtonState::AwaitRelease, ButtonAction::Toggle)
        } else {
            (ButtonState::Stable, ButtonAction::Idle)
        },
        ButtonState::AwaitRelease => if pressed {
            (ButtonState::AwaitRelease, ButtonAction::Idle)
        } else {
            (ButtonState::Stable, ButtonAction::Idle)
        },
    }
}

pub open spec fn state_rank(state: ButtonState) -> nat {
    match state {
        ButtonState::Stable => 1,
        _ => 0,
    }
}

/// Number of toggles the reader emits when it starts in `state` at millisecond
/// `t` of `trace`, where `trace[t]` is whether the button is pressed at
/// millisecond `t`. A plain sample takes one millisecond, the settling delay
/// `settle` milliseconds; the reader stops at the end of the trace.
pub open spec fn toggles_from(trace: Seq<bool>, settle: nat, t: nat, state: ButtonState) -> nat
    decreases (if t < trace.len() { trace.len() - t } else { 0 }), state_rank(state),
{
    if t >= trace.len() {
        0
    } else {
        let (next, action) = button_step_spec(state, trace[t as int]);
        let later: nat = if action == ButtonAction::Settle {
            t + settle
        } else {
            t + 1
        };
        let emitted: nat = if action == ButtonAction::Toggle {
            1
        } else {
            0
        };
        emitted + toggles_from(trace, settle, later, next)
    }
}

/// Runs the debounced reader over a millisecond trace of the pin and counts
/// the toggles it emits.
pub fn count_toggles(trace: &Vec<bool>, settle_ms: usize) -> (r: usize)
    ensures
        r as int == toggles_from(trace@, settle_ms as nat, 0, ButtonState::Stable),
{
    let len: usize = trace.len();
    let mut t: usize = 0;
    let mut state = ButtonState::Stable;
    let mut count: usize = 0;
    while t < len
        invariant
            len == trace@.len(),
            t <= len,
            count <= t,
            count + toggles_from(trace@, settle_ms as nat, t as nat, state) == toggles_from(
                trace@,
                settle_ms as nat,
                0,
                ButtonState::Stable,
            ),
        decreases len - t, state_rank(state),
    {
        let (next, action) = button_step(state, trace[t]);
        assert(toggles_from(trace@, settle_ms as nat, t as nat, state) == (if action
            == ButtonAction::Toggle {
            1int
        } else {
            0int
        }) + toggles_from(
            trace@,
            settle_ms as nat,
            (if action == ButtonAction::Settle {
                t + settle_ms
            } else {
                t + 1
            }) as nat,
            next,
        ));
        match action {
            ButtonAction::Settle => {
                if settle_ms >= len - t {
                    assert(toggles_from(trace@, settle_ms as nat, (t + settle_ms) as nat, next)
                        == 0);
                    t = len;
                } else {
                    t = t + settle_ms;
                }
            },
            ButtonAction::Toggle => {
                count = count + 1;
                t = t + 1;
            },
            ButtonAction::Idle => {
                t = t + 1;
            },
        }
        state = next;
    }
    count
}

/// A pin that stays released for `before` milliseconds, is pressed for `held`
/// milliseconds, then stays released for `after` milliseconds.
pub open spec fn press_trace(before: nat, held: nat, after: nat) -> Seq<bool> {
    Seq::new(before + held + after, |t: int| before <= t < before + held)
}

proof fn lemma_released_run(trace: Seq<bool>, settle: nat, t: nat, stop: nat)
    requires
        t <= stop <= trace.len(),
        forall|k: int| t <= k < stop ==> !#[trigger] trace[k],
    ensures
        toggles_from(trace, settle, t, ButtonState::Stable) == toggles_from(
            trace,
            settle,
            stop,
            ButtonState::Stable,
        ),
    decreases stop - t,
{
    if t < stop {
        lemma_released_run(trace, settle, t + 1, stop);
    }
}

proof fn lemma_held_run(trace: Seq<bool>, settle: nat, t: nat, stop: nat)
    requires
        t <= stop <= trace.len(),
        forall|k: int| t <= k < stop ==> #[trigger] trace[k],
    ensures
        toggles_from(trace, settle, t, ButtonState::AwaitRelease) == toggles_from(
            trace,
            settle,
            stop,
            ButtonState::AwaitRelease,
        ),
    decreases stop - t,
{
    if t < stop {
        lemma_held_run(trace, settle, t + 1, stop);
    }
}

proof fn lemma_released_to_end(trace: Seq<bool>, settle: nat, t: nat)
    requires
        forall|k: int| t <= k < trace.len() ==> !#[trigger] trace[k],
    ensures
        toggles_from(trace, settle, t, ButtonState::Stable) == 0,
{
    if t < trace.len() {
        lemma_released_run(trace, settle, t, trace.len());
        assert(toggles_from(trace, settle, trace.len(), ButtonState::Stable) == 0);
    }
}

/// A press no longer than the settling delay is taken for bounce and emits no
/// toggle; a longer one emits exactly one toggle, however long it is held.
pub proof fn lemma_debounce_press(before: nat, held: nat, after: nat, settle: nat)
    ensures
        held <= settle ==> toggles_from(
            press_trace(before, held, after),
            settle,
            0,
            ButtonState::Stable,
        ) == 0,
        held > settle ==> toggles_from(
            press_trace(before, held, after),
            settle,
            0,
            ButtonState::Stable,
        ) == 1,
{
    let trace = press_trace(before, held, after);
    let len = before + held + after;
    let end_press = before + held;
    lemma_released_run(trace, settle, 0, before);
    if held == 0 {
        lemma_released_to_end(trace, settle, before);
    } else {
        let sample = before + settle;
        assert(toggles_from(trace, settle, before, ButtonState::Stable) == toggles_from(
            trace,
            settle,
            sample,
            ButtonState::Confirming,
        ));
        if held <= settle {
            if sample < len {
                assert(!trace[sample as int]);
                assert(toggles_from(trace, settle, sample, ButtonState::Confirming) == toggles_from(
                    trace,
                    settle,
                    sample + 1,
                    ButtonState::Stable,
                ));
                lemma_released_to_end(trace, settle, sample + 1);
            }
        } else {
            assert(trace[sample as int]);
            assert(toggles_from(trace, settle, sample, ButtonState::Confirming) == 1
                + toggles_from(trace, settle, sample + 1, ButtonState::AwaitRelease));
            lemma_held_run(trace, settle, sample + 1, end_press);
            if end_press < len {
                assert(!trace[end_press as int]);
                assert(toggles_from(trace, settle, end_press, ButtonState::AwaitRelease)
                    == toggles_from(trace, settle, end_press + 1, ButtonState::Stable));
                lemma_released_to_end(trace, settle, end_press + 1);
            }
        }
    }
}

/// The table lamp: a debounced button whose confirmed presses toggle the LED.
#[derive(Clone, Copy, Debug, PartialEq, Eq, Structural)]
pub struct TableLamp {
    pub button: ButtonState,
    pub led_on: bool,
}

impl TableLamp {
    /// A lamp whose button is at rest.
    pub fn new(led_on: bool) -> (r: TableLamp)
        ensures
            r == (TableLamp { button: ButtonState::Stable, led_on }),
    {
        TableLamp { button: ButtonState::Stable, led_on }
    }

    /// Takes one sample of the button; on a confirmed press the LED flips.
    pub fn sample(&mut self, pressed: bool) -> (r: ButtonAction)
        ensures
            (final(self).button, r) == button_step_spec(old(self).button, pressed),
            final(self).led_on == (if r == ButtonAction::Toggle {
                !old(self).led_on
            } else {
                old(self).led_on
            }),
    {
        let (next, action) = button_step(self.button, pressed);
        self.button = next;
        if action == ButtonAction::Toggle {
            self.led_on = !self.led_on;
        }
        action
    }
}

/// Whether the lamp's LED is on after the button follows `trace`, starting
/// from `led_on`: every emitted toggle flips it.
pub fn lamp_after(trace: &Vec<bool>, settle_ms: usize, led_on: bool) -> (r: bool)
    ensures
        r == (led_on != (toggles_from(trace@, settle_ms as nat, 0, ButtonState::Stable) % 2 == 1)),
{
    let toggles = count_toggles(trace, settle_ms);
    led_on != (toggles % 2 == 1)
}

} // verus!
