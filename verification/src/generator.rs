//! The actuation generator's decision logic. While the run flag is set it
//! emits one press/release pair per cycle on the configured button, with
//! durations from the timing module; otherwise it idles. On termination
//! it always emits one final release for the last-used button, so no
//! button is ever left logically pressed — whatever state the run was in.
//!
//! This module decides; the display layer executes the actions and does
//! the sleeping. The emitted events of a whole run are modelled as a
//! sequence, and the release-on-exit law is proved over every run.

use vstd::prelude::*;
use crate::button::{button_or_primary, spec_button_or_primary};
use crate::settings::Settings;
use crate::timing::{compute_timing, off_ns, on_ns, period_ns};

verus! {

/// How long the generator sleeps per cycle while inactive: 5 milliseconds.
pub const IDLE_SLEEP_NS: u64 = 5_000_000;

/// A synthetic pointer-button event, as handed to the display.
#[derive(Clone, Copy, Debug, PartialEq, Eq, Structural)]
pub enum ButtonEvent {
    Press(u32),
    Release(u32),
}

/// The generator's mutable state: the button of the most recent press,
/// which the final safety release must name.
pub struct GenState {
    pub last_button: u32,
}

/// What one generator cycle decided.
#[derive(Clone, Copy, Debug, PartialEq, Eq, Structural)]
pub enum GenAction {
    /// The run flag is clear: emit nothing, sleep briefly, poll again.
    Idle { sleep_ns: u64 },
    /// The run flag is set: press `button`, hold it `on_ns`, release it,
    /// then stay idle `off_ns`.
    Click { button: u32, on_ns: u128, off_ns: u128 },
}

/// The button events one action emits.
pub open spec fn events_of_action(a: GenAction) -> Seq<ButtonEvent> {
    match a {
        GenAction::Idle { .. } => Seq::empty(),
        GenAction::Click { button, .. } => seq![
            ButtonEvent::Press(button),
            ButtonEvent::Release(button),
        ],
    }
}

/// The state after one cycle: an active cycle records the button it
/// pressed, an idle cycle changes nothing.
pub open spec fn spec_step_state(st: GenState, active: bool, s: Settings) -> GenState {
    if active {
        GenState { last_button: spec_button_or_primary(s.button_name@) }
    } else {
        st
    }
}

/// The events one cycle emits: an active cycle presses and releases the
/// configured button (degraded to primary if the selector does not
/// parse), an idle cycle emits nothing.
pub open spec fn spec_step_events(active: bool, s: Settings) -> Seq<ButtonEvent> {
    if active {
        seq![
            ButtonEvent::Press(spec_button_or_primary(s.button_name@)),
            ButtonEvent::Release(spec_button_or_primary(s.button_name@)),
        ]
    } else {
        Seq::empty()
    }
}

/// One cycle of the generator, deciding from the run flag and a fresh
/// configuration snapshot. An active cycle's on and off durations
/// partition the period computed from the snapshot.
pub fn gen_step(st: &mut GenState, active: bool, settings: &Settings) -> (a: GenAction)
    ensures
        *final(st) == spec_step_state(*old(st), active, *settings),
        events_of_action(a) == spec_step_events(active, *settings),
        match a {
            GenAction::Idle { sleep_ns } => !active && sleep_ns == IDLE_SLEEP_NS,
            GenAction::Click { button, on_ns: on, off_ns: off } => {
                &&& active
                &&& button == spec_button_or_primary(settings.button_name@)
                &&& 1 <= button <= 9
                &&& on == on_ns(settings.rate, settings.duty)
                &&& off == off_ns(settings.rate, settings.duty)
                &&& on + off == period_ns(settings.rate)
                &&& final(st).last_button == button
            },
        },
{
    if active {
        let button = button_or_primary(settings.button_name.as_str());
        let t = compute_timing(settings.rate, settings.duty);
        st.last_button = button;
        GenAction::Click { button, on_ns: t.on_ns, off_ns: t.off_ns }
    } else {
        GenAction::Idle { sleep_ns: IDLE_SLEEP_NS }
    }
}

/// The final safety event: a release for the last-used button, emitted
/// unconditionally when the generator's loop exits.
pub fn gen_shutdown(st: &GenState) -> (e: ButtonEvent)
    ensures
        e == ButtonEvent::Release(st.last_button),
{
    ButtonEvent::Release(st.last_button)
}

/// One cycle's input: the run flag and the configuration snapshot read
/// that cycle.
pub struct GenInput {
    pub active: bool,
    pub settings: Settings,
}

/// The generator's state after a whole run of cycles.
pub open spec fn run_state(st: GenState, inputs: Seq<GenInput>) -> GenState
    decreases inputs.len(),
{
    if inputs.len() == 0 {
        st
    } else {
        spec_step_state(
            run_state(st, inputs.drop_last()),
            inputs.last().active,
            inputs.last().settings,
        )
    }
}

/// Everything a whole run of cycles emits, in order.
pub open spec fn run_events(st: GenState, inputs: Seq<GenInput>) -> Seq<ButtonEvent>
    decreases inputs.len(),
{
    if inputs.len() == 0 {
        Seq::empty()
    } else {
        run_events(st, inputs.drop_last()) + spec_step_events(
            inputs.last().active,
            inputs.last().settings,
        )
    }
}

/// Over any run: events come in press/release pairs on one button, and
/// the state's last-used button is the button of the last emitted event
/// (or the starting button if nothing was emitted). With `gen_shutdown`
/// this is the termination law: whenever the run ends — active or not —
/// the final emitted event is a release for the last-used button.
pub proof fn lemma_run_tracks_last_button(st: GenState, inputs: Seq<GenInput>)
    ensures
        run_events(st, inputs).len() % 2 == 0,
        run_events(st, inputs).len() == 0 ==> run_state(st, inputs) == st,
        run_events(st, inputs).len() > 0 ==> run_events(st, inputs).last()
            == ButtonEvent::Release(run_state(st, inputs).last_button),
    decreases inputs.len(),
{
    if inputs.len() > 0 {
        lemma_run_tracks_last_button(st, inputs.drop_last());
        let prev = run_events(st, inputs.drop_last());
        let step = spec_step_events(inputs.last().active, inputs.last().settings);
        if step.len() > 0 {
            assert((prev + step).last() == step.last());
        } else {
            assert(prev + step =~= prev);
        }
    }
}

/// Over any run, the event at each even position is a press and the next
/// event releases the same button: no press is left unmatched.
pub proof fn lemma_run_events_paired(st: GenState, inputs: Seq<GenInput>)
    ensures
        run_events(st, inputs).len() % 2 == 0,
        forall|i: int|
            0 <= i < run_events(st, inputs).len() && i % 2 == 0 ==> {
                &&& (#[trigger] run_events(st, inputs)[i]) matches ButtonEvent::Press(b)
                &&& run_events(st, inputs)[i + 1] == ButtonEvent::Release(b)
            },
    decreases inputs.len(),
{
    if inputs.len() > 0 {
        lemma_run_events_paired(st, inputs.drop_last());
        let prev = run_events(st, inputs.drop_last());
        let step = spec_step_events(inputs.last().active, inputs.last().settings);
        let all = run_events(st, inputs);
        assert(all == prev + step);
        assert forall|i: int| 0 <= i < all.len() && i % 2 == 0 implies {
            &&& (#[trigger] all[i]) matches ButtonEvent::Press(b)
            &&& all[i + 1] == ButtonEvent::Release(b)
        } by {
            if i + 1 < prev.len() {
                assert(all[i] == prev[i]);
                assert(all[i + 1] == prev[i + 1]);
            } else {
                assert(i == prev.len());
            }
        }
    }
}

} // verus!
