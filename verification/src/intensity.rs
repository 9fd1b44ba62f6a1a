//! Brightness adjusted in steps by two push buttons.

use vstd::prelude::*;

verus! {

/// What a button press asks of the brightness.
#[derive(Clone, Copy, Debug, PartialEq, Eq, Structural)]
pub enum LedControl {
    Increase,
    Decrease,
}

/// The brightness before any button is pressed.
pub const INITIAL_INTENSITY: u16 = 50;

/// How much one press changes the brightness.
pub const INTENSITY_STEP: u16 = 5;

/// Whether `control` can be applied to `intensity` without leaving the
/// range of a `u16` (outside it the step overflows).
pub open spec fn step_in_range(intensity: u16, control: LedControl) -> bool {
    match control {
        LedControl::Increase => intensity + INTENSITY_STEP <= u16::MAX,
        LedControl::Decrease => intensity >= INTENSITY_STEP,
    }
}

/// The brightness after one press.
pub open spec fn stepped(intensity: int, control: LedControl) -> int {
    match control {
        LedControl::Increase => intensity + INTENSITY_STEP,
        LedControl::Decrease => intensity - INTENSITY_STEP,
    }
}

/// Whether `control` can be applied to `intensity` (see `step_in_range`).
pub fn can_adjust(intensity: u16, control: LedControl) -> (ok: bool)
    ensures
        ok == step_in_range(intensity, control),
        control == LedControl::Increase ==> (ok <==> intensity <= 65530),
        control == LedControl::Decrease ==> (ok <==> intensity >= 5),
{
    match control {
        LedControl::Increase => intensity <= u16::MAX - INTENSITY_STEP,
        LedControl::Decrease => intensity >= INTENSITY_STEP,
    }
}

/// The brightness after a press of the button that sends `control`: one
/// step up for `Increase`, one step down for `Decrease`.
pub fn adjust_inensity(intensity: u16, control: LedControl) -> (next: u16)
    requires
        step_in_range(intensity, control),
    ensures
        next == stepped(intensity as int, control),
        control == LedControl::Increase ==> next == intensity + 5,
        control == LedControl::Decrease ==> next == intensity - 5,
{
    match control {
        LedControl::Increase => intensity + INTENSITY_STEP,
        LedControl::Decrease => intensity - INTENSITY_STEP,
    }
}

/// A press is refused only at the edge of the range of a `u16`: brighter
/// up to 65530, dimmer down to 5; and it moves the brightness by exactly 5.
pub proof fn lemma_step_bounds(intensity: u16)
    ensures
        step_in_range(intensity, LedControl::Increase) <==> intensity <= 65530,
        step_in_range(intensity, LedControl::Decrease) <==> intensity >= 5,
        stepped(intensity as int, LedControl::Increase) == intensity + 5,
        stepped(intensity as int, LedControl::Decrease) == intensity - 5,
{
}

/// A press of one button undoes a press of the other.
pub proof fn lemma_adjust_undo(intensity: int)
    ensures
        stepped(stepped(intensity, LedControl::Increase), LedControl::Decrease) == intensity,
        stepped(stepped(intensity, LedControl::Decrease), LedControl::Increase) == intensity,
{
}

/// After one press the other button can always be pressed.
pub proof fn lemma_adjust_undo_in_range(intensity: u16, control: LedControl)
    requires
        step_in_range(intensity, control),
    ensures
        ({
            let next = stepped(intensity as int, control) as u16;
            let back = match control {
                LedControl::Increase => LedControl::Decrease,
                LedControl::Decrease => LedControl::Increase,
            };
            step_in_range(next, back) && stepped(next as int, back) == intensity
        }),
{
}

/// The brightness after the presses of `events`, in order, starting from
/// `start`.
pub open spec fn run_intensity(start: int, events: Seq<LedControl>) -> int
    decreases events.len(),
{
    if events.len() == 0 {
        start
    } else {
        stepped(run_intensity(start, events.drop_last()), events.last())
    }
}

/// The number of `Increase` presses in `events`.
pub open spec fn increase_count(events: Seq<LedControl>) -> int
    decreases events.len(),
{
    if events.len() == 0 {
        0
    } else {
        increase_count(events.drop_last()) + if events.last() == LedControl::Increase {
            1int
        } else {
            0int
        }
    }
}

/// The number of `Decrease` presses in `events`.
pub open spec fn decrease_count(events: Seq<LedControl>) -> int
    decreases events.len(),
{
    if events.len() == 0 {
        0
    } else {
        decrease_count(events.drop_last()) + if events.last() == LedControl::Decrease {
            1int
        } else {
            0int
        }
    }
}

/// Every press of `events`, made in order from `start`, stays within the
/// range of a `u16` (so that `adjust_inensity` can be applied to each).
pub open spec fn run_in_range(start: u16, events: Seq<LedControl>) -> bool {
    forall|k: int|
        0 <= k < events.len() ==> {
            let before = run_intensity(start as int, #[trigger] events.take(k));
            0 <= before <= u16::MAX && step_in_range(before as u16, events[k])
        }
}

/// Over a run of presses from the initial brightness, the brightness after
/// the first `k` presses is `50 + 5 * (increase_count - decrease_count)` of those
/// presses, a multiple of 5, and differs from the brightness before the
/// last of them by exactly +5 for `Increase` and -5 for `Decrease`.
pub proof fn lemma_run_of_presses(events: Seq<LedControl>, k: int)
    requires
        run_in_range(INITIAL_INTENSITY, events),
        0 <= k <= events.len(),
    ensures
        run_intensity(INITIAL_INTENSITY as int, events.take(k)) == INITIAL_INTENSITY
            + INTENSITY_STEP * (increase_count(events.take(k)) - decrease_count(events.take(k))),
        run_intensity(INITIAL_INTENSITY as int, events.take(k)) % 5 == 0,
        0 <= run_intensity(INITIAL_INTENSITY as int, events.take(k)) <= u16::MAX,
        k > 0 ==> run_intensity(INITIAL_INTENSITY as int, events.take(k)) == stepped(
            run_intensity(INITIAL_INTENSITY as int, events.take(k - 1)),
            events[k - 1],
        ),
    decreases k,
{
    let s = events.take(k);
    if k > 0 {
        lemma_run_of_presses(events, k - 1);
        assert(s.drop_last() =~= events.take(k - 1));
        assert(s.last() == events[k - 1]);
        let before = run_intensity(INITIAL_INTENSITY as int, events.take(k - 1));
        assert(step_in_range(before as u16, events[k - 1]));
        let n = increase_count(events.take(k - 1)) - decrease_count(events.take(k - 1));
        assert(before == 50 + 5 * n);
        assert((50 + 5 * n) % 5 == 0) by (nonlinear_arith);
        match events[k - 1] {
            LedControl::Increase => {
                assert((50 + 5 * (n + 1)) % 5 == 0) by (nonlinear_arith);
            },
            LedControl::Decrease => {
                assert((50 + 5 * (n - 1)) % 5 == 0) by (nonlinear_arith);
            },
        }
    } else {
        assert(s.len() == 0);
    }
}

} // verus!
