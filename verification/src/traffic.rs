//! A three-light signal that moves to its next phase each time both
//! buttons have been pressed. The LEDs are driven active-low: an output
//! set low lights its LED.

use vstd::prelude::*;

verus! {

/// One of the three signal LEDs.
#[derive(Clone, Copy, Debug, PartialEq, Eq, Structural)]
pub enum Led {
    Green,
    Yellow,
    Red,
}

/// One thing the signal asks of its outputs or of the clock.
#[derive(Clone, Copy, Debug, PartialEq, Eq, Structural)]
pub enum LightAction {
    /// Wait this many milliseconds.
    WaitMillis(u64),
    /// Invert the output level of the LED.
    Toggle(Led),
    /// Drive the output of the LED low.
    SetLow(Led),
    /// Drive the output of the LED high.
    SetHigh(Led),
}

/// The output level of each LED (`true` is high).
#[derive(Clone, Copy, Debug, PartialEq, Eq, Structural)]
pub struct Levels {
    pub green: bool,
    pub yellow: bool,
    pub red: bool,
}

/// How long the signal waits after the buttons before it changes.
pub const SETTLE_MS: u64 = 100;

/// Half a period of the yellow blink while leaving the first phase.
pub const BLINK_MS: u64 = 100;

/// The number of phases of the cycle.
pub const PHASES: u8 = 3;

/// The level of `led` in `l`.
pub open spec fn level_of(l: Levels, led: Led) -> bool {
    match led {
        Led::Green => l.green,
        Led::Yellow => l.yellow,
        Led::Red => l.red,
    }
}

/// `l` with the level of `led` set to `v`.
pub open spec fn with_level(l: Levels, led: Led, v: bool) -> Levels {
    match led {
        Led::Green => Levels { green: v, ..l },
        Led::Yellow => Levels { yellow: v, ..l },
        Led::Red => Levels { red: v, ..l },
    }
}

/// The levels after performing `a`.
pub open spec fn apply_action(l: Levels, a: LightAction) -> Levels {
    match a {
        LightAction::WaitMillis(_) => l,
        LightAction::Toggle(led) => with_level(l, led, !level_of(l, led)),
        LightAction::SetLow(led) => with_level(l, led, false),
        LightAction::SetHigh(led) => with_level(l, led, true),
    }
}

/// The levels after performing the actions of `s` in order.
pub open spec fn apply_actions(l: Levels, s: Seq<LightAction>) -> Levels
    decreases s.len(),
{
    if s.len() == 0 {
        l
    } else {
        apply_actions(apply_action(l, s[0]), s.drop_first())
    }
}

/// Every output low, as the outputs are created.
pub open spec fn all_low() -> Levels {
    Levels { green: false, yellow: false, red: false }
}

/// The levels at rest in `phase`: only green lit in phase 0, only yellow in
/// phase 1, only red in phase 2.
pub open spec fn levels_for_phase(phase: int) -> Levels {
    Levels { green: phase != 0, yellow: phase != 1, red: phase != 2 }
}

/// The number of lit LEDs (outputs low).
pub open spec fn lit_count(l: Levels) -> int {
    (if l.green { 0int } else { 1int }) + (if l.yellow { 0int } else { 1int }) + (if l.red {
        0int
    } else {
        1int
    })
}

/// The actions that set the outputs up when the signal starts.
pub open spec fn start_actions() -> Seq<LightAction> {
    seq![
        LightAction::SetLow(Led::Green),
        LightAction::SetHigh(Led::Red),
        LightAction::SetHigh(Led::Yellow),
    ]
}

/// The actions performed when the buttons release the signal in `phase`:
/// after a short wait, phase 0 turns green off and blinks yellow twice
/// before lighting it, phase 1 turns yellow off and red on, and phase 2
/// turns red off and green on.
pub open spec fn phase_actions(phase: int) -> Seq<LightAction> {
    if phase == 0 {
        seq![
            LightAction::WaitMillis(SETTLE_MS),
            LightAction::Toggle(Led::Green),
            LightAction::Toggle(Led::Yellow),
            LightAction::WaitMillis(BLINK_MS),
            LightAction::Toggle(Led::Yellow),
            LightAction::WaitMillis(BLINK_MS),
            LightAction::Toggle(Led::Yellow),
            LightAction::WaitMillis(BLINK_MS),
            LightAction::Toggle(Led::Yellow),
            LightAction::WaitMillis(BLINK_MS),
            LightAction::SetLow(Led::Yellow),
        ]
    } else if phase == 1 {
        seq![
            LightAction::WaitMillis(SETTLE_MS),
            LightAction::Toggle(Led::Yellow),
            LightAction::Toggle(Led::Red),
        ]
    } else {
        seq![
            LightAction::WaitMillis(SETTLE_MS),
            LightAction::Toggle(Led::Red),
            LightAction::Toggle(Led::Green),
        ]
    }
}

/// The state of the signal: its phase and the level of each output.
pub struct TrafficLight {
    phase: u8,
    levels: Levels,
}

/// The abstract state of the signal.
pub struct TrafficView {
    pub phase: nat,
    pub levels: Levels,
}

/// The state that follows `v` when the buttons release it.
pub open spec fn next_view(v: TrafficView) -> TrafficView {
    TrafficView {
        phase: ((v.phase + 1) % 3) as nat,
        levels: apply_actions(v.levels, phase_actions(v.phase as int)),
    }
}

impl View for TrafficLight {
    type V = TrafficView;

    closed spec fn view(&self) -> TrafficView {
        TrafficView { phase: self.phase as nat, levels: self.levels }
    }
}

/// Performing the actions of `phase` from its rest levels reaches the rest
/// levels of the next phase.
proof fn lemma_phase_actions_reach_next(phase: int)
    requires
        0 <= phase < 3,
    ensures
        apply_actions(levels_for_phase(phase), phase_actions(phase)) == levels_for_phase(
            (phase + 1) % 3,
        ),
{
    reveal_with_fuel(apply_actions, 12);
    let s = phase_actions(phase);
    if phase == 0 {
        assert(s.drop_first()[0] == s[1]);
    }
    assert(apply_actions(levels_for_phase(phase), s) == levels_for_phase((phase + 1) % 3));
}

impl TrafficLight {
    /// The signal is in one of its phases, with the outputs at rest for it.
    pub closed spec fn wf(&self) -> bool {
        &&& self.phase < PHASES
        &&& self.levels == levels_for_phase(self.phase as int)
    }

    /// A signal in phase 0, and the actions that bring freshly created
    /// (all low) outputs to its levels.
    pub fn new() -> (res: (TrafficLight, Vec<LightAction>))
        ensures
            res.0.wf(),
            res.0@.phase == 0,
            res.1@ == start_actions(),
            apply_actions(all_low(), res.1@) == res.0@.levels,
            res.1@ == seq![
                LightAction::SetLow(Led::Green),
                LightAction::SetHigh(Led::Red),
                LightAction::SetHigh(Led::Yellow),
            ],
            !res.0@.levels.green && res.0@.levels.yellow && res.0@.levels.red,
    {
        let mut start: Vec<LightAction> = Vec::new();
        start.push(LightAction::SetLow(Led::Green));
        start.push(LightAction::SetHigh(Led::Red));
        start.push(LightAction::SetHigh(Led::Yellow));
        let tl = TrafficLight { phase: 0, levels: Levels { green: false, yellow: true, red: true } };
        proof {
            assert(start@ =~= start_actions());
            reveal_with_fuel(apply_actions, 4);
        }
        (tl, start)
    }

    /// The current phase.
    pub fn phase(&self) -> (p: u8)
        ensures
            p == self@.phase,
    {
        self.phase
    }

    /// The current output levels.
    pub fn levels(&self) -> (l: Levels)
        ensures
            l == self@.levels,
    {
        self.levels
    }

    /// The next state and the actions to perform once both buttons have
    /// been pressed.
    pub fn on_buttons(&self) -> (res: (TrafficLight, Vec<LightAction>))
        requires
            self.wf(),
        ensures
            res.0.wf(),
            res.1@ == phase_actions(self@.phase as int),
            res.0@ == next_view(self@),
            res.0@.phase == (self@.phase + 1) % 3,
            self@.phase == 0 ==> {
                &&& res.1@.len() == 11
                &&& res.1@[0] == LightAction::WaitMillis(100)
                &&& res.1@[1] == LightAction::Toggle(Led::Green)
                &&& res.1@[2] == LightAction::Toggle(Led::Yellow)
                &&& res.1@[3] == LightAction::WaitMillis(100)
                &&& res.1@[4] == LightAction::Toggle(Led::Yellow)
                &&& res.1@[5] == LightAction::WaitMillis(100)
                &&& res.1@[6] == LightAction::Toggle(Led::Yellow)
                &&& res.1@[7] == LightAction::WaitMillis(100)
                &&& res.1@[8] == LightAction::Toggle(Led::Yellow)
                &&& res.1@[9] == LightAction::WaitMillis(100)
                &&& res.1@[10] == LightAction::SetLow(Led::Yellow)
                &&& res.0@.levels.green && !res.0@.levels.yellow && res.0@.levels.red
            },
            self@.phase == 1 ==> {
                &&& res.1@ == seq![
                    LightAction::WaitMillis(100),
                    LightAction::Toggle(Led::Yellow),
                    LightAction::Toggle(Led::Red),
                ]
                &&& res.0@.levels.green && res.0@.levels.yellow && !res.0@.levels.red
            },
            self@.phase == 2 ==> {
                &&& res.1@ == seq![
                    LightAction::WaitMillis(100),
                    LightAction::Toggle(Led::Red),
                    LightAction::Toggle(Led::Green),
                ]
                &&& !res.0@.levels.green && res.0@.levels.yellow && res.0@.levels.red
            },
    {
        let mut actions: Vec<LightAction> = Vec::new();
        actions.push(LightAction::WaitMillis(SETTLE_MS));
        let next_levels: Levels;
        if self.phase == 0 {
            actions.push(LightAction::Toggle(Led::Green));
            let mut i: u8 = 0;
            while i < 4
                invariant
                    i <= 4,
                    actions@.len() == 2 + 2 * i,
                    forall|k: int|
                        0 <= k < 2 + 2 * i ==> actions@[k] == phase_actions(0)[k],
                decreases 4 - i,
            {
                actions.push(LightAction::Toggle(Led::Yellow));
                actions.push(LightAction::WaitMillis(BLINK_MS));
                i = i + 1;
            }
            actions.push(LightAction::SetLow(Led::Yellow));
            next_levels = Levels { green: true, yellow: false, red: true };
        } else if self.phase == 1 {
            actions.push(LightAction::Toggle(Led::Yellow));
            actions.push(LightAction::Toggle(Led::Red));
            next_levels = Levels { green: true, yellow: true, red: false };
        } else {
            actions.push(LightAction::Toggle(Led::Red));
            actions.push(LightAction::Toggle(Led::Green));
            next_levels = Levels { green: false, yellow: true, red: true };
        }
        let next = TrafficLight { phase: (self.phase + 1) % PHASES, levels: next_levels };
        proof {
            assert(actions@ =~= phase_actions(self.phase as int));
            lemma_phase_actions_reach_next(self.phase as int);
            lemma_phase0_blinks_yellow();
            lemma_phases_1_2_actions();
        }
        (next, actions)
    }
}

/// Leaving phase 0 waits, turns green off, then blinks yellow: four times
/// a toggle of yellow followed directly by a wait of `BLINK_MS`
/// milliseconds, and finally drives yellow low.
pub proof fn lemma_phase0_blinks_yellow()
    ensures
        phase_actions(0).len() == 11,
        phase_actions(0)[0] == LightAction::WaitMillis(100),
        phase_actions(0)[1] == LightAction::Toggle(Led::Green),
        phase_actions(0)[2] == LightAction::Toggle(Led::Yellow),
        phase_actions(0)[3] == LightAction::WaitMillis(100),
        phase_actions(0)[4] == LightAction::Toggle(Led::Yellow),
        phase_actions(0)[5] == LightAction::WaitMillis(100),
        phase_actions(0)[6] == LightAction::Toggle(Led::Yellow),
        phase_actions(0)[7] == LightAction::WaitMillis(100),
        phase_actions(0)[8] == LightAction::Toggle(Led::Yellow),
        phase_actions(0)[9] == LightAction::WaitMillis(100),
        phase_actions(0)[10] == LightAction::SetLow(Led::Yellow),
{
}

/// Leaving phase 1 waits, then turns yellow off and red on; leaving phase 2
/// waits, then turns red off and green on.
pub proof fn lemma_phases_1_2_actions()
    ensures
        phase_actions(1) == seq![
            LightAction::WaitMillis(100),
            LightAction::Toggle(Led::Yellow),
            LightAction::Toggle(Led::Red),
        ],
        phase_actions(2) == seq![
            LightAction::WaitMillis(100),
            LightAction::Toggle(Led::Red),
            LightAction::Toggle(Led::Green),
        ],
{
}

/// The rest levels of each phase light exactly the LED of that phase:
/// green in phase 0, yellow in phase 1 and red in phase 2.
pub proof fn lemma_rest_levels()
    ensures
        !levels_for_phase(0).green && levels_for_phase(0).yellow && levels_for_phase(0).red,
        levels_for_phase(1).green && !levels_for_phase(1).yellow && levels_for_phase(1).red,
        levels_for_phase(2).green && levels_for_phase(2).yellow && !levels_for_phase(2).red,
{
}

/// In every state the signal can be in, exactly one LED is lit.
pub proof fn lemma_exactly_one_lit(tl: TrafficLight)
    requires
        tl.wf(),
    ensures
        lit_count(tl@.levels) == 1,
{
}

/// Three releases bring the signal back to the state it started from.
pub proof fn lemma_cycle_of_three(tl: TrafficLight)
    requires
        tl.wf(),
    ensures
        next_view(next_view(next_view(tl@))) == tl@,
{
    let p: int = tl@.phase as int;
    lemma_phase_actions_reach_next(p);
    lemma_phase_actions_reach_next((p + 1) % 3);
    lemma_phase_actions_reach_next(((p + 1) % 3 + 1) % 3);
}

} // verus!
