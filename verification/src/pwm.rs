//! PWM slice configuration for dimming LEDs by a percentage.

use vstd::prelude::*;

verus! {

/// The PWM counter wrap value used for LED dimming.
pub const TOP_PWM_VAL: u16 = 0x9088;

/// Which output channel(s) of a PWM slice a duty ratio is applied to.
#[derive(Clone, Copy, Debug, PartialEq, Eq, Structural)]
pub enum Lane {
    LaneA,
    LaneB,
    Both,
}

/// The settings of one PWM slice, as plain values.
///
/// `divider_bits` is the raw value of the fractional clock divider, a
/// fixed-point number with 4 fractional bits (so `16` means a divider of 1).
#[derive(Clone, Copy, Debug, PartialEq, Eq, Structural)]
pub struct PwmConfig {
    pub invert_a: bool,
    pub invert_b: bool,
    pub phase_correct: bool,
    pub enable: bool,
    pub divider_bits: u16,
    pub compare_a: u16,
    pub compare_b: u16,
    pub top: u16,
}

/// The raw divider value that stands for a divider of exactly 1.
pub const DIVIDER_ONE_BITS: u16 = 16;

/// The configuration a PWM slice starts from: enabled, not inverted, not
/// phase-correct, divider 1, both compares 0 and the counter wrapping at
/// `0xffff`.
pub open spec fn default_config() -> PwmConfig {
    PwmConfig {
        invert_a: false,
        invert_b: false,
        phase_correct: false,
        enable: true,
        divider_bits: DIVIDER_ONE_BITS,
        compare_a: 0,
        compare_b: 0,
        top: 0xffff,
    }
}

/// The compare value that lights an active-low LED at `ratio` percent:
/// the counter is held high for the remaining `100 - ratio` percent of
/// `TOP_PWM_VAL`, and a ratio above 100 saturates to a compare of 0.
pub open spec fn compare_for_ratio(ratio: int) -> int {
    if ratio > 100 {
        0
    } else {
        (TOP_PWM_VAL * (100 - ratio)) / 100
    }
}

/// `config` with the compare value of the channel(s) named by `lane` set to
/// `compare`, and every other setting kept.
pub open spec fn with_lane_compare(config: PwmConfig, lane: Lane, compare: u16) -> PwmConfig {
    match lane {
        Lane::LaneA => PwmConfig { compare_a: compare, ..config },
        Lane::LaneB => PwmConfig { compare_b: compare, ..config },
        Lane::Both => PwmConfig { compare_a: compare, compare_b: compare, ..config },
    }
}

impl Default for PwmConfig {
    fn default() -> (config: PwmConfig)
        ensures
            config == default_config(),
            !config.invert_a && !config.invert_b && !config.phase_correct && config.enable,
            config.divider_bits == 16,
            config.compare_a == 0 && config.compare_b == 0 && config.top == 0xffff,
    {
        PwmConfig {
            invert_a: false,
            invert_b: false,
            phase_correct: false,
            enable: true,
            divider_bits: DIVIDER_ONE_BITS,
            compare_a: 0,
            compare_b: 0,
            top: 0xffff,
        }
    }
}

/// Computes the compare value for `ratio` percent (see `compare_for_ratio`).
pub fn compare_value(ratio: u16) -> (compare: u16)
    ensures
        compare == compare_for_ratio(ratio as int),
        compare <= TOP_PWM_VAL,
        ratio <= 100 ==> compare == 370 * (100 - ratio),
        ratio > 100 ==> compare == 0,
{
    let ratio_inverted: u16 = if ratio > 100 {
        0
    } else {
        100 - ratio
    };
    assert(TOP_PWM_VAL * ratio_inverted <= 3700000 && (TOP_PWM_VAL * ratio_inverted) / 100
        == 370 * ratio_inverted) by (nonlinear_arith)
        requires
            ratio_inverted <= 100,
            TOP_PWM_VAL == 37000,
    ;
    let product: u32 = TOP_PWM_VAL as u32 * ratio_inverted as u32;
    let compare: u32 = product / 100;
    compare as u16
}

/// Builds a configuration wrapping at `TOP_PWM_VAL` whose compare on the
/// channel(s) named by `lane` gives `ratio` percent.
pub fn creeate_pwm_config(ratio: u16, lane: Lane) -> (config: PwmConfig)
    ensures
        config == with_lane_compare(
            PwmConfig { top: TOP_PWM_VAL, ..default_config() },
            lane,
            compare_for_ratio(ratio as int) as u16,
        ),
        !config.invert_a && !config.invert_b && !config.phase_correct && config.enable,
        config.divider_bits == 16,
        config.top == 0x9088,
        config.compare_a == (if lane == Lane::LaneB {
            0
        } else if ratio > 100 {
            0
        } else {
            370 * (100 - ratio)
        }),
        config.compare_b == (if lane == Lane::LaneA {
            0
        } else if ratio > 100 {
            0
        } else {
            370 * (100 - ratio)
        }),
{
    let mut config: PwmConfig = PwmConfig::default();
    config.top = TOP_PWM_VAL;
    let compare = compare_value(ratio);
    match lane {
        Lane::LaneA => config.compare_a = compare,
        Lane::LaneB => config.compare_b = compare,
        Lane::Both => {
            config.compare_a = compare;
            config.compare_b = compare;
        },
    }
    config
}

/// Sets the compare value of the channel(s) named by `lane` to give `ratio`
/// percent, keeping every other setting of `config`.
pub fn update_pwm_config(config: &mut PwmConfig, ratio: u16, lane: Lane)
    ensures
        *final(config) == with_lane_compare(*old(config), lane, compare_for_ratio(ratio as int) as u16),
        final(config).invert_a == old(config).invert_a,
        final(config).invert_b == old(config).invert_b,
        final(config).phase_correct == old(config).phase_correct,
        final(config).enable == old(config).enable,
        final(config).divider_bits == old(config).divider_bits,
        final(config).top == old(config).top,
        final(config).compare_a == (if lane == Lane::LaneB {
            old(config).compare_a as int
        } else if ratio > 100 {
            0
        } else {
            370 * (100 - ratio)
        }),
        final(config).compare_b == (if lane == Lane::LaneA {
            old(config).compare_b as int
        } else if ratio > 100 {
            0
        } else {
            370 * (100 - ratio)
        }),
{
    let compare = compare_value(ratio);
    match lane {
        Lane::LaneA => config.compare_a = compare,
        Lane::LaneB => config.compare_b = compare,
        Lane::Both => {
            config.compare_a = compare;
            config.compare_b = compare;
        },
    }
}

/// A higher duty ratio never gives a higher compare value: the LED gets
/// brighter (or stays) as the ratio grows.
pub proof fn lemma_compare_non_increasing(r1: int, r2: int)
    requires
        0 <= r1 <= r2,
    ensures
        compare_for_ratio(r2) <= compare_for_ratio(r1),
        0 <= compare_for_ratio(r2),
        compare_for_ratio(r1) <= TOP_PWM_VAL,
{
    if r2 <= 100 {
        assert(TOP_PWM_VAL * (100 - r2) <= TOP_PWM_VAL * (100 - r1)) by (nonlinear_arith)
            requires
                r1 <= r2,
                r2 <= 100,
        ;
        vstd::arithmetic::div_mod::lemma_div_is_ordered(
            TOP_PWM_VAL * (100 - r2),
            TOP_PWM_VAL * (100 - r1),
            100,
        );
    }
    if r1 <= 100 {
        assert(0 <= TOP_PWM_VAL * (100 - r1) <= TOP_PWM_VAL * 100) by (nonlinear_arith)
            requires
                0 <= r1 <= 100,
        ;
    }
}

/// The starting configuration is enabled, not inverted on either channel,
/// not phase-correct, divides the clock by 1, has both compares at 0 and
/// wraps at `0xffff`.
pub proof fn lemma_default_config_fields()
    ensures
        !default_config().invert_a,
        !default_config().invert_b,
        !default_config().phase_correct,
        default_config().enable,
        default_config().divider_bits == 16,
        default_config().compare_a == 0,
        default_config().compare_b == 0,
        default_config().top == 0xffff,
{
}

/// Setting a compare on a lane changes the compare of that lane (both for
/// `Both`) and nothing else: polarity, phase mode, enable, divider, top and
/// the other lane's compare are kept.
pub proof fn lemma_lane_compare_keeps_settings(config: PwmConfig, lane: Lane, compare: u16)
    ensures
        with_lane_compare(config, lane, compare).invert_a == config.invert_a,
        with_lane_compare(config, lane, compare).invert_b == config.invert_b,
        with_lane_compare(config, lane, compare).phase_correct == config.phase_correct,
        with_lane_compare(config, lane, compare).enable == config.enable,
        with_lane_compare(config, lane, compare).divider_bits == config.divider_bits,
        with_lane_compare(config, lane, compare).top == config.top,
        with_lane_compare(config, lane, compare).compare_a == (if lane == Lane::LaneB {
            config.compare_a
        } else {
            compare
        }),
        with_lane_compare(config, lane, compare).compare_b == (if lane == Lane::LaneA {
            config.compare_b
        } else {
            compare
        }),
{
}

/// The compare value is the full period (`37000`) less 370 per percent of
/// ratio, and 0 above 100 percent.
pub proof fn lemma_compare_for_ratio_values(ratio: int)
    requires
        0 <= ratio,
    ensures
        ratio <= 100 ==> compare_for_ratio(ratio) == 37000 - 370 * ratio,
        ratio > 100 ==> compare_for_ratio(ratio) == 0,
{
    if ratio <= 100 {
        assert((37000 * (100 - ratio)) / 100 == 37000 - 370 * ratio) by (nonlinear_arith)
            requires
                0 <= ratio <= 100,
        ;
    }
}

/// Setting the same ratio on the same lane twice changes nothing more than
/// setting it once.
pub proof fn lemma_update_idempotent(config: PwmConfig, lane: Lane, compare: u16)
    ensures
        with_lane_compare(with_lane_compare(config, lane, compare), lane, compare)
            == with_lane_compare(config, lane, compare),
{
}

/// Setting a ratio on lane A and then on lane B has the same effect as
/// setting it on both lanes at once.
pub proof fn lemma_both_is_a_then_b(config: PwmConfig, compare: u16)
    ensures
        with_lane_compare(with_lane_compare(config, Lane::LaneA, compare), Lane::LaneB, compare)
            == with_lane_compare(config, Lane::Both, compare),
{
}

/// A configuration made for one ratio and lane, then updated to another
/// ratio on the same lane, equals the configuration made directly for the
/// second ratio.
pub proof fn lemma_update_after_create(r1: u16, r2: u16, lane: Lane)
    ensures
        with_lane_compare(
            with_lane_compare(
                PwmConfig { top: TOP_PWM_VAL, ..default_config() },
                lane,
                compare_for_ratio(r1 as int) as u16,
            ),
            lane,
            compare_for_ratio(r2 as int) as u16,
        ) == with_lane_compare(
            PwmConfig { top: TOP_PWM_VAL, ..default_config() },
            lane,
            compare_for_ratio(r2 as int) as u16,
        ),
{
}

} // verus!
