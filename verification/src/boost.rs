//! The integer side of the boost-converter regulator.
//!
//! One control step has three parts. [`BoostRegulator::measure`] turns two raw
//! ADC samples into the boosted voltage. A PID controller, outside this
//! library, turns that voltage into an increment of the duty ratio.
//! [`BoostRegulator::adjust`] adds the increment to the duty ratio and clamps
//! it, and [`BoostRegulator::register_value`] gives the value for the PWM
//! register.
//!
//! The duty ratio is held in parts per billion: [`DUTY_ONE`] is a ratio of
//! one.

use crate::fraction::Fraction;
use vstd::prelude::*;

verus! {

/// The voltage of the ADC's internal reference, in millivolts.
pub const VREF_INT_MV: u64 = 1200;

/// Millivolts in a volt.
pub const MV_PER_VOLT: u64 = 1000;

/// The upper resistor of the feedback divider, in ohms.
pub const R1_OHMS: u64 = 4_700_000;

/// The lower resistor of the feedback divider, in ohms.
pub const R2_OHMS: u64 = 24_900;

/// A duty ratio of one, in parts per billion.
pub const DUTY_ONE: u32 = 1_000_000_000;

/// The largest duty ratio that the regulator commands: nine tenths.
pub const DUTY_LIMIT: u32 = 900_000_000;

/// The duty ratio that the regulator starts with: one half.
pub const DUTY_START: u32 = 500_000_000;

/// The reference sample that a step works with: the new sample where it is
/// plausible, the last plausible one where it is not.
pub open spec fn accepted_reference(floor: u16, previous: u16, sample: u16) -> u16 {
    if sample >= floor {
        sample
    } else {
        previous
    }
}

/// The voltage at the feedback pin, in volts, that a raw sample stands for:
/// one ADC code is `VREF_INT_MV / vref` millivolts.
pub open spec fn sample_volts(v: u16, vref: u16) -> Fraction {
    Fraction { num: (v * VREF_INT_MV) as i128, den: (vref * MV_PER_VOLT) as u128 }
}

/// The voltage ahead of the feedback divider, which scales it down by
/// `R2 / R1`.
pub open spec fn divided_up(sample_volt: Fraction) -> Fraction {
    Fraction {
        num: (sample_volt.num * R1_OHMS) as i128,
        den: (sample_volt.den * R2_OHMS) as u128,
    }
}

/// Scaling by the divider keeps numerator and denominator in their types.
pub open spec fn divider_fits(sample_volt: Fraction) -> bool {
    &&& i128::MIN <= sample_volt.num * R1_OHMS <= i128::MAX
    &&& sample_volt.den * R2_OHMS <= u128::MAX
}

/// The boosted voltage, in volts, that a raw sample stands for.
pub open spec fn boost_volts(raw_sample: u16, reference: u16) -> Fraction {
    divided_up(sample_volts(raw_sample, reference))
}

/// The duty ratio after `increment` has been added to `duty`, kept between
/// zero and `DUTY_LIMIT`.
pub open spec fn next_duty(duty: u32, increment: i64) -> u32 {
    if duty + increment < 0 {
        0
    } else if duty + increment > DUTY_LIMIT {
        DUTY_LIMIT
    } else {
        (duty + increment) as u32
    }
}

/// The duty ratio after each of `increments` has been added in turn.
pub open spec fn duty_after(duty: u32, increments: Seq<i64>) -> u32
    decreases increments.len(),
{
    if increments.len() == 0 {
        duty
    } else {
        next_duty(duty_after(duty, increments.drop_last()), increments.last())
    }
}

/// The PWM register value for a duty ratio: `max_duty * (1 - duty)`, rounded
/// down. The output stage inverts, so a larger duty ratio is a smaller value.
pub open spec fn register_of(max_duty: u32, duty: u32) -> u32 {
    (max_duty * (DUTY_ONE - duty) / (DUTY_ONE as int)) as u32
}

/// Whatever the increments are, the duty ratio stays between zero and
/// `DUTY_LIMIT`.
pub proof fn lemma_duty_stays_in_range(duty: u32, increments: Seq<i64>)
    requires
        duty <= DUTY_LIMIT,
    ensures
        0 <= duty_after(duty, increments) <= DUTY_LIMIT,
    decreases increments.len(),
{
    if increments.len() > 0 {
        lemma_duty_stays_in_range(duty, increments.drop_last());
    }
}

/// With the duty ratio in range, the register value is at most `max_duty`
/// and at least a tenth of it, rounded down.
pub proof fn lemma_register_in_range(max_duty: u32, duty: u32)
    requires
        duty <= DUTY_LIMIT,
    ensures
        max_duty / 10 <= register_of(max_duty, duty) <= max_duty,
        max_duty * (DUTY_ONE - duty) / (DUTY_ONE as int) <= max_duty,
{
    let m = max_duty as int;
    let rest = (DUTY_ONE - duty) as int;
    let one = DUTY_ONE as int;
    assert(m * rest <= m * one) by (nonlinear_arith)
        requires
            0 <= m,
            rest <= one,
    ;
    assert(m * rest >= m * 100_000_000) by (nonlinear_arith)
        requires
            0 <= m,
            rest >= 100_000_000,
    ;
    assert(m * rest / one <= m) by (nonlinear_arith)
        requires
            0 <= m * rest <= m * one,
            one > 0,
    ;
    assert(m * rest / one >= m / 10) by (nonlinear_arith)
        requires
            m * rest >= m * 100_000_000,
            one == 1_000_000_000,
            0 <= m,
    ;
}

/// The boosted voltage is the raw sample times `1200 * 4_700_000`, over the
/// reference sample times `1000 * 24_900`, and a number wherever the reference
/// sample is not zero.
pub proof fn lemma_boost_volts(raw_sample: u16, reference: u16)
    ensures
        divider_fits(sample_volts(raw_sample, reference)),
        boost_volts(raw_sample, reference).num == raw_sample * 5_640_000_000,
        boost_volts(raw_sample, reference).den == reference * 24_900_000,
        reference > 0 ==> boost_volts(raw_sample, reference).is_finite(),
{
}

/// The voltage at the feedback pin, in volts, for the raw sample `v` and the
/// raw sample `vref` of the internal reference. It is a number unless `vref`
/// is zero.
pub fn sample_volt(v: u16, vref: u16) -> (volts: Fraction)
    ensures
        volts == sample_volts(v, vref),
        volts.num == v * 1200,
        volts.den == vref * 1000,
{
    let per_code: i128 = VREF_INT_MV as i128;
    let per_volt: u128 = MV_PER_VOLT as u128;
    Fraction { num: v as i128 * per_code, den: vref as u128 * per_volt }
}

/// The boosted voltage for a voltage at the feedback pin.
pub fn geiger_volt(sample_volt: Fraction) -> (volts: Fraction)
    requires
        divider_fits(sample_volt),
    ensures
        volts == divided_up(sample_volt),
{
    let upper: i128 = R1_OHMS as i128;
    let lower: u128 = R2_OHMS as u128;
    Fraction { num: sample_volt.num * upper, den: sample_volt.den * lower }
}

/// The state that the regulator carries from one control step to the next.
pub struct BoostRegulator {
    floor: u16,
    reference: u16,
    duty: u32,
}

impl BoostRegulator {
    /// The smallest reference sample that counts as plausible.
    pub closed spec fn floor(&self) -> u16 {
        self.floor
    }

    /// The last plausible reference sample.
    pub closed spec fn reference(&self) -> u16 {
        self.reference
    }

    /// The duty ratio, in parts per billion.
    pub closed spec fn duty(&self) -> u32 {
        self.duty
    }

    /// The regulator is sound: its reference sample is plausible and not
    /// zero, and its duty ratio is between zero and `DUTY_LIMIT`.
    pub open spec fn wf(&self) -> bool {
        &&& 1 <= self.floor() <= self.reference()
        &&& self.duty() <= DUTY_LIMIT
    }

    /// A regulator at the starting duty ratio. `floor` is the smallest
    /// reference sample that counts as plausible, and `reference` the sample
    /// to fall back on until a plausible one has come. There is no regulator
    /// for a floor of zero or a fallback below the floor.
    pub fn new(floor: u16, reference: u16) -> (made: Option<Self>)
        ensures
            made.is_some() <==> 1 <= floor <= reference,
            made matches Some(regulator) ==> regulator.wf() && regulator.floor() == floor
                && regulator.reference() == reference && regulator.duty() == DUTY_START,
    {
        if floor >= 1 && reference >= floor {
            Some(BoostRegulator { floor, reference, duty: DUTY_START })
        } else {
            None
        }
    }

    /// The duty ratio, in parts per billion.
    pub fn current_duty(&self) -> (duty: u32)
        ensures
            duty == self.duty(),
    {
        self.duty
    }

    /// The last plausible reference sample.
    pub fn current_reference(&self) -> (reference: u16)
        ensures
            reference == self.reference(),
    {
        self.reference
    }

    /// Takes the two raw samples of a control step and returns the boosted
    /// voltage, in volts.
    ///
    /// A reference sample below the floor is set aside and the last
    /// plausible one used in its place, so the voltage is always a number.
    pub fn measure(&mut self, raw_sample: u16, raw_reference: u16) -> (volts: Fraction)
        requires
            old(self).wf(),
        ensures
            final(self).wf(),
            final(self).floor() == old(self).floor(),
            final(self).duty() == old(self).duty(),
            final(self).reference() == accepted_reference(
                old(self).floor(),
                old(self).reference(),
                raw_reference,
            ),
            volts == boost_volts(raw_sample, final(self).reference()),
            volts.is_finite(),
            volts.num >= 0,
    {
        if raw_reference >= self.floor {
            self.reference = raw_reference;
        }
        proof {
            lemma_boost_volts(raw_sample, self.reference);
        }
        geiger_volt(sample_volt(raw_sample, self.reference))
    }

    /// Adds the controller's increment, in parts per billion, to the duty
    /// ratio, keeps the sum between zero and `DUTY_LIMIT`, and returns it.
    pub fn adjust(&mut self, increment: i64) -> (duty: u32)
        requires
            old(self).wf(),
        ensures
            final(self).wf(),
            final(self).floor() == old(self).floor(),
            final(self).reference() == old(self).reference(),
            final(self).duty() == next_duty(old(self).duty(), increment),
            duty == final(self).duty(),
            duty <= DUTY_LIMIT,
    {
        let sum: i128 = self.duty as i128 + increment as i128;
        if sum < 0 {
            self.duty = 0;
        } else if sum > DUTY_LIMIT as i128 {
            self.duty = DUTY_LIMIT;
        } else {
            self.duty = sum as u32;
        }
        self.duty
    }

    /// The value for the PWM register, where `max_duty` is the value that
    /// stands for a ratio of one.
    pub fn register_value(&self, max_duty: u32) -> (value: u32)
        requires
            self.wf(),
        ensures
            value == register_of(max_duty, self.duty()),
            max_duty / 10 <= value <= max_duty,
    {
        proof {
            lemma_register_in_range(max_duty, self.duty);
        }
        let rest: u64 = (DUTY_ONE - self.duty) as u64;
        let scaled: u64 = max_duty as u64 * rest;
        (scaled / DUTY_ONE as u64) as u32
    }
}

} // verus!
