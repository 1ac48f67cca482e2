//! Conversion of raw cycle counts into time.

use vstd::prelude::*;

verus! {

/// The reason a conversion was refused.
#[derive(Debug, Clone, Copy, PartialEq, Eq, Structural)]
pub enum ConvertError {
    /// The frequency was zero, so no duration corresponds to a cycle count.
    ZeroFrequency,
}

/// The duration of `cycles` cycles at `frequency` cycles per time unit,
/// rounded down to whole units.
pub open spec fn cycles_to_time(cycles: nat, frequency: nat) -> nat
    recommends
        frequency > 0,
{
    cycles / frequency
}

/// Converts a cycle count to milliseconds, given the number of cycles that
/// the clock makes in one millisecond. The result is rounded down.
pub fn convert_cycles_to_ms(cycles: u64, frequency: u64) -> (time: Result<u64, ConvertError>)
    ensures
        frequency == 0 <==> time is Err,
        time is Err ==> time == Err::<u64, ConvertError>(ConvertError::ZeroFrequency),
        time is Ok ==> time->Ok_0 == cycles_to_time(cycles as nat, frequency as nat),
{
    if frequency == 0 {
        Err(ConvertError::ZeroFrequency)
    } else {
        Ok(cycles / frequency)
    }
}

/// No cycles take no time.
pub proof fn zero_cycles_take_no_time(frequency: nat)
    requires
        frequency > 0,
    ensures
        cycles_to_time(0, frequency) == 0,
{
}

/// More cycles never take less time.
pub proof fn more_cycles_take_no_less_time(fewer: nat, more: nat, frequency: nat)
    requires
        frequency > 0,
        fewer <= more,
    ensures
        cycles_to_time(fewer, frequency) <= cycles_to_time(more, frequency),
{
    vstd::arithmetic::div_mod::lemma_div_is_ordered(fewer as int, more as int, frequency as int);
}

/// The time is the number of whole units that the cycles fill: converting
/// rounds down, and by less than one unit.
pub proof fn time_is_rounded_down(cycles: nat, frequency: nat)
    requires
        frequency > 0,
    ensures
        cycles_to_time(cycles, frequency) * frequency <= cycles,
        cycles < (cycles_to_time(cycles, frequency) + 1) * frequency,
{
    vstd::arithmetic::div_mod::lemma_fundamental_div_mod(cycles as int, frequency as int);
    vstd::arithmetic::div_mod::lemma_mod_bound(cycles as int, frequency as int);
    assert(cycles == frequency * (cycles / frequency) + cycles % frequency);
    assert(frequency * (cycles / frequency) == (cycles / frequency) * frequency)
        by (nonlinear_arith);
    assert((cycles / frequency + 1) * frequency == (cycles / frequency) * frequency + frequency)
        by (nonlinear_arith);
}

} // verus!
