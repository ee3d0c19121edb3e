use vstd::prelude::*;

verus! {

/// Delay between two steps of a volume ramp, in milliseconds.
pub const VOLUME_TRANSITION_STEP_DELAY_MS: u64 = 12;

/// Gains are counted in hundredths of full scale; one ramp step is one
/// hundredth.
pub const GAIN_STEPS_PER_UNIT: u8 = 100;

/// The distance between two gains, in steps.
pub open spec fn gain_distance(from: u8, to: u8) -> nat {
    if from <= to { (to - from) as nat } else { (from - to) as nat }
}

/// `steps` moves from `from` to `to` one hundredth at a time: every value
/// lies between the two ends, each is one step nearer `to` than the one
/// before, and the last is `to`.
pub open spec fn is_ramp(from: u8, to: u8, steps: Seq<u8>) -> bool {
    &&& steps.len() == gain_distance(from, to)
    &&& forall|i: int| 0 <= i < steps.len() ==> gain_distance(#[trigger] steps[i], to) == gain_distance(from, to) - i - 1
    &&& forall|i: int| 0 <= i < steps.len() ==>
        if from <= to { from < #[trigger] steps[i] <= to } else { to <= #[trigger] steps[i] < from }
}

/// The gains to apply, in order, to move an output from gain `from` to gain
/// `to` (both in hundredths) without an audible jump. Empty when the two are
/// equal.
pub fn ramp_steps(from: u8, to: u8) -> (r: Vec<u8>)
    ensures
        is_ramp(from, to, r@),
        from != to ==> r@.last() == to,
{
    let mut steps: Vec<u8> = Vec::new();
    let mut current: u8 = from;
    if from < to {
        while current < to
            invariant
                from <= current <= to,
                steps@.len() == current - from,
                current > from ==> steps@.last() == current,
                forall|i: int| 0 <= i < steps@.len() ==> #[trigger] steps@[i] == from + i + 1,
            decreases to - current,
        {
            current = current + 1;
            steps.push(current);
        }
    } else {
        while current > to
            invariant
                to <= current <= from,
                steps@.len() == from - current,
                current < from ==> steps@.last() == current,
                forall|i: int| 0 <= i < steps@.len() ==> #[trigger] steps@[i] == from - i - 1,
            decreases current - to,
        {
            current = current - 1;
            steps.push(current);
        }
    }
    steps
}

} // verus!
