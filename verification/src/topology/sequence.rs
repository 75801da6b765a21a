//! The order of a solve's pair measurements, and how the pairs that conducted decide what the
//! solve resolves the network from.
//!
//! The first arm stays driven high for both of the first two measurements while the other
//! two take turns being driven low, which halves the number of output changes compared to
//! rotating through every pair. A third measurement, between the second and third arms, is
//! only needed to tell "the first arm is isolated" apart from "nothing is connected at all",
//! or when the first arm is so close to 0 kΩ that the first two pairs cannot compare the
//! other two.

use vstd::prelude::*;

use super::ARM_COUNT;

verus! {

/// The pairs a solve can ask for, as `(high, low)` arm indices, in the order they are
/// measured.
pub const PAIR_SEQUENCE: [(usize, usize); ARM_COUNT] = [(0, 1), (0, 2), (1, 2)];

/// The pair measured `index`-th.
pub open spec fn pair(index: int) -> (usize, usize) {
    if index == 0 {
        (0, 1)
    } else if index == 1 {
        (0, 2)
    } else {
        (1, 2)
    }
}

/// Whether the pairs recorded so far (`Some(conducts)` for each) are a prefix of the
/// sequence, as recording always fills the first empty slot.
pub open spec fn recorded_prefix(conducts: [Option<bool>; ARM_COUNT]) -> bool {
    &&& conducts@[1] is Some ==> conducts@[0] is Some
    &&& conducts@[2] is Some ==> conducts@[1] is Some
}

/// How many pairs have been recorded.
pub open spec fn spec_taken(conducts: [Option<bool>; ARM_COUNT]) -> usize {
    if conducts@[0] is None {
        0
    } else if conducts@[1] is None {
        1
    } else if conducts@[2] is None {
        2
    } else {
        3
    }
}

/// What a solve does next, given which of its pairs have been measured and conducted.
#[derive(Clone, Copy, Debug, PartialEq, Eq, Structural)]
pub enum SolveRoute {
    /// Drive `high` to the high rail and `low` to the low rail, leave the remaining arm
    /// floating, and record whether the pair conducts.
    MeasurePair { high: usize, low: usize },
    /// Both pairs sharing the first arm conduct: resolve the network from their voltage
    /// ratios, measuring the third pair first if those are not enough.
    FromBoth,
    /// Only pair `measurement` conducts, so arm `isolated` - the one it did not drive - is
    /// isolated and that pair is all there is to resolve.
    FromSingle { measurement: usize, isolated: usize },
    /// No pair conducts: nothing is connected.
    Disconnected,
}

/// The route the recorded pairs call for.
pub open spec fn spec_solve_route(conducts: [Option<bool>; ARM_COUNT]) -> SolveRoute {
    let taken = spec_taken(conducts);
    if taken < 2 {
        SolveRoute::MeasurePair { high: pair(taken as int).0, low: pair(taken as int).1 }
    } else if conducts@[0] == Some(true) && conducts@[1] == Some(true) {
        SolveRoute::FromBoth
    } else if conducts@[0] == Some(true) {
        SolveRoute::FromSingle { measurement: 0, isolated: 2 }
    } else if conducts@[1] == Some(true) {
        SolveRoute::FromSingle { measurement: 1, isolated: 1 }
    } else if taken == 2 {
        SolveRoute::MeasurePair { high: 1, low: 2 }
    } else if conducts@[2] == Some(true) {
        SolveRoute::FromSingle { measurement: 2, isolated: 0 }
    } else {
        SolveRoute::Disconnected
    }
}

/// How many pairs have been recorded.
pub fn taken(conducts: [Option<bool>; ARM_COUNT]) -> (r: usize)
    requires
        recorded_prefix(conducts),
    ensures
        r == spec_taken(conducts),
        forall|i: int| 0 <= i < ARM_COUNT ==> (conducts@[i] is Some <==> i < r),
{
    let mut count: usize = 0;
    while count < ARM_COUNT && conducts[count].is_some()
        invariant
            count <= ARM_COUNT,
            recorded_prefix(conducts),
            forall|i: int| 0 <= i < count ==> conducts@[i] is Some,
        decreases ARM_COUNT - count,
    {
        count += 1;
    }
    count
}

/// The slot the next recorded pair goes to: the first empty one.
pub fn record_slot(conducts: [Option<bool>; ARM_COUNT]) -> (r: Option<usize>)
    requires
        recorded_prefix(conducts),
    ensures
        r is Some <==> spec_taken(conducts) < ARM_COUNT,
        r matches Some(slot) ==> slot == spec_taken(conducts) && conducts@[slot as int] is None,
{
    let count = taken(conducts);
    if count < ARM_COUNT {
        Some(count)
    } else {
        None
    }
}

/// The next pair the sequence asks for, `None` once every pair has been measured.
pub fn next_pair(conducts: [Option<bool>; ARM_COUNT]) -> (r: Option<(usize, usize)>)
    requires
        recorded_prefix(conducts),
    ensures
        r is Some <==> spec_taken(conducts) < ARM_COUNT,
        r matches Some(p) ==> p == pair(spec_taken(conducts) as int),
{
    let count = taken(conducts);
    if count < ARM_COUNT {
        Some(PAIR_SEQUENCE[count])
    } else {
        None
    }
}

/// What the solve does next with the pairs recorded so far.
pub fn solve_route(conducts: [Option<bool>; ARM_COUNT]) -> (r: SolveRoute)
    requires
        recorded_prefix(conducts),
    ensures
        r == spec_solve_route(conducts),
{
    let count = taken(conducts);
    if count < 2 {
        let (high, low) = PAIR_SEQUENCE[count];
        return SolveRoute::MeasurePair { high, low };
    }
    match (conducts[0], conducts[1]) {
        (Some(true), Some(true)) => SolveRoute::FromBoth,
        // Arm 2 is isolated, so only the first pair has anything to say.
        (Some(true), _) => SolveRoute::FromSingle { measurement: 0, isolated: 2 },
        // Arm 1 is isolated, so only the second pair has anything to say.
        (_, Some(true)) => SolveRoute::FromSingle { measurement: 1, isolated: 1 },
        // Arm 0 was driven high in both pairs, so its being isolated would explain neither
        // of them conducting just as well as nothing being connected at all. Only a pair
        // that does not involve it can tell those two apart.
        _ => match conducts[2] {
            None => {
                let (high, low) = PAIR_SEQUENCE[2];
                SolveRoute::MeasurePair { high, low }
            },
            Some(true) => SolveRoute::FromSingle { measurement: 2, isolated: 0 },
            Some(false) => SolveRoute::Disconnected,
        },
    }
}

/// The arm two pairs share: the first pair's high arm if the second pair drives it too,
/// otherwise its low arm.
pub fn shared_arm(first: (usize, usize), second: (usize, usize)) -> (r: usize)
    ensures
        r == if first.0 == second.0 || first.0 == second.1 {
            first.0
        } else {
            first.1
        },
{
    if first.0 == second.0 || first.0 == second.1 {
        first.0
    } else {
        first.1
    }
}

/// The arm of `pair` that is not `shared`.
pub fn other_arm(pair: (usize, usize), shared: usize) -> (r: usize)
    ensures
        r == if pair.0 == shared {
            pair.1
        } else {
            pair.0
        },
{
    if pair.0 == shared {
        pair.1
    } else {
        pair.0
    }
}

/// The sequence drives each pair of distinct arms exactly once, the first arm high for both
/// of the first two, and the last pair is the one without the first arm.
pub proof fn lemma_pair_sequence()
    ensures
        forall|i: int| 0 <= i < ARM_COUNT ==> #[trigger] pair(i).0 < ARM_COUNT && pair(i).1 < ARM_COUNT && pair(i).0 != pair(i).1,
        forall|i: int, j: int|
            0 <= i < ARM_COUNT && 0 <= j < ARM_COUNT && i != j ==> #[trigger] pair(i) != #[trigger] pair(j),
        pair(0).0 == 0 && pair(1).0 == 0,
        pair(2).0 != 0 && pair(2).1 != 0,
{
}

/// Any two different pairs of the sequence share exactly one arm, and that arm together with
/// the two pairs' other arms is every arm once - so two pairs' voltage ratios through their
/// shared arm place all three arms.
pub proof fn lemma_two_pairs_cover_every_arm(i: int, j: int)
    requires
        0 <= i < ARM_COUNT,
        0 <= j < ARM_COUNT,
        i != j,
    ensures
        ({
            let (first, second) = (pair(i), pair(j));
            let shared = if first.0 == second.0 || first.0 == second.1 {
                first.0
            } else {
                first.1
            };
            let first_other = if first.0 == shared {
                first.1
            } else {
                first.0
            };
            let second_other = if second.0 == shared {
                second.1
            } else {
                second.0
            };
            &&& (shared == first.0 || shared == first.1) && (shared == second.0 || shared == second.1)
            &&& shared != first_other && shared != second_other && first_other != second_other
            &&& shared < ARM_COUNT && first_other < ARM_COUNT && second_other < ARM_COUNT
        }),
{
}

/// A pair that conducts on its own leaves exactly the arm it does not drive isolated.
pub proof fn lemma_single_pair_isolates_the_undriven_arm(conducts: [Option<bool>; ARM_COUNT])
    requires
        recorded_prefix(conducts),
    ensures
        spec_solve_route(conducts) matches SolveRoute::FromSingle { measurement, isolated } ==> {
            &&& measurement < ARM_COUNT && isolated < ARM_COUNT
            &&& conducts@[measurement as int] == Some(true)
            &&& pair(measurement as int).0 != isolated && pair(measurement as int).1 != isolated
        },
        spec_solve_route(conducts) is Disconnected ==> forall|i: int|
            0 <= i < ARM_COUNT ==> conducts@[i] == Some(false),
{
}

} // verus!
