//! Serving the jacks: the wiring every jack is scanned through, how a monitor's drives map
//! to the pull switches, and which due jack each ADC reads next.

use vstd::prelude::*;

use super::{Drive, CONTACT_COUNT};
use crate::hal::buf::TriState;

verus! {

/// Where one jack's contacts are wired, in contact order: the three arms, then the tip
/// switch. These are the entries of the board's mapping table, so moving a jack to different
/// channels is a change to that table rather than to any measurement code.
#[derive(Debug, Clone, Copy)]
pub struct JackConfig {
    pub switch_chip: usize,
    pub switch_taps: [u8; CONTACT_COUNT],
    pub adc_chip: usize,
    pub adc_channels: [u8; CONTACT_COUNT],
}

/// The pull switch state that carries out a monitor's drive.
pub fn tri_state(drive: Drive) -> (r: TriState)
    ensures
        r == match drive {
            Drive::High => TriState::High,
            Drive::Low => TriState::Low,
            Drive::Floating => TriState::HiZ,
        },
{
    match drive {
        Drive::High => TriState::High,
        Drive::Low => TriState::Low,
        Drive::Floating => TriState::HiZ,
    }
}

/// Whether jack `jack` is the one ADC `adc` should read next at `now`: due by then and on that
/// ADC, due longest (the earliest due time), and the lowest-numbered of those due equally
/// long.
pub open spec fn most_overdue<const J: usize>(
    due_at: [u64; J],
    now: u64,
    adc_chips: [usize; J],
    adc: usize,
    jack: int,
) -> bool {
    &&& 0 <= jack < J
    &&& due_at@[jack] <= now
    &&& adc_chips@[jack] == adc
    &&& forall|other: int|
        0 <= other < J && due_at@[other] <= now && adc_chips@[other] == adc ==> due_at@[jack]
            <= #[trigger] due_at@[other]
    &&& forall|other: int|
        0 <= other < jack && due_at@[other] <= now && adc_chips@[other] == adc ==> due_at@[jack]
            < #[trigger] due_at@[other]
}

/// For each of the `A` ADCs, the jack on it to read next at `now`: of the jacks due by then,
/// the one whose reading has been due longest, the lowest-numbered among equals, or `None`
/// if no jack on it is due.
pub fn next_jacks<const J: usize, const A: usize>(
    due_at: [u64; J],
    now: u64,
    adc_chips: [usize; J],
) -> (r: [Option<usize>; A])
    requires
        forall|jack: int| 0 <= jack < J ==> #[trigger] adc_chips@[jack] < A,
    ensures
        forall|adc: int|
            0 <= adc < A ==> match #[trigger] r@[adc] {
                Some(jack) => most_overdue(due_at, now, adc_chips, adc as usize, jack as int),
                None => forall|jack: int|
                    0 <= jack < J ==> !(due_at@[jack] <= now && adc_chips@[jack] == adc),
            },
{
    let mut chosen: [Option<usize>; A] = [None; A];
    let mut jack: usize = 0;
    while jack < J
        invariant
            jack <= J,
            chosen@.len() == A,
            forall|j: int| 0 <= j < J ==> #[trigger] adc_chips@[j] < A,
            forall|adc: int|
                0 <= adc < A ==> match #[trigger] chosen@[adc] {
                    Some(best) => best < jack && due_at@[best as int] <= now && adc_chips@[best as int]
                        == adc && (forall|other: int|
                        0 <= other < jack && due_at@[other] <= now && adc_chips@[other] == adc
                            ==> due_at@[best as int] <= #[trigger] due_at@[other]) && (forall|
                        other: int,
                    |
                        0 <= other < best && due_at@[other] <= now && adc_chips@[other] == adc
                            ==> due_at@[best as int] < #[trigger] due_at@[other]),
                    None => forall|other: int|
                        0 <= other < jack ==> !(due_at@[other] <= now && adc_chips@[other] == adc),
                },
        decreases J - jack,
    {
        let adc = adc_chips[jack];
        if due_at[jack] <= now {
            // Keep the jack already chosen unless this one has been due longer.
            let replace = match chosen[adc] {
                Some(other) => due_at[jack] < due_at[other],
                None => true,
            };
            if replace {
                chosen[adc] = Some(jack);
            }
        }
        jack += 1;
    }
    chosen
}

/// Every ADC has at most one most overdue jack, so the choice never depends on anything
/// but the due times, the wiring and the time.
pub proof fn lemma_most_overdue_is_unique<const J: usize>(
    due_at: [u64; J],
    now: u64,
    adc_chips: [usize; J],
    adc: usize,
    jack: int,
    other: int,
)
    requires
        most_overdue(due_at, now, adc_chips, adc, jack),
        most_overdue(due_at, now, adc_chips, adc, other),
    ensures
        jack == other,
{
    if jack < other {
        assert(due_at@[other] < due_at@[jack]);
        assert(due_at@[jack] <= due_at@[other]);
    } else if other < jack {
        assert(due_at@[jack] < due_at@[other]);
        assert(due_at@[other] <= due_at@[jack]);
    }
}

/// The earliest time any jack is due, `None` without jacks: how long to wait while none is.
pub fn earliest_due<const J: usize>(due_at: [u64; J]) -> (r: Option<u64>)
    ensures
        J == 0 <==> r is None,
        r matches Some(at) ==> (exists|jack: int| 0 <= jack < J && due_at@[jack] == at) && forall|
            jack: int,
        | 0 <= jack < J ==> at <= #[trigger] due_at@[jack],
{
    let mut earliest: Option<u64> = None;
    let mut jack: usize = 0;
    while jack < J
        invariant
            jack <= J,
            jack == 0 <==> earliest is None,
            earliest matches Some(at) ==> (exists|j: int| 0 <= j < jack && due_at@[j] == at)
                && forall|j: int| 0 <= j < jack ==> at <= #[trigger] due_at@[j],
        decreases J - jack,
    {
        let at = due_at[jack];
        earliest = match earliest {
            Some(current) if current <= at => Some(current),
            _ => Some(at),
        };
        jack += 1;
    }
    earliest
}

} // verus!
