//! The per-processor activity state used to emulate INIT/SIPI: one byte per
//! processor, `Active`, `WaitForSipi`, or the vector of a delivered SIPI.
use vstd::prelude::*;

verus! {

/// The encoding of `GuestActivityState::Active`.
pub const ACTIVE: u8 = 0;

/// The encoding of `GuestActivityState::WaitForSipi`.
pub const WAIT_FOR_SIPI: u8 = 0xff;

/// The two named activity states; any other byte is a delivered vector.
#[derive(Clone, Copy, Debug, PartialEq, Eq, Structural)]
pub enum GuestActivityState {
    Active,
    WaitForSipi,
}

impl GuestActivityState {
    pub open spec fn spec_value(self) -> u8 {
        match self {
            GuestActivityState::Active => ACTIVE,
            GuestActivityState::WaitForSipi => WAIT_FOR_SIPI,
        }
    }

    /// The byte that encodes the state in an activity slot.
    pub fn value(self) -> (r: u8)
        ensures
            r == self.spec_value(),
    {
        match self {
            GuestActivityState::Active => ACTIVE,
            GuestActivityState::WaitForSipi => WAIT_FOR_SIPI,
        }
    }
}

/// A byte that can stand in a slot as a delivered SIPI vector.
pub open spec fn is_sipi_vector(v: u8) -> bool {
    v != ACTIVE && v != WAIT_FOR_SIPI
}

/// The steps a slot may take: the owner enters Wait-for-SIPI from Active, a
/// sender replaces Wait-for-SIPI with a vector, the owner takes the vector
/// and returns to Active.
pub open spec fn legal_transition(from: u8, to: u8) -> bool {
    ||| from == ACTIVE && to == WAIT_FOR_SIPI
    ||| from == WAIT_FOR_SIPI && is_sipi_vector(to)
    ||| is_sipi_vector(from) && to == ACTIVE
}

/// A compare-exchange on a slot holding `current`: the new content of the
/// slot, and `Ok` with the old content when it equalled `expected`, else
/// `Err` with the content.
pub open spec fn compare_exchange(current: u8, expected: u8, new: u8) -> (u8, Result<u8, u8>) {
    if current == expected {
        (new, Ok(current))
    } else {
        (current, Err(current))
    }
}

/// The vector that a sender's compare-exchange `WaitForSipi -> vector`
/// leaves in a slot that held `current`.
pub open spec fn after_sipi_delivery(current: u8, vector: u8) -> u8 {
    compare_exchange(current, WAIT_FOR_SIPI, vector).0
}

/// While the owner waits, the slot value it observes tells whether a SIPI
/// came: `None` to keep waiting, or the delivered vector.
pub fn received_sipi(observed: u8) -> (r: Option<u8>)
    ensures
        r == (if observed == WAIT_FOR_SIPI {
            None::<u8>
        } else {
            Some(observed)
        }),
{
    if observed == WAIT_FOR_SIPI {
        None
    } else {
        Some(observed)
    }
}

/// Every run of legal steps that starts from Active goes round the cycle
/// Active, Wait-for-SIPI, vector, Active, ... in that order.
pub proof fn lemma_activity_cycle(states: Seq<u8>)
    requires
        states.len() > 0,
        states[0] == ACTIVE,
        forall|i: int| 0 <= i < states.len() - 1 ==> legal_transition(#[trigger] states[i], states[i + 1]),
    ensures
        forall|i: int|
            0 <= i < states.len() ==> {
                &&& i % 3 == 0 ==> #[trigger] states[i] == ACTIVE
                &&& i % 3 == 1 ==> states[i] == WAIT_FOR_SIPI
                &&& i % 3 == 2 ==> is_sipi_vector(states[i])
            },
    decreases states.len(),
{
    if states.len() > 1 {
        let prefix = states.subrange(0, states.len() - 1);
        assert forall|i: int| 0 <= i < prefix.len() - 1 implies legal_transition(
            #[trigger] prefix[i],
            prefix[i + 1],
        ) by {
            assert(prefix[i] == states[i] && prefix[i + 1] == states[i + 1]);
        }
        lemma_activity_cycle(prefix);
        let last = states.len() - 1;
        assert(prefix[last - 1] == states[last - 1]);
        assert(legal_transition(states[last - 1], states[last]));
        assert forall|i: int| 0 <= i < states.len() implies {
            &&& i % 3 == 0 ==> #[trigger] states[i] == ACTIVE
            &&& i % 3 == 1 ==> states[i] == WAIT_FOR_SIPI
            &&& i % 3 == 2 ==> is_sipi_vector(states[i])
        } by {
            if i < last {
                assert(prefix[i] == states[i]);
            }
        }
    }
}

/// A compare-exchange on a slot in Wait-for-SIPI fails, and leaves the slot
/// as it was, whenever it expects anything but Wait-for-SIPI; one that
/// expects Wait-for-SIPI and stores a vector is a legal step.
pub proof fn lemma_exchange_from_wait(expected: u8, new: u8)
    ensures
        expected != WAIT_FOR_SIPI ==> compare_exchange(WAIT_FOR_SIPI, expected, new) == (
            WAIT_FOR_SIPI,
            Err::<u8, u8>(WAIT_FOR_SIPI),
        ),
        expected == WAIT_FOR_SIPI && is_sipi_vector(new) ==> legal_transition(
            WAIT_FOR_SIPI,
            compare_exchange(WAIT_FOR_SIPI, expected, new).0,
        ),
{
}

/// A SIPI sent to a processor that is not yet waiting for one is dropped:
/// the slot keeps its content.
pub proof fn lemma_early_sipi_dropped(current: u8, vector: u8)
    requires
        current != WAIT_FOR_SIPI,
    ensures
        after_sipi_delivery(current, vector) == current,
        compare_exchange(current, WAIT_FOR_SIPI, vector).1 is Err,
{
}

} // verus!
