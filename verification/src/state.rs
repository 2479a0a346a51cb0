use vstd::prelude::*;

verus! {

/// The state a beacon is in, as seen by the beacon manager.
#[derive(Copy, Clone, Debug, PartialEq, Eq, Structural)]
pub enum BeaconState {
    Unknown,
    Idle,
    Rebooting,
    Active,
}

/// The position of a state in the list `Unknown, Idle, Rebooting, Active`.
pub open spec fn state_index(s: BeaconState) -> nat {
    match s {
        BeaconState::Unknown => 0,
        BeaconState::Idle => 1,
        BeaconState::Rebooting => 2,
        BeaconState::Active => 3,
    }
}

impl BeaconState {
    /// The number of distinct beacon states.
    pub fn count() -> (n: usize)
        ensures
            n == 4,
    {
        4
    }
}

impl From<BeaconState> for usize {
    fn from(s: BeaconState) -> (r: usize) {
        match s {
            BeaconState::Unknown => 0,
            BeaconState::Idle => 1,
            BeaconState::Rebooting => 2,
            BeaconState::Active => 3,
        }
    }
}

impl vstd::std_specs::convert::FromSpecImpl<BeaconState> for usize {
    open spec fn obeys_from_spec() -> bool {
        true
    }

    open spec fn from_spec(s: BeaconState) -> usize {
        state_index(s) as usize
    }
}

/// Every state's number is below the count of states, and no two states
/// share a number.
pub proof fn lemma_state_index_in_count(a: BeaconState, b: BeaconState)
    ensures
        state_index(a) < 4,
        state_index(a) == state_index(b) ==> a == b,
{
}

impl BeaconState {
    /// The name of the state.
    pub fn to_string(&self) -> (s: String)
        ensures
            s@ == match *self {
                BeaconState::Unknown => "Unknown"@,
                BeaconState::Idle => "Idle"@,
                BeaconState::Rebooting => "Rebooting"@,
                BeaconState::Active => "Active"@,
            },
    {
        match self {
            BeaconState::Unknown => String::from_str("Unknown"),
            BeaconState::Idle => String::from_str("Idle"),
            BeaconState::Rebooting => String::from_str("Rebooting"),
            BeaconState::Active => String::from_str("Active"),
        }
    }
}

} // verus!
