//! One battery as the power service reports it.

use crate::percentage::Percentage;
use vstd::prelude::*;

verus! {

/// Charging state of a power source.
#[derive(Debug, Clone, Copy, PartialEq, Eq, Structural)]
pub enum BatteryState {
    Unknown,
    Charging,
    Discharging,
    Empty,
    FullyCharged,
    PendingCharge,
    PendingDischarge,
}

impl BatteryState {
    /// The code by which the power service names the state.
    pub open spec fn code(self) -> u32 {
        match self {
            BatteryState::Unknown => 0,
            BatteryState::Charging => 1,
            BatteryState::Discharging => 2,
            BatteryState::Empty => 3,
            BatteryState::FullyCharged => 4,
            BatteryState::PendingCharge => 5,
            BatteryState::PendingDischarge => 6,
        }
    }

    /// The state that the power service names by `code`.
    pub open spec fn of_code(code: u32) -> BatteryState
        recommends
            code <= 6,
    {
        if code == 0 {
            BatteryState::Unknown
        } else if code == 1 {
            BatteryState::Charging
        } else if code == 2 {
            BatteryState::Discharging
        } else if code == 3 {
            BatteryState::Empty
        } else if code == 4 {
            BatteryState::FullyCharged
        } else if code == 5 {
            BatteryState::PendingCharge
        } else {
            BatteryState::PendingDischarge
        }
    }

    /// Whether the source is losing charge: discharging, or already empty.
    pub open spec fn draining(self) -> bool {
        self == BatteryState::Discharging || self == BatteryState::Empty
    }

    /// Decodes a state code of the power service. The service emits the codes
    /// 0 to 6 and no others.
    pub fn from_upower_code(code: u32) -> (state: BatteryState)
        requires
            code <= 6,
        ensures
            state == BatteryState::of_code(code),
            state.code() == code,
    {
        match code {
            0 => BatteryState::Unknown,
            1 => BatteryState::Charging,
            2 => BatteryState::Discharging,
            3 => BatteryState::Empty,
            4 => BatteryState::FullyCharged,
            5 => BatteryState::PendingCharge,
            _ => BatteryState::PendingDischarge,
        }
    }

    /// Whether the source is losing charge.
    pub fn is_draining(&self) -> (draining: bool)
        ensures
            draining == self.draining(),
    {
        match self {
            BatteryState::Discharging | BatteryState::Empty => true,
            _ => false,
        }
    }
}

/// Every state has a code from 0 to 6, and the code names no other state.
pub proof fn lemma_state_codes(state: BatteryState)
    ensures
        state.code() <= 6,
        BatteryState::of_code(state.code()) == state,
{
}

/// What a battery is to the contracts: its state, its level in steps (see
/// `percentage::one_percent`), and the seconds until it is empty, zero where
/// that is unknown.
pub struct BatteryView {
    pub state: BatteryState,
    pub percentage: nat,
    pub time_to_empty: nat,
}

/// One reading of one battery.
#[derive(Debug, Clone, Copy, PartialEq, Eq)]
pub struct Battery {
    state: BatteryState,
    percentage: Percentage,
    time_to_empty: u64,
}

impl View for Battery {
    type V = BatteryView;

    closed spec fn view(&self) -> BatteryView {
        BatteryView {
            state: self.state,
            percentage: self.percentage@,
            time_to_empty: self.time_to_empty as nat,
        }
    }
}

impl DeepView for Battery {
    type V = BatteryView;

    open spec fn deep_view(&self) -> BatteryView {
        self@
    }
}

impl Battery {
    /// A reading with the given state and level, and `time_to_empty` seconds
    /// left, zero for unknown.
    pub fn new(state: BatteryState, percentage: Percentage, time_to_empty: u64) -> (battery:
        Battery)
        ensures
            battery@ == (BatteryView {
                state,
                percentage: percentage@,
                time_to_empty: time_to_empty as nat,
            }),
    {
        Battery { state, percentage, time_to_empty }
    }

    pub fn state(&self) -> (state: BatteryState)
        ensures
            state == self@.state,
    {
        self.state
    }

    pub fn percentage(&self) -> (percentage: Percentage)
        ensures
            percentage.valid(),
            percentage@ == self@.percentage,
    {
        proof {
            use_type_invariant(&self.percentage);
        }
        self.percentage
    }

    /// Seconds until the battery is empty; zero where that is unknown.
    pub fn time_to_empty(&self) -> (seconds: u64)
        ensures
            seconds == self@.time_to_empty,
    {
        self.time_to_empty
    }
}

} // verus!
