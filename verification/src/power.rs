//! The power policy: whether the machine has the power to spare for a new
//! wallpaper.

use vstd::prelude::*;

verus! {

/// What a battery is doing.
#[derive(Clone, Copy, Debug, PartialEq, Eq, Structural)]
pub enum BatteryState {
    Unknown,
    Charging,
    Discharging,
    Empty,
    Full,
}

/// What to do about the battery.
#[derive(Clone, Copy, Debug, PartialEq, Eq, Structural)]
pub enum PowerVerdict {
    /// Go on, whatever the batteries are doing.
    Proceed,
    /// Go on only if a battery is charging.
    ProceedIfCharging,
}

/// The charge suffices when the check is overridden, when there is no
/// battery, or when the charge is above the minimum; else it depends on
/// whether a battery is charging.
pub open spec fn spec_power_gate(force: bool, percentage: Option<u32>, minimum: u32) -> PowerVerdict {
    if force || percentage is None || percentage->0 > minimum {
        PowerVerdict::Proceed
    } else {
        PowerVerdict::ProceedIfCharging
    }
}

/// Judges the charge of the batteries against the minimum.
pub fn power_gate(force: bool, percentage: Option<u32>, minimum: u32) -> (verdict: PowerVerdict)
    ensures
        verdict == spec_power_gate(force, percentage, minimum),
{
    if force {
        return PowerVerdict::Proceed;
    }
    match percentage {
        None => PowerVerdict::Proceed,
        Some(charge) => if charge > minimum {
            PowerVerdict::Proceed
        } else {
            PowerVerdict::ProceedIfCharging
        },
    }
}

/// Tells whether at least one battery is charging.
pub fn is_charging(states: &Vec<BatteryState>) -> (charging: bool)
    ensures
        charging <==> exists|k: int| 0 <= k < states.len() && states[k] == BatteryState::Charging,
{
    let mut k: usize = 0;
    while k < states.len()
        invariant
            k <= states.len(),
            forall|m: int| 0 <= m < k ==> states[m] != BatteryState::Charging,
        decreases states.len() - k,
    {
        if states[k] == BatteryState::Charging {
            return true;
        }
        k = k + 1;
    }
    false
}

} // verus!
