//! What the desktop is asked to show.

use crate::battery::{Battery, BatteryView};
use crate::decimal::{decimal, push_decimal};
use crate::percentage::{nearest, one_percent};
use crate::service_state::ServiceState;
use vstd::prelude::*;
use vstd::string::*;

verus! {

/// Seconds in a minute.
pub const SECS_IN_MINUTE: u64 = 60;

/// How pressing a notification is.
#[derive(Debug, Clone, Copy, PartialEq, Eq, Structural)]
pub enum Urgency {
    Normal,
    Critical,
}

/// How long a notification stays.
#[derive(Debug, Clone, Copy, PartialEq, Eq, Structural)]
pub enum Timeout {
    /// As long as the desktop keeps any notification.
    Default,
    /// Until the user dismisses it.
    Never,
}

/// A notification, ready to be shown.
#[derive(Debug, PartialEq, Eq)]
pub struct Notification {
    pub summary: String,
    pub icon: String,
    pub urgency: Urgency,
    pub timeout: Timeout,
    pub body: String,
}

/// The headline of a notification of the given urgency.
pub open spec fn summary_text(urgency: Urgency) -> Seq<char> {
    match urgency {
        Urgency::Critical => "Low Battery (Critical)"@,
        Urgency::Normal => "Low Battery"@,
    }
}

/// The part of the body on the time left: nothing where the time is unknown,
/// else the whole minutes that the seconds hold.
pub open spec fn remaining_text(time_to_empty: nat) -> Seq<char> {
    if time_to_empty == 0 {
        Seq::empty()
    } else {
        " (remaining: "@ + decimal(time_to_empty / SECS_IN_MINUTE as nat) + " minutes)"@
    }
}

/// The body of a notification on `battery`: its level, rounded to the nearest
/// whole percent, and the time left where that is known.
pub open spec fn body_text(battery: BatteryView) -> Seq<char> {
    "Battery capacity is "@ + decimal(nearest(battery.percentage, one_percent())) + "%"@
        + remaining_text(battery.time_to_empty)
}

impl Notification {
    /// Whether this is the notification of the given urgency and timeout on
    /// `battery`.
    pub open spec fn tells(self, urgency: Urgency, timeout: Timeout, battery: BatteryView) -> bool {
        &&& self.summary@ == summary_text(urgency)
        &&& self.icon@ == "battery"@
        &&& self.urgency == urgency
        &&& self.timeout == timeout
        &&& self.body@ == body_text(battery)
    }

    /// The notification of the given urgency and timeout on `battery`.
    pub fn new(urgency: Urgency, timeout: Timeout, battery: &Battery) -> (notification:
        Notification)
        ensures
            notification.tells(urgency, timeout, battery@),
    {
        let summary = match urgency {
            Urgency::Critical => String::from_str("Low Battery (Critical)"),
            Urgency::Normal => String::from_str("Low Battery"),
        };
        let mut body = String::from_str("Battery capacity is ");
        push_decimal(&mut body, battery.percentage().rounded() as u64);
        body.append("%");
        let time_to_empty = battery.time_to_empty();
        if time_to_empty != 0 {
            body.append(" (remaining: ");
            push_decimal(&mut body, time_to_empty / SECS_IN_MINUTE);
            body.append(" minutes)");
        }
        proof {
            let level = "Battery capacity is "@ + decimal(
                nearest(battery@.percentage, one_percent()),
            ) + "%"@;
            if time_to_empty != 0 {
                let minutes = decimal((time_to_empty / SECS_IN_MINUTE) as nat);
                assert(body@ =~= level + (" (remaining: "@ + minutes + " minutes)"@));
            } else {
                assert(body@ =~= level + Seq::<char>::empty());
            }
        }
        Notification { summary, icon: String::from_str("battery"), urgency, timeout, body }
    }
}

impl ServiceState {
    /// How a notification of this state is to be shown: a low charge with
    /// normal urgency and the desktop's own timeout, a critical one with
    /// critical urgency and until it is dismissed. A normal charge is not
    /// shown.
    pub open spec fn alert(self) -> Option<(Urgency, Timeout)> {
        match self {
            ServiceState::Normal => None,
            ServiceState::LowCapacity => Some((Urgency::Normal, Timeout::Default)),
            ServiceState::CriticalCapacity => Some((Urgency::Critical, Timeout::Never)),
        }
    }

    /// The notification that tells of this state, `battery` being the one
    /// that brought it about. There is none of a normal state.
    pub fn notification(&self, battery: &Battery) -> (notification: Option<Notification>)
        ensures
            notification is Some <==> *self != ServiceState::Normal,
            notification matches Some(shown) ==> self.alert() matches Some((urgency, timeout))
                && shown.tells(urgency, timeout, battery@),
    {
        match self {
            ServiceState::Normal => None,
            ServiceState::LowCapacity => Some(
                Notification::new(Urgency::Normal, Timeout::Default, battery),
            ),
            ServiceState::CriticalCapacity => Some(
                Notification::new(Urgency::Critical, Timeout::Never, battery),
            ),
        }
    }
}

} // verus!
