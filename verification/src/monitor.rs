//! The monitor's memory from one sample to the next, and what it decides on
//! each.

use crate::battery::Battery;
use crate::notification::Notification;
use crate::service_state::{
    aggregate, aggregate_reading, classification, notification_due, should_notify, ServiceState,
};
use vstd::prelude::*;

verus! {

/// Seconds from one sample to the next. The period is fixed: it does not
/// adapt to what the samples hold.
pub const REFRESH_SECONDS: u64 = 10;

/// What the monitor remembers: the state that the last sample called for, and
/// when it last notified.
#[derive(Debug, Clone, Copy, PartialEq, Eq)]
pub struct BatteryMonitor {
    state: ServiceState,
    last_notification_time: u128,
}

/// What a monitor is to the contracts.
pub struct MonitorView {
    pub state: ServiceState,
    pub last_notification_time: nat,
}

/// What one sample led to.
#[derive(Debug, PartialEq, Eq)]
pub struct Tick {
    /// Whether a notification was due.
    pub due: bool,
    /// What to show, if anything.
    pub notification: Option<Notification>,
}

impl View for BatteryMonitor {
    type V = MonitorView;

    closed spec fn view(&self) -> MonitorView {
        MonitorView {
            state: self.state,
            last_notification_time: self.last_notification_time as nat,
        }
    }
}

impl BatteryMonitor {
    /// A monitor that starts at the time `now`, a nanosecond count on the
    /// clock that every later call reads: in the normal state, and as if it
    /// had just notified.
    pub fn new(now: u128) -> (monitor: BatteryMonitor)
        ensures
            monitor@ == (MonitorView {
                state: ServiceState::Normal,
                last_notification_time: now as nat,
            }),
    {
        BatteryMonitor { state: ServiceState::Normal, last_notification_time: now }
    }

    /// The state that the last sample called for.
    pub fn state(&self) -> (state: ServiceState)
        ensures
            state == self@.state,
    {
        self.state
    }

    /// When the monitor last notified.
    pub fn last_notification_time(&self) -> (nanos: u128)
        ensures
            nanos == self@.last_notification_time,
    {
        self.last_notification_time
    }

    /// Takes the sample `batteries`, read at the time `now`.
    ///
    /// The monitor goes to the state that the sample calls for. A notification
    /// is due as `notification_due` says. Where one is due, the monitor takes
    /// `now` for the time of its last notification, whether or not there is
    /// anything to show and whether or not showing it succeeds. There is
    /// something to show where a notification is due and the new state is not
    /// the normal one: the notification tells of the new state and of the
    /// reading that speaks for the sample.
    pub fn tick(&mut self, batteries: &Vec<Battery>, now: u128) -> (tick: Tick)
        ensures
            final(self)@.state == classification(batteries.deep_view()),
            tick.due == notification_due(
                old(self)@.state,
                final(self)@.state,
                old(self)@.last_notification_time,
                now as nat,
            ),
            final(self)@.last_notification_time == if tick.due {
                now as nat
            } else {
                old(self)@.last_notification_time
            },
            tick.notification is Some <==> tick.due && final(self)@.state != ServiceState::Normal,
            tick.notification matches Some(shown) ==> {
                &&& aggregate_reading(batteries.deep_view()) matches Some(reading)
                &&& final(self)@.state.alert() matches Some((urgency, timeout))
                &&& shown.tells(urgency, timeout, reading)
            },
    {
        let found = aggregate(batteries);
        let next = match found {
            Some(index) => self.state.next_state(&batteries[index]),
            None => ServiceState::Normal,
        };
        let due = should_notify(self.state, next, self.last_notification_time, now);
        let notification = match found {
            Some(index) if due => next.notification(&batteries[index]),
            _ => None,
        };
        proof {
            if let Some(index) = found {
                assert(batteries.deep_view()[index as int] == batteries@[index as int]@);
            }
        }
        if due {
            self.last_notification_time = now;
        }
        self.state = next;
        Tick { due, notification }
    }
}

} // verus!
