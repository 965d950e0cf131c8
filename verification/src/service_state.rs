//! How low the charge is, and when that is worth telling.

use crate::battery::{Battery, BatteryState, BatteryView};
use crate::percentage::{one_percent, Percentage};
use vstd::prelude::*;

verus! {

/// Nanoseconds in a minute.
pub const NANOS_IN_MINUTE: u128 = 60_000_000_000;

/// The percent under which the charge is critical.
pub const CRITICAL_BELOW: u8 = 10;

/// The percent under which the charge is low.
pub const LOW_BELOW: u8 = 20;

/// How low the charge is.
#[derive(Debug, Clone, Copy, PartialEq, Eq, Structural)]
pub enum ServiceState {
    Normal,
    LowCapacity,
    CriticalCapacity,
}

impl Default for ServiceState {
    fn default() -> (state: ServiceState)
        ensures
            state == ServiceState::Normal,
    {
        ServiceState::Normal
    }
}

impl ServiceState {
    /// The state that a level of `level` steps calls for: critical under ten
    /// percent, low from ten to under twenty, normal from twenty on.
    pub open spec fn of_level(level: nat) -> ServiceState {
        if level < CRITICAL_BELOW * one_percent() {
            ServiceState::CriticalCapacity
        } else if level < LOW_BELOW * one_percent() {
            ServiceState::LowCapacity
        } else {
            ServiceState::Normal
        }
    }

    /// After how many nanoseconds a notification of this state is repeated
    /// while the state lasts: ten minutes for low, five for critical, never
    /// for normal.
    pub open spec fn renewal(self) -> Option<nat> {
        match self {
            ServiceState::Normal => None,
            ServiceState::LowCapacity => Some((10 * NANOS_IN_MINUTE) as nat),
            ServiceState::CriticalCapacity => Some((5 * NANOS_IN_MINUTE) as nat),
        }
    }

    /// The state that the level of `battery` calls for. The state before has
    /// no say in it.
    pub fn next_state(&self, battery: &Battery) -> (next: ServiceState)
        ensures
            next == ServiceState::of_level(battery@.percentage),
    {
        let level = battery.percentage();
        let critical = Percentage::whole(CRITICAL_BELOW).unwrap();
        let low = Percentage::whole(LOW_BELOW).unwrap();
        if level.is_below(&critical) {
            ServiceState::CriticalCapacity
        } else if level.is_below(&low) {
            ServiceState::LowCapacity
        } else {
            ServiceState::Normal
        }
    }

    /// After how many nanoseconds a notification of this state is repeated;
    /// `None` where it never is.
    pub fn renew_notification_time(&self) -> (interval: Option<u128>)
        ensures
            interval is Some <==> self.renewal() is Some,
            interval matches Some(nanos) ==> self.renewal() == Some(nanos as nat),
    {
        match self {
            ServiceState::Normal => None,
            ServiceState::LowCapacity => Some(10 * NANOS_IN_MINUTE),
            ServiceState::CriticalCapacity => Some(5 * NANOS_IN_MINUTE),
        }
    }
}

/// Whether every battery is losing charge. One that is charging or full means
/// that the machine is on mains.
pub open spec fn all_draining(readings: Seq<BatteryView>) -> bool {
    forall|i: int| 0 <= i < readings.len() ==> (#[trigger] readings[i]).state.draining()
}

/// Whether `index` is the place of the first reading that no other undercuts.
pub open spec fn is_first_lowest(readings: Seq<BatteryView>, index: int) -> bool {
    &&& 0 <= index < readings.len()
    &&& forall|j: int|
        0 <= j < readings.len() ==> readings[index].percentage <= (
        #[trigger] readings[j]).percentage
    &&& forall|j: int|
        0 <= j < index ==> readings[index].percentage < (#[trigger] readings[j]).percentage
}

/// The place of the first reading of lowest level, where there is a reading.
pub open spec fn first_lowest(readings: Seq<BatteryView>) -> int
    recommends
        readings.len() > 0,
{
    choose|index: int| is_first_lowest(readings, index)
}

/// The reading that speaks for the sample: where there is a battery and all
/// are losing charge, the first one of lowest level. Else there is none.
pub open spec fn aggregate_reading(readings: Seq<BatteryView>) -> Option<BatteryView> {
    if readings.len() > 0 && all_draining(readings) {
        Some(readings[first_lowest(readings)])
    } else {
        None
    }
}

/// The state that a sample calls for: that of the reading that speaks for it,
/// and normal where none does.
pub open spec fn classification(readings: Seq<BatteryView>) -> ServiceState {
    match aggregate_reading(readings) {
        Some(reading) => ServiceState::of_level(reading.percentage),
        None => ServiceState::Normal,
    }
}

/// The time from `last` to `now`; none where `now` is the earlier.
pub open spec fn elapsed(last: nat, now: nat) -> nat {
    if now >= last {
        (now - last) as nat
    } else {
        0
    }
}

/// Whether a notification is due on going from `previous` to `next`: on
/// every change of state, and in a state that lasts once more time than its
/// renewal interval has gone by since `last`.
pub open spec fn notification_due(
    previous: ServiceState,
    next: ServiceState,
    last: nat,
    now: nat,
) -> bool {
    ||| previous != next
    ||| previous.renewal() matches Some(interval) && elapsed(last, now) > interval
}

/// Among one reading or more, one is the first of lowest level, and
/// `first_lowest` is its place.
pub proof fn lemma_first_lowest(readings: Seq<BatteryView>)
    requires
        readings.len() > 0,
    ensures
        is_first_lowest(readings, first_lowest(readings)),
    decreases readings.len(),
{
    if readings.len() == 1 {
        assert(is_first_lowest(readings, 0));
    } else {
        let before = readings.drop_last();
        let end = readings.len() - 1;
        lemma_first_lowest(before);
        let found = first_lowest(before);
        assert(forall|j: int| 0 <= j < end ==> before[j] == readings[j]);
        if readings[end].percentage < before[found].percentage {
            assert(is_first_lowest(readings, end));
        } else {
            assert(is_first_lowest(readings, found));
        }
    }
}

/// No two places are that of the first reading of lowest level.
pub proof fn lemma_first_lowest_unique(readings: Seq<BatteryView>, index: int)
    requires
        is_first_lowest(readings, index),
    ensures
        index == first_lowest(readings),
{
    let other = first_lowest(readings);
    assert(is_first_lowest(readings, other));
    if index < other {
        assert(readings[other].percentage < readings[index].percentage);
    }
    if other < index {
        assert(readings[index].percentage < readings[other].percentage);
    }
}

/// A lone battery that is discharging decides by its level: the state is
/// critical if and only if the level is under ten percent, low if and only if
/// it is at least ten and under twenty, and normal if and only if it is at
/// least twenty.
pub proof fn lemma_lone_battery(reading: BatteryView)
    requires
        reading.state == BatteryState::Discharging,
    ensures
        classification(seq![reading]) == ServiceState::CriticalCapacity <==> reading.percentage
            < 10 * one_percent(),
        classification(seq![reading]) == ServiceState::LowCapacity <==> 10 * one_percent()
            <= reading.percentage < 20 * one_percent(),
        classification(seq![reading]) == ServiceState::Normal <==> reading.percentage >= 20
            * one_percent(),
{
    let readings = seq![reading];
    assert(all_draining(readings));
    lemma_first_lowest(readings);
    assert(readings[first_lowest(readings)] == reading);
}

/// One battery that is not losing charge makes the state normal, whatever the
/// levels of the others.
pub proof fn lemma_mains_is_normal(readings: Seq<BatteryView>, place: int)
    requires
        0 <= place < readings.len(),
        !readings[place].state.draining(),
    ensures
        classification(readings) == ServiceState::Normal,
{
}

/// The state depends on nothing but the readings and their order: two samples
/// that hold the same readings in the same places call for the same state.
pub proof fn lemma_same_sample_same_state(first: Seq<BatteryView>, second: Seq<BatteryView>)
    requires
        first.len() == second.len(),
        forall|i: int| 0 <= i < first.len() ==> first[i] == second[i],
    ensures
        classification(first) == classification(second),
{
    assert(first =~= second);
}

/// Every change of state is notified, however little time has gone by.
pub proof fn lemma_change_is_notified(
    previous: ServiceState,
    next: ServiceState,
    last: nat,
    now: nat,
)
    requires
        previous != next,
    ensures
        notification_due(previous, next, last, now),
{
}

/// While the charge stays low, a notification is due once more than ten
/// minutes have gone by since the last one, and not before.
pub proof fn lemma_low_is_renewed(last: nat, now: nat)
    ensures
        notification_due(ServiceState::LowCapacity, ServiceState::LowCapacity, last, now)
            <==> elapsed(last, now) > 10 * NANOS_IN_MINUTE,
{
}

/// While the charge stays critical, a notification is due once more than five
/// minutes have gone by since the last one, and not before.
pub proof fn lemma_critical_is_renewed(last: nat, now: nat)
    ensures
        notification_due(ServiceState::CriticalCapacity, ServiceState::CriticalCapacity, last, now)
            <==> elapsed(last, now) > 5 * NANOS_IN_MINUTE,
{
}

/// While the charge stays normal, no notification is ever due.
pub proof fn lemma_normal_is_silent(last: nat, now: nat)
    ensures
        !notification_due(ServiceState::Normal, ServiceState::Normal, last, now),
{
}

/// The place of the battery that speaks for the sample, where one does.
pub fn aggregate(batteries: &Vec<Battery>) -> (found: Option<usize>)
    ensures
        found is Some <==> aggregate_reading(batteries.deep_view()) is Some,
        found matches Some(index) ==> index == first_lowest(batteries.deep_view())
            && is_first_lowest(batteries.deep_view(), index as int),
{
    let ghost readings = batteries.deep_view();
    if batteries.len() == 0 {
        return None;
    }
    let mut lowest: usize = 0;
    let mut at: usize = 0;
    while at < batteries.len()
        invariant
            readings == batteries.deep_view(),
            0 <= lowest < readings.len(),
            lowest <= at <= readings.len(),
            forall|j: int| 0 <= j < at ==> (#[trigger] readings[j]).state.draining(),
            forall|j: int|
                0 <= j < at ==> readings[lowest as int].percentage <= (
                #[trigger] readings[j]).percentage,
            forall|j: int|
                0 <= j < lowest ==> readings[lowest as int].percentage < (
                #[trigger] readings[j]).percentage,
        decreases readings.len() - at,
    {
        assert(readings[at as int] == batteries@[at as int]@);
        assert(readings[lowest as int] == batteries@[lowest as int]@);
        if !batteries[at].state().is_draining() {
            return None;
        }
        if batteries[at].percentage().is_below(&batteries[lowest].percentage()) {
            lowest = at;
        }
        at = at + 1;
    }
    proof {
        lemma_first_lowest_unique(readings, lowest as int);
    }
    Some(lowest)
}

/// The state that the sample `batteries` calls for.
pub fn classify(batteries: &Vec<Battery>) -> (state: ServiceState)
    ensures
        state == classification(batteries.deep_view()),
{
    match aggregate(batteries) {
        Some(index) => {
            assert(batteries.deep_view()[index as int] == batteries@[index as int]@);
            ServiceState::Normal.next_state(&batteries[index])
        },
        None => ServiceState::Normal,
    }
}

/// Whether to notify on going from `previous` to `next` at the time `now`,
/// the last notification having been at `last_notified_at`. Both times are
/// nanoseconds on one clock that does not run backwards.
pub fn should_notify(
    previous: ServiceState,
    next: ServiceState,
    last_notified_at: u128,
    now: u128,
) -> (due: bool)
    ensures
        due == notification_due(previous, next, last_notified_at as nat, now as nat),
{
    if previous != next {
        return true;
    }
    match previous.renew_notification_time() {
        Some(interval) => now > last_notified_at && now - last_notified_at > interval,
        None => false,
    }
}

} // verus!
