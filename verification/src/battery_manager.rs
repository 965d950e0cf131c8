//! Taking a sample of the power service's batteries.
//!
//! The power service is asked a question at a time, and what it answers
//! decides what is asked next. `BatteryManager` makes those decisions. Its
//! driver performs the request that is pending, reports what came of it as a
//! `DeviceEvent`, and gets the next request in return, until the sample is
//! done or has failed.

use crate::battery::{Battery, BatteryState, BatteryView};
use crate::percentage::{is_level, magnitude, steps, Percentage};
use vstd::prelude::*;
use vstd::string::*;

verus! {

/// The device type by which the power service marks a battery.
pub const DEVICE_TYPE_BATTERY: u32 = 2;

/// The highest state code that the power service emits.
pub const STATE_CODE_MAX: u32 = 6;

/// Why no sample could be taken.
#[derive(Debug, Clone, Copy, PartialEq, Eq, Structural)]
pub enum SampleError {
    /// The system bus could not be reached.
    Connection,
    /// The power service did not answer on the bus.
    Service,
    /// The power service did not list its devices.
    Enumeration,
    /// A listed device has no valid path.
    DevicePath,
    /// A listed device did not answer on the bus.
    DeviceInterface,
    /// A battery reported a state code that the power service does not have.
    StateCode,
}

/// What the driver is to do next.
#[derive(Debug, Clone, Copy, PartialEq, Eq, Structural)]
pub enum DeviceRequest {
    /// List the devices of the power service.
    ListDevices,
    /// Open the listed device at this place, and ask for its type.
    ProbeDevice(usize),
    /// Ask the device at this place for its state, its level and its time to
    /// empty.
    ReadBattery(usize),
    /// Nothing: the sample is complete.
    Done,
    /// Nothing: the sample has failed.
    Fail(SampleError),
}

/// What came of a request.
#[derive(Debug, Clone, Copy, PartialEq, Eq, Structural)]
pub enum DeviceEvent {
    /// The power service lists this many devices.
    Devices(usize),
    /// The device is of this type.
    Type(u32),
    /// The device did not tell its type.
    TypeUnknown,
    /// The device reports this state code, this level as a binary64 pattern,
    /// and this many seconds until it is empty.
    Reading { state: u32, percentage: u64, time_to_empty: u64 },
    /// The device did not tell one of the three.
    ReadingUnknown,
    /// The request failed in a way that leaves no sample to take.
    Failure(SampleError),
}

/// The reading that a device's report stands for.
pub open spec fn reading(state: u32, percentage: u64, time_to_empty: u64) -> BatteryView {
    BatteryView {
        state: BatteryState::of_code(state),
        percentage: steps(magnitude(percentage)),
        time_to_empty: time_to_empty as nat,
    }
}

/// What a manager is to the contracts.
pub struct ManagerView {
    /// The request that the driver is to perform.
    pub pending: DeviceRequest,
    /// How many devices the power service listed.
    pub devices: nat,
    /// The batteries read so far, in the order of the list.
    pub batteries: Seq<BatteryView>,
}

impl ManagerView {
    /// The state on leaving the device at `place` behind: the next device is
    /// probed, and after the last one the sample is done.
    pub open spec fn past(self, place: usize) -> ManagerView {
        if place + 1 < self.devices {
            ManagerView { pending: DeviceRequest::ProbeDevice((place + 1) as usize), ..self }
        } else {
            ManagerView { pending: DeviceRequest::Done, ..self }
        }
    }

    /// The state after `event`.
    ///
    /// A failure ends the sample. The list of devices starts the round, and an
    /// empty one ends it. A device whose type is that of a battery is read,
    /// any other is left behind, and so is one that does not tell its type. A
    /// report with a state code that the power service does not have ends the
    /// sample; one whose level is no number from 0 to 100 is left out; any
    /// other joins the batteries. A device that does not report is left
    /// behind. An event that answers no pending request changes nothing, and
    /// nothing changes once the sample is done or has failed.
    pub open spec fn after(self, event: DeviceEvent) -> ManagerView {
        match (self.pending, event) {
            (DeviceRequest::Done, _) | (DeviceRequest::Fail(_), _) => self,
            (_, DeviceEvent::Failure(error)) => ManagerView {
                pending: DeviceRequest::Fail(error),
                ..self
            },
            (DeviceRequest::ListDevices, DeviceEvent::Devices(count)) => ManagerView {
                pending: if count == 0 {
                    DeviceRequest::Done
                } else {
                    DeviceRequest::ProbeDevice(0)
                },
                devices: count as nat,
                batteries: Seq::empty(),
            },
            (DeviceRequest::ProbeDevice(place), DeviceEvent::Type(device_type)) => {
                if device_type == DEVICE_TYPE_BATTERY {
                    ManagerView { pending: DeviceRequest::ReadBattery(place), ..self }
                } else {
                    self.past(place)
                }
            },
            (DeviceRequest::ProbeDevice(place), DeviceEvent::TypeUnknown) => self.past(place),
            (
                DeviceRequest::ReadBattery(place),
                DeviceEvent::Reading { state, percentage, time_to_empty },
            ) => {
                if state > STATE_CODE_MAX {
                    ManagerView { pending: DeviceRequest::Fail(SampleError::StateCode), ..self }
                } else if is_level(percentage) {
                    ManagerView {
                        batteries: self.batteries.push(reading(state, percentage, time_to_empty)),
                        ..self
                    }.past(place)
                } else {
                    self.past(place)
                }
            },
            (DeviceRequest::ReadBattery(place), DeviceEvent::ReadingUnknown) => self.past(place),
            _ => self,
        }
    }

    /// What holds of every manager: the devices can be counted, a device
    /// that is asked about is one of those listed, and no more batteries were
    /// read than devices were left behind.
    pub open spec fn wf(self) -> bool {
        &&& self.devices <= usize::MAX
        &&& match self.pending {
            DeviceRequest::ListDevices => self.devices == 0 && self.batteries.len() == 0,
            DeviceRequest::ProbeDevice(place) | DeviceRequest::ReadBattery(place) => {
                place < self.devices && self.batteries.len() <= place
            },
            DeviceRequest::Done | DeviceRequest::Fail(_) => self.batteries.len() <= self.devices,
        }
    }
}

/// No event leads out of the states that `wf` describes.
pub proof fn lemma_after_keeps_wf(manager: ManagerView, event: DeviceEvent)
    requires
        manager.wf(),
    ensures
        manager.after(event).wf(),
{
}

/// A device that does not tell its type is left out of the sample, and the
/// sample goes on: the batteries read so far stay, the next device is probed,
/// and after the last one the sample is done.
pub proof fn lemma_unknown_type_is_left_out(manager: ManagerView, place: usize)
    requires
        manager.wf(),
        manager.pending == DeviceRequest::ProbeDevice(place),
    ensures
        manager.after(DeviceEvent::TypeUnknown).batteries == manager.batteries,
        manager.after(DeviceEvent::TypeUnknown).devices == manager.devices,
        manager.after(DeviceEvent::TypeUnknown).pending == if place + 1 < manager.devices {
            DeviceRequest::ProbeDevice((place + 1) as usize)
        } else {
            DeviceRequest::Done
        },
{
}

/// A sample fails on nothing but a failure that the driver reports, and a
/// state code that the power service does not have.
pub proof fn lemma_failure_has_a_cause(manager: ManagerView, event: DeviceEvent)
    requires
        !(manager.pending is Fail),
        manager.after(event).pending is Fail,
    ensures
        event is Failure || (event matches DeviceEvent::Reading { state, .. } && state
            > STATE_CODE_MAX),
{
}

/// Decides, answer by answer, how one sample of the batteries is taken.
pub struct BatteryManager {
    pending: DeviceRequest,
    devices: usize,
    batteries: Vec<Battery>,
}

impl View for BatteryManager {
    type V = ManagerView;

    closed spec fn view(&self) -> ManagerView {
        ManagerView {
            pending: self.pending,
            devices: self.devices as nat,
            batteries: self.batteries.deep_view(),
        }
    }
}

impl SampleError {
    /// The error in words.
    pub open spec fn description(self) -> Seq<char> {
        match self {
            SampleError::Connection => "Cannot establish a dbus connection"@,
            SampleError::Service => "Cannot query upower interface service"@,
            SampleError::Enumeration => "Cannot enumerate devices"@,
            SampleError::DevicePath => "Invalid device path"@,
            SampleError::DeviceInterface => "Cannot query upower device interface"@,
            SampleError::StateCode => "Invalid code"@,
        }
    }

    /// The error in words.
    pub fn describe(&self) -> (text: String)
        ensures
            text@ == self.description(),
    {
        match self {
            SampleError::Connection => String::from_str("Cannot establish a dbus connection"),
            SampleError::Service => String::from_str("Cannot query upower interface service"),
            SampleError::Enumeration => String::from_str("Cannot enumerate devices"),
            SampleError::DevicePath => String::from_str("Invalid device path"),
            SampleError::DeviceInterface => String::from_str(
                "Cannot query upower device interface",
            ),
            SampleError::StateCode => String::from_str("Invalid code"),
        }
    }
}

impl BatteryManager {
    /// Holds of every manager: see `ManagerView::wf`.
    #[verifier::type_invariant]
    pub closed spec fn valid(self) -> bool {
        self@.wf()
    }

    /// A manager at the start of a sample: the devices are to be listed.
    pub fn new() -> (manager: BatteryManager)
        ensures
            manager@ == (ManagerView {
                pending: DeviceRequest::ListDevices,
                devices: 0,
                batteries: Seq::empty(),
            }),
            manager@.wf(),
    {
        let manager = BatteryManager {
            pending: DeviceRequest::ListDevices,
            devices: 0,
            batteries: Vec::new(),
        };
        assert(manager@.batteries =~= Seq::empty());
        manager
    }

    /// The request that the driver is to perform.
    pub fn pending(&self) -> (request: DeviceRequest)
        ensures
            request == self@.pending,
            self@.wf(),
    {
        proof {
            use_type_invariant(self);
        }
        self.pending
    }

    /// The batteries read so far; once the request is `Done`, the sample.
    pub fn get_batteries(&self) -> (batteries: &Vec<Battery>)
        ensures
            batteries.deep_view() == self@.batteries,
    {
        &self.batteries
    }

    /// Takes what came of the pending request. The manager that comes back
    /// holds the next one.
    pub fn step(self, event: DeviceEvent) -> (next: BatteryManager)
        ensures
            next@ == self@.after(event),
            next@.wf(),
    {
        proof {
            use_type_invariant(&self);
        }
        let BatteryManager { pending, devices, mut batteries } = self;
        let ghost before = batteries.deep_view();
        let request = match (pending, event) {
            (DeviceRequest::Done, _) | (DeviceRequest::Fail(_), _) => pending,
            (_, DeviceEvent::Failure(error)) => DeviceRequest::Fail(error),
            (DeviceRequest::ListDevices, DeviceEvent::Devices(count)) => {
                assert(before =~= Seq::empty());
                let first = if count == 0 {
                    DeviceRequest::Done
                } else {
                    DeviceRequest::ProbeDevice(0)
                };
                return BatteryManager { pending: first, devices: count, batteries };
            },
            (DeviceRequest::ProbeDevice(place), DeviceEvent::Type(device_type)) => {
                if device_type == DEVICE_TYPE_BATTERY {
                    DeviceRequest::ReadBattery(place)
                } else {
                    request_past(place, devices)
                }
            },
            (DeviceRequest::ProbeDevice(place), DeviceEvent::TypeUnknown) => request_past(
                place,
                devices,
            ),
            (
                DeviceRequest::ReadBattery(place),
                DeviceEvent::Reading { state, percentage, time_to_empty },
            ) => {
                if state > STATE_CODE_MAX {
                    DeviceRequest::Fail(SampleError::StateCode)
                } else {
                    if let Some(level) = Percentage::from_bits(percentage) {
                        batteries.push(
                            Battery::new(
                                BatteryState::from_upower_code(state),
                                level,
                                time_to_empty,
                            ),
                        );
                        assert(batteries.deep_view() =~= before.push(
                            reading(state, percentage, time_to_empty),
                        ));
                    }
                    request_past(place, devices)
                }
            },
            (DeviceRequest::ReadBattery(place), DeviceEvent::ReadingUnknown) => request_past(
                place,
                devices,
            ),
            _ => pending,
        };
        BatteryManager { pending: request, devices, batteries }
    }
}

/// The request on leaving the device at `place` behind, of `devices` listed.
fn request_past(place: usize, devices: usize) -> (request: DeviceRequest)
    requires
        place < devices,
    ensures
        request == if place + 1 < devices {
            DeviceRequest::ProbeDevice((place + 1) as usize)
        } else {
            DeviceRequest::Done
        },
{
    if place + 1 < devices {
        DeviceRequest::ProbeDevice(place + 1)
    } else {
        DeviceRequest::Done
    }
}

} // verus!
