use vstd::prelude::*;

verus! {

/// A CPU load reading, in percent.
pub struct CpuLoad {
    pub load: i32,
}

/// A memory reading, in megabytes.
pub struct RamUsage {
    pub used_mb: i32,
    pub total_mb: i32,
}

/// What happened to a service.
#[derive(Clone, Copy, Debug, PartialEq, Eq, Structural)]
pub enum ServiceEventType {
    Start,
    Stop,
}

/// The integer that stands for `Start` on the wire.
pub const SERVICE_START: i32 = 0;

/// The integer that stands for `Stop` on the wire.
pub const SERVICE_STOP: i32 = 1;

/// The event type that a wire integer stands for, if any.
pub open spec fn event_type_of(v: i32) -> Option<ServiceEventType> {
    if v == SERVICE_START {
        Some(ServiceEventType::Start)
    } else if v == SERVICE_STOP {
        Some(ServiceEventType::Stop)
    } else {
        None
    }
}

impl ServiceEventType {
    /// Maps a wire integer to an event type; unknown integers give `None`.
    pub fn from_i32(v: i32) -> (r: Option<ServiceEventType>)
        ensures
            r == event_type_of(v),
    {
        if v == SERVICE_START {
            Some(ServiceEventType::Start)
        } else if v == SERVICE_STOP {
            Some(ServiceEventType::Stop)
        } else {
            None
        }
    }

    /// The wire integer of this event type.
    pub fn to_i32(self) -> (r: i32)
        ensures
            event_type_of(r) == Some(self),
    {
        match self {
            ServiceEventType::Start => SERVICE_START,
            ServiceEventType::Stop => SERVICE_STOP,
        }
    }
}

/// A lifecycle event of a service on a device. The event type is kept as
/// the wire integer, so that types this agent does not know pass through.
pub struct ServiceEvent {
    pub executable: String,
    pub service_event_type: i32,
}

/// One decoded telemetry value.
pub enum SystemValue {
    CpuLoadValue(CpuLoad),
    RamUsageValue(RamUsage),
    ServiceEventValue(ServiceEvent),
}

} // verus!
