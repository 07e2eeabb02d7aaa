use vstd::prelude::*;

use crate::alert::{
    cpu_alert_message, cpu_alert_text, ram_alert_message, ram_alert_text, service_alert_message,
    service_alert_text, Alert,
};
use crate::config::Config;
use crate::system_value::{
    event_type_of, CpuLoad, RamUsage, ServiceEvent, ServiceEventType, SystemValue,
};

verus! {

/// The quotient of `a` by `b`, rounded toward zero (as integer division in
/// Rust rounds). `b` is not zero.
pub open spec fn quot_toward_zero(a: int, b: int) -> int {
    if a >= 0 {
        if b > 0 { a / b } else { -(a / (-b)) }
    } else {
        if b > 0 { -((-a) / b) } else { (-a) / (-b) }
    }
}

/// Whole percent of `total` that `used` makes up, or `None` when `total` is zero.
pub open spec fn ram_percent(used: int, total: int) -> Option<int> {
    if total == 0 {
        None
    } else {
        Some(quot_toward_zero(100 * used, total))
    }
}

/// A CPU reading breaks the rule when it is strictly above the CPU threshold.
pub open spec fn cpu_over(load: int, cfg: Config) -> bool {
    load > cfg.cpu_max
}

/// A memory reading breaks the rule when its whole percentage is strictly
/// above the CPU threshold. A reading of zero total megabytes never does.
pub open spec fn ram_over(used: int, total: int, cfg: Config) -> bool {
    match ram_percent(used, total) {
        Some(p) => p > cfg.cpu_max,
        None => false,
    }
}

/// A service event breaks the rule when a critical executable stopped.
pub open spec fn service_over(executable: Seq<char>, event_type: i32, cfg: Config) -> bool {
    cfg.delicate_view().contains(executable) && event_type_of(event_type) == Some(
        ServiceEventType::Stop,
    )
}

/// The message of the alert that a value raises under a configuration, if any.
pub open spec fn alert_text(value: SystemValue, cfg: Config) -> Option<Seq<char>> {
    match value {
        SystemValue::CpuLoadValue(c) => if cpu_over(c.load as int, cfg) {
            Some(cpu_alert_text(c.load as int, cfg.cpu_max as int))
        } else {
            None
        },
        SystemValue::RamUsageValue(r) => if ram_over(r.used_mb as int, r.total_mb as int, cfg) {
            Some(ram_alert_text(r.used_mb as int, r.total_mb as int, cfg.cpu_max as int))
        } else {
            None
        },
        SystemValue::ServiceEventValue(s) => if service_over(
            s.executable@,
            s.service_event_type,
            cfg,
        ) {
            Some(service_alert_text(s.executable@))
        } else {
            None
        },
    }
}

/// An alert-or-none result matches a device and an expected message.
pub open spec fn alert_matches(r: Option<Alert>, device: Seq<char>, text: Option<Seq<char>>) -> bool {
    match r {
        Some(a) => text == Some(a.message@) && a.device@ == device,
        None => text is None,
    }
}

/// Evaluates telemetry values against a configuration that it holds.
pub struct Watchdog {
    config: Box<Config>,
}

impl Watchdog {
    /// The configuration that the rules read.
    pub closed spec fn config(&self) -> Config {
        *self.config
    }

    pub fn new(config: Box<Config>) -> (r: Watchdog)
        ensures
            r.config() == *config,
    {
        Watchdog { config }
    }

    /// Evaluates one value from a device: the alert it raises, if any.
    pub fn on_system_value(&self, device_name: &str, system_value: &SystemValue) -> (r: Option<Alert>)
        ensures
            alert_matches(r, device_name@, alert_text(*system_value, self.config())),
    {
        let text = match system_value {
            SystemValue::CpuLoadValue(cpu) => if self.check_cpu_load(cpu) {
                Some(cpu_alert_message(cpu.load, self.config.cpu_max))
            } else {
                None
            },
            SystemValue::RamUsageValue(ram) => if self.check_ram_usage(ram) {
                Some(ram_alert_message(ram.used_mb, ram.total_mb, self.config.cpu_max))
            } else {
                None
            },
            SystemValue::ServiceEventValue(svc) => if self.check_service_event(svc) {
                Some(service_alert_message(svc.executable.as_str()))
            } else {
                None
            },
        };
        match text {
            Some(message) => Some(Alert { device: String::from_str(device_name), message }),
            None => None,
        }
    }

    pub fn check_cpu_load(&self, cpu_load: &CpuLoad) -> (r: bool)
        ensures
            r == cpu_over(cpu_load.load as int, self.config()),
    {
        cpu_load.load > self.config.cpu_max
    }

    pub fn check_ram_usage(&self, ram_usage: &RamUsage) -> (r: bool)
        ensures
            r == ram_over(ram_usage.used_mb as int, ram_usage.total_mb as int, self.config()),
    {
        let total = ram_usage.total_mb as i64;
        if total == 0 {
            return false;
        }
        let scaled = 100 * (ram_usage.used_mb as i64);
        let a: u64 = if scaled >= 0 { scaled as u64 } else { (-scaled) as u64 };
        let b: u64 = if total > 0 { total as u64 } else { (-total) as u64 };
        let q = (a / b) as i64;
        let percent: i64 = if (scaled >= 0) == (total > 0) { q } else { -q };
        percent > self.config.cpu_max as i64
    }

    pub fn check_service_event(&self, service_event: &ServiceEvent) -> (r: bool)
        ensures
            r == service_over(service_event.executable@, service_event.service_event_type, self.config()),
    {
        let is_stop = match ServiceEventType::from_i32(service_event.service_event_type) {
            Some(ServiceEventType::Stop) => true,
            _ => false,
        };
        let procs = &self.config.delicate_processes;
        let mut found = false;
        let mut i: usize = 0;
        while i < procs.len()
            invariant
                i <= procs.len(),
                procs@.map_values(|s: String| s@) == self.config().delicate_view(),
                found == exists|j: int| 0 <= j < i && procs@[j]@ == service_event.executable@,
            decreases procs.len() - i,
        {
            if procs[i] == service_event.executable {
                found = true;
            }
            i = i + 1;
        }
        proof {
            let v = self.config().delicate_view();
            if found {
                let j = choose|j: int| 0 <= j < i && procs@[j]@ == service_event.executable@;
                assert(v[j] == service_event.executable@);
            } else {
                assert forall|j: int| 0 <= j < v.len() implies v[j] != service_event.executable@ by {
                    assert(v[j] == procs@[j]@);
                }
            }
        }
        found && is_stop
    }
}

} // verus!
