//! Choosing a record by routing key and decoding its payload.
use vstd::prelude::*;
use vstd::string::StringExecFns;

use prost::DecodeError;

use crate::system_value::{CpuLoad, RamUsage, ServiceEvent, SystemValue};
use crate::wire::{
    int32_prefix, key_prefix, merge_int32, merge_string, read_key, skip_field, skipped_len,
    string_prefix,
};

verus! {

/// Why a payload could not be turned into a value.
pub enum ParseError {
    /// The routing key names none of the known kinds of telemetry.
    NoMatchingKey(String),
    /// The payload is not a well-formed record of the kind the key names.
    Decode(DecodeError),
}

/// The kinds of telemetry, in the order in which routing keys are matched.
#[derive(Clone, Copy, Debug, PartialEq, Eq, Structural)]
pub enum Kind {
    CpuLoad,
    RamUsage,
    ServiceEvent,
}

/// `needle` occurs in `haystack` as a contiguous run.
pub open spec fn has_substring(haystack: Seq<char>, needle: Seq<char>) -> bool {
    exists|i: int|
        0 <= i && i + needle.len() <= haystack.len() && #[trigger] haystack.subrange(
            i,
            i + needle.len(),
        ) == needle
}

/// The kind that a routing key names: the first of `cpu.load`, `ram.usage`
/// and `service.event` that it contains.
pub open spec fn classify(key: Seq<char>) -> Option<Kind> {
    if has_substring(key, "cpu.load"@) {
        Some(Kind::CpuLoad)
    } else if has_substring(key, "ram.usage"@) {
        Some(Kind::RamUsage)
    } else if has_substring(key, "service.event"@) {
        Some(Kind::ServiceEvent)
    } else {
        None
    }
}

/// Relies on str::contains with a `&str` pattern: whether `needle` occurs in `haystack`.
#[verifier::external_body]
fn contains_text(haystack: &str, needle: &str) -> (r: bool)
    ensures
        r == has_substring(haystack@, needle@),
{
    haystack.contains(needle)
}

/// The `load` that a CPU record in `b` ends with, having `load` so far;
/// unknown fields are passed over, and a later field overrides an earlier one.
pub open spec fn cpu_load_from(b: Seq<u8>, load: i32) -> Option<i32>
    decreases b.len(),
{
    if b.len() == 0 {
        Some(load)
    } else {
        match key_prefix(b) {
            None => None,
            Some((tag, wt, n)) => {
                let r = b.skip(n as int);
                if n == 0 || n > b.len() {
                    None
                } else if tag == 1 {
                    match int32_prefix(wt, r) {
                        Some((v, m)) => if m > r.len() {
                            None
                        } else {
                            cpu_load_from(r.skip(m as int), v)
                        },
                        None => None,
                    }
                } else {
                    match skipped_len(wt, tag, r) {
                        Some(m) => if m > r.len() {
                            None
                        } else {
                            cpu_load_from(r.skip(m as int), load)
                        },
                        None => None,
                    }
                }
            },
        }
    }
}

/// The used and total megabytes that a memory record in `b` ends with.
pub open spec fn ram_usage_from(b: Seq<u8>, used: i32, total: i32) -> Option<(i32, i32)>
    decreases b.len(),
{
    if b.len() == 0 {
        Some((used, total))
    } else {
        match key_prefix(b) {
            None => None,
            Some((tag, wt, n)) => {
                let r = b.skip(n as int);
                if n == 0 || n > b.len() {
                    None
                } else if tag == 1 || tag == 2 {
                    match int32_prefix(wt, r) {
                        Some((v, m)) => if m > r.len() {
                            None
                        } else if tag == 1 {
                            ram_usage_from(r.skip(m as int), v, total)
                        } else {
                            ram_usage_from(r.skip(m as int), used, v)
                        },
                        None => None,
                    }
                } else {
                    match skipped_len(wt, tag, r) {
                        Some(m) => if m > r.len() {
                            None
                        } else {
                            ram_usage_from(r.skip(m as int), used, total)
                        },
                        None => None,
                    }
                }
            },
        }
    }
}

/// The executable and event type that a service record in `b` ends with.
pub open spec fn service_event_from(b: Seq<u8>, exe: Seq<char>, event_type: i32) -> Option<(Seq<char>, i32)>
    decreases b.len(),
{
    if b.len() == 0 {
        Some((exe, event_type))
    } else {
        match key_prefix(b) {
            None => None,
            Some((tag, wt, n)) => {
                let r = b.skip(n as int);
                if n == 0 || n > b.len() {
                    None
                } else if tag == 1 {
                    match string_prefix(wt, r) {
                        Some((s, m)) => if m > r.len() {
                            None
                        } else {
                            service_event_from(r.skip(m as int), s, event_type)
                        },
                        None => None,
                    }
                } else if tag == 2 {
                    match int32_prefix(wt, r) {
                        Some((v, m)) => if m > r.len() {
                            None
                        } else {
                            service_event_from(r.skip(m as int), exe, v)
                        },
                        None => None,
                    }
                } else {
                    match skipped_len(wt, tag, r) {
                        Some(m) => if m > r.len() {
                            None
                        } else {
                            service_event_from(r.skip(m as int), exe, event_type)
                        },
                        None => None,
                    }
                }
            },
        }
    }
}

/// Decodes a CPU record: `load` is field 1.
pub fn decode_cpu_load(data: &[u8]) -> (r: Result<CpuLoad, DecodeError>)
    ensures
        match r {
            Ok(c) => cpu_load_from(data@, 0) == Some(c.load),
            Err(_) => cpu_load_from(data@, 0) is None,
        },
{
    let mut pos: usize = 0;
    let mut load: i32 = 0;
    assert(data@.skip(0) =~= data@);
    while pos < data.len()
        invariant
            pos <= data.len(),
            cpu_load_from(data@.skip(pos as int), load) == cpu_load_from(data@, 0),
        decreases data.len() - pos,
    {
        let ghost b = data@.skip(pos as int);
        let (tag, wt, rest) = match read_key(data, pos) {
            Ok(k) => k,
            Err(e) => return Err(e),
        };
        let p1 = data.len() - rest;
        assert(b.skip(p1 - pos) =~= data@.skip(p1 as int));
        if tag == 1 {
            let (v, rest2) = match merge_int32(wt, data, p1) {
                Ok(x) => x,
                Err(e) => return Err(e),
            };
            let p2 = data.len() - rest2;
            assert(data@.skip(p1 as int).skip(p2 - p1) =~= data@.skip(p2 as int));
            load = v;
            pos = p2;
        } else {
            let rest2 = match skip_field(wt, tag, data, p1) {
                Ok(x) => x,
                Err(e) => return Err(e),
            };
            let p2 = data.len() - rest2;
            assert(data@.skip(p1 as int).skip(p2 - p1) =~= data@.skip(p2 as int));
            pos = p2;
        }
    }
    assert(data@.skip(pos as int).len() == 0);
    Ok(CpuLoad { load })
}

/// Decodes a memory record: `used_mb` is field 1, `total_mb` field 2.
pub fn decode_ram_usage(data: &[u8]) -> (r: Result<RamUsage, DecodeError>)
    ensures
        match r {
            Ok(m) => ram_usage_from(data@, 0, 0) == Some((m.used_mb, m.total_mb)),
            Err(_) => ram_usage_from(data@, 0, 0) is None,
        },
{
    let mut pos: usize = 0;
    let mut used: i32 = 0;
    let mut total: i32 = 0;
    assert(data@.skip(0) =~= data@);
    while pos < data.len()
        invariant
            pos <= data.len(),
            ram_usage_from(data@.skip(pos as int), used, total) == ram_usage_from(data@, 0, 0),
        decreases data.len() - pos,
    {
        let ghost b = data@.skip(pos as int);
        let (tag, wt, rest) = match read_key(data, pos) {
            Ok(k) => k,
            Err(e) => return Err(e),
        };
        let p1 = data.len() - rest;
        assert(b.skip(p1 - pos) =~= data@.skip(p1 as int));
        if tag == 1 || tag == 2 {
            let (v, rest2) = match merge_int32(wt, data, p1) {
                Ok(x) => x,
                Err(e) => return Err(e),
            };
            let p2 = data.len() - rest2;
            assert(data@.skip(p1 as int).skip(p2 - p1) =~= data@.skip(p2 as int));
            if tag == 1 {
                used = v;
            } else {
                total = v;
            }
            pos = p2;
        } else {
            let rest2 = match skip_field(wt, tag, data, p1) {
                Ok(x) => x,
                Err(e) => return Err(e),
            };
            let p2 = data.len() - rest2;
            assert(data@.skip(p1 as int).skip(p2 - p1) =~= data@.skip(p2 as int));
            pos = p2;
        }
    }
    assert(data@.skip(pos as int).len() == 0);
    Ok(RamUsage { used_mb: used, total_mb: total })
}

/// Decodes a service record: `executable` is field 1, the event type field 2.
pub fn decode_service_event(data: &[u8]) -> (r: Result<ServiceEvent, DecodeError>)
    ensures
        match r {
            Ok(s) => service_event_from(data@, Seq::empty(), 0) == Some(
                (s.executable@, s.service_event_type),
            ),
            Err(_) => service_event_from(data@, Seq::empty(), 0) is None,
        },
{
    let mut pos: usize = 0;
    let mut exe = String::new();
    let mut event_type: i32 = 0;
    assert(data@.skip(0) =~= data@);
    while pos < data.len()
        invariant
            pos <= data.len(),
            service_event_from(data@.skip(pos as int), exe@, event_type) == service_event_from(
                data@,
                Seq::empty(),
                0,
            ),
        decreases data.len() - pos,
    {
        let ghost b = data@.skip(pos as int);
        let (tag, wt, rest) = match read_key(data, pos) {
            Ok(k) => k,
            Err(e) => return Err(e),
        };
        let p1 = data.len() - rest;
        assert(b.skip(p1 - pos) =~= data@.skip(p1 as int));
        if tag == 1 {
            let (v, rest2) = match merge_string(wt, data, p1) {
                Ok(x) => x,
                Err(e) => return Err(e),
            };
            let p2 = data.len() - rest2;
            assert(data@.skip(p1 as int).skip(p2 - p1) =~= data@.skip(p2 as int));
            exe = v;
            pos = p2;
        } else if tag == 2 {
            let (v, rest2) = match merge_int32(wt, data, p1) {
                Ok(x) => x,
                Err(e) => return Err(e),
            };
            let p2 = data.len() - rest2;
            assert(data@.skip(p1 as int).skip(p2 - p1) =~= data@.skip(p2 as int));
            event_type = v;
            pos = p2;
        } else {
            let rest2 = match skip_field(wt, tag, data, p1) {
                Ok(x) => x,
                Err(e) => return Err(e),
            };
            let p2 = data.len() - rest2;
            assert(data@.skip(p1 as int).skip(p2 - p1) =~= data@.skip(p2 as int));
            pos = p2;
        }
    }
    assert(data@.skip(pos as int).len() == 0);
    Ok(ServiceEvent { executable: exe, service_event_type: event_type })
}

/// What `parse_data` returns, given the routing key and the payload.
pub open spec fn parse_matches(key: Seq<char>, data: Seq<u8>, r: Result<SystemValue, ParseError>) -> bool {
    match r {
        Ok(SystemValue::CpuLoadValue(c)) => classify(key) == Some(Kind::CpuLoad) && cpu_load_from(
            data,
            0,
        ) == Some(c.load),
        Ok(SystemValue::RamUsageValue(m)) => classify(key) == Some(Kind::RamUsage)
            && ram_usage_from(data, 0, 0) == Some((m.used_mb, m.total_mb)),
        Ok(SystemValue::ServiceEventValue(s)) => classify(key) == Some(Kind::ServiceEvent)
            && service_event_from(data, Seq::empty(), 0) == Some(
            (s.executable@, s.service_event_type),
        ),
        Err(ParseError::NoMatchingKey(k)) => classify(key) is None && k@ == key,
        Err(ParseError::Decode(_)) => match classify(key) {
            Some(Kind::CpuLoad) => cpu_load_from(data, 0) is None,
            Some(Kind::RamUsage) => ram_usage_from(data, 0, 0) is None,
            Some(Kind::ServiceEvent) => service_event_from(data, Seq::empty(), 0) is None,
            None => false,
        },
    }
}

/// The kind of telemetry that a routing key names, trying `cpu.load`,
/// `ram.usage` and `service.event` in that order.
pub fn classify_key(key: &str) -> (r: Option<Kind>)
    ensures
        r == classify(key@),
{
    let patterns: [(&str, Kind); 3] = [
        ("cpu.load", Kind::CpuLoad),
        ("ram.usage", Kind::RamUsage),
        ("service.event", Kind::ServiceEvent),
    ];
    let mut i: usize = 0;
    while i < 3
        invariant
            i <= 3,
            patterns@ == seq![
                ("cpu.load", Kind::CpuLoad),
                ("ram.usage", Kind::RamUsage),
                ("service.event", Kind::ServiceEvent),
            ],
            i >= 1 ==> !has_substring(key@, "cpu.load"@),
            i >= 2 ==> !has_substring(key@, "ram.usage"@),
            i >= 3 ==> !has_substring(key@, "service.event"@),
        decreases 3 - i,
    {
        let (pattern, kind) = patterns[i];
        if contains_text(key, pattern) {
            return Some(kind);
        }
        i = i + 1;
    }
    None
}

/// Decodes a payload as the record that its routing key names; the first of
/// `cpu.load`, `ram.usage` and `service.event` that the key contains decides.
pub fn parse_data(key: &str, data: Vec<u8>) -> (r: Result<SystemValue, ParseError>)
    ensures
        parse_matches(key@, data@, r),
{
    match classify_key(key) {
        Some(Kind::CpuLoad) => match decode_cpu_load(data.as_slice()) {
            Ok(c) => Ok(SystemValue::CpuLoadValue(c)),
            Err(e) => Err(ParseError::Decode(e)),
        },
        Some(Kind::RamUsage) => match decode_ram_usage(data.as_slice()) {
            Ok(m) => Ok(SystemValue::RamUsageValue(m)),
            Err(e) => Err(ParseError::Decode(e)),
        },
        Some(Kind::ServiceEvent) => match decode_service_event(data.as_slice()) {
            Ok(s) => Ok(SystemValue::ServiceEventValue(s)),
            Err(e) => Err(ParseError::Decode(e)),
        },
        None => Err(ParseError::NoMatchingKey(String::from_str(key))),
    }
}

} // verus!
