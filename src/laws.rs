//! Properties that hold across the decoder, the evaluator and the ingestion step.
use vstd::prelude::*;

use prost::DecodeError;

use crate::alert::Alert;
use crate::config::Config;
use crate::ingest::handled;
use crate::parser::{classify, cpu_load_from, has_substring, parse_matches, Kind, ParseError};
use crate::system_value::SystemValue;
use crate::watchdog::{alert_matches, alert_text, Watchdog};

verus! {

/// A routing key that contains `cpu.load`, wherever and with whatever around
/// it, is decoded as a CPU record: the result is a CPU value, or a decoding
/// error of a payload that is no CPU record.
pub proof fn cpu_key_selects_cpu_record(key: Seq<char>, data: Seq<u8>, r: Result<SystemValue, ParseError>)
    requires
        has_substring(key, "cpu.load"@),
        parse_matches(key, data, r),
    ensures
        classify(key) == Some(Kind::CpuLoad),
        r is Ok ==> r->Ok_0 is CpuLoadValue,
        r is Err ==> r->Err_0 is Decode && cpu_load_from(data, 0) is None,
{
}

/// A routing key that contains none of `cpu.load`, `ram.usage` and
/// `service.event` gives a classification error that names the key, and the
/// message is dropped without evaluation.
pub proof fn unmatched_key_is_dropped(
    watchdog: Watchdog,
    key: Seq<char>,
    data: Seq<u8>,
    r: Result<SystemValue, ParseError>,
    h: Result<Option<Alert>, DecodeError>,
)
    requires
        !has_substring(key, "cpu.load"@),
        !has_substring(key, "ram.usage"@),
        !has_substring(key, "service.event"@),
        parse_matches(key, data, r),
        handled(watchdog, key, data, h),
    ensures
        classify(key) is None,
        r is Err && r->Err_0 is NoMatchingKey && r->Err_0->NoMatchingKey_0@ == key,
        h == Ok::<Option<Alert>, DecodeError>(None),
{
}

/// Evaluating the same device, value and configuration twice gives the same
/// alert, or no alert both times: the evaluator keeps no state.
pub proof fn evaluation_is_repeatable(
    device: Seq<char>,
    value: SystemValue,
    config: Config,
    first: Option<Alert>,
    second: Option<Alert>,
)
    requires
        alert_matches(first, device, alert_text(value, config)),
        alert_matches(second, device, alert_text(value, config)),
    ensures
        first is Some <==> second is Some,
        first is Some ==> first->0.device@ == second->0.device@ && first->0.message@
            == second->0.message@,
{
}

} // verus!
