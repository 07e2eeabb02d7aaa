//! The decision taken for each message that the subscription delivers.
use vstd::prelude::*;

use prost::DecodeError;

use crate::alert::Alert;
use crate::device::{device_of, get_device_name};
use crate::parser::{parse_data, parse_matches, ParseError};
use crate::system_value::SystemValue;
use crate::watchdog::{alert_matches, alert_text, Watchdog};

verus! {

/// What handling a message leads to: nothing to report, an alert to report,
/// or a payload that stops the loop.
pub open spec fn handled(
    watchdog: Watchdog,
    key: Seq<char>,
    data: Seq<u8>,
    r: Result<Option<Alert>, DecodeError>,
) -> bool {
    match device_of(key) {
        None => r == Ok::<Option<Alert>, DecodeError>(None),
        Some(device) => exists|p: Result<SystemValue, ParseError>|
            #[trigger] parse_matches(key, data, p) && match p {
                Ok(v) => match r {
                    Ok(a) => alert_matches(a, device, alert_text(v, watchdog.config())),
                    Err(_) => false,
                },
                Err(ParseError::NoMatchingKey(_)) => r == Ok::<Option<Alert>, DecodeError>(None),
                Err(ParseError::Decode(_)) => r is Err,
            },
    }
}

/// Handles one delivered message. A key without a device, or one that names
/// no known kind of telemetry, is dropped; a payload that does not decode is
/// an error, which ends the ingestion loop.
pub fn handle_message(watchdog: &Watchdog, routing_key: &str, data: Vec<u8>) -> (r: Result<Option<Alert>, DecodeError>)
    ensures
        handled(*watchdog, routing_key@, data@, r),
{
    let name = match get_device_name(routing_key) {
        Some(n) => n,
        None => return Ok(None),
    };
    let parsed = parse_data(routing_key, data);
    match parsed {
        Ok(value) => {
            let a = watchdog.on_system_value(name.as_str(), &value);
            proof {
                assert(parse_matches(routing_key@, data@, Ok::<SystemValue, ParseError>(value)));
            }
            Ok(a)
        },
        Err(ParseError::NoMatchingKey(k)) => {
            proof {
                assert(parse_matches(routing_key@, data@, Err::<SystemValue, ParseError>(ParseError::NoMatchingKey(k))));
            }
            Ok(None)
        },
        Err(ParseError::Decode(e)) => {
            proof {
                assert(parse_matches(routing_key@, data@, Err::<SystemValue, ParseError>(ParseError::Decode(e))));
            }
            Err(e)
        },
    }
}

} // verus!
