//! The startup snapshot request that the desktop shell sends to the service.
use crate::json::{JsonMap, JsonNumber, JsonValue};
use vstd::prelude::*;

verus! {

/// The RPC method that returns the startup snapshot.
pub const STARTUP_SNAPSHOT_METHOD: &'static str = "startup/snapshot";

/// The JSON number of an integer: non-negative integers are kept unsigned,
/// as `serde_json` keeps them.
pub open spec fn int_number(v: i64) -> JsonNumber {
    if v >= 0 {
        JsonNumber::PosInt(v as u64)
    } else {
        JsonNumber::NegInt(v)
    }
}

/// The parameters of the startup snapshot request: `{"requestLogLimit": n}`
/// where a request log limit is given, none otherwise.
pub fn startup_snapshot_params(request_log_limit: Option<i64>) -> (r: Option<JsonValue>)
    ensures
        match request_log_limit {
            Some(v) => r matches Some(JsonValue::Object(m)) && m@.len() == 1 && m@[0].0
                == "requestLogLimit"@ && m@[0].1 == JsonValue::Number(int_number(v)),
            None => r is None,
        },
{
    match request_log_limit {
        Some(v) => {
            let number = if v >= 0 {
                JsonNumber::PosInt(v as u64)
            } else {
                JsonNumber::NegInt(v)
            };
            let mut entries: Vec<(String, JsonValue)> = Vec::new();
            entries.push(("requestLogLimit".to_string(), JsonValue::Number(number)));
            Some(JsonValue::Object(JsonMap { entries }))
        },
        None => None,
    }
}

} // verus!
