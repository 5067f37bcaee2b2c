use codexmanager::json::{JsonNumber, JsonValue};
use codexmanager::startup::{startup_snapshot_params, STARTUP_SNAPSHOT_METHOD};

#[test]
fn startup_snapshot_params_carry_the_request_log_limit() {
    assert_eq!(STARTUP_SNAPSHOT_METHOD, "startup/snapshot");
    let params = startup_snapshot_params(Some(50)).expect("params");
    let JsonValue::Object(map) = params else {
        panic!("params must be an object");
    };
    assert_eq!(map.entries.len(), 1);
    assert_eq!(map.entries[0].0, "requestLogLimit");
    assert_eq!(map.entries[0].1, JsonValue::Number(JsonNumber::PosInt(50)));

    let negative = startup_snapshot_params(Some(-3)).expect("params");
    let JsonValue::Object(map) = negative else {
        panic!("params must be an object");
    };
    assert_eq!(map.entries[0].1, JsonValue::Number(JsonNumber::NegInt(-3)));
}

#[test]
fn startup_snapshot_params_are_absent_without_a_limit() {
    assert_eq!(startup_snapshot_params(None), None);
}
