use xnode_deployer::error::XnodeDeployerErrorInner;
use xnode_deployer::hivelocity::{HivelocityError, HivelocityHardware, HivelocityOutput};
use xnode_deployer::hyperstack::{HyperstackError, HyperstackHardware, HyperstackOutput};
use xnode_deployer::ipv4::Ipv4Address;
use xnode_deployer::json::{Json, JsonNumber};
use xnode_deployer::{Error, OptionalSupport, XnodeDeployerError};

fn s(t: &str) -> Json {
    Json::String(t.to_string())
}

fn n(v: u64) -> Json {
    Json::Number(JsonNumber::PosInt(v))
}

fn obj(entries: Vec<(&str, Json)>) -> Json {
    Json::Object(entries.into_iter().map(|(k, v)| (k.to_string(), v)).collect())
}

fn entries(entries: Vec<(&str, Json)>) -> Vec<(String, Json)> {
    entries.into_iter().map(|(k, v)| (k.to_string(), v)).collect()
}

fn classified<T: std::fmt::Debug>(r: Result<T, Error>) -> XnodeDeployerError {
    match r {
        Err(Error::XnodeDeployerError(e)) => e,
        other => panic!("not a classified error: {other:?}"),
    }
}

fn assert_hivelocity(r: Result<HivelocityOutput, Error>, expected: HivelocityError) {
    assert_eq!(*classified(r).inner(), XnodeDeployerErrorInner::HivelocityError(expected));
}

fn assert_hyperstack(r: Result<HyperstackOutput, Error>, expected: HyperstackError) {
    assert_eq!(*classified(r).inner(), XnodeDeployerErrorInner::HyperstackError(expected));
}

#[test]
fn hivelocity_device_id_is_read() {
    let r = HivelocityHardware::parse_create_response(obj(vec![("deviceId", n(42))]));
    assert_eq!(r.unwrap(), HivelocityOutput { device_id: 42 });
}

#[test]
fn hivelocity_device_id_among_other_fields() {
    let r = HivelocityHardware::parse_create_response(obj(vec![
        ("status", s("ok")),
        ("deviceId", n(7)),
        ("extra", Json::Null),
    ]));
    assert_eq!(r.unwrap(), HivelocityOutput { device_id: 7 });
}

#[test]
fn hivelocity_missing_device_id() {
    assert_hivelocity(HivelocityHardware::parse_create_response(obj(vec![])), HivelocityError::ResponseMissingDeviceId { map: vec![] });
    assert_hivelocity(HivelocityHardware::parse_create_response(obj(vec![(
        "id",
        n(3),
    )])), HivelocityError::ResponseMissingDeviceId { map: entries(vec![("id", n(3))]) });
}

#[test]
fn hivelocity_not_object() {
    assert_hivelocity(HivelocityHardware::parse_create_response(Json::Array(vec![n(1)])), HivelocityError::ResponseNotObject { response: Json::Array(vec![n(1)]) });
    assert_hivelocity(HivelocityHardware::parse_create_response(Json::Null), HivelocityError::ResponseNotObject { response: Json::Null });
}

#[test]
fn hivelocity_invalid_device_id() {
    assert_hivelocity(HivelocityHardware::parse_create_response(obj(vec![(
        "deviceId",
        s("42"),
    )])), HivelocityError::ResponseInvalidDeviceId { device_id: s("42") });
    let neg = Json::Number(JsonNumber::NegInt(-1));
    assert_hivelocity(HivelocityHardware::parse_create_response(obj(vec![(
        "deviceId",
        Json::Number(JsonNumber::NegInt(-1)),
    )])), HivelocityError::ResponseInvalidDeviceId { device_id: neg });
    assert_hivelocity(HivelocityHardware::parse_create_response(obj(vec![(
        "deviceId",
        Json::Number(JsonNumber::Float("4.5".to_string())),
    )])), HivelocityError::ResponseInvalidDeviceId {
            device_id: Json::Number(JsonNumber::Float("4.5".to_string()))
        });
}

#[test]
fn hyperstack_id_of_first_instance() {
    let r = HyperstackHardware::parse_create_response(obj(vec![(
        "instances",
        Json::Array(vec![obj(vec![("id", n(11))]), obj(vec![("id", n(12))])]),
    )]));
    assert_eq!(r.unwrap(), HyperstackOutput { id: 11 });
}

#[test]
fn hyperstack_empty_instances() {
    let r = HyperstackHardware::parse_create_response(obj(vec![("instances", Json::Array(vec![]))]));
    assert_hyperstack(r, HyperstackError::ResponseEmptyInstances {});
}

#[test]
fn hyperstack_missing_instances() {
    let r = HyperstackHardware::parse_create_response(obj(vec![("id", n(1))]));
    let expected = HyperstackError::ResponseMissingInstances { map: entries(vec![("id", n(1))]) };
    assert_hyperstack(r, expected);
}

#[test]
fn hyperstack_invalid_instances() {
    let r = HyperstackHardware::parse_create_response(obj(vec![("instances", s("none"))]));
    let expected = HyperstackError::ResponseInvalidInstances { instances: s("none") };
    assert_hyperstack(r, expected);
}

#[test]
fn hyperstack_instance_not_object_reports_whole_response() {
    let r = HyperstackHardware::parse_create_response(obj(vec![(
        "instances",
        Json::Array(vec![n(5)]),
    )]));
    let expected = HyperstackError::ResponseNotObject {
        response: obj(vec![("instances", Json::Array(vec![n(5)]))]),
    };
    assert_hyperstack(r, expected);
}

#[test]
fn hyperstack_not_object() {
    let r = HyperstackHardware::parse_create_response(s("oops"));
    let expected = HyperstackError::ResponseNotObject { response: s("oops") };
    assert_hyperstack(r, expected);
}

#[test]
fn hyperstack_missing_and_invalid_id() {
    let r = HyperstackHardware::parse_create_response(obj(vec![(
        "instances",
        Json::Array(vec![obj(vec![("name", s("vm"))])]),
    )]));
    let expected = HyperstackError::ResponseMissingId { map: entries(vec![("name", s("vm"))]) };
    assert_hyperstack(r, expected);
    let r = HyperstackHardware::parse_create_response(obj(vec![(
        "instances",
        Json::Array(vec![obj(vec![("id", Json::Bool(true))])]),
    )]));
    let expected = HyperstackError::ResponseInvalidId { id: Json::Bool(true) };
    assert_hyperstack(r, expected);
}

#[test]
fn hivelocity_address_lookup() {
    let ip = HivelocityHardware::parse_ipv4_response(&obj(vec![("primaryIp", s("10.0.0.7"))]));
    assert_eq!(ip, OptionalSupport::Supported(Some(Ipv4Address { a: 10, b: 0, c: 0, d: 7 })));
    let absent = HivelocityHardware::parse_ipv4_response(&obj(vec![]));
    assert_eq!(absent, OptionalSupport::Supported(None));
    let wrong_type = HivelocityHardware::parse_ipv4_response(&obj(vec![("primaryIp", n(1))]));
    assert_eq!(wrong_type, OptionalSupport::Supported(None));
    let unparsable = HivelocityHardware::parse_ipv4_response(&obj(vec![("primaryIp", s("10.0.0"))]));
    assert_eq!(unparsable, OptionalSupport::Supported(None));
    let not_object = HivelocityHardware::parse_ipv4_response(&Json::Null);
    assert_eq!(not_object, OptionalSupport::Supported(None));
}

#[test]
fn hyperstack_address_lookup() {
    let ip = HyperstackHardware::parse_ipv4_response(&obj(vec![(
        "instance",
        obj(vec![("floating_ip", s("203.0.113.9"))]),
    )]));
    assert_eq!(ip, OptionalSupport::Supported(Some(Ipv4Address { a: 203, b: 0, c: 113, d: 9 })));
    let top_level = HyperstackHardware::parse_ipv4_response(&obj(vec![("floating_ip", s("1.2.3.4"))]));
    assert_eq!(top_level, OptionalSupport::Supported(None));
    let nulled = HyperstackHardware::parse_ipv4_response(&obj(vec![(
        "instance",
        obj(vec![("floating_ip", Json::Null)]),
    )]));
    assert_eq!(nulled, OptionalSupport::Supported(None));
}

#[test]
fn error_headlines() {
    let e = HivelocityError::ResponseInvalidDeviceId { device_id: Json::Null };
    assert_eq!(e.headline(), "Hivelocity response invalid device id: ");
    let e = HyperstackError::ResponseEmptyInstances {};
    assert_eq!(e.headline(), "Hyperstack response empty instances");
    assert_eq!(XnodeDeployerErrorInner::Default.headline(), "");
    let inner = XnodeDeployerErrorInner::HyperstackError(HyperstackError::ResponseMissingId {
        map: vec![],
    });
    assert_eq!(inner.headline(), "Hyperstack response missing id: ");
}
