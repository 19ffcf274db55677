use xnode_deployer::hivelocity::{HivelocityHardware, HivelocityOutput};
use xnode_deployer::hyperstack::{HyperstackHardware, HyperstackOutput};
use xnode_deployer::json::{Json, JsonNumber};
use xnode_deployer::request::HttpMethod;
use xnode_deployer::DeployInput;

fn input() -> DeployInput {
    DeployInput {
        xnode_owner: None,
        domain: Some("a.com".to_string()),
        acme_email: None,
        user_passwd: None,
        encrypted: None,
        initial_config: None,
    }
}

fn bare_metal(tags: Option<Vec<String>>) -> HivelocityHardware {
    HivelocityHardware::BareMetal {
        location_name: "NYC1".to_string(),
        period: "monthly".to_string(),
        tags,
        product_id: 504,
        hostname: "xnode".to_string(),
    }
}

fn compute() -> HivelocityHardware {
    HivelocityHardware::Compute {
        location_name: "LAX2".to_string(),
        period: "hourly".to_string(),
        tags: None,
        product_id: 9,
        hostname: "vps".to_string(),
    }
}

fn field<'a>(body: &'a Json, key: &str) -> &'a Json {
    match body {
        Json::Object(entries) => &entries.iter().find(|(k, _)| k == key).unwrap().1,
        _ => panic!("body is not an object"),
    }
}

fn s(t: &str) -> Json {
    Json::String(t.to_string())
}

#[test]
fn hivelocity_create_request_bare_metal() {
    let key = "secret".to_string();
    let r = bare_metal(Some(vec!["a".to_string(), "b".to_string()])).create_request(&key, &input());
    assert_eq!(r.method, HttpMethod::Post);
    assert_eq!(r.url, "https://core.hivelocity.net/api/v2/bare-metal-devices/");
    assert_eq!(r.key_header, "X-API-KEY");
    assert_eq!(r.api_key, "secret");
    let body = r.body.unwrap();
    assert_eq!(*field(&body, "locationName"), s("NYC1"));
    assert_eq!(*field(&body, "period"), s("monthly"));
    assert_eq!(*field(&body, "tags"), Json::Array(vec![s("a"), s("b")]));
    assert_eq!(*field(&body, "script"), Json::String(input().cloud_init()));
    assert_eq!(*field(&body, "productId"), Json::Number(JsonNumber::PosInt(504)));
    assert_eq!(*field(&body, "osName"), s("Ubuntu 24.04"));
    assert_eq!(*field(&body, "hostname"), s("xnode"));
}

#[test]
fn hivelocity_create_request_compute() {
    let r = compute().create_request(&"k".to_string(), &input());
    assert_eq!(r.url, "https://core.hivelocity.net/api/v2/compute/");
    let body = r.body.unwrap();
    assert_eq!(*field(&body, "tags"), Json::Null);
    assert_eq!(*field(&body, "osName"), s("Ubuntu 24.04 (VPS)"));
}

#[test]
fn hivelocity_delete_and_read_requests() {
    let key = "k".to_string();
    let handle = HivelocityOutput { device_id: 4021 };
    let d = bare_metal(None).delete_request(&key, &handle);
    assert_eq!(d.method, HttpMethod::Delete);
    assert_eq!(d.url, "https://core.hivelocity.net/api/v2/bare-metal-devices/4021");
    assert!(d.body.is_none());
    let g = compute().read_request(&key, &HivelocityOutput { device_id: 0 });
    assert_eq!(g.method, HttpMethod::Get);
    assert_eq!(g.url, "https://core.hivelocity.net/api/v2/compute/0");
    let big = compute().delete_request(&key, &HivelocityOutput { device_id: u64::MAX });
    assert_eq!(big.url, "https://core.hivelocity.net/api/v2/compute/18446744073709551615");
}

#[test]
fn handle_from_create_response_addresses_same_device() {
    let response = Json::Object(vec![("deviceId".to_string(), Json::Number(JsonNumber::PosInt(42)))]);
    let hw = bare_metal(None);
    let handle = HivelocityHardware::parse_create_response(response).unwrap();
    let create = hw.create_request(&"k".to_string(), &input());
    let delete = hw.delete_request(&"k".to_string(), &handle);
    assert_eq!(delete.url, format!("{}42", create.url));
}

#[test]
fn hyperstack_requests() {
    let hw = HyperstackHardware::VirtualMachine {
        name: "vm".to_string(),
        environment_name: "env".to_string(),
        flavor_name: "n1".to_string(),
        key_name: "ssh".to_string(),
    };
    let key = "hk".to_string();
    let c = hw.create_request(&key, &input());
    assert_eq!(c.method, HttpMethod::Post);
    assert_eq!(c.url, "https://infrahub-api.nexgencloud.com/v1/core/virtual-machines");
    assert_eq!(c.key_header, "api_key");
    let body = c.body.unwrap();
    assert_eq!(*field(&body, "name"), s("vm"));
    assert_eq!(*field(&body, "image_name"), s("Ubuntu Server 22.04 LTS (Jammy Jellyfish)"));
    assert_eq!(*field(&body, "count"), Json::Number(JsonNumber::PosInt(1)));
    assert_eq!(*field(&body, "assign_floating_ip"), Json::Bool(true));
    assert_eq!(*field(&body, "user_data"), Json::String(input().cloud_init()));
    match field(&body, "security_rules") {
        Json::Array(rules) => {
            assert_eq!(rules.len(), 2);
            assert_eq!(*field(&rules[0], "protocol"), s("tcp"));
            assert_eq!(*field(&rules[1], "protocol"), s("udp"));
            assert_eq!(*field(&rules[1], "port_range_max"), Json::Number(JsonNumber::PosInt(65535)));
        }
        other => panic!("{other:?}"),
    }
    let d = hw.delete_request(&key, &HyperstackOutput { id: 77 });
    assert_eq!(d.method, HttpMethod::Delete);
    assert_eq!(d.url, "https://infrahub-api.nexgencloud.com/v1/core/virtual-machines/77");
    let g = hw.read_request(&key, &HyperstackOutput { id: 1 });
    assert_eq!(g.url, "https://infrahub-api.nexgencloud.com/v1/core/virtual-machines/1");
}
