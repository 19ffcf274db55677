//! The adapter for Hyperstack virtual machines.
use vstd::prelude::*;
use crate::error::{deployer_error, is_deployer_error, Error, XnodeDeployerErrorInner};
use crate::ipv4::{dotted_quad, parse_ipv4, Ipv4Address};
use crate::json::{
    entry, find_key, is_bool_entry, is_text_entry, is_u64_entry, json_u64, key_position, text,
    Json, JsonNumber,
};
use crate::request::{ApiRequest, HttpMethod};
use crate::text::{append_decimal, decimal, lemma_decimal_injective};
use crate::{DeployInput, OptionalSupport};

verus! {

/// The ways a Hyperstack create response can be malformed.
#[derive(Debug, PartialEq)]
pub enum HyperstackError {
    ResponseNotObject { response: Json },
    ResponseMissingId { map: Vec<(String, Json)> },
    ResponseMissingInstances { map: Vec<(String, Json)> },
    ResponseInvalidInstances { instances: Json },
    ResponseEmptyInstances {},
    ResponseInvalidId { id: Json },
}

impl HyperstackError {
    /// The fixed text that introduces this failure in a message; the
    /// offending JSON, if any, follows it.
    pub open spec fn headline_spec(&self) -> Seq<char> {
        match self {
            HyperstackError::ResponseNotObject { .. } => "Hyperstack response not object: "@,
            HyperstackError::ResponseMissingInstances { .. } => "Hyperstack response missing instances: "@,
            HyperstackError::ResponseInvalidInstances { .. } => "Hyperstack response invalid instances: "@,
            HyperstackError::ResponseEmptyInstances {  } => "Hyperstack response empty instances"@,
            HyperstackError::ResponseMissingId { .. } => "Hyperstack response missing id: "@,
            HyperstackError::ResponseInvalidId { .. } => "Hyperstack response invalid id: "@,
        }
    }

    pub fn headline(&self) -> (r: &'static str)
        ensures
            r@ == self.headline_spec(),
    {
        match self {
            HyperstackError::ResponseNotObject { .. } => "Hyperstack response not object: ",
            HyperstackError::ResponseMissingInstances { .. } => "Hyperstack response missing instances: ",
            HyperstackError::ResponseInvalidInstances { .. } => "Hyperstack response invalid instances: ",
            HyperstackError::ResponseEmptyInstances {  } => "Hyperstack response empty instances",
            HyperstackError::ResponseMissingId { .. } => "Hyperstack response missing id: ",
            HyperstackError::ResponseInvalidId { .. } => "Hyperstack response invalid id: ",
        }
    }
}

/// The handle of a deployed Hyperstack virtual machine.
#[derive(Debug, Clone, Copy, PartialEq, Eq, Structural)]
pub struct HyperstackOutput {
    pub id: u64,
}

/// The kind of Hyperstack machine to rent, with its order parameters.
#[derive(Debug)]
pub enum HyperstackHardware {
    VirtualMachine {
        name: String,
        environment_name: String,
        flavor_name: String,
        key_name: String,
    },
}

/// A virtual machine to cancel.
#[derive(Debug, Clone, Copy, PartialEq, Eq, Structural)]
pub enum HyperstackUndeployInput {
    VirtualMachine { id: u64 },
}

/// The endpoint of the virtual machine collection.
pub open spec fn collection_url() -> Seq<char> {
    "https://infrahub-api.nexgencloud.com/v1/core/virtual-machines"@
}

/// The endpoint of one virtual machine.
pub open spec fn machine_url(id: u64) -> Seq<char> {
    collection_url() + "/"@ + decimal(id as nat)
}

/// The header that carries the API key.
pub open spec fn key_header() -> Seq<char> {
    "api_key"@
}

/// The error that a malformed create response is classified as.
pub open spec fn hyperstack_failure(e: HyperstackError) -> XnodeDeployerErrorInner {
    XnodeDeployerErrorInner::HyperstackError(e)
}

/// The response is an object whose `instances` array starts with a value
/// that is not an object.
pub open spec fn first_instance_not_object(response: Json) -> bool {
    match response {
        Json::Object(map) => match key_position(map@, "instances"@) {
            Some(i) => match map@[i].1 {
                Json::Array(arr) => arr@.len() > 0 && !(arr@[0] is Object),
                _ => false,
            },
            None => false,
        },
        _ => false,
    }
}

/// What a create response stands for: the id of the first created machine,
/// or the way the response is malformed.
pub open spec fn create_outcome(response: Json) -> Result<u64, HyperstackError> {
    match response {
        Json::Object(map) => match key_position(map@, "instances"@) {
            None => Err(HyperstackError::ResponseMissingInstances { map }),
            Some(i) => match map@[i].1 {
                Json::Array(arr) => if arr@.len() == 0 {
                    Err(HyperstackError::ResponseEmptyInstances {  })
                } else {
                    match arr@[0] {
                        Json::Object(inst) => match key_position(inst@, "id"@) {
                            None => Err(HyperstackError::ResponseMissingId { map: inst }),
                            Some(j) => match json_u64(inst@[j].1) {
                                Some(id) => Ok(id),
                                None => Err(HyperstackError::ResponseInvalidId { id: inst@[j].1 }),
                            },
                        },
                        _ => Err(HyperstackError::ResponseNotObject { response }),
                    }
                },
                instances => Err(HyperstackError::ResponseInvalidInstances { instances }),
            },
        },
        _ => Err(HyperstackError::ResponseNotObject { response }),
    }
}

/// The address in the `floating_ip` field of the `instance` object of a
/// machine description, when the field is a string in strict dotted-quad
/// notation.
pub open spec fn floating_ip(response: Json) -> Option<Ipv4Address> {
    match response {
        Json::Object(map) => match key_position(map@, "instance"@) {
            Some(i) => match map@[i].1 {
                Json::Object(inst) => match key_position(inst@, "floating_ip"@) {
                    Some(j) => match inst@[j].1 {
                        Json::String(s) => dotted_quad(s@),
                        _ => None,
                    },
                    None => None,
                },
                _ => None,
            },
            None => None,
        },
        _ => None,
    }
}

/// One firewall rule that opens every port of `protocol` to the world.
pub open spec fn is_open_rule(v: Json, protocol: Seq<char>) -> bool {
    match v {
        Json::Object(e) => {
            &&& e@.len() == 6
            &&& is_text_entry(e@[0], "direction"@, "ingress"@)
            &&& is_text_entry(e@[1], "protocol"@, protocol)
            &&& is_text_entry(e@[2], "ethertype"@, "IPv4"@)
            &&& is_text_entry(e@[3], "remote_ip_prefix"@, "0.0.0.0/0"@)
            &&& is_u64_entry(e@[4], "port_range_min"@, 1)
            &&& is_u64_entry(e@[5], "port_range_max"@, 65535)
        },
        _ => false,
    }
}

fn open_rule(protocol: &str) -> (r: Json)
    ensures
        is_open_rule(r, protocol@),
{
    let mut e: Vec<(String, Json)> = Vec::new();
    e.push(entry("direction", text("ingress")));
    e.push(entry("protocol", text(protocol)));
    e.push(entry("ethertype", text("IPv4")));
    e.push(entry("remote_ip_prefix", text("0.0.0.0/0")));
    e.push(entry("port_range_min", Json::Number(JsonNumber::PosInt(1))));
    e.push(entry("port_range_max", Json::Number(JsonNumber::PosInt(65535))));
    Json::Object(e)
}

fn machine_url_exec(id: u64) -> (r: String)
    ensures
        r@ == machine_url(id),
{
    let mut url = String::from_str("https://infrahub-api.nexgencloud.com/v1/core/virtual-machines");
    url.append("/");
    append_decimal(&mut url, id);
    url
}

impl HyperstackHardware {
    /// The body of a create request: one machine with a floating address,
    /// every TCP and UDP port open, the boot script and the Ubuntu image.
    pub open spec fn is_create_body(&self, body: Option<Json>, script: Seq<char>) -> bool {
        match (self, body) {
            (
                HyperstackHardware::VirtualMachine { name, environment_name, flavor_name, key_name },
                Some(Json::Object(entries)),
            ) => {
                &&& entries@.len() == 9
                &&& is_text_entry(entries@[0], "name"@, name@)
                &&& is_text_entry(entries@[1], "environment_name"@, environment_name@)
                &&& is_text_entry(
                    entries@[2],
                    "image_name"@,
                    "Ubuntu Server 22.04 LTS (Jammy Jellyfish)"@,
                )
                &&& is_text_entry(entries@[3], "flavor_name"@, flavor_name@)
                &&& is_text_entry(entries@[4], "key_name"@, key_name@)
                &&& is_u64_entry(entries@[5], "count"@, 1)
                &&& is_bool_entry(entries@[6], "assign_floating_ip"@, true)
                &&& is_text_entry(entries@[7], "user_data"@, script)
                &&& entries@[8].0@ == "security_rules"@
                &&& match entries@[8].1 {
                    Json::Array(rules) => rules@.len() == 2 && is_open_rule(rules@[0], "tcp"@)
                        && is_open_rule(rules@[1], "udp"@),
                    _ => false,
                }
            },
            _ => false,
        }
    }

    /// The request that creates a virtual machine of this kind, installing
    /// XnodeOS with the settings of `input`.
    pub fn create_request(&self, api_key: &String, input: &DeployInput) -> (r: ApiRequest)
        ensures
            r.method == HttpMethod::Post,
            r.url@ == collection_url(),
            r.key_header@ == key_header(),
            r.api_key@ == api_key@,
            self.is_create_body(r.body, input.cloud_init_spec()),
    {
        let HyperstackHardware::VirtualMachine { name, environment_name, flavor_name, key_name } =
            self;
        let mut rules: Vec<Json> = Vec::new();
        rules.push(open_rule("tcp"));
        rules.push(open_rule("udp"));
        let script = input.cloud_init();
        let mut entries: Vec<(String, Json)> = Vec::new();
        entries.push(entry("name", text(name.as_str())));
        entries.push(entry("environment_name", text(environment_name.as_str())));
        entries.push(entry("image_name", text("Ubuntu Server 22.04 LTS (Jammy Jellyfish)")));
        entries.push(entry("flavor_name", text(flavor_name.as_str())));
        entries.push(entry("key_name", text(key_name.as_str())));
        entries.push(entry("count", Json::Number(JsonNumber::PosInt(1))));
        entries.push(entry("assign_floating_ip", Json::Bool(true)));
        entries.push(entry("user_data", text(script.as_str())));
        entries.push(entry("security_rules", Json::Array(rules)));
        ApiRequest {
            method: HttpMethod::Post,
            url: String::from_str("https://infrahub-api.nexgencloud.com/v1/core/virtual-machines"),
            key_header: String::from_str("api_key"),
            api_key: api_key.clone(),
            body: Some(Json::Object(entries)),
        }
    }

    fn is_first_instance_not_object(response: &Json) -> (r: bool)
        ensures
            r == first_instance_not_object(*response),
    {
        if let Json::Object(map) = response {
            let key = String::from_str("instances");
            if let Some(i) = find_key(map, &key) {
                if let Json::Array(arr) = &map[i].1 {
                    if arr.len() > 0 {
                        return match &arr[0] {
                            Json::Object(_) => false,
                            _ => true,
                        };
                    }
                }
            }
        }
        false
    }

    /// Reads a create response into the handle of the first created
    /// machine, or into the classified way in which it is malformed.
    pub fn parse_create_response(response: Json) -> (r: Result<HyperstackOutput, Error>)
        ensures
            match create_outcome(response) {
                Ok(id) => r == Ok::<HyperstackOutput, Error>(HyperstackOutput { id }),
                Err(e) => r matches Err(err) && is_deployer_error(err, hyperstack_failure(e)),
            },
    {
        if Self::is_first_instance_not_object(&response) {
            return Err(
                deployer_error(
                    XnodeDeployerErrorInner::HyperstackError(
                        HyperstackError::ResponseNotObject { response },
                    ),
                ),
            );
        }
        match response {
            Json::Object(mut map) => {
                let key = String::from_str("instances");
                match find_key(&map, &key) {
                    None => Err(
                        deployer_error(
                            XnodeDeployerErrorInner::HyperstackError(
                                HyperstackError::ResponseMissingInstances { map },
                            ),
                        ),
                    ),
                    Some(i) => {
                        let (_, instances) = map.remove(i);
                        match instances {
                            Json::Array(mut arr) => {
                                if arr.len() == 0 {
                                    return Err(
                                        deployer_error(
                                            XnodeDeployerErrorInner::HyperstackError(
                                                HyperstackError::ResponseEmptyInstances {  },
                                            ),
                                        ),
                                    );
                                }
                                let first = arr.remove(0);
                                match first {
                                    Json::Object(mut inst) => {
                                        let id_key = String::from_str("id");
                                        match find_key(&inst, &id_key) {
                                            None => Err(
                                                deployer_error(
                                                    XnodeDeployerErrorInner::HyperstackError(
                                                        HyperstackError::ResponseMissingId {
                                                            map: inst,
                                                        },
                                                    ),
                                                ),
                                            ),
                                            Some(j) => {
                                                let (_, value) = inst.remove(j);
                                                let id = match &value {
                                                    Json::Number(n) => n.as_u64(),
                                                    _ => None,
                                                };
                                                match id {
                                                    Some(id) => Ok(HyperstackOutput { id }),
                                                    None => Err(
                                                        deployer_error(
                                                            XnodeDeployerErrorInner::HyperstackError(
                                                                HyperstackError::ResponseInvalidId {
                                                                    id: value,
                                                                },
                                                            ),
                                                        ),
                                                    ),
                                                }
                                            },
                                        }
                                    },
                                    _ => {
                                        proof {
                                            assert(false);
                                        }
                                        Err(deployer_error(XnodeDeployerErrorInner::Default))
                                    },
                                }
                            },
                            instances => Err(
                                deployer_error(
                                    XnodeDeployerErrorInner::HyperstackError(
                                        HyperstackError::ResponseInvalidInstances { instances },
                                    ),
                                ),
                            ),
                        }
                    },
                }
            },
            response => Err(
                deployer_error(
                    XnodeDeployerErrorInner::HyperstackError(
                        HyperstackError::ResponseNotObject { response },
                    ),
                ),
            ),
        }
    }

    /// The request that deletes the virtual machine `xnode`.
    pub fn delete_request(&self, api_key: &String, xnode: &HyperstackOutput) -> (r: ApiRequest)
        ensures
            r.method == HttpMethod::Delete,
            r.url@ == machine_url(xnode.id),
            r.key_header@ == key_header(),
            r.api_key@ == api_key@,
            r.body is None,
    {
        ApiRequest {
            method: HttpMethod::Delete,
            url: machine_url_exec(xnode.id),
            key_header: String::from_str("api_key"),
            api_key: api_key.clone(),
            body: None,
        }
    }

    /// The request that reads the virtual machine `xnode`.
    pub fn read_request(&self, api_key: &String, xnode: &HyperstackOutput) -> (r: ApiRequest)
        ensures
            r.method == HttpMethod::Get,
            r.url@ == machine_url(xnode.id),
            r.key_header@ == key_header(),
            r.api_key@ == api_key@,
            r.body is None,
    {
        ApiRequest {
            method: HttpMethod::Get,
            url: machine_url_exec(xnode.id),
            key_header: String::from_str("api_key"),
            api_key: api_key.clone(),
            body: None,
        }
    }

    /// Reads a machine description into the machine's address. Hyperstack
    /// reports addresses for virtual machines, so the capability is always
    /// there; the address is absent while none is assigned.
    pub fn parse_ipv4_response(response: &Json) -> (r: OptionalSupport<Option<Ipv4Address>>)
        ensures
            r == OptionalSupport::Supported(floating_ip(*response)),
    {
        if let Json::Object(map) = response {
            let key = String::from_str("instance");
            if let Some(i) = find_key(map, &key) {
                if let Json::Object(inst) = &map[i].1 {
                    let ip_key = String::from_str("floating_ip");
                    if let Some(j) = find_key(inst, &ip_key) {
                        if let Json::String(s) = &inst[j].1 {
                            return OptionalSupport::Supported(parse_ipv4(s.as_str()));
                        }
                    }
                }
            }
        }
        OptionalSupport::Supported(None)
    }
}

/// The handle that a create response yields is the one that deletes that
/// machine: its endpoint lies in the collection the machine was created in,
/// and is the endpoint of no other machine id.
pub proof fn lemma_handle_round_trip(response: Json, other: u64)
    requires
        create_outcome(response) is Ok,
    ensures
        ({
            let id = create_outcome(response)->Ok_0;
            &&& machine_url(id) == collection_url() + "/"@ + decimal(id as nat)
            &&& (machine_url(other) == machine_url(id) ==> other == id)
        }),
{
    let id = create_outcome(response)->Ok_0;
    if machine_url(other) == machine_url(id) {
        let prefix = collection_url() + "/"@;
        assert(machine_url(other) =~= prefix + decimal(other as nat));
        assert(machine_url(id) =~= prefix + decimal(id as nat));
        assert(decimal(other as nat) =~= machine_url(other).subrange(
            prefix.len() as int,
            machine_url(other).len() as int,
        ));
        assert(decimal(id as nat) =~= machine_url(id).subrange(
            prefix.len() as int,
            machine_url(id).len() as int,
        ));
        lemma_decimal_injective(other as nat, id as nat);
    }
}

} // verus!
