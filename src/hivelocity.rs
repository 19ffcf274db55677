//! The adapter for Hivelocity bare-metal devices and compute instances.
use vstd::prelude::*;
use crate::error::{deployer_error, is_deployer_error, Error, XnodeDeployerErrorInner};
use crate::json::{
    entry, find_key, is_text_entry, is_text_list, is_u64_entry, json_u64, key_position,
    text, text_list, Json, JsonNumber,
};
use crate::request::{ApiRequest, HttpMethod};
use crate::text::{append_decimal, decimal, lemma_decimal_injective};
use crate::ipv4::{dotted_quad, parse_ipv4, Ipv4Address};
use crate::{DeployInput, OptionalSupport};

verus! {

/// The ways a Hivelocity create response can be malformed.
#[derive(Debug, PartialEq)]
pub enum HivelocityError {
    ResponseNotObject { response: Json },
    ResponseMissingDeviceId { map: Vec<(String, Json)> },
    ResponseInvalidDeviceId { device_id: Json },
}

impl HivelocityError {
    /// The fixed text that introduces this failure in a message; the
    /// offending JSON follows it.
    pub open spec fn headline_spec(&self) -> Seq<char> {
        match self {
            HivelocityError::ResponseNotObject { .. } => "Hivelocity response not object: "@,
            HivelocityError::ResponseMissingDeviceId { .. } => "Hivelocity response missing device id: "@,
            HivelocityError::ResponseInvalidDeviceId { .. } => "Hivelocity response invalid device id: "@,
        }
    }

    pub fn headline(&self) -> (r: &'static str)
        ensures
            r@ == self.headline_spec(),
    {
        match self {
            HivelocityError::ResponseNotObject { .. } => "Hivelocity response not object: ",
            HivelocityError::ResponseMissingDeviceId { .. } => "Hivelocity response missing device id: ",
            HivelocityError::ResponseInvalidDeviceId { .. } => "Hivelocity response invalid device id: ",
        }
    }
}

/// The handle of a deployed Hivelocity device.
#[derive(Debug, Clone, Copy, PartialEq, Eq, Structural)]
pub struct HivelocityOutput {
    pub device_id: u64,
}

/// The kind of Hivelocity machine to rent, with its order parameters.
#[derive(Debug, Clone, PartialEq)]
pub enum HivelocityHardware {
    BareMetal {
        location_name: String,
        period: String,
        tags: Option<Vec<String>>,
        product_id: u64,
        hostname: String,
    },
    Compute {
        location_name: String,
        period: String,
        tags: Option<Vec<String>>,
        product_id: u64,
        hostname: String,
    },
}

/// A device to cancel, with the kind of machine it is.
#[derive(Debug, Clone, Copy, PartialEq, Eq, Structural)]
pub enum HivelocityUndeployInput {
    BareMetal { device_id: u64 },
    Compute { device_id: u64 },
}

/// The root of Hivelocity's REST API.
pub open spec fn api_root() -> Seq<char> {
    "https://core.hivelocity.net/api/v2/"@
}

/// The header that carries the API key.
pub open spec fn key_header() -> Seq<char> {
    "X-API-KEY"@
}

/// The error that a malformed create response is classified as.
pub open spec fn hivelocity_failure(e: HivelocityError) -> XnodeDeployerErrorInner {
    XnodeDeployerErrorInner::HivelocityError(e)
}

/// What a create response stands for: the new device's id, or the way the
/// response is malformed.
pub open spec fn create_outcome(response: Json) -> Result<u64, HivelocityError> {
    match response {
        Json::Object(map) => match key_position(map@, "deviceId"@) {
            None => Err(HivelocityError::ResponseMissingDeviceId { map }),
            Some(i) => match json_u64(map@[i].1) {
                Some(id) => Ok(id),
                None => Err(HivelocityError::ResponseInvalidDeviceId { device_id: map@[i].1 }),
            },
        },
        _ => Err(HivelocityError::ResponseNotObject { response }),
    }
}

/// The address in the `primaryIp` field of a device description, when the
/// field is a string in strict dotted-quad notation.
pub open spec fn primary_ip(response: Json) -> Option<Ipv4Address> {
    match response {
        Json::Object(map) => match key_position(map@, "primaryIp"@) {
            Some(i) => match map@[i].1 {
                Json::String(s) => dotted_quad(s@),
                _ => None,
            },
            None => None,
        },
        _ => None,
    }
}

impl HivelocityHardware {
    /// The REST collection of this kind of machine.
    pub open spec fn scope(&self) -> Seq<char> {
        match self {
            HivelocityHardware::BareMetal { .. } => "bare-metal-devices"@,
            HivelocityHardware::Compute { .. } => "compute"@,
        }
    }

    /// The operating system image installed on this kind of machine.
    pub open spec fn os_name(&self) -> Seq<char> {
        match self {
            HivelocityHardware::BareMetal { .. } => "Ubuntu 24.04"@,
            HivelocityHardware::Compute { .. } => "Ubuntu 24.04 (VPS)"@,
        }
    }

    pub open spec fn location_name_spec(&self) -> String {
        match self {
            HivelocityHardware::BareMetal { location_name, .. } => *location_name,
            HivelocityHardware::Compute { location_name, .. } => *location_name,
        }
    }

    pub open spec fn period_spec(&self) -> String {
        match self {
            HivelocityHardware::BareMetal { period, .. } => *period,
            HivelocityHardware::Compute { period, .. } => *period,
        }
    }

    pub open spec fn tags_spec(&self) -> Option<Vec<String>> {
        match self {
            HivelocityHardware::BareMetal { tags, .. } => *tags,
            HivelocityHardware::Compute { tags, .. } => *tags,
        }
    }

    pub open spec fn product_id_spec(&self) -> u64 {
        match self {
            HivelocityHardware::BareMetal { product_id, .. } => *product_id,
            HivelocityHardware::Compute { product_id, .. } => *product_id,
        }
    }

    pub open spec fn hostname_spec(&self) -> String {
        match self {
            HivelocityHardware::BareMetal { hostname, .. } => *hostname,
            HivelocityHardware::Compute { hostname, .. } => *hostname,
        }
    }

    /// The endpoint of the collection, where devices are created.
    pub open spec fn collection_url(&self) -> Seq<char> {
        api_root() + self.scope() + "/"@
    }

    /// The endpoint of one device of the collection.
    pub open spec fn device_url(&self, device_id: u64) -> Seq<char> {
        api_root() + self.scope() + "/"@ + decimal(device_id as nat)
    }

    /// The body of a create request: the order parameters, the boot script
    /// and the operating system image.
    pub open spec fn is_create_body(&self, body: Option<Json>, script: Seq<char>) -> bool {
        match body {
            Some(Json::Object(entries)) => {
                &&& entries@.len() == 7
                &&& is_text_entry(entries@[0], "locationName"@, self.location_name_spec()@)
                &&& is_text_entry(entries@[1], "period"@, self.period_spec()@)
                &&& entries@[2].0@ == "tags"@
                &&& match self.tags_spec() {
                    Some(tags) => is_text_list(entries@[2].1, tags@),
                    None => entries@[2].1 == Json::Null,
                }
                &&& is_text_entry(entries@[3], "script"@, script)
                &&& is_u64_entry(entries@[4], "productId"@, self.product_id_spec())
                &&& is_text_entry(entries@[5], "osName"@, self.os_name())
                &&& is_text_entry(entries@[6], "hostname"@, self.hostname_spec()@)
            },
            _ => false,
        }
    }

    fn append_scope(&self, url: &mut String)
        ensures
            final(url)@ == old(url)@ + self.scope(),
    {
        match self {
            HivelocityHardware::BareMetal { .. } => url.append("bare-metal-devices"),
            HivelocityHardware::Compute { .. } => url.append("compute"),
        }
    }

    fn device_url_exec(&self, device_id: u64) -> (r: String)
        ensures
            r@ == self.device_url(device_id),
    {
        let mut url = String::from_str("https://core.hivelocity.net/api/v2/");
        self.append_scope(&mut url);
        url.append("/");
        append_decimal(&mut url, device_id);
        url
    }

    /// The request that orders a machine of this kind, installing XnodeOS
    /// with the settings of `input`.
    pub fn create_request(&self, api_key: &String, input: &DeployInput) -> (r: ApiRequest)
        ensures
            r.method == HttpMethod::Post,
            r.url@ == self.collection_url(),
            r.key_header@ == key_header(),
            r.api_key@ == api_key@,
            self.is_create_body(r.body, input.cloud_init_spec()),
    {
        let mut url = String::from_str("https://core.hivelocity.net/api/v2/");
        self.append_scope(&mut url);
        url.append("/");
        let (location_name, period, tags, product_id, hostname, os_name) = match self {
            HivelocityHardware::BareMetal { location_name, period, tags, product_id, hostname } => (
                location_name,
                period,
                tags,
                *product_id,
                hostname,
                "Ubuntu 24.04",
            ),
            HivelocityHardware::Compute { location_name, period, tags, product_id, hostname } => (
                location_name,
                period,
                tags,
                *product_id,
                hostname,
                "Ubuntu 24.04 (VPS)",
            ),
        };
        let tags_json = match tags {
            Some(t) => text_list(t),
            None => Json::Null,
        };
        let mut entries: Vec<(String, Json)> = Vec::new();
        entries.push(entry("locationName", text(location_name.as_str())));
        entries.push(entry("period", text(period.as_str())));
        entries.push(entry("tags", tags_json));
        let script = input.cloud_init();
        entries.push(entry("script", text(script.as_str())));
        entries.push(entry("productId", Json::Number(JsonNumber::PosInt(product_id))));
        entries.push(entry("osName", text(os_name)));
        entries.push(entry("hostname", text(hostname.as_str())));
        ApiRequest {
            method: HttpMethod::Post,
            url,
            key_header: String::from_str("X-API-KEY"),
            api_key: api_key.clone(),
            body: Some(Json::Object(entries)),
        }
    }

    /// Reads a create response into the handle of the new device, or into
    /// the classified way in which it is malformed.
    pub fn parse_create_response(response: Json) -> (r: Result<HivelocityOutput, Error>)
        ensures
            match create_outcome(response) {
                Ok(id) => r == Ok::<HivelocityOutput, Error>(HivelocityOutput { device_id: id }),
                Err(e) => r matches Err(err) && is_deployer_error(err, hivelocity_failure(e)),
            },
    {
        match response {
            Json::Object(mut map) => {
                let key = String::from_str("deviceId");
                match find_key(&map, &key) {
                    None => Err(
                        deployer_error(
                            XnodeDeployerErrorInner::HivelocityError(
                                HivelocityError::ResponseMissingDeviceId { map },
                            ),
                        ),
                    ),
                    Some(i) => {
                        let (_, value) = map.remove(i);
                        let id = match &value {
                            Json::Number(n) => n.as_u64(),
                            _ => None,
                        };
                        match id {
                            Some(device_id) => Ok(HivelocityOutput { device_id }),
                            None => Err(
                                deployer_error(
                                    XnodeDeployerErrorInner::HivelocityError(
                                        HivelocityError::ResponseInvalidDeviceId {
                                            device_id: value,
                                        },
                                    ),
                                ),
                            ),
                        }
                    },
                }
            },
            response => Err(
                deployer_error(
                    XnodeDeployerErrorInner::HivelocityError(
                        HivelocityError::ResponseNotObject { response },
                    ),
                ),
            ),
        }
    }

    /// The request that cancels the device `xnode` of this kind.
    pub fn delete_request(&self, api_key: &String, xnode: &HivelocityOutput) -> (r: ApiRequest)
        ensures
            r.method == HttpMethod::Delete,
            r.url@ == self.device_url(xnode.device_id),
            r.key_header@ == key_header(),
            r.api_key@ == api_key@,
            r.body is None,
    {
        ApiRequest {
            method: HttpMethod::Delete,
            url: self.device_url_exec(xnode.device_id),
            key_header: String::from_str("X-API-KEY"),
            api_key: api_key.clone(),
            body: None,
        }
    }

    /// The request that reads the device `xnode` of this kind.
    pub fn read_request(&self, api_key: &String, xnode: &HivelocityOutput) -> (r: ApiRequest)
        ensures
            r.method == HttpMethod::Get,
            r.url@ == self.device_url(xnode.device_id),
            r.key_header@ == key_header(),
            r.api_key@ == api_key@,
            r.body is None,
    {
        ApiRequest {
            method: HttpMethod::Get,
            url: self.device_url_exec(xnode.device_id),
            key_header: String::from_str("X-API-KEY"),
            api_key: api_key.clone(),
            body: None,
        }
    }

    /// Reads a device description into the device's address. Hivelocity
    /// reports addresses for every kind of machine, so the capability is
    /// always there; the address is absent while none is assigned.
    pub fn parse_ipv4_response(response: &Json) -> (r: OptionalSupport<Option<Ipv4Address>>)
        ensures
            r == OptionalSupport::Supported(primary_ip(*response)),
    {
        if let Json::Object(map) = response {
            let key = String::from_str("primaryIp");
            if let Some(i) = find_key(map, &key) {
                if let Json::String(s) = &map[i].1 {
                    return OptionalSupport::Supported(parse_ipv4(s.as_str()));
                }
            }
        }
        OptionalSupport::Supported(None)
    }
}

/// The handle that a create response yields is the one that cancels that
/// device: its endpoint lies in the collection the device was ordered from,
/// and is the endpoint of no other device id.
pub proof fn lemma_handle_round_trip(hw: HivelocityHardware, response: Json, other: u64)
    requires
        create_outcome(response) is Ok,
    ensures
        ({
            let id = create_outcome(response)->Ok_0;
            &&& hw.device_url(id) == hw.collection_url() + decimal(id as nat)
            &&& (hw.device_url(other) == hw.device_url(id) ==> other == id)
        }),
{
    let id = create_outcome(response)->Ok_0;
    assert(hw.device_url(id) =~= hw.collection_url() + decimal(id as nat));
    if hw.device_url(other) == hw.device_url(id) {
        let prefix = hw.collection_url();
        assert(hw.device_url(other) =~= prefix + decimal(other as nat));
        assert(decimal(other as nat) =~= hw.device_url(other).subrange(
            prefix.len() as int,
            hw.device_url(other).len() as int,
        ));
        assert(decimal(id as nat) =~= hw.device_url(id).subrange(
            prefix.len() as int,
            hw.device_url(id).len() as int,
        ));
        lemma_decimal_injective(other as nat, id as nat);
    }
}

} // verus!
