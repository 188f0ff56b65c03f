//! The hub client: a device identity fixed at construction, and the topic names, user name and
//! shared-access-signature strings derived from it.
use vstd::prelude::*;
use vstd::string::*;
use vstd::utf8::encode_utf8;
use crate::buffer::{fit_text, write_bytes_into_buffer, write_into_buffer};
use crate::encoding::{decimal_string, decimal_text, encode_component, encode_text};
use crate::properties::MessageProperties;
use crate::return_codes::AzReturnCode;
use crate::text::{find_first, first_occurrence, lemma_first_occurrence_unique, occurs_at, occurs_at_exec, to_chars};

verus! {

/// The capacity with which the text-producing operations start.
pub const TEXT_INITIAL_CAPACITY: usize = 100;

/// The capacity with which the signature input starts.
pub const SIGNATURE_INITIAL_CAPACITY: usize = 200;

/// The capacity with which the password starts.
pub const PASSWORD_INITIAL_CAPACITY: usize = 300;

/// The user name: `<host>/<device>/?api-version=2018-06-30&<user agent>`.
pub open spec fn user_name_text(host: Seq<char>, device: Seq<char>, user_agent: Seq<char>) -> Seq<
    char,
> {
    host + "/"@ + device + "/?api-version=2018-06-30&"@ + user_agent
}

/// The telemetry topic: `devices/<device>/messages/events/` followed by the encoded properties.
pub open spec fn telemetry_topic_text(device: Seq<char>, properties: Seq<char>) -> Seq<char> {
    "devices/"@ + device + "/messages/events/"@ + properties
}

/// The topic of a method response: `$iothub/methods/res/<status>/?$rid=<request id>`.
pub open spec fn method_response_topic_text(status: nat, request_id: Seq<char>) -> Seq<char> {
    "$iothub/methods/res/"@ + decimal_text(status) + "/?$rid="@ + request_id
}

/// The resource that a signature covers: `<host>/devices/<device>`.
pub open spec fn resource_text(host: Seq<char>, device: Seq<char>) -> Seq<char> {
    host + "/devices/"@ + device
}

/// What an outside signer signs: the encoded resource, a line feed, and the expiry.
pub open spec fn signature_input_text(host: Seq<char>, device: Seq<char>, ttl: nat) -> Seq<char> {
    encode_text(resource_text(host, device)) + "\n"@ + decimal_text(ttl)
}

/// The password: `SharedAccessSignature sr=<encoded resource>&sig=<signature>&se=<expiry>`.
pub open spec fn password_text(host: Seq<char>, device: Seq<char>, ttl: nat, signature: Seq<char>) -> Seq<
    char,
> {
    "SharedAccessSignature sr="@ + encode_text(resource_text(host, device)) + "&sig="@ + signature
        + "&se="@ + decimal_text(ttl)
}

/// The start of a cloud-to-device topic for `device`.
pub open spec fn c2d_topic_prefix(device: Seq<char>) -> Seq<char> {
    "devices/"@ + device + "/messages/devicebound/"@
}

/// The encoded properties of a cloud-to-device topic for `device`, if `topic` is one.
pub open spec fn c2d_properties_of(device: Seq<char>, topic: Seq<char>) -> Option<Seq<char>> {
    let prefix = c2d_topic_prefix(device);
    if occurs_at(topic, prefix, 0) {
        Some(topic.skip(prefix.len() as int))
    } else {
        None
    }
}

/// The method name and request id of a method-request topic, if `topic` is one:
/// `$iothub/methods/POST/<name>/?$rid=<request id>`, the name ending at the first `/?$rid=`.
pub open spec fn method_request_of(topic: Seq<char>) -> Option<(Seq<char>, Seq<char>)> {
    let prefix = "$iothub/methods/POST/"@;
    let marker = "/?$rid="@;
    if occurs_at(topic, prefix, 0) {
        let rest = topic.skip(prefix.len() as int);
        if exists|i: int| first_occurrence(rest, marker, i) {
            let i = choose|i: int| first_occurrence(rest, marker, i);
            Some((rest.take(i), rest.skip(i + marker.len())))
        } else {
            None
        }
    } else {
        None
    }
}

/// Options of a hub client.
pub struct HubClientOptions {
    user_agent: String,
}

impl HubClientOptions {
    /// What the client reports of itself after the API version in its user name.
    pub closed spec fn spec_user_agent(&self) -> Seq<char> {
        self.user_agent@
    }

    /// The default options.
    pub fn default_new() -> (r: HubClientOptions)
        ensures
            r.spec_user_agent() == "DeviceClientType=c%2F1.0.0"@,
    {
        HubClientOptions { user_agent: "DeviceClientType=c%2F1.0.0".to_string() }
    }

    fn duplicate(&self) -> (r: HubClientOptions)
        ensures
            r.spec_user_agent() == self.spec_user_agent(),
    {
        HubClientOptions { user_agent: self.user_agent.clone() }
    }
}

/// The user agent that `options` give, the default one when there are none.
pub open spec fn user_agent_of(options: Option<HubClientOptions>) -> Seq<char> {
    match options {
        Some(o) => o.spec_user_agent(),
        None => "DeviceClientType=c%2F1.0.0"@,
    }
}

/// Collects the parts of a hub client before building it.
pub struct HubClientBuilder<'a> {
    host_name: Option<&'a str>,
    device_id: Option<&'a str>,
    client_options: Option<HubClientOptions>,
}

/// The text of a name, if one is given.
pub open spec fn name_view(name: Option<&str>) -> Option<Seq<char>> {
    match name {
        Some(s) => Some(s@),
        None => None,
    }
}

/// The user agent of options, if any are given.
pub open spec fn options_view(options: Option<HubClientOptions>) -> Option<Seq<char>> {
    match options {
        Some(o) => Some(o.spec_user_agent()),
        None => None,
    }
}

impl<'a> HubClientBuilder<'a> {
    pub closed spec fn spec_host_name(&self) -> Option<Seq<char>> {
        name_view(self.host_name)
    }

    pub closed spec fn spec_device_id(&self) -> Option<Seq<char>> {
        name_view(self.device_id)
    }

    pub closed spec fn spec_options(&self) -> Option<Seq<char>> {
        options_view(self.client_options)
    }

    /// A builder with nothing set.
    pub fn new() -> (r: HubClientBuilder<'static>)
        ensures
            r.spec_host_name() is None,
            r.spec_device_id() is None,
            r.spec_options() is None,
    {
        HubClientBuilder { host_name: None, device_id: None, client_options: None }
    }

    /// Sets the host name.
    pub fn host_name(&mut self, host_name: &'a str) -> (r: &mut HubClientBuilder<'a>)
        ensures
            r.spec_host_name() == Some(host_name@),
            r.spec_device_id() == old(self).spec_device_id(),
            r.spec_options() == old(self).spec_options(),
            *final(self) == *final(r),
    {
        self.host_name = Some(host_name);
        self
    }

    /// Sets the device id.
    pub fn device_id(&mut self, device_id: &'a str) -> (r: &mut HubClientBuilder<'a>)
        ensures
            r.spec_host_name() == old(self).spec_host_name(),
            r.spec_device_id() == Some(device_id@),
            r.spec_options() == old(self).spec_options(),
            *final(self) == *final(r),
    {
        self.device_id = Some(device_id);
        self
    }

    /// Sets the client options.
    pub fn client_options(&mut self, client_options: HubClientOptions) -> (r: &mut HubClientBuilder<'a>)
        ensures
            r.spec_host_name() == old(self).spec_host_name(),
            r.spec_device_id() == old(self).spec_device_id(),
            r.spec_options() == Some(client_options.spec_user_agent()),
            *final(self) == *final(r),
    {
        self.client_options = Some(client_options);
        self
    }

    /// Whether both the host name and the device id have been set, as `finalize` requires.
    pub fn is_complete(&self) -> (r: bool)
        ensures
            r == (self.spec_host_name() is Some && self.spec_device_id() is Some),
    {
        self.host_name.is_some() && self.device_id.is_some()
    }

    /// Builds the client, as `HubClient::new` does from the parts set. The host name and the
    /// device id must both have been set.
    pub fn finalize(&mut self) -> (r: Result<HubClient, AzReturnCode>)
        requires
            old(self).spec_host_name() is Some,
            old(self).spec_device_id() is Some,
        ensures
            *final(self) == *old(self),
            old(self).spec_host_name()->Some_0.len() == 0 || old(self).spec_device_id()->Some_0.len()
                == 0 ==> r is Err && r->Err_0 == AzReturnCode::AzResultCoreErrorArg,
            old(self).spec_host_name()->Some_0.len() > 0 && old(self).spec_device_id()->Some_0.len()
                > 0 ==> r is Ok,
            r matches Ok(c) ==> c.spec_host_name() == old(self).spec_host_name()->Some_0
                && c.spec_device_id() == old(self).spec_device_id()->Some_0 && c.spec_user_agent()
                == match old(self).spec_options() {
                Some(u) => u,
                None => "DeviceClientType=c%2F1.0.0"@,
            } && c.wf(),
    {
        let options = match &self.client_options {
            Some(o) => Some(o.duplicate()),
            None => None,
        };
        match (self.host_name, self.device_id) {
            (Some(h), Some(d)) => HubClient::new(h, d, options),
            _ => Err(AzReturnCode::AzResultCoreErrorArg),
        }
    }
}

/// A device's identity on one hub, fixed at construction.
pub struct HubClient {
    host_name: String,
    device_id: String,
    options: HubClientOptions,
}

/// A received cloud-to-device message: the properties carried in its topic.
pub struct ClientC2DRequest {
    properties: MessageProperties,
}

/// A received direct-method request.
pub struct ClientMethodRequest {
    request_id: String,
    name: String,
}

/// What a received topic is.
pub enum TopicType {
    C2D(ClientC2DRequest),
    Method(ClientMethodRequest),
    Unknown,
}

impl ClientC2DRequest {
    /// The encoded properties that came with the message.
    pub closed spec fn spec_properties(&self) -> Seq<char> {
        self.properties.spec_encoded()
    }

    /// A request without properties.
    pub fn new_empty() -> (r: ClientC2DRequest)
        ensures
            r.spec_properties() == Seq::<char>::empty(),
    {
        ClientC2DRequest { properties: MessageProperties::new_empty() }
    }

    /// The message's properties, ready to be iterated from the first.
    pub fn get_message_properties(&self) -> (r: MessageProperties)
        ensures
            r.spec_encoded() == self.spec_properties(),
            r.spec_cursor() == 0,
            r.wf(),
    {
        MessageProperties::from_encoded(self.properties.as_str())
    }
}

impl ClientMethodRequest {
    pub closed spec fn spec_request_id(&self) -> Seq<char> {
        self.request_id@
    }

    pub closed spec fn spec_name(&self) -> Seq<char> {
        self.name@
    }

    /// A request with empty name and request id.
    pub fn new_empty() -> (r: ClientMethodRequest)
        ensures
            r.spec_request_id() == Seq::<char>::empty(),
            r.spec_name() == Seq::<char>::empty(),
    {
        ClientMethodRequest { request_id: String::new(), name: String::new() }
    }

    /// The id that the response must carry.
    pub fn get_request_id(&self) -> (r: &str)
        ensures
            r@ == self.spec_request_id(),
    {
        self.request_id.as_str()
    }

    /// The name of the method called.
    pub fn get_name(&self) -> (r: &str)
        ensures
            r@ == self.spec_name(),
    {
        self.name.as_str()
    }
}

impl HubClient {
    pub closed spec fn spec_host_name(&self) -> Seq<char> {
        self.host_name@
    }

    pub closed spec fn spec_device_id(&self) -> Seq<char> {
        self.device_id@
    }

    pub closed spec fn spec_user_agent(&self) -> Seq<char> {
        self.options.spec_user_agent()
    }

    /// Both names of the identity are non-empty.
    pub open spec fn wf(&self) -> bool {
        self.spec_host_name().len() > 0 && self.spec_device_id().len() > 0
    }

    /// A client for `device_id` on the hub `host_name`; `AzResultCoreErrorArg` when either name
    /// is empty.
    pub fn new(host_name: &str, device_id: &str, options: Option<HubClientOptions>) -> (r: Result<
        HubClient,
        AzReturnCode,
    >)
        ensures
            host_name@.len() == 0 || device_id@.len() == 0 ==> r is Err && r->Err_0
                == AzReturnCode::AzResultCoreErrorArg,
            host_name@.len() > 0 && device_id@.len() > 0 ==> r is Ok,
            r matches Ok(c) ==> c.spec_host_name() == host_name@ && c.spec_device_id()
                == device_id@ && c.spec_user_agent() == user_agent_of(options) && c.wf(),
    {
        if host_name.is_empty() || device_id.is_empty() {
            return Err(AzReturnCode::AzResultCoreErrorArg);
        }
        let options = match options {
            Some(o) => o,
            None => HubClientOptions::default_new(),
        };
        Ok(HubClient { host_name: host_name.to_string(), device_id: device_id.to_string(), options })
    }

    /// The hub's host name.
    pub fn get_host_name(&self) -> (r: &str)
        ensures
            r@ == self.spec_host_name(),
    {
        self.host_name.as_str()
    }

    /// The device id.
    pub fn get_device_id(&self) -> (r: &str)
        ensures
            r@ == self.spec_device_id(),
    {
        self.device_id.as_str()
    }

    /// The client id: the device id.
    pub fn get_client_id(&self) -> (r: Result<String, AzReturnCode>)
        ensures
            r is Ok && r->Ok_0@ == self.spec_device_id(),
    {
        Ok(fit_text(self.device_id.as_str(), TEXT_INITIAL_CAPACITY))
    }

    /// Writes the client id into `result` if it fits the capacity that `result` has allocated.
    pub fn ll_get_client_id(&self, result: &mut String) -> (rc: AzReturnCode)
        ensures
            rc == AzReturnCode::AzResultCoreOk && final(result)@ == self.spec_device_id() || rc
                == AzReturnCode::AzResultCoreErrorNotEnoughSpace && final(result)@ == old(
                result,
            )@,
    {
        write_into_buffer(self.device_id.as_str(), result)
    }

    fn user_name(&self) -> (r: String)
        ensures
            r@ == user_name_text(self.spec_host_name(), self.spec_device_id(), self.spec_user_agent()),
    {
        let mut s = self.host_name.clone();
        s.append("/");
        s.append(self.device_id.as_str());
        s.append("/?api-version=2018-06-30&");
        s.append(self.options.user_agent.as_str());
        s
    }

    /// The user name to connect with.
    pub fn get_user_name(&self) -> (r: Result<String, AzReturnCode>)
        ensures
            r is Ok && r->Ok_0@ == user_name_text(
                self.spec_host_name(),
                self.spec_device_id(),
                self.spec_user_agent(),
            ),
    {
        let text = self.user_name();
        Ok(fit_text(text.as_str(), TEXT_INITIAL_CAPACITY))
    }

    /// Writes the user name into `result` if it fits the capacity that `result` has allocated.
    pub fn ll_get_user_name(&self, result: &mut String) -> (rc: AzReturnCode)
        ensures
            rc == AzReturnCode::AzResultCoreOk && final(result)@ == user_name_text(
                self.spec_host_name(),
                self.spec_device_id(),
                self.spec_user_agent(),
            ) || rc == AzReturnCode::AzResultCoreErrorNotEnoughSpace && final(result)@ == old(
                result,
            )@,
    {
        let text = self.user_name();
        write_into_buffer(text.as_str(), result)
    }

    /// The filter that subscribes to cloud-to-device messages.
    pub fn get_c2d_subscribe_topic() -> (r: &'static str)
        ensures
            r@ == "devices/+/messages/devicebound/#"@,
    {
        "devices/+/messages/devicebound/#"
    }

    /// The filter that subscribes to direct-method requests.
    pub fn get_method_subscribe_topic() -> (r: &'static str)
        ensures
            r@ == "$iothub/methods/POST/#"@,
    {
        "$iothub/methods/POST/#"
    }

    /// The filter that subscribes to twin responses.
    pub fn get_twin_respnse_subscribe_topic() -> (r: &'static str)
        ensures
            r@ == "$iothub/twin/res/#"@,
    {
        "$iothub/twin/res/#"
    }

    /// The filter that subscribes to twin desired-property patches.
    pub fn get_twin_patch_subscribe_topic() -> (r: &'static str)
        ensures
            r@ == "$iothub/twin/PATCH/properties/desired/#"@,
    {
        "$iothub/twin/PATCH/properties/desired/#"
    }

    /// Reads `topic` as a cloud-to-device message for this device, whose properties follow
    /// `devices/<device>/messages/devicebound/`; `AzResultIoTErrorTopicNoMatch` otherwise.
    pub fn c2d_parse_received_topic(&self, topic: &str) -> (r: Result<ClientC2DRequest, AzReturnCode>)
        ensures
            c2d_properties_of(self.spec_device_id(), topic@) matches Some(p) ==> r is Ok
                && r->Ok_0.spec_properties() == p,
            c2d_properties_of(self.spec_device_id(), topic@) is None ==> r is Err && r->Err_0
                == AzReturnCode::AzResultIoTErrorTopicNoMatch,
    {
        let mut prefix = "devices/".to_string();
        prefix.append(self.device_id.as_str());
        prefix.append("/messages/devicebound/");
        let prefix_chars = to_chars(prefix.as_str());
        let topic_chars = to_chars(topic);
        if !occurs_at_exec(&topic_chars, &prefix_chars, 0) {
            return Err(AzReturnCode::AzResultIoTErrorTopicNoMatch);
        }
        let rest = topic.substring_char(prefix_chars.len(), topic_chars.len());
        assert(rest@ =~= topic@.skip(prefix@.len() as int));
        Ok(ClientC2DRequest { properties: MessageProperties::from_encoded(rest) })
    }

    /// Reads `topic` as a direct-method request; `AzResultIoTErrorTopicNoMatch` otherwise.
    pub fn methods_parse_received_topic(&self, topic: &str) -> (r: Result<
        ClientMethodRequest,
        AzReturnCode,
    >)
        ensures
            method_request_of(topic@) matches Some(m) ==> r is Ok && r->Ok_0.spec_name() == m.0
                && r->Ok_0.spec_request_id() == m.1,
            method_request_of(topic@) is None ==> r is Err && r->Err_0
                == AzReturnCode::AzResultIoTErrorTopicNoMatch,
    {
        let prefix = "$iothub/methods/POST/";
        let marker = "/?$rid=";
        let prefix_chars = to_chars(prefix);
        let marker_chars = to_chars(marker);
        let topic_chars = to_chars(topic);
        if !occurs_at_exec(&topic_chars, &prefix_chars, 0) {
            return Err(AzReturnCode::AzResultIoTErrorTopicNoMatch);
        }
        let rest = topic.substring_char(prefix_chars.len(), topic_chars.len());
        assert(rest@ =~= topic@.skip(prefix@.len() as int));
        let rest_chars = to_chars(rest);
        match find_first(&rest_chars, &marker_chars) {
            Some(i) => {
                proof {
                    assert forall|j: int| first_occurrence(rest@, marker@, j) implies j == i by {
                        lemma_first_occurrence_unique(rest@, marker@, i as int, j);
                    }
                }
                let name = rest.substring_char(0, i);
                let request_id = rest.substring_char(i + marker_chars.len(), rest_chars.len());
                assert(name@ =~= rest@.take(i as int));
                assert(request_id@ =~= rest@.skip(i + marker@.len()));
                Ok(ClientMethodRequest { request_id: request_id.to_string(), name: name.to_string() })
            },
            None => Err(AzReturnCode::AzResultIoTErrorTopicNoMatch),
        }
    }

    fn method_response_topic(&self, request_id: &str, status: u16) -> (r: String)
        ensures
            r@ == method_response_topic_text(status as nat, request_id@),
    {
        let mut s = "$iothub/methods/res/".to_string();
        let digits = decimal_string(status as u64);
        s.append(digits.as_str());
        s.append("/?$rid=");
        s.append(request_id);
        s
    }

    /// The topic on which to publish the response to request `request_id`, with `status`.
    pub fn methods_response_get_publish_topic(&self, request_id: &str, status: u16) -> (r: Result<
        String,
        AzReturnCode,
    >)
        ensures
            r is Ok && r->Ok_0@ == method_response_topic_text(status as nat, request_id@),
    {
        let text = self.method_response_topic(request_id, status);
        Ok(fit_text(text.as_str(), TEXT_INITIAL_CAPACITY))
    }

    /// Writes the method response topic into `result` if it fits the capacity that `result`
    /// has allocated.
    pub fn ll_methods_response_get_publish_topic(
        &self,
        request_id: &str,
        status: u16,
        result: &mut String,
    ) -> (rc: AzReturnCode)
        ensures
            rc == AzReturnCode::AzResultCoreOk && final(result)@ == method_response_topic_text(
                status as nat,
                request_id@,
            ) || rc == AzReturnCode::AzResultCoreErrorNotEnoughSpace && final(result)@ == old(
                result,
            )@,
    {
        let text = self.method_response_topic(request_id, status);
        write_into_buffer(text.as_str(), result)
    }

    /// What `topic` is: tried first as a cloud-to-device message, then as a method request;
    /// `Unknown` when it is neither.
    pub fn get_topic_type(&self, topic: &str) -> (r: Result<TopicType, AzReturnCode>)
        ensures
            r is Ok,
            c2d_properties_of(self.spec_device_id(), topic@) matches Some(p) ==> r->Ok_0 matches TopicType::C2D(c)
                && c.spec_properties() == p,
            c2d_properties_of(self.spec_device_id(), topic@) is None && method_request_of(topic@) is Some
                ==> (r->Ok_0 matches TopicType::Method(q) && q.spec_name() == method_request_of(
                topic@,
            )->Some_0.0 && q.spec_request_id() == method_request_of(topic@)->Some_0.1),
            c2d_properties_of(self.spec_device_id(), topic@) is None && method_request_of(topic@) is None
                ==> r->Ok_0 is Unknown,
    {
        match self.c2d_parse_received_topic(topic) {
            Ok(val) => {
                return Ok(TopicType::C2D(val));
            },
            Err(rc) => {
                if rc != AzReturnCode::AzResultIoTErrorTopicNoMatch {
                    return Err(rc);
                }
            },
        }
        match self.methods_parse_received_topic(topic) {
            Ok(val) => {
                return Ok(TopicType::Method(val));
            },
            Err(rc) => {
                if rc != AzReturnCode::AzResultIoTErrorTopicNoMatch {
                    return Err(rc);
                }
            },
        }
        Ok(TopicType::Unknown)
    }

    fn telemetry_topic(&self, message_properties: &Option<MessageProperties>) -> (r: String)
        ensures
            r@ == telemetry_topic_text(
                self.spec_device_id(),
                match message_properties {
                    Some(p) => p.spec_encoded(),
                    None => Seq::<char>::empty(),
                },
            ),
    {
        let mut s = "devices/".to_string();
        s.append(self.device_id.as_str());
        s.append("/messages/events/");
        match message_properties {
            Some(p) => {
                s.append(p.as_str());
            },
            None => {
                assert(s@ + Seq::<char>::empty() =~= s@);
            },
        }
        s
    }

    /// The topic on which to publish telemetry, annotated with `message_properties` if given.
    pub fn get_telemetry_publish_topic(&self, message_properties: Option<MessageProperties>) -> (r:
        Result<String, AzReturnCode>)
        ensures
            r is Ok && r->Ok_0@ == telemetry_topic_text(
                self.spec_device_id(),
                match message_properties {
                    Some(p) => p.spec_encoded(),
                    None => Seq::<char>::empty(),
                },
            ),
    {
        let text = self.telemetry_topic(&message_properties);
        Ok(fit_text(text.as_str(), TEXT_INITIAL_CAPACITY))
    }

    /// Writes the telemetry topic into `result` if it fits the capacity that `result` has
    /// allocated.
    pub fn ll_get_telemetry_publish_topic(
        &self,
        message_properties: &Option<MessageProperties>,
        result: &mut String,
    ) -> (rc: AzReturnCode)
        ensures
            rc == AzReturnCode::AzResultCoreOk && final(result)@ == telemetry_topic_text(
                self.spec_device_id(),
                match message_properties {
                    Some(p) => p.spec_encoded(),
                    None => Seq::<char>::empty(),
                },
            ) || rc == AzReturnCode::AzResultCoreErrorNotEnoughSpace && final(result)@ == old(
                result,
            )@,
    {
        let text = self.telemetry_topic(message_properties);
        write_into_buffer(text.as_str(), result)
    }

    fn encoded_resource(&self) -> (r: String)
        ensures
            r@ == encode_text(resource_text(self.spec_host_name(), self.spec_device_id())),
    {
        let mut resource = self.host_name.clone();
        resource.append("/devices/");
        resource.append(self.device_id.as_str());
        encode_component(resource.as_str())
    }

    fn signature_input(&self, ttl: u64) -> (r: String)
        ensures
            r@ == signature_input_text(self.spec_host_name(), self.spec_device_id(), ttl as nat),
    {
        let mut s = self.encoded_resource();
        s.append("\n");
        let digits = decimal_string(ttl);
        s.append(digits.as_str());
        s
    }

    /// The bytes that an outside signer signs for a credential expiring at `ttl`.
    pub fn get_sas_signature(&self, ttl: u64) -> (r: Result<Vec<u8>, AzReturnCode>)
        ensures
            r is Ok && r->Ok_0@ == encode_utf8(
                signature_input_text(self.spec_host_name(), self.spec_device_id(), ttl as nat),
            ),
    {
        let text = self.signature_input(ttl);
        let fitted = fit_text(text.as_str(), SIGNATURE_INITIAL_CAPACITY);
        Ok(fitted.as_str().as_bytes_vec())
    }

    /// Writes the signature input into `result` if it fits the capacity that `result` has
    /// allocated.
    pub fn ll_get_sas_signature(&self, ttl: u64, result: &mut Vec<u8>) -> (rc: AzReturnCode)
        ensures
            rc == AzReturnCode::AzResultCoreOk && final(result)@ == encode_utf8(
                signature_input_text(self.spec_host_name(), self.spec_device_id(), ttl as nat),
            ) || rc == AzReturnCode::AzResultCoreErrorNotEnoughSpace && final(result)@ == old(
                result,
            )@,
    {
        let text = self.signature_input(ttl);
        write_bytes_into_buffer(text.as_str().as_bytes_vec(), result)
    }

    fn password(&self, ttl: u64, sas: &str) -> (r: String)
        ensures
            r@ == password_text(self.spec_host_name(), self.spec_device_id(), ttl as nat, sas@),
    {
        let mut s = "SharedAccessSignature sr=".to_string();
        let resource = self.encoded_resource();
        s.append(resource.as_str());
        s.append("&sig=");
        s.append(sas);
        s.append("&se=");
        let digits = decimal_string(ttl);
        s.append(digits.as_str());
        s
    }

    /// The password for a credential expiring at `ttl`, given the signature `sas` that an
    /// outside signer computed.
    pub fn get_sas_password(&self, ttl: u64, sas: &str) -> (r: Result<String, AzReturnCode>)
        ensures
            r is Ok && r->Ok_0@ == password_text(
                self.spec_host_name(),
                self.spec_device_id(),
                ttl as nat,
                sas@,
            ),
    {
        let text = self.password(ttl, sas);
        Ok(fit_text(text.as_str(), PASSWORD_INITIAL_CAPACITY))
    }

    /// Writes the password into `result` if it fits the capacity that `result` has allocated.
    pub fn ll_get_sas_password(&self, ttl: u64, sas: &str, result: &mut String) -> (rc: AzReturnCode)
        ensures
            rc == AzReturnCode::AzResultCoreOk && final(result)@ == password_text(
                self.spec_host_name(),
                self.spec_device_id(),
                ttl as nat,
                sas@,
            ) || rc == AzReturnCode::AzResultCoreErrorNotEnoughSpace && final(result)@ == old(
                result,
            )@,
    {
        let text = self.password(ttl, sas);
        write_into_buffer(text.as_str(), result)
    }
}

/// Without properties, the telemetry topic of any identity with non-empty names is
/// `devices/<device>/messages/events/`.
pub proof fn lemma_telemetry_topic_without_properties(host_name: Seq<char>, device_id: Seq<char>)
    requires
        host_name.len() > 0,
        device_id.len() > 0,
    ensures
        telemetry_topic_text(device_id, Seq::<char>::empty()) == "devices/"@ + device_id
            + "/messages/events/"@,
{
    assert(telemetry_topic_text(device_id, Seq::<char>::empty()) =~= "devices/"@ + device_id
        + "/messages/events/"@);
}

} // verus!
