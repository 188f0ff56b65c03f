use azure_iot::{AzReturnCode, HubClient, HubClientBuilder, HubClientOptions, MessageProperties, TopicType};

const HOST_NAME: &str = "testhost.azure-devices.net";
const DEVICE_ID: &str = "test1";

#[test]
fn client_init() {
    let client = HubClient::new(HOST_NAME, DEVICE_ID, Option::None).unwrap();
    assert_eq!(HOST_NAME, client.get_host_name());
    assert_eq!(DEVICE_ID, client.get_device_id());
}

#[test]
fn client_builder() {
    let client = HubClientBuilder::new()
        .host_name(&HOST_NAME)
        .device_id(&DEVICE_ID)
        .finalize()
        .unwrap();
    assert_eq!(HOST_NAME, client.get_host_name());
    assert_eq!(DEVICE_ID, client.get_device_id());
}

#[test]
fn client_get_client_id() {
    let client = HubClient::new(HOST_NAME, DEVICE_ID, Option::None).unwrap();
    let output = client.get_client_id().unwrap();
    assert_eq!(DEVICE_ID, output);
    assert_eq!(output.len(), output.capacity());
}

#[test]
fn client_ll_get_client_id() {
    let client = HubClient::new(HOST_NAME, DEVICE_ID, Option::None).unwrap();
    let mut out: String = String::with_capacity(200);
    let rc = client.ll_get_client_id(&mut out);
    assert_eq!(rc, AzReturnCode::AzResultCoreOk);
    assert_eq!(DEVICE_ID, out);
}

#[test]
fn client_ll_get_client_id_fail() {
    let client = HubClient::new(HOST_NAME, DEVICE_ID, Option::None).unwrap();
    let mut out: String = String::with_capacity(2);
    let rc = client.ll_get_client_id(&mut out);
    assert_eq!(rc, AzReturnCode::AzResultCoreErrorNotEnoughSpace);
}

#[test]
fn client_get_user_name() {
    let client = HubClient::new(HOST_NAME, DEVICE_ID, Option::None).unwrap();
    let user_name = HOST_NAME.to_string()
        + "/"
        + DEVICE_ID
        + "/?api-version=2018-06-30&DeviceClientType=c%2F1.0.0";
    assert_eq!(user_name, client.get_user_name().unwrap());
}

#[test]
fn client_ll_get_user_name() {
    let client = HubClient::new(HOST_NAME, DEVICE_ID, Option::None).unwrap();
    let user_name = HOST_NAME.to_string()
        + "/"
        + DEVICE_ID
        + "/?api-version=2018-06-30&DeviceClientType=c%2F1.0.0";
    let mut out: String = String::with_capacity(200);
    let rc = client.ll_get_user_name(&mut out);
    assert_eq!(rc, AzReturnCode::AzResultCoreOk);
    assert_eq!(user_name, out);
}

#[test]
fn client_get_telemetry_publish_topic() {
    let client = HubClient::new(HOST_NAME, DEVICE_ID, Option::None).unwrap();
    let topic = "devices/".to_string() + DEVICE_ID + "/messages/events/";
    assert_eq!(
        topic,
        client.get_telemetry_publish_topic(Option::None).unwrap()
    );
}

#[test]
fn client_ll_get_telemetry_publish_topic() {
    let client = HubClient::new(HOST_NAME, DEVICE_ID, Option::None).unwrap();
    let topic = "devices/".to_string() + DEVICE_ID + "/messages/events/";
    let mut out = String::with_capacity(200);
    let rc = client.ll_get_telemetry_publish_topic(&Option::None, &mut out);
    assert_eq!(rc, AzReturnCode::AzResultCoreOk);
    assert_eq!(topic, out);
}

#[test]
fn client_get_sas_signature() {
    let client = HubClient::new(HOST_NAME, DEVICE_ID, Option::None).unwrap();
    let signature = HOST_NAME.to_string() + "%2Fdevices%2F" + DEVICE_ID + "\n100";
    assert_eq!(
        String::from_utf8_lossy(&client.get_sas_signature(100).unwrap()),
        signature
    );
}

#[test]
fn client_ll_get_sas_signature() {
    let client = HubClient::new(HOST_NAME, DEVICE_ID, Option::None).unwrap();
    let signature = HOST_NAME.to_string() + "%2Fdevices%2F" + DEVICE_ID + "\n100";
    let mut out: Vec<u8> = Vec::with_capacity(200);
    let rc = client.ll_get_sas_signature(100, &mut out);
    assert_eq!(rc, AzReturnCode::AzResultCoreOk);
    assert_eq!(String::from_utf8_lossy(&out), signature);
}

#[test]
fn client_get_sas_password() {
    let client = HubClient::new(HOST_NAME, DEVICE_ID, Option::None).unwrap();
    let sas = "NotReallyASASToken";
    let password = "SharedAccessSignature sr=".to_string()
        + HOST_NAME
        + "%2Fdevices%2F"
        + DEVICE_ID
        + "&sig="
        + sas
        + "&se=100";
    assert_eq!(&password, &client.get_sas_password(100, sas).unwrap());
}

#[test]
fn client_ll_get_sas_password() {
    let client = HubClient::new(HOST_NAME, DEVICE_ID, Option::None).unwrap();
    let sas = "NotReallyASASToken";
    let password = "SharedAccessSignature sr=".to_string()
        + HOST_NAME
        + "%2Fdevices%2F"
        + DEVICE_ID
        + "&sig="
        + sas
        + "&se=100";
    let mut out = String::with_capacity(200);
    let rc = client.ll_get_sas_password(100, sas, &mut out);
    assert_eq!(rc, AzReturnCode::AzResultCoreOk);
    assert_eq!(out, password);
}

#[test]
fn client_get_c2d_subscribe_topic() {
    assert_eq!(
        HubClient::get_c2d_subscribe_topic(),
        "devices/+/messages/devicebound/#"
    );
}

#[test]
fn client_get_method_subscribe_topic() {
    assert_eq!(
        HubClient::get_method_subscribe_topic(),
        "$iothub/methods/POST/#"
    );
}

#[test]
fn twin_subscribe_topics() {
    assert_eq!(HubClient::get_twin_respnse_subscribe_topic(), "$iothub/twin/res/#");
    assert_eq!(
        HubClient::get_twin_patch_subscribe_topic(),
        "$iothub/twin/PATCH/properties/desired/#"
    );
}

#[test]
fn client_new_rejects_empty_names() {
    assert_eq!(
        HubClient::new("", DEVICE_ID, Option::None).err(),
        Some(AzReturnCode::AzResultCoreErrorArg)
    );
    assert_eq!(
        HubClient::new(HOST_NAME, "", Option::None).err(),
        Some(AzReturnCode::AzResultCoreErrorArg)
    );
}

#[test]
fn client_with_default_options() {
    let client =
        HubClient::new(HOST_NAME, DEVICE_ID, Some(HubClientOptions::default_new())).unwrap();
    assert_eq!(
        client.get_user_name().unwrap(),
        "testhost.azure-devices.net/test1/?api-version=2018-06-30&DeviceClientType=c%2F1.0.0"
    );
}

#[test]
fn builder_with_options() {
    let client = HubClientBuilder::new()
        .host_name("h.example")
        .device_id("d")
        .client_options(HubClientOptions::default_new())
        .finalize()
        .unwrap();
    assert_eq!(client.get_client_id().unwrap(), "d");
}

#[test]
fn telemetry_topic_for_any_device() {
    let client = HubClient::new("hub.example.net", "sensor-7", None).unwrap();
    assert_eq!(
        client.get_telemetry_publish_topic(None).unwrap(),
        "devices/sensor-7/messages/events/"
    );
}

#[test]
fn telemetry_topic_with_properties() {
    let client = HubClient::new(HOST_NAME, DEVICE_ID, None).unwrap();
    let mut props = MessageProperties::new(Vec::with_capacity(100)).unwrap();
    props.append("key1", "value one").unwrap();
    props.append("k2", "v2").unwrap();
    assert_eq!(
        client.get_telemetry_publish_topic(Some(props)).unwrap(),
        "devices/test1/messages/events/key1=value%20one&k2=v2"
    );
}

#[test]
fn ll_telemetry_topic_too_small() {
    let client = HubClient::new(HOST_NAME, DEVICE_ID, None).unwrap();
    let mut out = String::with_capacity(4);
    let rc = client.ll_get_telemetry_publish_topic(&None, &mut out);
    assert_eq!(rc, AzReturnCode::AzResultCoreErrorNotEnoughSpace);
    assert_eq!(out, "");
}

#[test]
fn ll_sas_signature_too_small() {
    let client = HubClient::new(HOST_NAME, DEVICE_ID, None).unwrap();
    let mut out: Vec<u8> = Vec::with_capacity(3);
    let rc = client.ll_get_sas_signature(100, &mut out);
    assert_eq!(rc, AzReturnCode::AzResultCoreErrorNotEnoughSpace);
    assert!(out.is_empty());
}

#[test]
fn sas_strings_encode_the_resource() {
    let client = HubClient::new("my hub", "dev/1", None).unwrap();
    let sig = client.get_sas_signature(1234567890).unwrap();
    assert_eq!(String::from_utf8(sig).unwrap(), "my%20hub%2Fdevices%2Fdev%2F1\n1234567890");
    assert_eq!(
        client.get_sas_password(0, "abc").unwrap(),
        "SharedAccessSignature sr=my%20hub%2Fdevices%2Fdev%2F1&sig=abc&se=0"
    );
}

#[test]
fn method_response_topic() {
    let client = HubClient::new(HOST_NAME, DEVICE_ID, None).unwrap();
    assert_eq!(
        client.methods_response_get_publish_topic("42", 200).unwrap(),
        "$iothub/methods/res/200/?$rid=42"
    );
    let mut out = String::with_capacity(200);
    let rc = client.ll_methods_response_get_publish_topic("abc", 404, &mut out);
    assert_eq!(rc, AzReturnCode::AzResultCoreOk);
    assert_eq!(out, "$iothub/methods/res/404/?$rid=abc");
}

#[test]
fn c2d_topic_parses_properties() {
    let client = HubClient::new(HOST_NAME, DEVICE_ID, None).unwrap();
    let topic = "devices/test1/messages/devicebound/%24.to=%2Fdevices%2Ftest1%2Fmessages%2FdeviceBound&iothub-ack=full";
    let request = client.c2d_parse_received_topic(topic).unwrap();
    let mut props = request.get_message_properties();
    assert_eq!(props.find("$.to").unwrap(), "/devices/test1/messages/deviceBound");
    assert_eq!(props.find("iothub-ack").unwrap(), "full");
    let all = props.into_array().unwrap();
    assert_eq!(
        all,
        vec![
            ("$.to".to_string(), "/devices/test1/messages/deviceBound".to_string()),
            ("iothub-ack".to_string(), "full".to_string()),
        ]
    );
}

#[test]
fn c2d_topic_of_another_device_does_not_match() {
    let client = HubClient::new(HOST_NAME, DEVICE_ID, None).unwrap();
    let r = client.c2d_parse_received_topic("devices/other/messages/devicebound/a=b");
    assert_eq!(r.err(), Some(AzReturnCode::AzResultIoTErrorTopicNoMatch));
}

#[test]
fn c2d_topic_without_properties() {
    let client = HubClient::new(HOST_NAME, DEVICE_ID, None).unwrap();
    let request = client.c2d_parse_received_topic("devices/test1/messages/devicebound/").unwrap();
    let mut props = request.get_message_properties();
    assert_eq!(props.into_array().unwrap(), Vec::new());
}

#[test]
fn method_topic_parses_name_and_request_id() {
    let client = HubClient::new(HOST_NAME, DEVICE_ID, None).unwrap();
    let request = client.methods_parse_received_topic("$iothub/methods/POST/reboot/?$rid=42").unwrap();
    assert_eq!(request.get_name(), "reboot");
    assert_eq!(request.get_request_id(), "42");
}

#[test]
fn method_topic_without_request_id_does_not_match() {
    let client = HubClient::new(HOST_NAME, DEVICE_ID, None).unwrap();
    let r = client.methods_parse_received_topic("$iothub/methods/POST/reboot");
    assert_eq!(r.err(), Some(AzReturnCode::AzResultIoTErrorTopicNoMatch));
    let r = client.methods_parse_received_topic("$iothub/methods/GET/reboot/?$rid=1");
    assert_eq!(r.err(), Some(AzReturnCode::AzResultIoTErrorTopicNoMatch));
}

#[test]
fn topic_type_classifies_each_shape() {
    let client = HubClient::new(HOST_NAME, DEVICE_ID, None).unwrap();
    match client.get_topic_type("devices/test1/messages/devicebound/a=1").unwrap() {
        TopicType::C2D(req) => {
            let mut p = req.get_message_properties();
            assert_eq!(p.find("a").unwrap(), "1");
        }
        _ => panic!("expected a cloud-to-device topic"),
    }
    match client.get_topic_type("$iothub/methods/POST/ping/?$rid=7").unwrap() {
        TopicType::Method(req) => {
            assert_eq!(req.get_name(), "ping");
            assert_eq!(req.get_request_id(), "7");
        }
        _ => panic!("expected a method topic"),
    }
}

#[test]
fn topic_type_unrecognized_is_not_an_error() {
    let client = HubClient::new(HOST_NAME, DEVICE_ID, None).unwrap();
    assert!(matches!(
        client.get_topic_type("$iothub/twin/res/200/?$rid=1"),
        Ok(TopicType::Unknown)
    ));
    assert!(matches!(client.get_topic_type(""), Ok(TopicType::Unknown)));
}

#[test]
fn empty_requests() {
    let m = azure_iot::ClientMethodRequest::new_empty();
    assert_eq!(m.get_name(), "");
    assert_eq!(m.get_request_id(), "");
    let c = azure_iot::ClientC2DRequest::new_empty();
    let mut p = c.get_message_properties();
    assert_eq!(p.next().err(), Some(AzReturnCode::AzResultIoTErrorEndOfProperties));
}

#[test]
fn builder_reports_completeness() {
    let mut b = HubClientBuilder::new();
    assert!(!b.is_complete());
    b.host_name(HOST_NAME);
    assert!(!b.is_complete());
    b.device_id(DEVICE_ID);
    assert!(b.is_complete());
}
