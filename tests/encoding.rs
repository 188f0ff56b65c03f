use azure_iot::{decode_component, encode_component, AzReturnCode};

#[test]
fn encode_keeps_unreserved_and_escapes_the_rest() {
    assert_eq!(encode_component("AZaz09-._~"), "AZaz09-._~");
    assert_eq!(encode_component("a b/c"), "a%20b%2Fc");
    assert_eq!(encode_component("é"), "%C3%A9");
    assert_eq!(encode_component(""), "");
}

#[test]
fn decode_undoes_encode() {
    for s in ["", "plain", "a b/c?d=e&f", "ünïcødé ✓"] {
        assert_eq!(decode_component(&encode_component(s)).unwrap(), s);
    }
    assert_eq!(decode_component("a%2fb%2Fc").unwrap(), "a/b/c");
}

#[test]
fn decode_rejects_malformed_escapes() {
    assert_eq!(decode_component("%"), None);
    assert_eq!(decode_component("%4"), None);
    assert_eq!(decode_component("%zz"), None);
    assert_eq!(decode_component("%FF"), None);
}

#[test]
fn return_code_names() {
    assert_eq!(AzReturnCode::AzResultCoreOk.to_string(), "AzResultCoreOk");
    assert_eq!(
        AzReturnCode::AzResultIoTErrorEndOfProperties.to_string(),
        "AzResultIoTErrorEndOfProperties"
    );
    assert_eq!(
        AzReturnCode::AzResultCoreErrorNotEnoughSpace.to_string(),
        "AzResultCoreErrorNotEnoughSpace"
    );
}
