use azure_iot::{AzReturnCode, MessageProperties};

fn pairs(v: &[(&str, &str)]) -> Vec<(String, String)> {
    v.iter().map(|(k, v)| (k.to_string(), v.to_string())).collect()
}

#[test]
fn appended_pairs_iterate_in_order() {
    let mut props = MessageProperties::new(Vec::with_capacity(200)).unwrap();
    let input = [("key1", "value one"), ("k2", "v2"), ("a&b", "c=d"), ("ünï", "çødé")];
    for (k, v) in input.iter() {
        props.append(k, v).unwrap();
    }
    assert_eq!(props.into_array().unwrap(), pairs(&input));
}

#[test]
fn append_encodes_reserved_characters() {
    let mut props = MessageProperties::new(Vec::with_capacity(100)).unwrap();
    props.append("a&b", "c=d e").unwrap();
    props.append("x", "y").unwrap();
    assert_eq!(props.as_str(), "a%26b=c%3Dd%20e&x=y");
}

#[test]
fn find_after_append() {
    let mut props = MessageProperties::new(Vec::with_capacity(100)).unwrap();
    props.append("one", "1").unwrap();
    props.append("two", "2").unwrap();
    assert_eq!(props.find("two").unwrap(), "2");
    assert_eq!(props.find("one").unwrap(), "1");
}

#[test]
fn find_absent_key_is_not_found() {
    let mut props = MessageProperties::new(Vec::with_capacity(100)).unwrap();
    assert_eq!(props.find("k").err(), Some(AzReturnCode::AzResultCoreErrorItemNotFound));
    props.append("one", "1").unwrap();
    assert_eq!(props.find("two").err(), Some(AzReturnCode::AzResultCoreErrorItemNotFound));
}

#[test]
fn find_takes_first_of_equal_keys() {
    let mut props = MessageProperties::new(Vec::with_capacity(100)).unwrap();
    props.append("k", "first").unwrap();
    props.append("k", "second").unwrap();
    assert_eq!(props.find("k").unwrap(), "first");
}

#[test]
fn append_rejects_empty_key() {
    let mut props = MessageProperties::new(Vec::with_capacity(100)).unwrap();
    assert_eq!(props.append("", "v").err(), Some(AzReturnCode::AzResultCoreErrorArg));
    assert_eq!(props.as_str(), "");
}

#[test]
fn append_past_capacity_fails_and_keeps_the_set() {
    let mut props = MessageProperties::new(Vec::with_capacity(8)).unwrap();
    props.append("a", "1").unwrap();
    assert_eq!(
        props.append("long-key", "long-value").err(),
        Some(AzReturnCode::AzResultCoreErrorNotEnoughSpace)
    );
    assert_eq!(props.as_str(), "a=1");
    let mut empty = MessageProperties::new_empty();
    assert_eq!(
        empty.append("a", "1").err(),
        Some(AzReturnCode::AzResultCoreErrorNotEnoughSpace)
    );
}

#[test]
fn next_ends_with_end_of_properties() {
    let mut props = MessageProperties::new(Vec::with_capacity(100)).unwrap();
    props.append("a", "1").unwrap();
    props.append("b", "2").unwrap();
    assert_eq!(props.next().unwrap(), ("a".to_string(), "1".to_string()));
    assert_eq!(props.next().unwrap(), ("b".to_string(), "2".to_string()));
    assert_eq!(props.next().err(), Some(AzReturnCode::AzResultIoTErrorEndOfProperties));
    assert_eq!(props.next().err(), Some(AzReturnCode::AzResultIoTErrorEndOfProperties));
}

#[test]
fn iteration_does_not_restart() {
    let mut props = MessageProperties::new(Vec::with_capacity(100)).unwrap();
    props.append("a", "1").unwrap();
    assert_eq!(props.into_array().unwrap().len(), 1);
    assert_eq!(props.into_array().unwrap(), Vec::new());
    let mut again = MessageProperties::from_encoded(props.as_str());
    assert_eq!(again.into_array().unwrap(), pairs(&[("a", "1")]));
}

#[test]
fn malformed_buffer_reports_unexpected_char() {
    let mut bad_escape = MessageProperties::from_encoded("a=%zz");
    assert_eq!(
        bad_escape.into_array().err(),
        Some(AzReturnCode::AzResultCoreErrorUnexpectedChar)
    );
    assert_eq!(bad_escape.find("a").err(), Some(AzReturnCode::AzResultCoreErrorUnexpectedChar));
    let mut no_equals = MessageProperties::from_encoded("a=1&b");
    assert_eq!(no_equals.next().unwrap(), ("a".to_string(), "1".to_string()));
    assert_eq!(no_equals.next().err(), Some(AzReturnCode::AzResultCoreErrorUnexpectedChar));
    let mut not_utf8 = MessageProperties::from_encoded("k=%FF");
    assert_eq!(not_utf8.next().err(), Some(AzReturnCode::AzResultCoreErrorUnexpectedChar));
}

#[test]
fn value_may_hold_equals_sign() {
    let props = MessageProperties::from_encoded("k=a=b");
    assert_eq!(props.find("k").unwrap(), "a=b");
}

#[test]
fn with_capacity_bounds_the_buffer() {
    let mut props = MessageProperties::with_capacity(7);
    props.append("ab", "cd").unwrap();
    assert_eq!(props.as_str(), "ab=cd");
    assert_eq!(
        props.append("e", "f").err(),
        Some(AzReturnCode::AzResultCoreErrorNotEnoughSpace)
    );
    let mut exact = MessageProperties::with_capacity(9);
    exact.append("ab", "cd").unwrap().append("e", "f").unwrap();
    assert_eq!(exact.as_str(), "ab=cd&e=f");
}
