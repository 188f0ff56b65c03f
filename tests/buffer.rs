use azure_iot::{
    copy_within_capacity, fit_text, grow_until_fits, write_bytes_within_capacity,
    write_within_capacity, AzReturnCode,
};

#[test]
fn fit_text_from_any_smaller_capacity() {
    let text = "devices/a-rather-long-device-name/messages/events/";
    for start in [0usize, 1, 2, 7, 49, 50, 51, 1000] {
        let out = fit_text(text, start);
        assert_eq!(out, text);
        assert_eq!(out.len(), text.len());
    }
}

#[test]
fn grow_until_fits_doubles_until_success() {
    let text = "0123456789abcdef0123";
    let r = grow_until_fits(1, |c| copy_within_capacity(text, c));
    assert_eq!(r.unwrap(), text);
}

#[test]
fn grow_until_fits_passes_other_errors_through() {
    let r = grow_until_fits(4, |_c| Err(AzReturnCode::AzResultCoreErrorArg));
    assert_eq!(r.err(), Some(AzReturnCode::AzResultCoreErrorArg));
}

#[test]
fn copy_within_capacity_counts_bytes() {
    assert_eq!(copy_within_capacity("é", 1).err(), Some(AzReturnCode::AzResultCoreErrorNotEnoughSpace));
    assert_eq!(copy_within_capacity("é", 2).unwrap(), "é");
}

#[test]
fn write_within_capacity_keeps_result_when_too_small() {
    let mut out = "old".to_string();
    assert_eq!(
        write_within_capacity("abcdef", 3, &mut out),
        AzReturnCode::AzResultCoreErrorNotEnoughSpace
    );
    assert_eq!(out, "old");
    assert_eq!(write_within_capacity("abcdef", 6, &mut out), AzReturnCode::AzResultCoreOk);
    assert_eq!(out, "abcdef");
}

#[test]
fn write_bytes_within_capacity_is_exact() {
    let mut out: Vec<u8> = b"old".to_vec();
    assert_eq!(
        write_bytes_within_capacity(b"abcdef".to_vec(), 5, &mut out),
        AzReturnCode::AzResultCoreErrorNotEnoughSpace
    );
    assert_eq!(out, b"old".to_vec());
    assert_eq!(
        write_bytes_within_capacity(b"abcdef".to_vec(), 6, &mut out),
        AzReturnCode::AzResultCoreOk
    );
    assert_eq!(out, b"abcdef".to_vec());
    assert_eq!(
        write_bytes_within_capacity(Vec::new(), 0, &mut out),
        AzReturnCode::AzResultCoreOk
    );
    assert!(out.is_empty());
}
