use azure_iot::HubClient;

#[test]
fn retry_delay_doubles_per_attempt() {
    assert_eq!(HubClient::calculate_retry_delay(0, 0, 1000, 100000, 0), 1000);
    assert_eq!(HubClient::calculate_retry_delay(0, 1, 1000, 100000, 0), 2000);
    assert_eq!(HubClient::calculate_retry_delay(0, 3, 1000, 100000, 0), 8000);
}

#[test]
fn retry_delay_is_capped_at_the_maximum() {
    assert_eq!(HubClient::calculate_retry_delay(0, 10, 1000, 100000, 0), 100000);
    assert_eq!(HubClient::calculate_retry_delay(0, 32000, 1000, 100000, 0), 100000);
    assert_eq!(HubClient::calculate_retry_delay(0, 10, 1000, 100000, 50), 100000);
}

#[test]
fn retry_delay_adds_jitter_below_the_maximum() {
    assert_eq!(HubClient::calculate_retry_delay(0, 3, 1000, 100000, 50), 8050);
}

#[test]
fn retry_delay_subtracts_operation_time_and_stays_non_negative() {
    assert_eq!(HubClient::calculate_retry_delay(500, 3, 1000, 100000, 0), 7500);
    assert_eq!(HubClient::calculate_retry_delay(50000, 0, 1000, 100000, 0), 0);
    assert_eq!(HubClient::calculate_retry_delay(0, 5, 0, 100000, 0), 0);
}

#[test]
fn retry_delay_never_decreases_with_attempts() {
    let mut previous = 0;
    for attempt in 0..40i16 {
        let d = HubClient::calculate_retry_delay(100, attempt, 300, 60000, 0);
        assert!(d >= previous);
        assert!(d <= 60000);
        previous = d;
    }
}
