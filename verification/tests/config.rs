use fog_ingest::config::{
    duration_from_parsed_seconds, parse_duration_in_seconds, IngestConfig, IngestConfigCommand,
};
use fog_ingest::decimal::u64_to_decimal;
use fog_ingest::time::Duration;
use std::num::IntErrorKind;

fn error_kind(src: &str) -> IntErrorKind {
    match parse_duration_in_seconds(src) {
        Ok(_) => panic!("{} was accepted", src),
        Err(error) => error.kind().clone(),
    }
}

#[test]
fn seconds_are_parsed() {
    assert_eq!(parse_duration_in_seconds("10"), Ok(Duration::from_secs(10)));
    assert_eq!(parse_duration_in_seconds("0"), Ok(Duration::from_secs(0)));
    assert_eq!(parse_duration_in_seconds("+7"), Ok(Duration::from_secs(7)));
    assert_eq!(parse_duration_in_seconds("007"), Ok(Duration::from_secs(7)));
    assert_eq!(
        parse_duration_in_seconds("18446744073709551615"),
        Ok(Duration::from_secs(u64::MAX))
    );
}

#[test]
fn other_texts_are_rejected() {
    assert_eq!(error_kind(""), IntErrorKind::Empty);
    assert_eq!(error_kind("+"), IntErrorKind::InvalidDigit);
    assert_eq!(error_kind("-1"), IntErrorKind::InvalidDigit);
    assert_eq!(error_kind("++1"), IntErrorKind::InvalidDigit);
    assert_eq!(error_kind(" 1"), IntErrorKind::InvalidDigit);
    assert_eq!(error_kind("1 "), IntErrorKind::InvalidDigit);
    assert_eq!(error_kind("1_000"), IntErrorKind::InvalidDigit);
    assert_eq!(error_kind("1.5"), IntErrorKind::InvalidDigit);
    assert_eq!(error_kind("0x10"), IntErrorKind::InvalidDigit);
    assert_eq!(error_kind("\u{0661}"), IntErrorKind::InvalidDigit);
    assert_eq!(error_kind("18446744073709551616"), IntErrorKind::PosOverflow);
}

#[test]
fn parsed_seconds_become_a_duration() {
    assert_eq!(duration_from_parsed_seconds(Ok(3)), Ok(Duration::from_secs(3)));
    let error = "x".parse::<u64>().unwrap_err();
    assert_eq!(duration_from_parsed_seconds(Err(error.clone())), Err(error));
}

#[test]
fn decimal_notation_is_read_back() {
    for n in [0u64, 9, 10, 99, 100, 12345, u64::MAX] {
        let text = u64_to_decimal(n);
        assert_eq!(text, n.to_string());
        assert_eq!(parse_duration_in_seconds(&text), Ok(Duration::from_secs(n)));
    }
}

#[test]
fn config_is_cloned() {
    let config = IngestConfig {
        uri: "insecure-fog-ingest://localhost:3226/".to_string(),
        retry_seconds: Duration::from_secs(10),
        cmd: IngestConfigCommand::SetPeers {
            peer_uris: vec!["insecure-igp://a/".to_string(), "insecure-igp://b/".to_string()],
        },
    };
    let copy = config.clone();
    assert_eq!(copy.uri, config.uri);
    assert_eq!(copy.retry_seconds, config.retry_seconds);
    match copy.cmd {
        IngestConfigCommand::SetPeers { peer_uris } => {
            assert_eq!(peer_uris, vec!["insecure-igp://a/", "insecure-igp://b/"])
        }
        _ => panic!("another command"),
    }
}
