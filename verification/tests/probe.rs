use httpfs::{parse_u64, probe, Error};

#[test]
fn probe_accepts_a_well_formed_answer() {
    let r = probe(200, Some("bytes"), Some("100".to_string()));
    let m = r.expect("a well-formed probe answer must be accepted");
    assert_eq!(m.total_size, 100);
    assert_eq!(m.block_size, 4096);
}

#[test]
fn probe_rejects_status_404() {
    let r = probe(404, Some("bytes"), Some("100".to_string()));
    assert_eq!(r.unwrap_err(), Error::UnexpectedStatus(404));
}

#[test]
fn probe_rejects_missing_accept_ranges() {
    let r = probe(200, None, Some("100".to_string()));
    assert_eq!(r.unwrap_err(), Error::RangesUnsupported);
}

#[test]
fn probe_rejects_unknown_accept_ranges() {
    let r = probe(200, Some("none"), Some("100".to_string()));
    assert_eq!(r.unwrap_err(), Error::RangesUnsupported);
}

#[test]
fn probe_rejects_missing_content_length() {
    let r = probe(200, Some("bytes"), None);
    assert_eq!(r.unwrap_err(), Error::MissingLength);
}

#[test]
fn probe_rejects_non_numeric_content_length() {
    let r = probe(200, Some("bytes"), Some("abc".to_string()));
    assert_eq!(r.unwrap_err(), Error::UnparsableLength("abc".to_string()));
}

#[test]
fn probe_checks_status_before_headers() {
    let r = probe(503, None, None);
    assert_eq!(r.unwrap_err(), Error::UnexpectedStatus(503));
}

#[test]
fn probe_accepts_an_empty_resource() {
    let m = probe(200, Some("bytes"), Some("0".to_string())).unwrap();
    assert_eq!(m.total_size, 0);
}

#[test]
fn parse_reads_plain_decimal() {
    assert_eq!(parse_u64("0"), Some(0));
    assert_eq!(parse_u64("7"), Some(7));
    assert_eq!(parse_u64("007"), Some(7));
    assert_eq!(parse_u64("123456789"), Some(123456789));
}

#[test]
fn parse_reads_the_largest_value() {
    assert_eq!(parse_u64("18446744073709551615"), Some(u64::MAX));
}

#[test]
fn parse_rejects_a_value_past_the_largest() {
    assert_eq!(parse_u64("18446744073709551616"), None);
    assert_eq!(parse_u64("99999999999999999999999"), None);
}

#[test]
fn parse_rejects_anything_but_digits() {
    assert_eq!(parse_u64(""), None);
    assert_eq!(parse_u64("abc"), None);
    assert_eq!(parse_u64("12a"), None);
    assert_eq!(parse_u64("-1"), None);
    assert_eq!(parse_u64("+5"), None);
    assert_eq!(parse_u64(" 5"), None);
    assert_eq!(parse_u64("5 "), None);
}
