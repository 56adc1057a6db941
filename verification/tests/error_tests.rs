use temple_stats::error::ErrorKind;

#[test]
fn messages_are_one_line_each() {
    assert_eq!(ErrorKind::ParseError("x y".to_string()).message(), "invalid timestamp: x y");
    assert_eq!(ErrorKind::MalformedSnapshot.message(), "malformed skill snapshot");
    assert_eq!(
        ErrorKind::TransportError("connection refused".to_string()).message(),
        "transport failure: connection refused"
    );
    assert_eq!(ErrorKind::SelectionError.message(), "skill index outside the catalog");
    assert_eq!(ErrorKind::MalformedAccount.message(), "malformed account record");
}

#[test]
fn errors_compare_by_kind_and_detail() {
    assert_eq!(ErrorKind::MalformedSnapshot, ErrorKind::MalformedSnapshot);
    assert_ne!(ErrorKind::MalformedSnapshot, ErrorKind::SelectionError);
    assert_ne!(ErrorKind::ParseError("a".to_string()), ErrorKind::ParseError("b".to_string()));
    assert_eq!(ErrorKind::ParseError("a".to_string()).clone(), ErrorKind::ParseError("a".to_string()));
}
