use flutter_watch::pid::{parse_i32, pid_from_contents, resolve, PidSource, ResolveError};

#[test]
fn parses_plain_and_signed_integers() {
    assert_eq!(parse_i32(b"4242"), Some(4242));
    assert_eq!(parse_i32(b"+7"), Some(7));
    assert_eq!(parse_i32(b"-5"), Some(-5));
    assert_eq!(parse_i32(b"0"), Some(0));
    assert_eq!(parse_i32(b"007"), Some(7));
}

#[test]
fn parses_the_ends_of_the_range() {
    assert_eq!(parse_i32(b"2147483647"), Some(i32::MAX));
    assert_eq!(parse_i32(b"-2147483648"), Some(i32::MIN));
    assert_eq!(parse_i32(b"2147483648"), None);
    assert_eq!(parse_i32(b"-2147483649"), None);
    assert_eq!(parse_i32(b"99999999999999999999"), None);
}

#[test]
fn rejects_text_that_is_not_an_integer() {
    assert_eq!(parse_i32(b""), None);
    assert_eq!(parse_i32(b"-"), None);
    assert_eq!(parse_i32(b"+"), None);
    assert_eq!(parse_i32(b"abc"), None);
    assert_eq!(parse_i32(b"12a"), None);
    assert_eq!(parse_i32(b" 12"), None);
    assert_eq!(parse_i32(b"4242\n"), None);
    assert_eq!(parse_i32(b"--1"), None);
}

#[test]
fn explicit_pid_is_taken_as_given() {
    match PidSource::from_args(Some("1000"), None) {
        Ok(PidSource::Explicit(n)) => assert_eq!(n, 1000),
        _ => panic!("expected an explicit identifier"),
    }
    match PidSource::from_args(Some("0"), Some("/x/y.pid")) {
        Ok(PidSource::Explicit(n)) => assert_eq!(n, 0),
        _ => panic!("expected an explicit identifier"),
    }
}

#[test]
fn no_pid_reads_the_default_file() {
    match PidSource::from_args(None, None) {
        Ok(PidSource::FromFile(p)) => assert_eq!(p, "/tmp/flutter.pid"),
        _ => panic!("expected a sentinel file"),
    }
}

#[test]
fn negative_pid_reads_the_named_file() {
    match PidSource::from_args(Some("-1"), Some("/x/y.pid")) {
        Ok(PidSource::FromFile(p)) => assert_eq!(p, "/x/y.pid"),
        _ => panic!("expected a sentinel file"),
    }
    match PidSource::from_args(None, Some("/x/z.pid")) {
        Ok(PidSource::FromFile(p)) => assert_eq!(p, "/x/z.pid"),
        _ => panic!("expected a sentinel file"),
    }
}

#[test]
fn malformed_pid_argument_is_an_error() {
    assert!(matches!(
        PidSource::from_args(Some("abc"), None),
        Err(ResolveError::PidArgMalformed)
    ));
}

#[test]
fn explicit_source_needs_no_file() {
    let src = PidSource::Explicit(7);
    assert!(src.file_path().is_none());
    assert_eq!(resolve(&src, None), Ok(7));
    assert_eq!(resolve(&src, Some("abc")), Ok(7));
}

#[test]
fn missing_sentinel_file_is_fatal() {
    let src = PidSource::FromFile(String::from("/no/such/file.pid"));
    assert_eq!(src.file_path().map(|p| p.as_str()), Some("/no/such/file.pid"));
    assert_eq!(resolve(&src, None), Err(ResolveError::PidFileMissing));
}

#[test]
fn malformed_sentinel_file_is_fatal() {
    let src = PidSource::FromFile(String::from("/tmp/flutter.pid"));
    assert_eq!(resolve(&src, Some("abc")), Err(ResolveError::PidFileMalformed));
    assert_eq!(resolve(&src, Some("")), Err(ResolveError::PidFileMalformed));
    assert_eq!(resolve(&src, Some("-3")), Err(ResolveError::PidFileMalformed));
}

#[test]
fn sentinel_file_with_integer_resolves() {
    let src = PidSource::FromFile(String::from("/tmp/flutter.pid"));
    assert_eq!(resolve(&src, Some("4242")), Ok(4242));
    assert_eq!(pid_from_contents("2000"), Ok(2000));
    assert_eq!(pid_from_contents("x2000"), Err(ResolveError::PidFileMalformed));
}
