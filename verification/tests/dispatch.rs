use notify_send::dispatch::{decode_dispatch, dispatch_args, parse_output, Error};
use notify_send::notification::{Notification, Timeout};

fn demo(timeout: Timeout) -> Notification {
    Notification {
        appname: "demo".to_string(),
        icon: "".to_string(),
        summary: "Hi".to_string(),
        body: "there".to_string(),
        timeout,
    }
}

#[test]
fn expire_time_precedes_replace_id() {
    let n = demo(Timeout::Milliseconds(2000));
    let args = dispatch_args(&n, Some(7));
    assert_eq!(
        args,
        vec![
            "--expire-time",
            "2000",
            "--replace-id",
            "7",
            "--print-id",
            "--app-name",
            "demo",
            "--icon",
            "",
            "Hi",
            "there",
        ]
    );
}

#[test]
fn expire_time_without_replace_id() {
    let n = demo(Timeout::Milliseconds(0));
    let args = dispatch_args(&n, None);
    assert_eq!(args[0], "--expire-time");
    assert_eq!(args[1], "0");
    assert_eq!(args[2], "--print-id");
    assert!(!args.iter().any(|a| a == "--replace-id"));
}

#[test]
fn default_timeout_emits_no_expire_time() {
    let n = demo(Timeout::Default);
    let args = dispatch_args(&n, Some(3));
    assert!(!args.iter().any(|a| a == "--expire-time"));
    assert_eq!(
        args,
        vec!["--replace-id", "3", "--print-id", "--app-name", "demo", "--icon", "", "Hi", "there"]
    );
}

#[test]
fn never_timeout_emits_no_expire_time() {
    let n = demo(Timeout::Never);
    let args = dispatch_args(&n, None);
    assert!(!args.iter().any(|a| a == "--expire-time"));
    assert_eq!(
        args,
        vec!["--print-id", "--app-name", "demo", "--icon", "", "Hi", "there"]
    );
}

#[test]
fn replace_id_present_and_absent() {
    let n = demo(Timeout::Never);
    let with = dispatch_args(&n, Some(4294967295));
    assert_eq!(with[0], "--replace-id");
    assert_eq!(with[1], "4294967295");
    let without = dispatch_args(&n, None);
    assert!(!without.iter().any(|a| a == "--replace-id"));
}

#[test]
fn dispatch_returns_printed_id() {
    assert_eq!(decode_dispatch(Some(b"42\n".to_vec())), Ok(42));
}

#[test]
fn parse_accepts_trailing_whitespace() {
    assert_eq!(parse_output(&b"42".to_vec()), Ok(42));
    assert_eq!(parse_output(&b"42\n".to_vec()), Ok(42));
    assert_eq!(parse_output(&b"42\n  ".to_vec()), Ok(42));
}

#[test]
fn parse_trims_unicode_whitespace() {
    assert_eq!(parse_output(&b"42\xc2\xa0".to_vec()), Ok(42));
    assert_eq!(parse_output(&"42\u{2028}".as_bytes().to_vec()), Ok(42));
    assert_eq!(parse_output(&"7\u{3000} \n".as_bytes().to_vec()), Ok(7));
    assert_eq!(parse_output(&b"\xc2\xa0".to_vec()), Err(Error::Parse));
}

#[test]
fn parse_accepts_one_leading_plus() {
    assert_eq!(parse_output(&b"+42\n".to_vec()), Ok(42));
    assert_eq!(parse_output(&b"+4294967295".to_vec()), Ok(u32::MAX));
    assert_eq!(parse_output(&b"+".to_vec()), Err(Error::Parse));
    assert_eq!(parse_output(&b"++42".to_vec()), Err(Error::Parse));
    assert_eq!(parse_output(&b"42+".to_vec()), Err(Error::Parse));
}

#[test]
fn parse_rejects_non_numeric_output() {
    assert_eq!(parse_output(&b"abc".to_vec()), Err(Error::Parse));
    assert_eq!(parse_output(&b"".to_vec()), Err(Error::Parse));
    assert_eq!(parse_output(&b"  \n".to_vec()), Err(Error::Parse));
    assert_eq!(parse_output(&b"4 2".to_vec()), Err(Error::Parse));
    assert_eq!(parse_output(&b"-1".to_vec()), Err(Error::Parse));
}

#[test]
fn parse_respects_the_32_bit_bound() {
    assert_eq!(parse_output(&b"4294967295\n".to_vec()), Ok(u32::MAX));
    assert_eq!(parse_output(&b"4294967296\n".to_vec()), Err(Error::Parse));
    assert_eq!(parse_output(&b"0042".to_vec()), Ok(42));
}

#[test]
fn parse_rejects_invalid_text() {
    assert_eq!(parse_output(&vec![0xff, 0xfe]), Err(Error::Encoding));
    assert_eq!(decode_dispatch(Some(vec![0x34, 0xc0, 0x80])), Err(Error::Encoding));
}

#[test]
fn missing_outcome_is_a_process_failure() {
    assert_eq!(decode_dispatch(None), Err(Error::Process));
}
