use notify_send::dispatch::Error;
use notify_send::handle::show_notification;
use notify_send::notification::{Notification, Timeout};

fn demo() -> Notification {
    Notification {
        appname: "demo".to_string(),
        icon: "".to_string(),
        summary: "Hi".to_string(),
        body: "there".to_string(),
        timeout: Timeout::Never,
    }
}

#[test]
fn show_wraps_content_and_identifier() {
    let n = demo();
    let handle = show_notification(&n, Some(b"7".to_vec())).unwrap();
    assert_eq!(handle.id(), 7);
    assert_eq!(handle.content().appname, n.appname);
    assert_eq!(handle.content().icon, n.icon);
    assert_eq!(handle.content().summary, n.summary);
    assert_eq!(handle.content().body, n.body);
    assert_eq!(handle.content().timeout, n.timeout);
}

#[test]
fn show_propagates_dispatch_failure() {
    let n = demo();
    assert_eq!(show_notification(&n, None).err(), Some(Error::Process));
    assert_eq!(
        show_notification(&n, Some(b"no daemon\n".to_vec())).err(),
        Some(Error::Parse)
    );
}

#[test]
fn show_copies_the_content() {
    let mut n = demo();
    let handle = show_notification(&n, Some(b"7".to_vec())).unwrap();
    n.summary = "changed afterwards".to_string();
    assert_eq!(handle.content().summary, "Hi");
}

#[test]
fn update_replaces_the_prior_identifier() {
    let n = demo();
    let mut handle = show_notification(&n, Some(b"7".to_vec())).unwrap();
    handle.content_mut().summary = "Hi again".to_string();

    let args = handle.update_args();
    assert_eq!(
        args,
        vec!["--replace-id", "7", "--print-id", "--app-name", "demo", "--icon", "", "Hi again", "there"]
    );

    assert_eq!(handle.update_fallible(Some(b"7\n".to_vec())), Ok(()));
    assert_eq!(handle.id(), 7);

    assert_eq!(handle.update_fallible(Some(b"9\n".to_vec())), Ok(()));
    assert_eq!(handle.id(), 9);
    assert_eq!(handle.update_args()[1], "9");
}

#[test]
fn failed_update_keeps_the_identifier() {
    let n = demo();
    let mut handle = show_notification(&n, Some(b"7".to_vec())).unwrap();
    assert_eq!(
        handle.update_fallible(Some(b"not-a-number".to_vec())),
        Err(Error::Parse)
    );
    assert_eq!(handle.id(), 7);
    assert_eq!(handle.content().summary, "Hi");
}

#[test]
fn update_records_a_decodable_outcome() {
    let n = demo();
    let mut handle = show_notification(&n, Some(b"7".to_vec())).unwrap();
    handle.update(Some(b"9\n".to_vec()));
    assert_eq!(handle.id(), 9);
}

#[test]
fn cloned_handles_are_independent() {
    let n = demo();
    let handle = show_notification(&n, Some(b"7".to_vec())).unwrap();
    let mut copy = handle.clone();
    copy.content_mut().summary = "other".to_string();
    let _ = copy.update_fallible(Some(b"8".to_vec()));
    assert_eq!(handle.id(), 7);
    assert_eq!(handle.content().summary, "Hi");
    assert_eq!(copy.id(), 8);
    assert_eq!(copy.content().summary, "other");
}
