use lv2_state_path::{FreePath, HostString, ManagedPath, ManagedStr, PathError};
use std::path::Path;

fn releaser() -> FreePath<u32, &'static str> {
    FreePath { handle: 33, free_path: "free_path" }
}

#[test]
fn null_reply_makes_no_managed_path() {
    let outcome: Result<ManagedPath<u32, &str, usize>, PathError> =
        ManagedPath::from_reply(None, releaser());
    assert_eq!(outcome.unwrap_err(), PathError::HostError);
}

#[test]
fn null_reply_makes_no_managed_str() {
    let outcome: Result<ManagedStr<u32, &str, usize>, PathError> =
        ManagedStr::from_reply(None, releaser());
    assert_eq!(outcome.unwrap_err(), PathError::HostError);
}

#[test]
fn reply_that_is_not_utf8_makes_no_managed_path() {
    let reply = HostString { pointer: 16usize, bytes: b"/tmp/\xff\xfe" };
    let outcome = ManagedPath::from_reply(Some(reply), releaser());
    assert_eq!(outcome.unwrap_err(), PathError::HostError);
}

#[test]
fn reply_that_is_not_utf8_makes_no_managed_str() {
    // A continuation byte is missing after 0xc3.
    let reply = HostString { pointer: 16usize, bytes: b"abstract\xc3" };
    let outcome = ManagedStr::from_reply(Some(reply), releaser());
    assert_eq!(outcome.unwrap_err(), PathError::HostError);
}

#[test]
fn managed_path_reads_as_the_decoded_reply() {
    let reply = HostString { pointer: 16usize, bytes: b"/home/user/pr\xc3\xa4set.wav" };
    let managed = ManagedPath::from_reply(Some(reply), releaser()).unwrap();
    assert_eq!(managed.as_path(), Some(Path::new("/home/user/pr\u{e4}set.wav")));
    assert!(!managed.is_released());
}

#[test]
fn managed_str_reads_as_the_decoded_reply() {
    let reply = HostString { pointer: 16usize, bytes: b"urn:state:\xe2\x82\xac" };
    let managed = ManagedStr::from_reply(Some(reply), releaser()).unwrap();
    assert_eq!(managed.as_str(), Some("urn:state:\u{20ac}"));
    assert!(!managed.is_released());
}

#[test]
fn empty_reply_is_an_empty_text() {
    let reply = HostString { pointer: 16usize, bytes: b"" };
    let managed = ManagedStr::from_reply(Some(reply), releaser()).unwrap();
    assert_eq!(managed.as_str(), Some(""));
}

#[test]
fn managed_path_is_released_once() {
    let reply = HostString { pointer: 4096usize, bytes: b"/tmp/x.wav" };
    let mut managed = ManagedPath::from_reply(Some(reply), releaser()).unwrap();

    let call = managed.release().unwrap();
    assert_eq!(call.handle, 33);
    assert_eq!(call.function, "free_path");
    assert_eq!(call.pointer, 4096);
    assert!(managed.is_released());

    for _ in 0..5 {
        assert!(managed.release().is_none());
        assert!(managed.is_released());
    }
}

#[test]
fn managed_str_is_released_once() {
    let reply = HostString { pointer: 8192usize, bytes: b"urn:state:1" };
    let mut managed = ManagedStr::from_reply(Some(reply), releaser()).unwrap();

    let call = managed.release().unwrap();
    assert_eq!(call.handle, 33);
    assert_eq!(call.function, "free_path");
    assert_eq!(call.pointer, 8192);
    assert!(managed.is_released());

    for _ in 0..5 {
        assert!(managed.release().is_none());
        assert!(managed.is_released());
    }
}

#[test]
fn released_values_read_as_nothing() {
    let mut path =
        ManagedPath::from_reply(Some(HostString { pointer: 1usize, bytes: b"/a" }), releaser())
            .unwrap();
    let mut text =
        ManagedStr::from_reply(Some(HostString { pointer: 2usize, bytes: b"b" }), releaser())
            .unwrap();
    assert!(path.release().is_some());
    assert!(text.release().is_some());
    assert_eq!(path.as_path(), None);
    assert_eq!(text.as_str(), None);
}

#[test]
fn values_that_share_a_releaser_free_their_own_pointers() {
    let free = releaser();
    let mut first =
        ManagedPath::from_reply(Some(HostString { pointer: 100usize, bytes: b"/one" }), free)
            .unwrap();
    let mut second =
        ManagedPath::from_reply(Some(HostString { pointer: 200usize, bytes: b"/two" }), free.clone())
            .unwrap();

    let mut freed = Vec::new();
    for _ in 0..3 {
        freed.extend(second.release().map(|call| (call.handle, call.pointer)));
        freed.extend(first.release().map(|call| (call.handle, call.pointer)));
    }
    assert_eq!(freed, vec![(33, 200), (33, 100)]);
}

#[test]
fn host_string_is_copied_unchanged() {
    let reply = HostString { pointer: 5usize, bytes: b"/x" };
    let copy = reply.clone();
    assert_eq!(copy.pointer, 5);
    assert_eq!(copy.bytes, b"/x");
}
