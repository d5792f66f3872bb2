use gomax::boundary::{check_error, marshal_text, take_string};
use gomax::client::on_message_trampoline;
use gomax::timeout::{timeout_millis, Timeout, NO_TIMEOUT};
use gomax::{Client, ErrorKind, TeardownStep};

fn live_client(handle: usize) -> Client {
    let created = Client::new(handle, None);
    assert!(!created.release_error);
    assert!(!created.close_handle);
    created.result.expect("a non-null handle without error is a live client")
}

#[test]
fn scenario_create_start_send_teardown() {
    let config = Client::config_bytes("{\"token\":\"abc\"}").unwrap();
    assert_eq!(config, b"{\"token\":\"abc\"}".to_vec());

    let mut client = live_client(17);
    assert_eq!(client.handle(), 17);

    let ms = timeout_millis(Some(Timeout { secs: 5, subsec_nanos: 0 }));
    assert_eq!(ms, 5000);
    let started = client.start(1, None);
    assert!(started.result.is_ok());
    assert!(!started.release_error);
    assert!(client.is_started());

    let call = client.send_request(42, "hi", true).unwrap();
    assert_eq!(call.handle, 17);
    assert_eq!(call.chat_id, 42);
    assert_eq!(call.text, b"hi".to_vec());
    assert_eq!(call.notify, 1);

    let sent = client.send_message(Some(b"{\"id\":901,\"text\":\"hi\"}".to_vec()), None);
    assert!(sent.release_value);
    assert!(!sent.release_error);
    let response = sent.result.unwrap();
    assert_eq!(response.get("id").and_then(|v| v.as_i64()), Some(901));

    assert_eq!(client.teardown(), vec![TeardownStep::Close(17)]);
}

#[test]
fn error_slot_message_is_released_text() {
    let mut client = live_client(3);
    let done = client.start(0, Some(b"network unreachable".to_vec()));
    assert!(done.release_error);
    assert!(!done.release_value);
    let err = done.result.unwrap_err();
    assert_eq!(err.kind, ErrorKind::Other);
    assert_eq!(err.to_string(), "network unreachable");
    assert!(!client.is_started());
}

#[test]
fn error_slot_beside_success_is_protocol_violation() {
    let client = live_client(3);
    let done = client.chats(Some(b"[]".to_vec()), Some(b"late failure".to_vec()));
    assert!(done.release_error);
    assert!(done.release_value);
    let err = done.result.unwrap_err();
    assert_eq!(err.kind, ErrorKind::ProtocolViolation);
    assert_eq!(err.message, "late failure");
}

#[test]
fn check_error_null_slot_is_ok() {
    assert!(check_error(&None, false).is_ok());
    let err = check_error(&Some(b"bad token".to_vec()), false).unwrap_err();
    assert_eq!(err.kind, ErrorKind::Other);
    assert_eq!(err.message, "bad token");
}

#[test]
fn send_with_terminator_is_invalid_input() {
    let client = live_client(5);
    let err = client.send_request(42, "h\0i", false).unwrap_err();
    assert_eq!(err.kind(), ErrorKind::InvalidInput);
    assert!(marshal_text("h\0i").is_none());
}

#[test]
fn send_notify_flag_off() {
    let client = live_client(5);
    let call = client.send_request(-8, "привет", false).unwrap();
    assert_eq!(call.notify, 0);
    assert_eq!(call.chat_id, -8);
    assert_eq!(call.text, "привет".as_bytes().to_vec());
}

#[test]
fn send_null_response_is_protocol_violation() {
    let client = live_client(5);
    let done = client.send_message(None, None);
    assert!(!done.release_value);
    assert_eq!(done.result.unwrap_err().kind, ErrorKind::ProtocolViolation);
}

#[test]
fn send_malformed_response() {
    let client = live_client(5);
    let done = client.send_message(Some(b"{\"id\":".to_vec()), None);
    assert!(done.release_value);
    assert_eq!(done.result.unwrap_err().kind, ErrorKind::MalformedResponse);
    let empty = client.send_message(Some(Vec::new()), None);
    assert_eq!(empty.result.unwrap_err().kind, ErrorKind::MalformedResponse);
}

#[test]
fn profile_null_is_no_profile() {
    let client = live_client(6);
    let done = client.profile(None, None);
    assert!(!done.release_value);
    assert!(!done.release_error);
    assert!(done.result.unwrap().is_none());
}

#[test]
fn profile_present_is_parsed() {
    let client = live_client(6);
    let done = client.profile(Some(b"{\"name\":\"Ann\"}".to_vec()), None);
    assert!(done.release_value);
    let profile = done.result.unwrap().unwrap();
    assert_eq!(profile.get("name").and_then(|v| v.as_str()), Some("Ann"));
    let bad = client.profile(Some(b"not json".to_vec()), None);
    assert_eq!(bad.result.unwrap_err().kind, ErrorKind::MalformedResponse);
}

#[test]
fn profile_error_slot_is_other() {
    let client = live_client(6);
    let done = client.profile(None, Some(b"no session".to_vec()));
    assert!(done.release_error);
    let err = done.result.unwrap_err();
    assert_eq!(err.kind, ErrorKind::Other);
    assert_eq!(err.message, "no session");
}

#[test]
fn chats_null_is_protocol_violation() {
    let client = live_client(8);
    let done = client.chats(None, None);
    assert!(!done.release_value);
    assert_eq!(done.result.unwrap_err().kind, ErrorKind::ProtocolViolation);
}

#[test]
fn chats_list_is_parsed() {
    let client = live_client(8);
    let done = client.chats(Some(b"[{\"id\":1},{\"id\":2}]".to_vec()), None);
    assert!(done.release_value);
    let list = done.result.unwrap();
    assert_eq!(list.as_array().map(|a| a.len()), Some(2));
}

#[test]
fn timeout_clamps_to_maximum() {
    assert_eq!(timeout_millis(Some(Timeout { secs: u64::MAX, subsec_nanos: 999_999_999 })), i32::MAX);
    assert_eq!(timeout_millis(Some(Timeout { secs: 2_147_483, subsec_nanos: 647_000_000 })), i32::MAX);
    assert_eq!(timeout_millis(Some(Timeout { secs: 2_147_483, subsec_nanos: 648_000_000 })), i32::MAX);
    assert_eq!(timeout_millis(Some(Timeout { secs: 2_147_483, subsec_nanos: 646_999_999 })), 2_147_483_646);
}

#[test]
fn timeout_absent_and_fractional() {
    assert_eq!(timeout_millis(None), NO_TIMEOUT);
    assert_eq!(timeout_millis(Some(Timeout { secs: 1, subsec_nanos: 2_500_000 })), 1002);
    assert_eq!(timeout_millis(Some(Timeout { secs: 0, subsec_nanos: 999_999 })), 0);
}

#[test]
fn config_with_terminator_is_invalid() {
    let err = Client::config_bytes("{\"token\":\"a\0b\"}").unwrap_err();
    assert_eq!(err.kind, ErrorKind::ConfigInvalid);
}

#[test]
fn null_handle_is_setup_failure() {
    let created = Client::new(0, None);
    assert!(!created.release_error);
    assert!(!created.close_handle);
    assert_eq!(created.result.err().map(|e| e.kind), Some(ErrorKind::ConnectionSetupFailed));
}

#[test]
fn creation_error_releases_slot_and_closes_instance() {
    let created = Client::new(11, Some(b"half open".to_vec()));
    assert!(created.release_error);
    assert!(created.close_handle);
    let err = created.result.err().unwrap();
    assert_eq!(err.kind, ErrorKind::ProtocolViolation);
    assert_eq!(err.message, "half open");

    let refused = Client::new(0, Some(b"bad config".to_vec()));
    assert!(refused.release_error);
    assert!(!refused.close_handle);
    assert_eq!(refused.result.err().map(|e| e.kind), Some(ErrorKind::Other));
}

#[test]
fn start_falsy_is_start_failed() {
    let mut client = live_client(2);
    let done = client.start(0, None);
    assert!(!done.release_error);
    assert_eq!(done.result.unwrap_err().kind, ErrorKind::StartFailed);
    assert!(!client.is_started());
}

#[test]
fn subscribe_once_then_teardown_releases_container() {
    let mut client = live_client(4);
    assert!(!client.is_subscribed());
    assert_eq!(client.on_message().unwrap(), 4);
    assert!(client.is_subscribed());
    let again = client.on_message().unwrap_err();
    assert_eq!(again.kind, ErrorKind::InvalidInput);
    assert_eq!(
        client.teardown(),
        vec![TeardownStep::Close(4), TeardownStep::ReleaseSubscription]
    );
}

#[test]
fn trampoline_ignores_null_pointers() {
    assert_eq!(on_message_trampoline(&None, true), None);
    assert_eq!(on_message_trampoline(&Some(b"{}".to_vec()), false), None);
    assert_eq!(
        on_message_trampoline(&Some(b"{\"text\":\"hey\"}".to_vec()), true),
        Some("{\"text\":\"hey\"}".to_string())
    );
}

#[test]
fn invalid_utf8_is_decoded_lossily() {
    let text = take_string(&Some(vec![b'h', 0xff, b'i'])).unwrap();
    assert_eq!(text, "h\u{FFFD}i");
    assert_eq!(on_message_trampoline(&Some(vec![0xc3]), true), Some("\u{FFFD}".to_string()));
}

#[test]
fn returned_bytes_round_trip() {
    let sent = "héllo, мир ✓".as_bytes().to_vec();
    let text = take_string(&Some(sent.clone())).unwrap();
    assert_eq!(text.as_bytes().to_vec(), sent);
    let marshalled = marshal_text(&text).unwrap();
    assert_eq!(marshalled, sent);
}
