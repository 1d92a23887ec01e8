//! The session facade: lifecycle of the shared handle and the
//! interpretation of every engine reply.

use ntgcalls::abi::{ntg_group_call_struct, ntg_media_state_struct};
use ntgcalls::enums::StreamStatus;
use ntgcalls::errors::{DestroyError, NTgCallError};
use ntgcalls::structures::{GroupCall, MediaState};
use ntgcalls::{NTgCall, PARAMS_BUF_LEN, VERSION_BUF_LEN};

#[test]
fn begin_op_yields_the_wrapped_handle() {
    let s = NTgCall::new(7);
    assert_eq!(s.begin_op(), Ok(7));
}

#[test]
fn destroy_succeeds_exactly_once() {
    let mut s = NTgCall::new(3);
    let first = s.destroy();
    assert_eq!(first, Ok(3), "the first destroy must fire on the handle");
    assert_eq!(NTgCall::destroy_reply(0), Ok(()));
    let second = s.destroy();
    assert_eq!(second, Err(DestroyError), "a second destroy must fail, never fire");
    assert_eq!(s.begin_op(), Err(NTgCallError::InvalidUid));
}

#[test]
fn destroy_failure_is_reported_and_not_retried() {
    let mut s = NTgCall::new(4);
    assert_eq!(s.destroy(), Ok(4));
    assert_eq!(NTgCall::destroy_reply(-1), Err(DestroyError));
    // The handle stays retired: no operation may reach the engine again.
    assert_eq!(s.begin_op(), Err(NTgCallError::InvalidUid));
    assert_eq!(s.destroy(), Err(DestroyError));
}

#[test]
fn clone_outlives_the_original() {
    let mut s = NTgCall::new(11);
    // A second reference appears, then the original goes away.
    s.on_clone();
    let fired = s.on_drop();
    assert!(!fired, "teardown must not fire while a clone lives");
    // The clone is fully operable.
    assert_eq!(s.begin_op(), Ok(11));
    assert_eq!(s.mute(0), Ok(true));
    // When the clone goes too, the implicit teardown fires, once.
    let fired_last = s.on_drop();
    assert!(fired_last, "the last reference must trigger the teardown");
    assert_eq!(s.begin_op(), Err(NTgCallError::InvalidUid));
}

#[test]
fn explicit_destroy_preempts_implicit_teardown() {
    let mut s = NTgCall::new(2);
    s.on_clone();
    assert_eq!(s.destroy(), Ok(2));
    // The remaining reference drops; nothing may fire a second time.
    assert!(!s.on_drop());
}

#[test]
fn mute_reports_whether_the_state_changed() {
    let s = NTgCall::new(1);
    // The engine replies zero when the call went from unmuted to muted.
    assert_eq!(s.mute(0), Ok(true));
    // A second consecutive mute: the engine replies nonzero-nonnegative.
    assert_eq!(s.mute(1), Ok(false));
    assert_eq!(s.unmute(0), Ok(true));
    assert_eq!(s.unmute(1), Ok(false));
    assert_eq!(s.pause(0), Ok(true));
    assert_eq!(s.pause(2), Ok(false));
    assert_eq!(s.resume(0), Ok(true));
    assert_eq!(s.resume(1), Ok(false));
}

#[test]
fn toggle_errors_translate() {
    let s = NTgCall::new(1);
    assert_eq!(s.mute(-101), Err(NTgCallError::ConnectionNotFound));
    assert_eq!(s.pause(-2), Err(NTgCallError::InvalidUid));
    assert_eq!(s.resume(-1), Err(NTgCallError::UnknownException));
}

#[test]
fn connect_and_stop_translate_replies() {
    let s = NTgCall::new(1);
    assert_eq!(s.connect(0), Ok(()));
    assert_eq!(s.connect(-300), Err(NTgCallError::RtmpNeeded));
    assert_eq!(s.connect(-301), Err(NTgCallError::InvalidTransport));
    assert_eq!(s.connect(-302), Err(NTgCallError::ConnectionFailed));
    assert_eq!(s.stop(0), Ok(()));
    assert_eq!(s.stop(-101), Err(NTgCallError::ConnectionNotFound));
    assert_eq!(s.change_stream(0), Ok(()));
    assert_eq!(s.change_stream(-200), Err(NTgCallError::FileNotFound));
    assert_eq!(s.change_stream(-201), Err(NTgCallError::EncoderNotFound));
    assert_eq!(s.change_stream(-202), Err(NTgCallError::FFmpegNotFound));
    assert_eq!(s.change_stream(-203), Err(NTgCallError::ShellError));
}

#[test]
fn get_params_decodes_the_filled_prefix() {
    let s = NTgCall::new(1);
    let mut buf = NTgCall::params_buffer();
    assert_eq!(buf.len(), PARAMS_BUF_LEN);
    for (i, b) in b"{\"ufrag\":\"abc\"}".iter().enumerate() {
        buf[i] = *b;
    }
    assert_eq!(s.get_params(0, &buf), Ok("{\"ufrag\":\"abc\"}".to_string()));
    assert_eq!(s.get_params(-100, &buf), Err(NTgCallError::ConnectionAlreadyExists));
}

#[test]
fn get_params_with_empty_description_yields_cleanly() {
    // A description with both streams absent projects to null pointers
    // (checked in the codec tests); the reply still decodes cleanly.
    let s = NTgCall::new(1);
    let buf = NTgCall::params_buffer();
    assert_eq!(s.get_params(0, &buf), Ok(String::new()));
}

#[test]
fn played_time_translates_replies() {
    let s = NTgCall::new(1);
    assert_eq!(s.played_time(1234), Ok(1234));
    assert_eq!(s.played_time(0), Ok(0));
    assert_eq!(s.played_time(-101), Err(NTgCallError::ConnectionNotFound));
}

#[test]
fn count_calls_translates_replies() {
    let s = NTgCall::new(1);
    assert_eq!(s.count_calls(0), Ok(0));
    assert_eq!(s.count_calls(3), Ok(3));
    assert_eq!(s.count_calls(-2), Err(NTgCallError::InvalidUid));
}

#[test]
fn calls_list_matches_the_observed_count() {
    let s = NTgCall::new(1);
    let raw = vec![
        ntg_group_call_struct { chatId: 10, status: 0 },
        ntg_group_call_struct { chatId: -20, status: 1 },
        ntg_group_call_struct { chatId: 30, status: 2 },
    ];
    let list = s.calls(3, 0, &raw).unwrap();
    assert_eq!(list.len(), 3, "list length must equal the observed count");
    assert_eq!(
        list[0],
        GroupCall { chat_id: 10, stream_status: StreamStatus::Playing }
    );
    assert_eq!(
        list[1],
        GroupCall { chat_id: -20, stream_status: StreamStatus::Paused }
    );
    assert_eq!(
        list[2],
        GroupCall { chat_id: 30, stream_status: StreamStatus::Idling }
    );
    // An empty engine gives an empty list.
    assert_eq!(s.calls(0, 0, &Vec::new()), Ok(Vec::new()));
}

#[test]
fn calls_errors_translate() {
    let s = NTgCall::new(1);
    assert_eq!(s.calls(-2, 0, &Vec::new()), Err(NTgCallError::InvalidUid));
    let raw = vec![ntg_group_call_struct { chatId: 1, status: 0 }];
    assert_eq!(s.calls(1, -1, &raw), Err(NTgCallError::UnknownException));
    // A status tag outside the wire contract is never decoded wrongly.
    let bad = vec![ntg_group_call_struct { chatId: 1, status: 9 }];
    assert_eq!(s.calls(1, 0, &bad), Err(NTgCallError::UnknownException));
}

#[test]
fn get_state_decodes_the_snapshot() {
    let s = NTgCall::new(1);
    let raw = ntg_media_state_struct { muted: true, videoPaused: false, videoStopped: true };
    assert_eq!(
        s.get_state(0, &raw),
        Ok(MediaState { muted: true, video_paused: false, video_stopped: true })
    );
    assert_eq!(s.get_state(-101, &raw), Err(NTgCallError::ConnectionNotFound));
}

#[test]
fn version_is_nonempty_when_the_engine_wrote_one() {
    let mut buf = NTgCall::version_buffer();
    assert_eq!(buf.len(), VERSION_BUF_LEN);
    for (i, b) in b"v1.2.3".iter().enumerate() {
        buf[i] = *b;
    }
    let v = NTgCall::version(0, &buf).unwrap();
    assert_eq!(v, "v1.2.3");
    assert!(!v.is_empty());
}
