//! Projection and decoding: enum tags, error translation, byte-image
//! round trips, and the C-string conventions for locators and buffers.

use ntgcalls::abi::{
    decode_audio_view, decode_group_call_view, decode_media_state_view, decode_video_view,
    audio_view_bytes, group_call_view_bytes, media_state_view_bytes, video_view_bytes,
    ntg_group_call_struct, ntg_media_state_struct,
};
use ntgcalls::enums::{InputMode, StreamStatus, StreamType};
use ntgcalls::errors::{DestroyError, NTgCallError};
use ntgcalls::structures::{AudioDescription, MediaDescription, VideoDescription};
use ntgcalls::utils::decode_text;

#[test]
fn input_mode_tags_are_bit_flags() {
    assert_eq!(InputMode::File.tag(), 1);
    assert_eq!(InputMode::Shell.tag(), 2);
    assert_eq!(InputMode::FFmpeg.tag(), 4);
    assert_eq!(InputMode::NoLatency.tag(), 8);
    for m in [InputMode::File, InputMode::Shell, InputMode::FFmpeg, InputMode::NoLatency] {
        assert_eq!(InputMode::from_tag(m.tag()), Some(m));
    }
    assert_eq!(InputMode::from_tag(3), None);
}

#[test]
fn stream_status_tags() {
    assert_eq!(StreamStatus::Playing.tag(), 0);
    assert_eq!(StreamStatus::Paused.tag(), 1);
    assert_eq!(StreamStatus::Idling.tag(), 2);
    for s in [StreamStatus::Playing, StreamStatus::Paused, StreamStatus::Idling] {
        assert_eq!(StreamStatus::from_tag(s.tag()), Some(s));
    }
    assert_eq!(StreamStatus::from_tag(5), None);
}

#[test]
fn stream_type_tags() {
    assert_eq!(StreamType::Audio.tag(), 0);
    assert_eq!(StreamType::Video.tag(), 1);
    assert_eq!(StreamType::from_tag(0), Some(StreamType::Audio));
    assert_eq!(StreamType::from_tag(1), Some(StreamType::Video));
    assert_eq!(StreamType::from_tag(2), None);
}

#[test]
fn error_codes_translate_one_to_one() {
    assert_eq!(NTgCallError::from(-100), NTgCallError::ConnectionAlreadyExists);
    assert_eq!(NTgCallError::from(-101), NTgCallError::ConnectionNotFound);
    assert_eq!(NTgCallError::from(-200), NTgCallError::FileNotFound);
    assert_eq!(NTgCallError::from(-201), NTgCallError::EncoderNotFound);
    assert_eq!(NTgCallError::from(-202), NTgCallError::FFmpegNotFound);
    assert_eq!(NTgCallError::from(-203), NTgCallError::ShellError);
    assert_eq!(NTgCallError::from(-300), NTgCallError::RtmpNeeded);
    assert_eq!(NTgCallError::from(-301), NTgCallError::InvalidTransport);
    assert_eq!(NTgCallError::from(-302), NTgCallError::ConnectionFailed);
    assert_eq!(NTgCallError::from(-1), NTgCallError::UnknownException);
    assert_eq!(NTgCallError::from(-2), NTgCallError::InvalidUid);
}

#[test]
fn unknown_codes_collapse_to_unknown_exception() {
    assert_eq!(NTgCallError::from(-7), NTgCallError::UnknownException);
    assert_eq!(NTgCallError::from(-999), NTgCallError::UnknownException);
    assert_eq!(NTgCallError::from(-103), NTgCallError::UnknownException);
}

#[test]
fn error_messages() {
    assert_eq!(
        NTgCallError::InvalidUid.message(),
        "[InvalidUid]: The provided UID is invalid"
    );
    assert_eq!(
        NTgCallError::ConnectionNotFound.message(),
        "[ConnectionNotFound]: The specified connection was not found"
    );
    assert_eq!(DestroyError.message(), "[DestroyError]: NTgCalls cleanup failed");
}

#[test]
fn audio_description_round_trip_at_the_limits() {
    // The largest documented sample rate, with the other fields at their
    // documented bounds.
    let locator = b"pipe:".to_vec();
    let d = AudioDescription::new(InputMode::NoLatency, &locator, 96000, 8, 1);
    let view = d.to_ffi(u64::MAX);
    let back = decode_audio_view(&audio_view_bytes(&view));
    assert_eq!(back, view);
    assert_eq!(back.sampleRate, 96000);
    assert_eq!(back.bitsPerSample, 8);
    assert_eq!(back.channelCount, 1);
    assert_eq!(back.input, u64::MAX);
}

#[test]
fn audio_description_round_trip() {
    let locator = b"/tmp/audio.raw".to_vec();
    let d = AudioDescription::new(InputMode::FFmpeg, &locator, 48000, 16, 2);
    let view = d.to_ffi(0x1000);
    let bytes = audio_view_bytes(&view);
    let back = decode_audio_view(&bytes);
    assert_eq!(back, view);
    assert_eq!(back.sampleRate, 48000);
    assert_eq!(back.bitsPerSample, 16);
    assert_eq!(back.channelCount, 2);
    assert_eq!(back.inputMode, 4);
    assert_eq!(back.input, 0x1000);
}

#[test]
fn video_description_round_trip() {
    let locator = b"screen://0".to_vec();
    let d = VideoDescription::new(InputMode::Shell, &locator, 1280, 720, 24);
    let view = d.to_ffi(0x2000);
    let bytes = video_view_bytes(&view);
    let back = decode_video_view(&bytes);
    assert_eq!(back, view);
    assert_eq!(back.width, 1280);
    assert_eq!(back.height, 720);
    assert_eq!(back.fps, 24);
    assert_eq!(back.inputMode, 2);
}

#[test]
fn group_call_view_round_trip() {
    let v = ntg_group_call_struct { chatId: -1001234567890, status: 2 };
    let back = decode_group_call_view(&group_call_view_bytes(&v));
    assert_eq!(back, v);
    for chat_id in [0i64, 1, -1, i64::MAX, i64::MIN] {
        let w = ntg_group_call_struct { chatId: chat_id, status: 0 };
        assert_eq!(decode_group_call_view(&group_call_view_bytes(&w)), w);
    }
}

#[test]
fn media_state_view_round_trip() {
    for muted in [false, true] {
        for paused in [false, true] {
            for stopped in [false, true] {
                let v = ntg_media_state_struct {
                    muted,
                    videoPaused: paused,
                    videoStopped: stopped,
                };
                let back = decode_media_state_view(&media_state_view_bytes(&v));
                assert_eq!(back, v);
            }
        }
    }
}

#[test]
fn locators_are_truncated_at_interior_nul() {
    let tricky = b"path\0junk".to_vec();
    let d = AudioDescription::new(InputMode::File, &tricky, 8000, 8, 1);
    assert_eq!(d.input, b"path\0".to_vec());
    let clean = b"plain".to_vec();
    let d2 = VideoDescription::new(InputMode::File, &clean, 16, 16, 1);
    assert_eq!(d2.input, b"plain\0".to_vec());
}

#[test]
fn media_description_projects_null_for_absent_streams() {
    let d = MediaDescription::default();
    assert!(d.audio.is_none());
    assert!(d.video.is_none());
    let view = d.to_ffi(0x1000, 0x2000);
    assert_eq!(view.audio, 0, "absent audio must project to a null pointer");
    assert_eq!(view.video, 0, "absent video must project to a null pointer");

    let locator = b"a.raw".to_vec();
    let with_audio = MediaDescription {
        audio: Some(AudioDescription::new(InputMode::File, &locator, 44100, 16, 1)),
        video: None,
    };
    let view2 = with_audio.to_ffi(0x1000, 0x2000);
    assert_eq!(view2.audio, 0x1000);
    assert_eq!(view2.video, 0);
}

#[test]
fn buffer_text_is_read_up_to_first_nul() {
    let buf = b"hello\0\0\0".to_vec();
    assert_eq!(decode_text(&buf), Some("hello".to_string()));
    let empty = b"\0\0\0\0".to_vec();
    assert_eq!(decode_text(&empty), Some(String::new()));
    let unterminated = b"full".to_vec();
    assert_eq!(decode_text(&unterminated), Some("full".to_string()));
    let non_ascii = vec![0xC3u8, 0xA9u8, 0u8];
    assert_eq!(decode_text(&non_ascii), None);
}
