//! Layout checks for the engine-facing views: sizes, alignments and
//! field offsets as the engine's C interface documents them, checked
//! against the byte images the library writes.

use ntgcalls::abi::{
    audio_view_bytes, group_call_view_bytes, media_state_view_bytes, media_view_bytes,
    ntg_audio_description_struct, ntg_group_call_struct, ntg_media_description_struct,
    ntg_media_state_struct, ntg_video_description_struct, video_view_bytes, AUDIO_BITS_PER_SAMPLE_OFFSET,
    AUDIO_CHANNEL_COUNT_OFFSET, AUDIO_INPUT_MODE_OFFSET, AUDIO_INPUT_OFFSET,
    AUDIO_SAMPLE_RATE_OFFSET, AUDIO_VIEW_ALIGN, AUDIO_VIEW_SIZE, GROUP_CALL_CHAT_ID_OFFSET,
    GROUP_CALL_STATUS_OFFSET, GROUP_CALL_VIEW_ALIGN, GROUP_CALL_VIEW_SIZE, MEDIA_AUDIO_OFFSET,
    MEDIA_STATE_MUTED_OFFSET, MEDIA_STATE_VIDEO_PAUSED_OFFSET, MEDIA_STATE_VIDEO_STOPPED_OFFSET,
    MEDIA_STATE_VIEW_ALIGN, MEDIA_STATE_VIEW_SIZE, MEDIA_VIDEO_OFFSET, MEDIA_VIEW_ALIGN,
    MEDIA_VIEW_SIZE, VIDEO_FPS_OFFSET, VIDEO_HEIGHT_OFFSET, VIDEO_INPUT_MODE_OFFSET,
    VIDEO_INPUT_OFFSET, VIDEO_VIEW_ALIGN, VIDEO_VIEW_SIZE, VIDEO_WIDTH_OFFSET,
};

#[test]
fn bindgen_test_layout_ntg_audio_description_struct() {
    assert_eq!(AUDIO_VIEW_SIZE, 24usize, "Size of: ntg_audio_description_struct");
    assert_eq!(AUDIO_VIEW_ALIGN, 8usize, "Alignment of ntg_audio_description_struct");
    assert_eq!(
        AUDIO_INPUT_MODE_OFFSET, 0usize,
        "Offset of field: ntg_audio_description_struct::inputMode"
    );
    assert_eq!(
        AUDIO_INPUT_OFFSET, 8usize,
        "Offset of field: ntg_audio_description_struct::input"
    );
    assert_eq!(
        AUDIO_SAMPLE_RATE_OFFSET, 16usize,
        "Offset of field: ntg_audio_description_struct::sampleRate"
    );
    assert_eq!(
        AUDIO_BITS_PER_SAMPLE_OFFSET, 20usize,
        "Offset of field: ntg_audio_description_struct::bitsPerSample"
    );
    assert_eq!(
        AUDIO_CHANNEL_COUNT_OFFSET, 21usize,
        "Offset of field: ntg_audio_description_struct::channelCount"
    );
    // The byte image honours the layout: each field sits at its offset.
    let v = ntg_audio_description_struct {
        inputMode: 4,
        input: 0x1122_3344_5566_7788,
        sampleRate: 48000,
        bitsPerSample: 16,
        channelCount: 2,
    };
    let b = audio_view_bytes(&v);
    assert_eq!(b.len(), 24);
    assert_eq!(&b[0..4], &4i32.to_le_bytes());
    assert_eq!(&b[4..8], &[0, 0, 0, 0], "padding after inputMode");
    assert_eq!(&b[8..16], &0x1122_3344_5566_7788u64.to_le_bytes());
    assert_eq!(&b[16..20], &48000u32.to_le_bytes());
    assert_eq!(b[20], 16);
    assert_eq!(b[21], 2);
    assert_eq!(&b[22..24], &[0, 0], "tail padding");
}

#[test]
fn bindgen_test_layout_ntg_video_description_struct() {
    assert_eq!(VIDEO_VIEW_SIZE, 24usize, "Size of: ntg_video_description_struct");
    assert_eq!(VIDEO_VIEW_ALIGN, 8usize, "Alignment of ntg_video_description_struct");
    assert_eq!(
        VIDEO_INPUT_MODE_OFFSET, 0usize,
        "Offset of field: ntg_video_description_struct::inputMode"
    );
    assert_eq!(
        VIDEO_INPUT_OFFSET, 8usize,
        "Offset of field: ntg_video_description_struct::input"
    );
    assert_eq!(
        VIDEO_WIDTH_OFFSET, 16usize,
        "Offset of field: ntg_video_description_struct::width"
    );
    assert_eq!(
        VIDEO_HEIGHT_OFFSET, 18usize,
        "Offset of field: ntg_video_description_struct::height"
    );
    assert_eq!(VIDEO_FPS_OFFSET, 20usize, "Offset of field: ntg_video_description_struct::fps");
    let v = ntg_video_description_struct {
        inputMode: 1,
        input: 0xdead_beef,
        width: 1920,
        height: 1080,
        fps: 30,
    };
    let b = video_view_bytes(&v);
    assert_eq!(b.len(), 24);
    assert_eq!(&b[0..4], &1i32.to_le_bytes());
    assert_eq!(&b[8..16], &0xdead_beefu64.to_le_bytes());
    assert_eq!(&b[16..18], &1920u16.to_le_bytes());
    assert_eq!(&b[18..20], &1080u16.to_le_bytes());
    assert_eq!(b[20], 30);
    assert_eq!(&b[21..24], &[0, 0, 0], "tail padding");
}

#[test]
fn bindgen_test_layout_ntg_media_description_struct() {
    assert_eq!(MEDIA_VIEW_SIZE, 16usize, "Size of: ntg_media_description_struct");
    assert_eq!(MEDIA_VIEW_ALIGN, 8usize, "Alignment of ntg_media_description_struct");
    assert_eq!(
        MEDIA_AUDIO_OFFSET, 0usize,
        "Offset of field: ntg_media_description_struct::audio"
    );
    assert_eq!(
        MEDIA_VIDEO_OFFSET, 8usize,
        "Offset of field: ntg_media_description_struct::video"
    );
    let v = ntg_media_description_struct { audio: 7, video: 9 };
    let b = media_view_bytes(&v);
    assert_eq!(b.len(), 16);
    assert_eq!(&b[0..8], &7u64.to_le_bytes());
    assert_eq!(&b[8..16], &9u64.to_le_bytes());
}

#[test]
fn bindgen_test_layout_ntg_group_call_struct() {
    assert_eq!(GROUP_CALL_VIEW_SIZE, 16usize, "Size of: ntg_group_call_struct");
    assert_eq!(GROUP_CALL_VIEW_ALIGN, 8usize, "Alignment of ntg_group_call_struct");
    assert_eq!(
        GROUP_CALL_CHAT_ID_OFFSET, 0usize,
        "Offset of field: ntg_group_call_struct::chatId"
    );
    assert_eq!(
        GROUP_CALL_STATUS_OFFSET, 8usize,
        "Offset of field: ntg_group_call_struct::status"
    );
    let v = ntg_group_call_struct { chatId: -42, status: 1 };
    let b = group_call_view_bytes(&v);
    assert_eq!(b.len(), 16);
    assert_eq!(&b[0..8], &(-42i64).to_le_bytes());
    assert_eq!(&b[8..12], &1i32.to_le_bytes());
    assert_eq!(&b[12..16], &[0, 0, 0, 0], "tail padding");
}

#[test]
fn bindgen_test_layout_ntg_media_state_struct() {
    assert_eq!(MEDIA_STATE_VIEW_SIZE, 3usize, "Size of: ntg_media_state_struct");
    assert_eq!(MEDIA_STATE_VIEW_ALIGN, 1usize, "Alignment of ntg_media_state_struct");
    assert_eq!(
        MEDIA_STATE_MUTED_OFFSET, 0usize,
        "Offset of field: ntg_media_state_struct::muted"
    );
    assert_eq!(
        MEDIA_STATE_VIDEO_PAUSED_OFFSET, 1usize,
        "Offset of field: ntg_media_state_struct::videoPaused"
    );
    assert_eq!(
        MEDIA_STATE_VIDEO_STOPPED_OFFSET, 2usize,
        "Offset of field: ntg_media_state_struct::videoStopped"
    );
    let v = ntg_media_state_struct { muted: true, videoPaused: false, videoStopped: true };
    let b = media_state_view_bytes(&v);
    assert_eq!(b, vec![1u8, 0u8, 1u8]);
}
