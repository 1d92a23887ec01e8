//! Projection of the value types to the engine's fixed memory layout.
//!
//! The engine's C interface fixes the order, width, offset and padding of
//! every structure field; any deviation corrupts interop.  The view
//! structs here mirror those structures field for field, with pointer
//! fields carried as 64-bit addresses, and each view has a byte image —
//! the exact little-endian picture of the structure in memory on a
//! 64-bit little-endian target — together with a decoder proved to be
//! the inverse of the encoder.

use vstd::bytes::{
    spec_u16_to_le_bytes, spec_u16_from_le_bytes, spec_u32_to_le_bytes, spec_u32_from_le_bytes,
    spec_u64_to_le_bytes, spec_u64_from_le_bytes, u16_to_le_bytes, u16_from_le_bytes,
    u32_to_le_bytes, u32_from_le_bytes, u64_to_le_bytes, u64_from_le_bytes,
    lemma_auto_spec_u16_to_from_le_bytes, lemma_auto_spec_u32_to_from_le_bytes,
    lemma_auto_spec_u64_to_from_le_bytes,
};
use vstd::prelude::*;
use vstd::slice::slice_subrange;

use crate::structures::{AudioDescription, MediaDescription, VideoDescription};

verus! {

/// Size in bytes of the audio-description view.
pub const AUDIO_VIEW_SIZE: usize = 24;

/// Documented alignment of the native audio-description structure.
pub const AUDIO_VIEW_ALIGN: usize = 8;

/// Offset of the input-mode tag in the audio-description view.
pub const AUDIO_INPUT_MODE_OFFSET: usize = 0;

/// Offset of the input-locator pointer in the audio-description view.
pub const AUDIO_INPUT_OFFSET: usize = 8;

/// Offset of the sample rate in the audio-description view.
pub const AUDIO_SAMPLE_RATE_OFFSET: usize = 16;

/// Offset of the bits-per-sample field in the audio-description view.
pub const AUDIO_BITS_PER_SAMPLE_OFFSET: usize = 20;

/// Offset of the channel-count field in the audio-description view.
pub const AUDIO_CHANNEL_COUNT_OFFSET: usize = 21;

/// Size in bytes of the video-description view.
pub const VIDEO_VIEW_SIZE: usize = 24;

/// Documented alignment of the native video-description structure.
pub const VIDEO_VIEW_ALIGN: usize = 8;

/// Offset of the input-mode tag in the video-description view.
pub const VIDEO_INPUT_MODE_OFFSET: usize = 0;

/// Offset of the input-locator pointer in the video-description view.
pub const VIDEO_INPUT_OFFSET: usize = 8;

/// Offset of the width in the video-description view.
pub const VIDEO_WIDTH_OFFSET: usize = 16;

/// Offset of the height in the video-description view.
pub const VIDEO_HEIGHT_OFFSET: usize = 18;

/// Offset of the frames-per-second field in the video-description view.
pub const VIDEO_FPS_OFFSET: usize = 20;

/// Size in bytes of the media-description view.
pub const MEDIA_VIEW_SIZE: usize = 16;

/// Documented alignment of the native media-description structure.
pub const MEDIA_VIEW_ALIGN: usize = 8;

/// Offset of the audio pointer in the media-description view.
pub const MEDIA_AUDIO_OFFSET: usize = 0;

/// Offset of the video pointer in the media-description view.
pub const MEDIA_VIDEO_OFFSET: usize = 8;

/// Size in bytes of the group-call view.
pub const GROUP_CALL_VIEW_SIZE: usize = 16;

/// Documented alignment of the native group-call structure.
pub const GROUP_CALL_VIEW_ALIGN: usize = 8;

/// Offset of the chat identifier in the group-call view.
pub const GROUP_CALL_CHAT_ID_OFFSET: usize = 0;

/// Offset of the stream-status tag in the group-call view.
pub const GROUP_CALL_STATUS_OFFSET: usize = 8;

/// Size in bytes of the media-state view.
pub const MEDIA_STATE_VIEW_SIZE: usize = 3;

/// Documented alignment of the native media-state structure.
pub const MEDIA_STATE_VIEW_ALIGN: usize = 1;

/// Offset of the muted flag in the media-state view.
pub const MEDIA_STATE_MUTED_OFFSET: usize = 0;

/// Offset of the video-paused flag in the media-state view.
pub const MEDIA_STATE_VIDEO_PAUSED_OFFSET: usize = 1;

/// Offset of the video-stopped flag in the media-state view.
pub const MEDIA_STATE_VIDEO_STOPPED_OFFSET: usize = 2;

/// The audio-description structure as the engine lays it out.
///
/// `input` carries the address of the NUL-terminated locator; the bytes
/// behind it must stay alive for the duration of the call that consumes
/// the view.
#[allow(non_camel_case_types)]
#[allow(non_snake_case)]
#[derive(Debug, Clone, Copy, PartialEq, Eq, Structural)]
pub struct ntg_audio_description_struct {
    /// Wire tag of the input mode.
    pub inputMode: i32,
    /// Address of the NUL-terminated input locator.
    pub input: u64,
    /// Audio sample rate.
    pub sampleRate: u32,
    /// Audio bits per sample.
    pub bitsPerSample: u8,
    /// Audio channel count.
    pub channelCount: u8,
}

/// The video-description structure as the engine lays it out.
#[allow(non_camel_case_types)]
#[allow(non_snake_case)]
#[derive(Debug, Clone, Copy, PartialEq, Eq, Structural)]
pub struct ntg_video_description_struct {
    /// Wire tag of the input mode.
    pub inputMode: i32,
    /// Address of the NUL-terminated input locator.
    pub input: u64,
    /// Video width in pixels.
    pub width: u16,
    /// Video height in pixels.
    pub height: u16,
    /// Frames per second.
    pub fps: u8,
}

/// The media-description structure as the engine lays it out: an
/// optional pointer to each description, null when absent.
#[allow(non_camel_case_types)]
#[derive(Debug, Clone, Copy, PartialEq, Eq, Structural)]
pub struct ntg_media_description_struct {
    /// Address of an audio-description view, or 0 when audio is absent.
    pub audio: u64,
    /// Address of a video-description view, or 0 when video is absent.
    pub video: u64,
}

/// The group-call structure as the engine lays it out.
#[allow(non_camel_case_types)]
#[allow(non_snake_case)]
#[derive(Debug, Clone, Copy, PartialEq, Eq, Structural)]
pub struct ntg_group_call_struct {
    /// Unique identifier of a chat.
    pub chatId: i64,
    /// Wire tag of the stream status.
    pub status: i32,
}

/// The media-state structure as the engine lays it out.
#[allow(non_camel_case_types)]
#[allow(non_snake_case)]
#[derive(Debug, Clone, Copy, PartialEq, Eq, Structural)]
pub struct ntg_media_state_struct {
    /// Whether the media stream is muted.
    pub muted: bool,
    /// Whether the video stream is paused.
    pub videoPaused: bool,
    /// Whether the video stream is stopped.
    pub videoStopped: bool,
}

/// A run of `n` zero (padding) bytes.
pub open spec fn zero_bytes(n: int) -> Seq<u8> {
    Seq::new(n as nat, |i: int| 0u8)
}

/// The byte a C bool is stored as.
pub open spec fn bool_byte(b: bool) -> u8 {
    if b {
        1u8
    } else {
        0u8
    }
}

impl AudioDescription {
    /// Project this description to the engine's view, with `input_addr`
    /// the address at which the locator bytes will sit during the call.
    pub fn to_ffi(&self, input_addr: u64) -> (v: ntg_audio_description_struct)
        ensures
            v.inputMode == self.input_mode.tag_spec(),
            v.input == input_addr,
            v.sampleRate == self.sample_rate,
            v.bitsPerSample == self.bits_per_sample,
            v.channelCount == self.channel_count,
    {
        ntg_audio_description_struct {
            inputMode: self.input_mode.tag(),
            input: input_addr,
            sampleRate: self.sample_rate,
            bitsPerSample: self.bits_per_sample,
            channelCount: self.channel_count,
        }
    }
}

impl VideoDescription {
    /// Project this description to the engine's view, with `input_addr`
    /// the address at which the locator bytes will sit during the call.
    pub fn to_ffi(&self, input_addr: u64) -> (v: ntg_video_description_struct)
        ensures
            v.inputMode == self.input_mode.tag_spec(),
            v.input == input_addr,
            v.width == self.width,
            v.height == self.height,
            v.fps == self.fps,
    {
        ntg_video_description_struct {
            inputMode: self.input_mode.tag(),
            input: input_addr,
            width: self.width,
            height: self.height,
            fps: self.fps,
        }
    }
}

impl MediaDescription {
    /// Project this description to the engine's view.  `audio_addr` and
    /// `video_addr` are the addresses at which the projected audio and
    /// video views will sit during the call; an absent description
    /// projects to a null pointer, and its address argument is unused.
    pub fn to_ffi(&self, audio_addr: u64, video_addr: u64) -> (v: ntg_media_description_struct)
        requires
            self.audio is Some ==> audio_addr != 0,
            self.video is Some ==> video_addr != 0,
        ensures
            v.audio == (if self.audio is Some {
                audio_addr
            } else {
                0u64
            }),
            v.video == (if self.video is Some {
                video_addr
            } else {
                0u64
            }),
            v.audio == 0 <==> self.audio is None,
            v.video == 0 <==> self.video is None,
    {
        ntg_media_description_struct {
            audio: if self.audio.is_some() {
                audio_addr
            } else {
                0
            },
            video: if self.video.is_some() {
                video_addr
            } else {
                0
            },
        }
    }
}

/// The byte image of an audio-description view.
pub open spec fn spec_audio_view_bytes(v: ntg_audio_description_struct) -> Seq<u8> {
    spec_u32_to_le_bytes(v.inputMode as u32) + zero_bytes(4) + spec_u64_to_le_bytes(v.input)
        + spec_u32_to_le_bytes(v.sampleRate) + seq![v.bitsPerSample, v.channelCount] + zero_bytes(2)
}

/// The view an audio-description byte image decodes to.
pub open spec fn spec_decode_audio_view(s: Seq<u8>) -> ntg_audio_description_struct {
    ntg_audio_description_struct {
        inputMode: spec_u32_from_le_bytes(
            s.subrange(AUDIO_INPUT_MODE_OFFSET as int, AUDIO_INPUT_MODE_OFFSET + 4),
        ) as i32,
        input: spec_u64_from_le_bytes(s.subrange(AUDIO_INPUT_OFFSET as int, AUDIO_INPUT_OFFSET + 8)),
        sampleRate: spec_u32_from_le_bytes(
            s.subrange(AUDIO_SAMPLE_RATE_OFFSET as int, AUDIO_SAMPLE_RATE_OFFSET + 4),
        ),
        bitsPerSample: s[AUDIO_BITS_PER_SAMPLE_OFFSET as int],
        channelCount: s[AUDIO_CHANNEL_COUNT_OFFSET as int],
    }
}

/// Write the byte image of an audio-description view.
pub fn audio_view_bytes(v: &ntg_audio_description_struct) -> (r: Vec<u8>)
    ensures
        r@ == spec_audio_view_bytes(*v),
        r@.len() == AUDIO_VIEW_SIZE,
{
    let mut r = u32_to_le_bytes(v.inputMode as u32);
    r.push(0);
    r.push(0);
    r.push(0);
    r.push(0);
    let mut input = u64_to_le_bytes(v.input);
    r.append(&mut input);
    let mut rate = u32_to_le_bytes(v.sampleRate);
    r.append(&mut rate);
    r.push(v.bitsPerSample);
    r.push(v.channelCount);
    r.push(0);
    r.push(0);
    proof {
        assert(r@ =~= spec_audio_view_bytes(*v));
    }
    r
}

/// Read an audio-description view back from its byte image.
pub fn decode_audio_view(bytes: &Vec<u8>) -> (v: ntg_audio_description_struct)
    requires
        bytes@.len() == AUDIO_VIEW_SIZE,
    ensures
        v == spec_decode_audio_view(bytes@),
{
    let input_mode = u32_from_le_bytes(
        slice_subrange(bytes.as_slice(), AUDIO_INPUT_MODE_OFFSET, AUDIO_INPUT_MODE_OFFSET + 4),
    );
    let input = u64_from_le_bytes(
        slice_subrange(bytes.as_slice(), AUDIO_INPUT_OFFSET, AUDIO_INPUT_OFFSET + 8),
    );
    let sample_rate = u32_from_le_bytes(
        slice_subrange(bytes.as_slice(), AUDIO_SAMPLE_RATE_OFFSET, AUDIO_SAMPLE_RATE_OFFSET + 4),
    );
    ntg_audio_description_struct {
        inputMode: input_mode as i32,
        input,
        sampleRate: sample_rate,
        bitsPerSample: bytes[AUDIO_BITS_PER_SAMPLE_OFFSET],
        channelCount: bytes[AUDIO_CHANNEL_COUNT_OFFSET],
    }
}

/// Decoding an audio-description byte image is the inverse of encoding:
/// the fixed fields come back identical.
pub proof fn lemma_audio_view_round_trip(v: ntg_audio_description_struct)
    ensures
        spec_decode_audio_view(spec_audio_view_bytes(v)) == v,
{
    lemma_auto_spec_u32_to_from_le_bytes();
    lemma_auto_spec_u64_to_from_le_bytes();
    let s = spec_audio_view_bytes(v);
    assert(s.subrange(0, 4) =~= spec_u32_to_le_bytes(v.inputMode as u32));
    assert(s.subrange(8, 16) =~= spec_u64_to_le_bytes(v.input));
    assert(s.subrange(16, 20) =~= spec_u32_to_le_bytes(v.sampleRate));
    let m = v.inputMode;
    assert((m as u32) as i32 == m) by (bit_vector);
}

/// The byte image of a video-description view.
pub open spec fn spec_video_view_bytes(v: ntg_video_description_struct) -> Seq<u8> {
    spec_u32_to_le_bytes(v.inputMode as u32) + zero_bytes(4) + spec_u64_to_le_bytes(v.input)
        + spec_u16_to_le_bytes(v.width) + spec_u16_to_le_bytes(v.height) + seq![v.fps] + zero_bytes(
        3,
    )
}

/// The view a video-description byte image decodes to.
pub open spec fn spec_decode_video_view(s: Seq<u8>) -> ntg_video_description_struct {
    ntg_video_description_struct {
        inputMode: spec_u32_from_le_bytes(
            s.subrange(VIDEO_INPUT_MODE_OFFSET as int, VIDEO_INPUT_MODE_OFFSET + 4),
        ) as i32,
        input: spec_u64_from_le_bytes(s.subrange(VIDEO_INPUT_OFFSET as int, VIDEO_INPUT_OFFSET + 8)),
        width: spec_u16_from_le_bytes(s.subrange(VIDEO_WIDTH_OFFSET as int, VIDEO_WIDTH_OFFSET + 2)),
        height: spec_u16_from_le_bytes(
            s.subrange(VIDEO_HEIGHT_OFFSET as int, VIDEO_HEIGHT_OFFSET + 2),
        ),
        fps: s[VIDEO_FPS_OFFSET as int],
    }
}

/// Write the byte image of a video-description view.
pub fn video_view_bytes(v: &ntg_video_description_struct) -> (r: Vec<u8>)
    ensures
        r@ == spec_video_view_bytes(*v),
        r@.len() == VIDEO_VIEW_SIZE,
{
    let mut r = u32_to_le_bytes(v.inputMode as u32);
    r.push(0);
    r.push(0);
    r.push(0);
    r.push(0);
    let mut input = u64_to_le_bytes(v.input);
    r.append(&mut input);
    let mut width = u16_to_le_bytes(v.width);
    r.append(&mut width);
    let mut height = u16_to_le_bytes(v.height);
    r.append(&mut height);
    r.push(v.fps);
    r.push(0);
    r.push(0);
    r.push(0);
    proof {
        assert(r@ =~= spec_video_view_bytes(*v));
    }
    r
}

/// Read a video-description view back from its byte image.
pub fn decode_video_view(bytes: &Vec<u8>) -> (v: ntg_video_description_struct)
    requires
        bytes@.len() == VIDEO_VIEW_SIZE,
    ensures
        v == spec_decode_video_view(bytes@),
{
    let input_mode = u32_from_le_bytes(
        slice_subrange(bytes.as_slice(), VIDEO_INPUT_MODE_OFFSET, VIDEO_INPUT_MODE_OFFSET + 4),
    );
    let input = u64_from_le_bytes(
        slice_subrange(bytes.as_slice(), VIDEO_INPUT_OFFSET, VIDEO_INPUT_OFFSET + 8),
    );
    let width = u16_from_le_bytes(
        slice_subrange(bytes.as_slice(), VIDEO_WIDTH_OFFSET, VIDEO_WIDTH_OFFSET + 2),
    );
    let height = u16_from_le_bytes(
        slice_subrange(bytes.as_slice(), VIDEO_HEIGHT_OFFSET, VIDEO_HEIGHT_OFFSET + 2),
    );
    ntg_video_description_struct {
        inputMode: input_mode as i32,
        input,
        width,
        height,
        fps: bytes[VIDEO_FPS_OFFSET],
    }
}

/// Decoding a video-description byte image is the inverse of encoding:
/// the fixed fields come back identical.
pub proof fn lemma_video_view_round_trip(v: ntg_video_description_struct)
    ensures
        spec_decode_video_view(spec_video_view_bytes(v)) == v,
{
    lemma_auto_spec_u16_to_from_le_bytes();
    lemma_auto_spec_u32_to_from_le_bytes();
    lemma_auto_spec_u64_to_from_le_bytes();
    let s = spec_video_view_bytes(v);
    assert(s.subrange(0, 4) =~= spec_u32_to_le_bytes(v.inputMode as u32));
    assert(s.subrange(8, 16) =~= spec_u64_to_le_bytes(v.input));
    assert(s.subrange(16, 18) =~= spec_u16_to_le_bytes(v.width));
    assert(s.subrange(18, 20) =~= spec_u16_to_le_bytes(v.height));
    let m = v.inputMode;
    assert((m as u32) as i32 == m) by (bit_vector);
}

/// The byte image of a media-description view.
pub open spec fn spec_media_view_bytes(v: ntg_media_description_struct) -> Seq<u8> {
    spec_u64_to_le_bytes(v.audio) + spec_u64_to_le_bytes(v.video)
}

/// The view a media-description byte image decodes to.
pub open spec fn spec_decode_media_view(s: Seq<u8>) -> ntg_media_description_struct {
    ntg_media_description_struct {
        audio: spec_u64_from_le_bytes(s.subrange(MEDIA_AUDIO_OFFSET as int, MEDIA_AUDIO_OFFSET + 8)),
        video: spec_u64_from_le_bytes(s.subrange(MEDIA_VIDEO_OFFSET as int, MEDIA_VIDEO_OFFSET + 8)),
    }
}

/// Write the byte image of a media-description view.
pub fn media_view_bytes(v: &ntg_media_description_struct) -> (r: Vec<u8>)
    ensures
        r@ == spec_media_view_bytes(*v),
        r@.len() == MEDIA_VIEW_SIZE,
{
    let mut r = u64_to_le_bytes(v.audio);
    let mut video = u64_to_le_bytes(v.video);
    r.append(&mut video);
    proof {
        assert(r@ =~= spec_media_view_bytes(*v));
    }
    r
}

/// Read a media-description view back from its byte image.
pub fn decode_media_view(bytes: &Vec<u8>) -> (v: ntg_media_description_struct)
    requires
        bytes@.len() == MEDIA_VIEW_SIZE,
    ensures
        v == spec_decode_media_view(bytes@),
{
    let audio = u64_from_le_bytes(
        slice_subrange(bytes.as_slice(), MEDIA_AUDIO_OFFSET, MEDIA_AUDIO_OFFSET + 8),
    );
    let video = u64_from_le_bytes(
        slice_subrange(bytes.as_slice(), MEDIA_VIDEO_OFFSET, MEDIA_VIDEO_OFFSET + 8),
    );
    ntg_media_description_struct { audio, video }
}

/// Decoding a media-description byte image is the inverse of encoding.
pub proof fn lemma_media_view_round_trip(v: ntg_media_description_struct)
    ensures
        spec_decode_media_view(spec_media_view_bytes(v)) == v,
{
    lemma_auto_spec_u64_to_from_le_bytes();
    let s = spec_media_view_bytes(v);
    assert(s.subrange(0, 8) =~= spec_u64_to_le_bytes(v.audio));
    assert(s.subrange(8, 16) =~= spec_u64_to_le_bytes(v.video));
}

/// The byte image of a group-call view.
pub open spec fn spec_group_call_view_bytes(v: ntg_group_call_struct) -> Seq<u8> {
    spec_u64_to_le_bytes(v.chatId as u64) + spec_u32_to_le_bytes(v.status as u32) + zero_bytes(4)
}

/// The view a group-call byte image decodes to.
pub open spec fn spec_decode_group_call_view(s: Seq<u8>) -> ntg_group_call_struct {
    ntg_group_call_struct {
        chatId: spec_u64_from_le_bytes(
            s.subrange(GROUP_CALL_CHAT_ID_OFFSET as int, GROUP_CALL_CHAT_ID_OFFSET + 8),
        ) as i64,
        status: spec_u32_from_le_bytes(
            s.subrange(GROUP_CALL_STATUS_OFFSET as int, GROUP_CALL_STATUS_OFFSET + 4),
        ) as i32,
    }
}

/// Write the byte image of a group-call view.
pub fn group_call_view_bytes(v: &ntg_group_call_struct) -> (r: Vec<u8>)
    ensures
        r@ == spec_group_call_view_bytes(*v),
        r@.len() == GROUP_CALL_VIEW_SIZE,
{
    let mut r = u64_to_le_bytes(v.chatId as u64);
    let mut status = u32_to_le_bytes(v.status as u32);
    r.append(&mut status);
    r.push(0);
    r.push(0);
    r.push(0);
    r.push(0);
    proof {
        assert(r@ =~= spec_group_call_view_bytes(*v));
    }
    r
}

/// Read a group-call view back from its byte image.
pub fn decode_group_call_view(bytes: &Vec<u8>) -> (v: ntg_group_call_struct)
    requires
        bytes@.len() == GROUP_CALL_VIEW_SIZE,
    ensures
        v == spec_decode_group_call_view(bytes@),
{
    let chat_id = u64_from_le_bytes(
        slice_subrange(bytes.as_slice(), GROUP_CALL_CHAT_ID_OFFSET, GROUP_CALL_CHAT_ID_OFFSET + 8),
    );
    let status = u32_from_le_bytes(
        slice_subrange(bytes.as_slice(), GROUP_CALL_STATUS_OFFSET, GROUP_CALL_STATUS_OFFSET + 4),
    );
    ntg_group_call_struct { chatId: chat_id as i64, status: status as i32 }
}

/// Decoding a group-call byte image is the inverse of encoding.
pub proof fn lemma_group_call_view_round_trip(v: ntg_group_call_struct)
    ensures
        spec_decode_group_call_view(spec_group_call_view_bytes(v)) == v,
{
    lemma_auto_spec_u32_to_from_le_bytes();
    lemma_auto_spec_u64_to_from_le_bytes();
    let s = spec_group_call_view_bytes(v);
    assert(s.subrange(0, 8) =~= spec_u64_to_le_bytes(v.chatId as u64));
    assert(s.subrange(8, 12) =~= spec_u32_to_le_bytes(v.status as u32));
    let c = v.chatId;
    let t = v.status;
    assert((c as u64) as i64 == c) by (bit_vector);
    assert((t as u32) as i32 == t) by (bit_vector);
}

/// The byte image of a media-state view.
pub open spec fn spec_media_state_view_bytes(v: ntg_media_state_struct) -> Seq<u8> {
    seq![bool_byte(v.muted), bool_byte(v.videoPaused), bool_byte(v.videoStopped)]
}

/// The view a media-state byte image decodes to: any nonzero byte reads
/// as true, as C does.
pub open spec fn spec_decode_media_state_view(s: Seq<u8>) -> ntg_media_state_struct {
    ntg_media_state_struct {
        muted: s[MEDIA_STATE_MUTED_OFFSET as int] != 0,
        videoPaused: s[MEDIA_STATE_VIDEO_PAUSED_OFFSET as int] != 0,
        videoStopped: s[MEDIA_STATE_VIDEO_STOPPED_OFFSET as int] != 0,
    }
}

/// Write the byte image of a media-state view.
pub fn media_state_view_bytes(v: &ntg_media_state_struct) -> (r: Vec<u8>)
    ensures
        r@ == spec_media_state_view_bytes(*v),
        r@.len() == MEDIA_STATE_VIEW_SIZE,
{
    let mut r: Vec<u8> = Vec::new();
    r.push(if v.muted {
        1
    } else {
        0
    });
    r.push(if v.videoPaused {
        1
    } else {
        0
    });
    r.push(if v.videoStopped {
        1
    } else {
        0
    });
    proof {
        assert(r@ =~= spec_media_state_view_bytes(*v));
    }
    r
}

/// Read a media-state view back from its byte image.
pub fn decode_media_state_view(bytes: &Vec<u8>) -> (v: ntg_media_state_struct)
    requires
        bytes@.len() == MEDIA_STATE_VIEW_SIZE,
    ensures
        v == spec_decode_media_state_view(bytes@),
{
    ntg_media_state_struct {
        muted: bytes[MEDIA_STATE_MUTED_OFFSET] != 0,
        videoPaused: bytes[MEDIA_STATE_VIDEO_PAUSED_OFFSET] != 0,
        videoStopped: bytes[MEDIA_STATE_VIDEO_STOPPED_OFFSET] != 0,
    }
}

/// Decoding a media-state byte image is the inverse of encoding.
pub proof fn lemma_media_state_view_round_trip(v: ntg_media_state_struct)
    ensures
        spec_decode_media_state_view(spec_media_state_view_bytes(v)) == v,
{
}

} // verus!
