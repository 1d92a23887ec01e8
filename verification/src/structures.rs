//! Value types that callers build and single operations consume.
//!
//! Each description is an immutable configuration value.  Input locators
//! are stored already in their C-style image — a NUL-free body followed
//! by exactly one NUL terminator — so that the projection to the engine's
//! layout never has to re-examine them.

use vstd::prelude::*;

use crate::enums::{InputMode, StreamStatus};
use crate::utils::{nul_prefix, nul_terminated};

verus! {

/// Media configuration for the stream.
#[derive(Debug, Clone)]
pub struct MediaDescription {
    /// Audio configuration for the stream.
    pub audio: Option<AudioDescription>,
    /// Video configuration for the stream.
    pub video: Option<VideoDescription>,
}

impl Default for MediaDescription {
    /// A description with neither audio nor video: a capabilities-only
    /// configuration.
    fn default() -> (d: Self)
        ensures
            d.audio is None,
            d.video is None,
    {
        MediaDescription { audio: None, video: None }
    }
}

/// Whether a byte sequence is a well-formed C-style string image:
/// nonempty, NUL-terminated, and NUL-free before the terminator.
pub open spec fn is_c_string_image(s: Seq<u8>) -> bool {
    &&& s.len() >= 1
    &&& s[s.len() - 1] == 0
    &&& forall|i: int| 0 <= i < s.len() - 1 ==> s[i] != 0
}

/// Stream's audio configuration.
#[derive(Debug, Clone)]
pub struct AudioDescription {
    /// The input mode for audio.
    pub input_mode: InputMode,
    /// The input media source, as a C-style string image; `new`
    /// establishes and every constructor keeps `is_c_string_image` of it.
    pub input: Vec<u8>,
    /// Audio sample rate (0-96000, max allowed by PCM16L).
    pub sample_rate: u32,
    /// Audio bits per sample (8 or 16).
    pub bits_per_sample: u8,
    /// Audio channel count (1-2, max allowed by PCM16L).
    pub channel_count: u8,
}

impl AudioDescription {
    /// Whether the description honours its documented invariants.
    pub open spec fn wf(self) -> bool {
        &&& is_c_string_image(self.input@)
        &&& self.sample_rate <= 96000
        &&& (self.bits_per_sample == 8 || self.bits_per_sample == 16)
        &&& (self.channel_count == 1 || self.channel_count == 2)
    }

    /// Create a new [`AudioDescription`].
    ///
    /// The input locator is truncated at its first NUL byte and given a
    /// terminator, so the stored form is always a valid C-style image.
    pub fn new(
        input_mode: InputMode,
        input: &Vec<u8>,
        sample_rate: u32,
        bits_per_sample: u8,
        channel_count: u8,
    ) -> (d: Self)
        requires
            sample_rate <= 96000,
            bits_per_sample == 8 || bits_per_sample == 16,
            channel_count == 1 || channel_count == 2,
        ensures
            d.wf(),
            d.input_mode == input_mode,
            d.input@ == nul_prefix(input@).push(0u8),
            d.sample_rate == sample_rate,
            d.bits_per_sample == bits_per_sample,
            d.channel_count == channel_count,
    {
        AudioDescription {
            input_mode,
            input: nul_terminated(input),
            sample_rate,
            bits_per_sample,
            channel_count,
        }
    }

    /// The input locator in its C-style image.
    pub fn input(&self) -> (r: &Vec<u8>)
        ensures
            r@ == self.input@,
    {
        &self.input
    }
}

/// Stream's video configuration.
#[derive(Debug, Clone)]
pub struct VideoDescription {
    /// The input mode for video.
    pub input_mode: InputMode,
    /// The input media source, as a C-style string image; `new`
    /// establishes and every constructor keeps `is_c_string_image` of it.
    pub input: Vec<u8>,
    /// Video width in pixels.
    pub width: u16,
    /// Video height in pixels.
    pub height: u16,
    /// Frames per second (FPS) for video playback.
    pub fps: u8,
}

impl VideoDescription {
    /// Whether the description honours its documented invariants.
    pub open spec fn wf(self) -> bool {
        is_c_string_image(self.input@)
    }

    /// Create a new [`VideoDescription`].
    ///
    /// The input locator is truncated at its first NUL byte and given a
    /// terminator, so the stored form is always a valid C-style image.
    pub fn new(input_mode: InputMode, input: &Vec<u8>, width: u16, height: u16, fps: u8) -> (d:
        Self)
        ensures
            d.wf(),
            d.input_mode == input_mode,
            d.input@ == nul_prefix(input@).push(0u8),
            d.width == width,
            d.height == height,
            d.fps == fps,
    {
        VideoDescription { input_mode, input: nul_terminated(input), width, height, fps }
    }

    /// The input locator in its C-style image.
    pub fn input(&self) -> (r: &Vec<u8>)
        ensures
            r@ == self.input@,
    {
        &self.input
    }
}

/// Info about a group call: a read-only snapshot produced by the
/// enumeration operation.
#[derive(Debug, Clone, Copy, PartialEq, Eq, Structural)]
pub struct GroupCall {
    /// Unique identifier of a chat.
    pub chat_id: i64,
    /// Stream's status.
    pub stream_status: StreamStatus,
}

/// Boolean snapshot of a call's stream properties, as reported by the
/// engine at the moment of the query.
#[derive(Debug, Clone, Copy, PartialEq, Eq, Structural)]
pub struct MediaState {
    /// Indicates whether the media stream is muted.
    pub muted: bool,
    /// Indicates whether the video stream is paused.
    pub video_paused: bool,
    /// Indicates whether the video stream is stopped.
    pub video_stopped: bool,
}

} // verus!
