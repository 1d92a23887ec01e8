//! Enumerations shared with the engine, and their wire tags.
//!
//! The engine sees each enumeration as a fixed-width integer tag.  The
//! mapping between symbolic variant and tag is part of the wire contract:
//! the projections here state it exactly, and decoding is proved to be
//! the inverse of encoding on every variant.

use vstd::prelude::*;

verus! {

/// Enumeration of input modes for audio and video streams.
///
/// On the wire each mode is an independent bit flag.
#[derive(Clone, Copy, Debug, PartialEq, Eq, Structural)]
pub enum InputMode {
    /// Input mode using a file source.
    File,
    /// Input mode using a shell command.
    Shell,
    /// Input mode using FFmpeg.
    FFmpeg,
    /// Experimental low-latency mode.
    NoLatency,
}

impl InputMode {
    /// The wire tag of this mode: an independent bit flag.
    pub open spec fn tag_spec(self) -> i32 {
        match self {
            InputMode::File => 1,
            InputMode::Shell => 2,
            InputMode::FFmpeg => 4,
            InputMode::NoLatency => 8,
        }
    }

    /// Project this mode to its wire tag.
    pub fn tag(self) -> (t: i32)
        ensures
            t == self.tag_spec(),
    {
        match self {
            InputMode::File => 1,
            InputMode::Shell => 2,
            InputMode::FFmpeg => 4,
            InputMode::NoLatency => 8,
        }
    }

    /// Decode a wire tag back into a mode; unknown tags give `None`.
    pub fn from_tag(t: i32) -> (m: Option<InputMode>)
        ensures
            m == Self::from_tag_spec(t),
    {
        if t == 1 {
            Some(InputMode::File)
        } else if t == 2 {
            Some(InputMode::Shell)
        } else if t == 4 {
            Some(InputMode::FFmpeg)
        } else if t == 8 {
            Some(InputMode::NoLatency)
        } else {
            None
        }
    }

    /// The mode a wire tag stands for, if any.
    pub open spec fn from_tag_spec(t: i32) -> Option<InputMode> {
        if t == 1 {
            Some(InputMode::File)
        } else if t == 2 {
            Some(InputMode::Shell)
        } else if t == 4 {
            Some(InputMode::FFmpeg)
        } else if t == 8 {
            Some(InputMode::NoLatency)
        } else {
            None
        }
    }
}

/// Decoding an input-mode tag is the inverse of encoding it.
pub proof fn lemma_input_mode_tag_round_trip(m: InputMode)
    ensures
        InputMode::from_tag_spec(m.tag_spec()) == Some(m),
{
}

/// Enumeration of stream status values.
#[derive(Clone, Copy, Debug, PartialEq, Eq, Structural)]
pub enum StreamStatus {
    /// Indicates that the stream is currently playing.
    Playing,
    /// Indicates that the stream is currently paused.
    Paused,
    /// Indicates that the stream is currently idling (neither playing nor paused).
    Idling,
}

impl StreamStatus {
    /// The wire tag of this status.
    pub open spec fn tag_spec(self) -> i32 {
        match self {
            StreamStatus::Playing => 0,
            StreamStatus::Paused => 1,
            StreamStatus::Idling => 2,
        }
    }

    /// Project this status to its wire tag.
    pub fn tag(self) -> (t: i32)
        ensures
            t == self.tag_spec(),
    {
        match self {
            StreamStatus::Playing => 0,
            StreamStatus::Paused => 1,
            StreamStatus::Idling => 2,
        }
    }

    /// Decode a wire tag back into a status; unknown tags give `None`.
    pub fn from_tag(t: i32) -> (s: Option<StreamStatus>)
        ensures
            s == Self::from_tag_spec(t),
    {
        if t == 0 {
            Some(StreamStatus::Playing)
        } else if t == 1 {
            Some(StreamStatus::Paused)
        } else if t == 2 {
            Some(StreamStatus::Idling)
        } else {
            None
        }
    }

    /// The status a wire tag stands for, if any.
    pub open spec fn from_tag_spec(t: i32) -> Option<StreamStatus> {
        if t == 0 {
            Some(StreamStatus::Playing)
        } else if t == 1 {
            Some(StreamStatus::Paused)
        } else if t == 2 {
            Some(StreamStatus::Idling)
        } else {
            None
        }
    }
}

/// Decoding a stream-status tag is the inverse of encoding it.
pub proof fn lemma_stream_status_tag_round_trip(s: StreamStatus)
    ensures
        StreamStatus::from_tag_spec(s.tag_spec()) == Some(s),
{
}

/// Enumeration of stream type values.
#[derive(Clone, Copy, Debug, PartialEq, Eq, Structural)]
pub enum StreamType {
    /// Indicates that the stream type is audio.
    Audio,
    /// Indicates that the stream type is video.
    Video,
}

impl StreamType {
    /// The wire tag of this type.
    pub open spec fn tag_spec(self) -> i32 {
        match self {
            StreamType::Audio => 0,
            StreamType::Video => 1,
        }
    }

    /// Project this type to its wire tag.
    pub fn tag(self) -> (t: i32)
        ensures
            t == self.tag_spec(),
    {
        match self {
            StreamType::Audio => 0,
            StreamType::Video => 1,
        }
    }

    /// Decode a wire tag back into a type; unknown tags give `None`.
    pub fn from_tag(t: i32) -> (s: Option<StreamType>)
        ensures
            s == Self::from_tag_spec(t),
    {
        if t == 0 {
            Some(StreamType::Audio)
        } else if t == 1 {
            Some(StreamType::Video)
        } else {
            None
        }
    }

    /// The type a wire tag stands for, if any.
    pub open spec fn from_tag_spec(t: i32) -> Option<StreamType> {
        if t == 0 {
            Some(StreamType::Audio)
        } else if t == 1 {
            Some(StreamType::Video)
        } else {
            None
        }
    }
}

/// Decoding a stream-type tag is the inverse of encoding it.
pub proof fn lemma_stream_type_tag_round_trip(s: StreamType)
    ensures
        StreamType::from_tag_spec(s.tag_spec()) == Some(s),
{
}

} // verus!
