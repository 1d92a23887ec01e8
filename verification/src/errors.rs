//! Error taxonomy of the engine and how result codes map to it.
//!
//! Every engine entry point reports failure as a negative 32-bit result
//! code.  The codes form a closed set; each one maps to exactly one
//! variant of [`NTgCallError`], and any negative code outside the set
//! collapses to [`NTgCallError::UnknownException`] so that no raw code
//! ever reaches a caller.

use vstd::prelude::*;

verus! {

/// Result code: a connection with the given chat already exists.
pub const NTG_CONNECTION_ALREADY_EXISTS: i32 = -100;

/// Result code: no connection exists for the given chat.
pub const NTG_CONNECTION_NOT_FOUND: i32 = -101;

/// Result code: the input file was not found.
pub const NTG_FILE_NOT_FOUND: i32 = -200;

/// Result code: the required encoder was not found.
pub const NTG_ENCODER_NOT_FOUND: i32 = -201;

/// Result code: FFmpeg was not found on the system.
pub const NTG_FFMPEG_NOT_FOUND: i32 = -202;

/// Result code: a shell command failed.
pub const NTG_SHELL_ERROR: i32 = -203;

/// Result code: the call requires an RTMP transport.
pub const NTG_RTMP_NEEDED: i32 = -300;

/// Result code: the supplied transport is invalid.
pub const NTG_INVALID_TRANSPORT: i32 = -301;

/// Result code: the connection attempt failed.
pub const NTG_CONNECTION_FAILED: i32 = -302;

/// Result code: an unknown exception occurred inside the engine.
pub const NTG_UNKNOWN_EXCEPTION: i32 = -1;

/// Result code: the session handle does not name a live session.
pub const NTG_INVALID_UID: i32 = -2;

/// Result code: the caller-supplied output buffer is too small.
///
/// This code never surfaces as an [`NTgCallError`]: buffer sizing is the
/// wrapper's own responsibility, so observing it is an internal defect
/// and is treated as fatal by the callers of the buffer protocol.
pub const NTG_ERR_TOO_SMALL: i32 = -3;

/// Result type alias for operations against the engine.
pub type NTgCallResult<T> = Result<T, NTgCallError>;

/// All errors the engine can report from an operation.
#[derive(Clone, Copy, Debug, PartialEq, Eq, Structural)]
pub enum NTgCallError {
    /// A connection with the specified ID already exists.
    ConnectionAlreadyExists,
    /// The specified connection was not found.
    ConnectionNotFound,
    /// The specified file was not found.
    FileNotFound,
    /// The required encoder was not found.
    EncoderNotFound,
    /// FFmpeg is not found in the system.
    FFmpegNotFound,
    /// An error occurred while executing a shell command.
    ShellError,
    /// This error occurs when attempting to join a group call that requires an RTMP transport.
    RtmpNeeded,
    /// The specified transport is invalid.
    InvalidTransport,
    /// The connection to WebRTC failed.
    ConnectionFailed,
    /// An unknown exception occurred.
    UnknownException,
    /// The provided UID is invalid.
    InvalidUid,
}

/// The variant that stands for a given negative result code.
///
/// Codes outside the known set collapse to `UnknownException`.
pub open spec fn error_for_code(code: i32) -> NTgCallError {
    if code == NTG_CONNECTION_ALREADY_EXISTS {
        NTgCallError::ConnectionAlreadyExists
    } else if code == NTG_CONNECTION_NOT_FOUND {
        NTgCallError::ConnectionNotFound
    } else if code == NTG_FILE_NOT_FOUND {
        NTgCallError::FileNotFound
    } else if code == NTG_ENCODER_NOT_FOUND {
        NTgCallError::EncoderNotFound
    } else if code == NTG_FFMPEG_NOT_FOUND {
        NTgCallError::FFmpegNotFound
    } else if code == NTG_SHELL_ERROR {
        NTgCallError::ShellError
    } else if code == NTG_RTMP_NEEDED {
        NTgCallError::RtmpNeeded
    } else if code == NTG_INVALID_TRANSPORT {
        NTgCallError::InvalidTransport
    } else if code == NTG_CONNECTION_FAILED {
        NTgCallError::ConnectionFailed
    } else if code == NTG_INVALID_UID {
        NTgCallError::InvalidUid
    } else {
        NTgCallError::UnknownException
    }
}

impl vstd::std_specs::convert::FromSpecImpl<i32> for NTgCallError {
    open spec fn obeys_from_spec() -> bool {
        true
    }

    open spec fn from_spec(code: i32) -> Self {
        error_for_code(code)
    }
}

impl From<i32> for NTgCallError {
    /// Translate a raw engine result code into its typed error.
    fn from(code: i32) -> (e: Self) {
        if code == NTG_CONNECTION_ALREADY_EXISTS {
            NTgCallError::ConnectionAlreadyExists
        } else if code == NTG_CONNECTION_NOT_FOUND {
            NTgCallError::ConnectionNotFound
        } else if code == NTG_FILE_NOT_FOUND {
            NTgCallError::FileNotFound
        } else if code == NTG_ENCODER_NOT_FOUND {
            NTgCallError::EncoderNotFound
        } else if code == NTG_FFMPEG_NOT_FOUND {
            NTgCallError::FFmpegNotFound
        } else if code == NTG_SHELL_ERROR {
            NTgCallError::ShellError
        } else if code == NTG_RTMP_NEEDED {
            NTgCallError::RtmpNeeded
        } else if code == NTG_INVALID_TRANSPORT {
            NTgCallError::InvalidTransport
        } else if code == NTG_CONNECTION_FAILED {
            NTgCallError::ConnectionFailed
        } else if code == NTG_INVALID_UID {
            NTgCallError::InvalidUid
        } else {
            NTgCallError::UnknownException
        }
    }
}

impl NTgCallError {
    /// A human-readable description of the error.
    pub open spec fn message_spec(self) -> Seq<char> {
        match self {
            NTgCallError::ConnectionAlreadyExists => "[ConnectionAlreadyExists]: A connection with the specified ID already exists"@,
            NTgCallError::ConnectionNotFound => "[ConnectionNotFound]: The specified connection was not found"@,
            NTgCallError::FileNotFound => "[FileNotFound]: The specified file was not found"@,
            NTgCallError::EncoderNotFound => "[EncoderNotFound]: The required encoder was not found"@,
            NTgCallError::FFmpegNotFound => "[FfmpegNotFound]: FFmpeg is not found in the system"@,
            NTgCallError::ShellError => "[ShellError]: An error occurred while executing a shell command"@,
            NTgCallError::RtmpNeeded => "[RtmpNeeded]: This error occurs when attempting to join a group call that requires an RTMP transport"@,
            NTgCallError::InvalidTransport => "[InvalidTransport]: The specified transport is invalid"@,
            NTgCallError::ConnectionFailed => "[ConnectionFailed]: The connection to WebRTC failed"@,
            NTgCallError::UnknownException => "[UnknownException]: An unknown exception occurred"@,
            NTgCallError::InvalidUid => "[InvalidUid]: The provided UID is invalid"@,
        }
    }

    /// A human-readable description of the error.
    pub fn message(&self) -> (m: String)
        ensures
            m@ == self.message_spec(),
    {
        match self {
            NTgCallError::ConnectionAlreadyExists => String::from_str("[ConnectionAlreadyExists]: A connection with the specified ID already exists"),
            NTgCallError::ConnectionNotFound => String::from_str("[ConnectionNotFound]: The specified connection was not found"),
            NTgCallError::FileNotFound => String::from_str("[FileNotFound]: The specified file was not found"),
            NTgCallError::EncoderNotFound => String::from_str("[EncoderNotFound]: The required encoder was not found"),
            NTgCallError::FFmpegNotFound => String::from_str("[FfmpegNotFound]: FFmpeg is not found in the system"),
            NTgCallError::ShellError => String::from_str("[ShellError]: An error occurred while executing a shell command"),
            NTgCallError::RtmpNeeded => String::from_str("[RtmpNeeded]: This error occurs when attempting to join a group call that requires an RTMP transport"),
            NTgCallError::InvalidTransport => String::from_str("[InvalidTransport]: The specified transport is invalid"),
            NTgCallError::ConnectionFailed => String::from_str("[ConnectionFailed]: The connection to WebRTC failed"),
            NTgCallError::UnknownException => String::from_str("[UnknownException]: An unknown exception occurred"),
            NTgCallError::InvalidUid => String::from_str("[InvalidUid]: The provided UID is invalid"),
        }
    }
}

/// An error reported by an explicit teardown of a session.
///
/// When the engine reports failure from destruction, the handle is not
/// retried: the underlying resource may be leaked, and this error says so.
#[derive(Clone, Copy, Debug, PartialEq, Eq, Structural)]
pub struct DestroyError;

impl DestroyError {
    /// A human-readable description of the error.
    pub fn message(&self) -> (m: String)
        ensures
            m@ == "[DestroyError]: NTgCalls cleanup failed"@,
    {
        String::from_str("[DestroyError]: NTgCalls cleanup failed")
    }
}

} // verus!
