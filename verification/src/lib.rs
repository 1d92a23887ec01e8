//! Safety layer over a handle-based media-session engine.
//!
//! The engine is reached through a flat C-style interface: an integer
//! session handle, fixed-layout configuration structures, signed integer
//! result codes, and caller-sized output buffers.  This crate holds the
//! verified core of the wrapper around that interface: the error taxonomy
//! and how result codes map to it, the projection of configuration
//! values to the engine's wire layout, the interpretation of every reply,
//! and the lifecycle rules that make the session handle be destroyed
//! exactly once.  The thin unverified shell that actually crosses into
//! the engine drives these functions and performs no decisions of its
//! own: it obtains the handle from [`NTgCall::begin_op`], makes the
//! native call, and hands the reply back to the method that interprets
//! it.

use vstd::prelude::*;

pub mod abi;
pub mod enums;
pub mod errors;
pub mod lifecycle;
pub mod structures;
pub mod utils;

use crate::abi::{ntg_group_call_struct, ntg_media_state_struct};
use crate::enums::StreamStatus;
use crate::errors::{error_for_code, DestroyError, NTgCallError, NTgCallResult, NTG_ERR_TOO_SMALL};
use crate::lifecycle::{LifecycleEvent, LifecycleModel};
use crate::structures::{GroupCall, MediaState};
use crate::utils::{ascii_chars, decode_text, is_ascii_bytes, nul_prefix};

verus! {

/// Size in bytes of the scratch buffer for the engine version string.
pub const VERSION_BUF_LEN: usize = 8;

/// Size in bytes of the scratch buffer for connection-parameter blobs.
pub const PARAMS_BUF_LEN: usize = 512;

/// The shared state of one engine session: the native handle, the number
/// of references sharing it, and whether it has been retired.
///
/// One value of this type exists per native session; an unverified shell
/// shares it behind a reference-counted cell and reports every clone,
/// drop and destroy request to it.  Each operation of the session facade
/// is split in two: the shell obtains the handle through [`begin_op`]
/// (which refuses a retired session), makes the native call, and passes
/// the engine's reply to the method here that interprets it.
///
/// [`begin_op`]: NTgCall::begin_op
#[derive(Debug)]
pub struct NTgCall {
    handle: u32,
    sharers: u64,
    retired: bool,
}

impl NTgCall {
    /// The native handle this session wraps.
    pub closed spec fn handle_spec(self) -> u32 {
        self.handle
    }

    /// The lifecycle state of this session.
    pub closed spec fn lifecycle(self) -> LifecycleModel {
        LifecycleModel { sharers: self.sharers as nat, retired: self.retired }
    }

    /// Whether the native handle has been retired: destroyed, or its
    /// destruction attempted and given up on.
    pub open spec fn is_retired(self) -> bool {
        self.lifecycle().retired
    }

    /// How many references share this session.
    pub open spec fn sharers(self) -> nat {
        self.lifecycle().sharers
    }

    /// Wrap a freshly initialized native session handle.
    ///
    /// The handle is the value the engine's init entry point returned;
    /// the new session has one reference and is not retired.
    pub fn new(handle: u32) -> (s: Self)
        ensures
            s.handle_spec() == handle,
            s.lifecycle() == LifecycleModel::initial(),
    {
        NTgCall { handle, sharers: 1, retired: false }
    }

    /// How many references currently share this session.
    pub fn sharer_count(&self) -> (n: u64)
        ensures
            n == self.sharers(),
    {
        self.sharers
    }

    /// Gate an operation on the session: the handle to call the engine
    /// with, or the dedicated error once the handle has been retired.
    ///
    /// No operation may begin after destruction has completed; this is
    /// the only place an operation obtains the handle, so a retired
    /// session fails every operation instead of reaching the engine.
    pub fn begin_op(&self) -> (r: NTgCallResult<u32>)
        ensures
            self.is_retired() ==> r == NTgCallResult::<u32>::Err(NTgCallError::InvalidUid),
            !self.is_retired() ==> r == NTgCallResult::<u32>::Ok(self.handle_spec()),
    {
        if self.retired {
            Err(NTgCallError::InvalidUid)
        } else {
            Ok(self.handle)
        }
    }

    /// Record that a new reference to this session was created.
    pub fn on_clone(&mut self)
        requires
            old(self).sharers() < u64::MAX,
        ensures
            final(self).handle_spec() == old(self).handle_spec(),
            final(self).lifecycle() == old(self).lifecycle().step(LifecycleEvent::CloneRef),
    {
        self.sharers = self.sharers + 1;
    }

    /// Record that a reference went out of use without an explicit
    /// destroy.  Returns whether the implicit teardown must fire now:
    /// true exactly when the last reference of a not-yet-retired session
    /// is going away.  The shell then makes the native destroy call and
    /// swallows its result — there is no channel to report an error from
    /// this path.
    pub fn on_drop(&mut self) -> (fire: bool)
        requires
            old(self).sharers() >= 1,
        ensures
            final(self).handle_spec() == old(self).handle_spec(),
            final(self).lifecycle() == old(self).lifecycle().step(LifecycleEvent::DropRef),
            fire == old(self).lifecycle().fires(LifecycleEvent::DropRef),
    {
        let fire = self.sharers == 1 && !self.retired;
        self.sharers = self.sharers - 1;
        if fire {
            self.retired = true;
        }
        fire
    }

    /// Explicitly request destruction, consuming one reference.
    ///
    /// Returns the handle to destroy when this is the first destruction
    /// request; the session is retired at once, so no later operation or
    /// second destroy can reach the engine.  Once retired, further
    /// requests fail and nothing fires.
    pub fn destroy(&mut self) -> (r: Result<u32, DestroyError>)
        requires
            old(self).sharers() >= 1,
        ensures
            final(self).handle_spec() == old(self).handle_spec(),
            final(self).lifecycle() == old(self).lifecycle().step(LifecycleEvent::Destroy),
            r == (if old(self).is_retired() {
                Result::<u32, DestroyError>::Err(DestroyError)
            } else {
                Result::<u32, DestroyError>::Ok(old(self).handle_spec())
            }),
    {
        let was_retired = self.retired;
        self.retired = true;
        self.sharers = self.sharers - 1;
        if was_retired {
            Err(DestroyError)
        } else {
            Ok(self.handle)
        }
    }

    /// Interpret the engine's reply to the destroy entry point: zero is
    /// success, anything else is the dedicated teardown error.  The
    /// handle is not retried either way.
    pub fn destroy_reply(reply: i32) -> (r: Result<(), DestroyError>)
        ensures
            r == (if reply == 0 {
                Result::<(), DestroyError>::Ok(())
            } else {
                Result::<(), DestroyError>::Err(DestroyError)
            }),
    {
        if reply == 0 {
            Ok(())
        } else {
            Err(DestroyError)
        }
    }

    /// A zeroed scratch buffer for the engine version string.
    pub fn version_buffer() -> (b: Vec<u8>)
        ensures
            b@.len() == VERSION_BUF_LEN,
            forall|i: int| 0 <= i < b@.len() ==> b@[i] == 0,
    {
        let mut b: Vec<u8> = Vec::new();
        let mut i: usize = 0;
        while i < VERSION_BUF_LEN
            invariant
                0 <= i <= VERSION_BUF_LEN,
                b@.len() == i,
                forall|j: int| 0 <= j < i ==> b@[j] == 0,
            decreases VERSION_BUF_LEN - i,
        {
            b.push(0);
            i += 1;
        }
        b
    }

    /// A zeroed scratch buffer for a connection-parameter blob.
    pub fn params_buffer() -> (b: Vec<u8>)
        ensures
            b@.len() == PARAMS_BUF_LEN,
            forall|i: int| 0 <= i < b@.len() ==> b@[i] == 0,
    {
        let mut b: Vec<u8> = Vec::new();
        let mut i: usize = 0;
        while i < PARAMS_BUF_LEN
            invariant
                0 <= i <= PARAMS_BUF_LEN,
                b@.len() == i,
                forall|j: int| 0 <= j < i ==> b@[j] == 0,
            decreases PARAMS_BUF_LEN - i,
        {
            b.push(0);
            i += 1;
        }
        b
    }

    /// Decode the engine version from the reply to the version entry
    /// point and the buffer it filled: the ASCII text before the first
    /// NUL.  A too-small-buffer reply is an internal defect of the
    /// wrapper's sizing, excluded here and treated as fatal by the shell;
    /// a non-ASCII byte in the filled prefix gives `None`, equally fatal.
    pub fn version(reply: i32, buf: &Vec<u8>) -> (v: Option<String>)
        requires
            reply != NTG_ERR_TOO_SMALL,
        ensures
            is_ascii_bytes(nul_prefix(buf@)) ==> (v matches Some(s) && s@ == ascii_chars(
                nul_prefix(buf@),
            )),
            !is_ascii_bytes(nul_prefix(buf@)) ==> v is None,
            (buf@.len() > 0 && buf@[0] != 0 && is_ascii_bytes(nul_prefix(buf@))) ==> (v matches Some(
                s,
            ) && s@.len() > 0),
    {
        proof {
            crate::utils::lemma_nul_prefix_len(buf@);
            if buf@.len() > 0 && buf@[0] != 0 {
                assert(crate::utils::nul_prefix_len(buf@) >= 1);
            }
        }
        decode_text(buf)
    }

    /// Interpret the engine's reply to the connect entry point.
    pub fn connect(&self, reply: i32) -> (r: NTgCallResult<()>)
        requires
            !self.is_retired(),
        ensures
            reply < 0 ==> r == NTgCallResult::<()>::Err(error_for_code(reply)),
            reply >= 0 ==> r == NTgCallResult::<()>::Ok(()),
    {
        if reply < 0 {
            Err(NTgCallError::from(reply))
        } else {
            Ok(())
        }
    }

    /// Decode the reply to the get-params entry point and the buffer it
    /// filled: a negative reply is the typed error, a nonnegative reply
    /// yields the parameter blob — the ASCII text before the first NUL.
    /// A too-small-buffer reply, like a non-ASCII byte in the filled
    /// prefix, is an internal defect and excluded: the shell checks both
    /// and treats them as fatal, as the buffer sizing is the wrapper's
    /// responsibility and the engine's blobs are ASCII.
    pub fn get_params(&self, reply: i32, buf: &Vec<u8>) -> (r: NTgCallResult<String>)
        requires
            !self.is_retired(),
            reply != NTG_ERR_TOO_SMALL,
            reply >= 0 ==> is_ascii_bytes(nul_prefix(buf@)),
        ensures
            reply < 0 ==> r == NTgCallResult::<String>::Err(error_for_code(reply)),
            reply >= 0 ==> (r matches Ok(s) && s@ == ascii_chars(nul_prefix(buf@))),
    {
        if reply < 0 {
            return Err(NTgCallError::from(reply));
        }
        match decode_text(buf) {
            Some(s) => Ok(s),
            None => Err(NTgCallError::UnknownException),
        }
    }

    /// Interpret the engine's reply to the stop entry point.
    pub fn stop(&self, reply: i32) -> (r: NTgCallResult<()>)
        requires
            !self.is_retired(),
        ensures
            reply < 0 ==> r == NTgCallResult::<()>::Err(error_for_code(reply)),
            reply >= 0 ==> r == NTgCallResult::<()>::Ok(()),
    {
        if reply < 0 {
            Err(NTgCallError::from(reply))
        } else {
            Ok(())
        }
    }

    /// Interpret the engine's reply to the change-stream entry point.
    pub fn change_stream(&self, reply: i32) -> (r: NTgCallResult<()>)
        requires
            !self.is_retired(),
        ensures
            reply < 0 ==> r == NTgCallResult::<()>::Err(error_for_code(reply)),
            reply >= 0 ==> r == NTgCallResult::<()>::Ok(()),
    {
        if reply < 0 {
            Err(NTgCallError::from(reply))
        } else {
            Ok(())
        }
    }

    /// Interpret the engine's reply to a toggle entry point (mute,
    /// unmute, pause, resume): a nonnegative reply is success, and the
    /// reply value itself encodes whether the toggle changed state —
    /// zero means "state changed" (true), any other nonnegative value
    /// means the stream was already in that state (false).
    pub fn toggle_reply(&self, reply: i32) -> (r: NTgCallResult<bool>)
        requires
            !self.is_retired(),
        ensures
            reply < 0 ==> r == NTgCallResult::<bool>::Err(error_for_code(reply)),
            reply >= 0 ==> r == NTgCallResult::<bool>::Ok(reply == 0),
    {
        if reply < 0 {
            Err(NTgCallError::from(reply))
        } else {
            Ok(reply == 0)
        }
    }

    /// Interpret the engine's reply to the mute entry point: on success,
    /// whether the call went from unmuted to muted (true) or was already
    /// muted (false).
    pub fn mute(&self, reply: i32) -> (r: NTgCallResult<bool>)
        requires
            !self.is_retired(),
        ensures
            reply < 0 ==> r == NTgCallResult::<bool>::Err(error_for_code(reply)),
            reply >= 0 ==> r == NTgCallResult::<bool>::Ok(reply == 0),
    {
        self.toggle_reply(reply)
    }

    /// Interpret the engine's reply to the unmute entry point: on
    /// success, whether the call went from muted to unmuted (true) or
    /// was not muted (false).
    pub fn unmute(&self, reply: i32) -> (r: NTgCallResult<bool>)
        requires
            !self.is_retired(),
        ensures
            reply < 0 ==> r == NTgCallResult::<bool>::Err(error_for_code(reply)),
            reply >= 0 ==> r == NTgCallResult::<bool>::Ok(reply == 0),
    {
        self.toggle_reply(reply)
    }

    /// Interpret the engine's reply to the pause entry point: on
    /// success, whether the stream went from playing to paused (true) or
    /// was already paused (false).
    pub fn pause(&self, reply: i32) -> (r: NTgCallResult<bool>)
        requires
            !self.is_retired(),
        ensures
            reply < 0 ==> r == NTgCallResult::<bool>::Err(error_for_code(reply)),
            reply >= 0 ==> r == NTgCallResult::<bool>::Ok(reply == 0),
    {
        self.toggle_reply(reply)
    }

    /// Interpret the engine's reply to the resume entry point: on
    /// success, whether the stream went from paused to playing (true) or
    /// was not paused (false).
    pub fn resume(&self, reply: i32) -> (r: NTgCallResult<bool>)
        requires
            !self.is_retired(),
        ensures
            reply < 0 ==> r == NTgCallResult::<bool>::Err(error_for_code(reply)),
            reply >= 0 ==> r == NTgCallResult::<bool>::Ok(reply == 0),
    {
        self.toggle_reply(reply)
    }

    /// Interpret the engine's reply to the played-time entry point: a
    /// negative reply is the typed error (the code travels in the low 32
    /// bits), a nonnegative reply is the elapsed playback time itself.
    pub fn played_time(&self, reply: i64) -> (r: NTgCallResult<i64>)
        requires
            !self.is_retired(),
        ensures
            reply < 0 ==> r == NTgCallResult::<i64>::Err(
                error_for_code(
                    #[verifier::truncate]
                    (reply as i32),
                ),
            ),
            reply >= 0 ==> r == NTgCallResult::<i64>::Ok(reply),
    {
        if reply < 0 {
            Err(NTgCallError::from(
                #[verifier::truncate]
                (reply as i32),
            ))
        } else {
            Ok(reply)
        }
    }

    /// Interpret the engine's reply to the call-count entry point: a
    /// nonnegative reply is the number of active calls.
    pub fn count_calls(&self, reply: i32) -> (r: NTgCallResult<i32>)
        requires
            !self.is_retired(),
        ensures
            reply < 0 ==> r == NTgCallResult::<i32>::Err(error_for_code(reply)),
            reply >= 0 ==> r == NTgCallResult::<i32>::Ok(reply),
    {
        if reply < 0 {
            Err(NTgCallError::from(reply))
        } else {
            Ok(reply)
        }
    }

    /// Whether every status tag in a filled enumeration buffer is a
    /// known stream status.
    pub open spec fn all_statuses_known(raw: Seq<ntg_group_call_struct>) -> bool {
        forall|i: int|
            0 <= i < raw.len() ==> StreamStatus::from_tag_spec(#[trigger] raw[i].status) is Some
    }

    /// Decode the two-phase enumeration of active calls: `count_reply`
    /// is the engine's reply to the count query, and `raw` is the buffer
    /// of exactly that many slots that the fill call (whose reply is
    /// `fill_reply`) wrote.  On success the list holds one entry per
    /// slot, in order — its length is exactly the count observed — and a
    /// status tag outside the wire contract is reported as the unknown
    /// exception rather than decoded wrongly.
    pub fn calls(&self, count_reply: i32, fill_reply: i32, raw: &Vec<ntg_group_call_struct>) -> (r:
        NTgCallResult<Vec<GroupCall>>)
        requires
            !self.is_retired(),
            count_reply >= 0 ==> raw@.len() == count_reply,
        ensures
            count_reply < 0 ==> r == NTgCallResult::<Vec<GroupCall>>::Err(
                error_for_code(count_reply),
            ),
            count_reply >= 0 && fill_reply < 0 ==> r == NTgCallResult::<Vec<GroupCall>>::Err(
                error_for_code(fill_reply),
            ),
            count_reply >= 0 && fill_reply >= 0 && Self::all_statuses_known(raw@) ==> (r matches Ok(
                list,
            ) && list@.len() == count_reply && (forall|i: int|
                0 <= i < raw@.len() ==> (#[trigger] list@[i]).chat_id == raw@[i].chatId && Some(
                    list@[i].stream_status,
                ) == StreamStatus::from_tag_spec(raw@[i].status))),
            count_reply >= 0 && fill_reply >= 0 && !Self::all_statuses_known(raw@) ==> r
                == NTgCallResult::<Vec<GroupCall>>::Err(NTgCallError::UnknownException),
    {
        if count_reply < 0 {
            return Err(NTgCallError::from(count_reply));
        }
        if fill_reply < 0 {
            return Err(NTgCallError::from(fill_reply));
        }
        let n = raw.len();
        let mut list: Vec<GroupCall> = Vec::new();
        let mut i: usize = 0;
        while i < n
            invariant
                0 <= i <= n,
                n == raw@.len(),
                count_reply >= 0,
                fill_reply >= 0,
                raw@.len() == count_reply,
                list@.len() == i,
                forall|j: int|
                    0 <= j < i ==> StreamStatus::from_tag_spec(#[trigger] raw@[j].status) is Some,
                forall|j: int|
                    0 <= j < i ==> (#[trigger] list@[j]).chat_id == raw@[j].chatId && Some(
                        list@[j].stream_status,
                    ) == StreamStatus::from_tag_spec(raw@[j].status),
            decreases n - i,
        {
            let entry = raw[i];
            match StreamStatus::from_tag(entry.status) {
                Some(status) => {
                    list.push(GroupCall { chat_id: entry.chatId, stream_status: status });
                },
                None => {
                    return Err(NTgCallError::UnknownException);
                },
            }
            i += 1;
        }
        Ok(list)
    }

    /// Decode the engine's reply to the state query: a negative reply is
    /// the typed error, a nonnegative reply yields the snapshot the
    /// engine wrote into the media-state view.
    pub fn get_state(&self, reply: i32, raw: &ntg_media_state_struct) -> (r: NTgCallResult<
        MediaState,
    >)
        requires
            !self.is_retired(),
        ensures
            reply < 0 ==> r == NTgCallResult::<MediaState>::Err(error_for_code(reply)),
            reply >= 0 ==> r == NTgCallResult::<MediaState>::Ok(
                MediaState {
                    muted: raw.muted,
                    video_paused: raw.videoPaused,
                    video_stopped: raw.videoStopped,
                },
            ),
    {
        if reply < 0 {
            return Err(NTgCallError::from(reply));
        }
        Ok(
            MediaState {
                muted: raw.muted,
                video_paused: raw.videoPaused,
                video_stopped: raw.videoStopped,
            },
        )
    }
}

} // verus!
