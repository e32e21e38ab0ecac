//! The live stream's control state and its play/pause transitions.
//!
//! The native endpoint itself is an opaque capability owned by the
//! unverified glue; the glue consults [`Stream::is_playing`] to decide
//! whether a native start or stop is due, performs it, and hands the outcome
//! to [`Stream::play`] or [`Stream::pause`]. A call on a stream already in
//! the requested state performs no native call at all and succeeds.

use vstd::prelude::*;

use crate::errors::{BackendSpecificError, PauseStreamError, PlayStreamError};

verus! {

/// A live stream's control state: created idle, `Playing` once hardware
/// buffer delivery runs, `Paused` once it is stopped again.
#[derive(Clone, Copy, Debug, PartialEq, Eq, Structural)]
pub enum StreamState {
    Idle,
    Playing,
    Paused,
}

/// An owning handle on a live stream's control state, mutated only through
/// `play` and `pause` and read by status queries. The glue that owns the
/// native endpoint keeps this handle beside it and serializes access to it
/// against concurrent control calls.
#[derive(Clone, Copy, Debug, PartialEq, Eq, Structural)]
pub struct Stream {
    pub state: StreamState,
}

impl Stream {
    /// A handle in the given initial state; stream building hands over a
    /// playing one, since hardware delivery is started before the handle is
    /// returned.
    pub fn new(state: StreamState) -> (r: Stream)
        ensures
            r.state == state,
    {
        Stream { state }
    }

    /// Whether hardware buffer delivery is currently running. The glue
    /// performs a native start or stop only when this answer calls for one.
    pub fn is_playing(&self) -> (r: bool)
        ensures
            r == (self.state is Playing),
    {
        match self.state {
            StreamState::Playing => true,
            StreamState::Idle => false,
            StreamState::Paused => false,
        }
    }

    /// Start playback. Idempotent: on a stream already playing this is a
    /// no-op that succeeds, and no native start outcome is expected. On any
    /// other stream the caller performs the native start first and hands
    /// over its outcome; success transitions to `Playing`, while a native
    /// failure is wrapped and leaves the recorded state unchanged.
    pub fn play(&mut self, native_start: Option<Result<(), BackendSpecificError>>) -> (r: Result<
        (),
        PlayStreamError,
    >)
        requires
            native_start is Some <==> !(old(self).state is Playing),
        ensures
            old(self).state is Playing ==> r is Ok && *final(self) == *old(self),
            (native_start matches Some(outcome) && outcome is Ok) ==> r is Ok && final(self).state
                is Playing,
            native_start matches Some(Err(e)) ==> *final(self) == *old(self) && (r matches Err(
                PlayStreamError::BackendSpecific { err },
            ) && err == e),
    {
        match native_start {
            None => Ok(()),
            Some(Ok(())) => {
                self.state = StreamState::Playing;
                Ok(())
            },
            Some(Err(e)) => Err(PlayStreamError::BackendSpecific { err: e }),
        }
    }

    /// Pause playback. Idempotent: on a stream not playing this is a no-op
    /// that succeeds, and no native stop outcome is expected. On a playing
    /// stream the caller performs the native stop first and hands over its
    /// outcome; success transitions to `Paused`, while a native failure is
    /// wrapped and leaves the recorded state unchanged.
    pub fn pause(&mut self, native_stop: Option<Result<(), BackendSpecificError>>) -> (r: Result<
        (),
        PauseStreamError,
    >)
        requires
            native_stop is Some <==> old(self).state is Playing,
        ensures
            !(old(self).state is Playing) ==> r is Ok && *final(self) == *old(self),
            (native_stop matches Some(outcome) && outcome is Ok) ==> r is Ok && final(self).state
                is Paused,
            native_stop matches Some(Err(e)) ==> *final(self) == *old(self) && (r matches Err(
                PauseStreamError::BackendSpecific { err },
            ) && err == e),
    {
        match native_stop {
            None => Ok(()),
            Some(Ok(())) => {
                self.state = StreamState::Paused;
                Ok(())
            },
            Some(Err(e)) => Err(PauseStreamError::BackendSpecific { err: e }),
        }
    }
}

} // verus!
