//! The playback controller: a state machine over plain values.
//!
//! The controller owns at most one [`CurrentTrack`] and tracks the playback
//! position with wall-clock timestamps.  Reading the clock, decoding audio
//! and driving the output device are the backend's business; every operation
//! here takes the current time in milliseconds and, where the backend has a
//! say (loading a file, seeking within it), the outcome the backend reported,
//! so that the whole transition is a function of plain values.

use vstd::prelude::*;

use crate::track::CurrentTrack;
use crate::track::TrackInfo;

verus! {

/// The error kinds of the core.
///
/// `LoadError`: the file could not be opened or decoded.  `SeekError`: the
/// backend rejected a seek request.  `ActorUnavailable`: the execution
/// context that owns the controller has terminated; surfaced by the
/// transport around the command queue, never by the controller itself.
#[derive(Clone, Copy, Debug, PartialEq, Eq, Structural)]
pub enum PlayerError {
    LoadError,
    SeekError,
    ActorUnavailable,
}

/// What the backend reported for a load request: the track decoded, with its
/// duration when the format exposes one, or the load failed.
pub enum LoadOutcome {
    Loaded { duration_ms: Option<u64> },
    Failed,
}

/// Which half of the system acts on a seek request.
#[derive(Clone, Copy, Debug, PartialEq, Eq, Structural)]
pub enum SeekDecision {
    /// No track is loaded: the seek succeeds as a no-op.
    NoTrack,
    /// The target is at or beyond the known duration: the player ran off the
    /// end and is stopped.
    PastEnd,
    /// The target is within the track: the backend must perform the seek
    /// before the controller commits the new position.
    Backend,
}

/// Snapshot of the controller state, as reported to a `Status` query.
#[derive(Clone, Debug)]
pub struct StatusResponse {
    pub path: Option<String>,
    pub duration_ms: Option<u64>,
    pub position_ms: u64,
    pub paused: bool,
}

/// The playback controller.  It is not safe for concurrent invocation by
/// design: it is the single mutator of playback state, and the command
/// queue in [`crate::actor`] serializes all access to it.
#[derive(Clone, Debug)]
pub struct Player {
    pub current: Option<CurrentTrack>,
}

impl Player {
    /// No recorded timestamp lies in the future of `now_ms`.  Every caller
    /// that hands in clock readings in nondecreasing order maintains this.
    pub open spec fn clock_ok(self, now_ms: u64) -> bool {
        self.current matches Some(t) ==> t.anchored(now_ms)
    }

    /// A track is loaded and currently playing.
    pub open spec fn playing(self) -> bool {
        self.current matches Some(t) && t.last_playback_timestamp is Some
    }

    /// A track is loaded and currently paused.
    pub open spec fn paused(self) -> bool {
        self.current matches Some(t) && t.last_playback_timestamp is None
    }

    /// The position reported at time `now_ms`: 0 when no track is loaded,
    /// else the invariant formula of [`CurrentTrack::position_at`].
    pub open spec fn position_at(self, now_ms: u64) -> u64
        recommends
            self.clock_ok(now_ms),
    {
        match self.current {
            Some(t) => t.position_at(now_ms),
            None => 0,
        }
    }

    /// State after a successful load: a fresh track at position 0, playing
    /// since `now_ms`.
    pub open spec fn after_load(path: String, duration_ms: Option<u64>, now_ms: u64) -> Player {
        Player {
            current: Some(
                CurrentTrack {
                    info: TrackInfo { path, duration_ms },
                    last_playback_timestamp: Some(now_ms),
                    last_playback_position_ms: 0,
                },
            ),
        }
    }

    /// State after `pause` at `now_ms`: the computed position is captured
    /// and the timestamp cleared.  Without a track nothing changes.
    pub open spec fn after_pause(self, now_ms: u64) -> Player {
        match self.current {
            Some(t) => Player {
                current: Some(
                    CurrentTrack {
                        info: t.info,
                        last_playback_timestamp: None,
                        last_playback_position_ms: t.position_at(now_ms),
                    },
                ),
            },
            None => self,
        }
    }

    /// State after `resume` at `now_ms`: the timestamp is set to `now_ms`.
    /// Without a track nothing changes.
    pub open spec fn after_resume(self, now_ms: u64) -> Player {
        match self.current {
            Some(t) => Player {
                current: Some(
                    CurrentTrack {
                        info: t.info,
                        last_playback_timestamp: Some(now_ms),
                        last_playback_position_ms: t.last_playback_position_ms,
                    },
                ),
            },
            None => self,
        }
    }

    /// State after `stop`: no current track; there is no stopped position,
    /// starting again requires a fresh load.
    pub open spec fn after_stop(self) -> Player {
        Player { current: None }
    }

    /// Which half of the system acts on a seek to `to_ms` from this state.
    pub open spec fn seek_decision_at(self, to_ms: u64) -> SeekDecision {
        match self.current {
            None => SeekDecision::NoTrack,
            Some(t) => if t.past_end(to_ms) {
                SeekDecision::PastEnd
            } else {
                SeekDecision::Backend
            },
        }
    }

    /// State after `seek(to_ms)` at `now_ms`, where `backend_ok` says whether
    /// the backend accepted the seek (consulted only when the decision is
    /// `Backend`).  A seek at or past the known duration stops the player; a
    /// seek within the track commits the new position and preserves the
    /// play/pause state; a rejected backend seek fails closed, leaving the
    /// state untouched.
    pub open spec fn after_seek(self, to_ms: u64, now_ms: u64, backend_ok: bool) -> Player {
        match self.current {
            None => self,
            Some(t) => if t.past_end(to_ms) {
                self.after_stop()
            } else if backend_ok {
                Player {
                    current: Some(
                        CurrentTrack {
                            info: t.info,
                            last_playback_timestamp: if t.last_playback_timestamp is Some {
                                Some(now_ms)
                            } else {
                                None
                            },
                            last_playback_position_ms: to_ms,
                        },
                    ),
                }
            } else {
                self
            },
        }
    }

    /// The result of `seek(to_ms)`: an error exactly when a track is loaded,
    /// the target is within it, and the backend rejected the seek.
    pub open spec fn seek_outcome(self, to_ms: u64, backend_ok: bool) -> Result<(), PlayerError> {
        if self.seek_decision_at(to_ms) is Backend && !backend_ok {
            Err(PlayerError::SeekError)
        } else {
            Ok(())
        }
    }

    /// The target of `advance_or_rewind(delta_ms)` from position `pos`:
    /// `pos + delta_ms` floored at 0 and saturated at `u64::MAX`.
    pub open spec fn seek_target(pos: u64, delta_ms: i64) -> u64 {
        if pos + delta_ms < 0 {
            0
        } else if pos + delta_ms > u64::MAX {
            u64::MAX
        } else {
            (pos + delta_ms) as u64
        }
    }

    /// A controller in the initial `Idle` state: no track, position 0.
    /// Acquiring the output device is the backend's business.
    pub fn new_default() -> (p: Player)
        ensures
            p.current is None,
            !p.playing(),
            !p.paused(),
    {
        Player { current: None }
    }

    /// The current position in milliseconds: 0 when no track is loaded, else
    /// the recorded position plus the time elapsed since the last resume when
    /// playing.  Never fails and never blocks.
    pub fn position_ms(&self, now_ms: u64) -> (r: u64)
        requires
            self.clock_ok(now_ms),
        ensures
            r == self.position_at(now_ms),
    {
        match &self.current {
            None => 0,
            Some(t) => {
                match t.last_playback_timestamp {
                    None => t.last_playback_position_ms,
                    Some(ts) => {
                        let elapsed: u64 = now_ms - ts;
                        if elapsed <= u64::MAX - t.last_playback_position_ms {
                            t.last_playback_position_ms + elapsed
                        } else {
                            u64::MAX
                        }
                    },
                }
            },
        }
    }

    /// Replace the current track after the backend answered a load request.
    ///
    /// On `Loaded` the previous track is discarded wholesale and the fresh
    /// one starts at position 0, playing since `now_ms`; the returned
    /// `TrackInfo` describes it.  On `Failed` the previous state is left
    /// untouched and the caller gets `LoadError` (atomic replace-on-success).
    pub fn load_and_play(&mut self, path: String, outcome: &LoadOutcome, now_ms: u64) -> (r:
        Result<TrackInfo, PlayerError>)
        ensures
            outcome matches LoadOutcome::Loaded { duration_ms } ==> {
                &&& *final(self) == Player::after_load(path, *duration_ms, now_ms)
                &&& r matches Ok(info) && info.path == path && info.duration_ms == *duration_ms
            },
            outcome is Failed ==> *final(self) == *old(self) && r == Err::<
                TrackInfo,
                PlayerError,
            >(PlayerError::LoadError),
            old(self).clock_ok(now_ms) ==> final(self).clock_ok(now_ms),
    {
        match outcome {
            LoadOutcome::Loaded { duration_ms } => {
                let info = TrackInfo { path, duration_ms: *duration_ms };
                self.current = Some(
                    CurrentTrack {
                        info: TrackInfo { path: info.path.clone(), duration_ms: *duration_ms },
                        last_playback_timestamp: Some(now_ms),
                        last_playback_position_ms: 0,
                    },
                );
                Ok(info)
            },
            LoadOutcome::Failed => Err(PlayerError::LoadError),
        }
    }

    /// Pause: capture the computed position and clear the timestamp.  Safe
    /// without a track, and idempotent: pausing an already paused controller
    /// recomputes the position to the same value.
    pub fn pause(&mut self, now_ms: u64)
        requires
            old(self).clock_ok(now_ms),
        ensures
            *final(self) == old(self).after_pause(now_ms),
            final(self).clock_ok(now_ms),
            !final(self).playing(),
    {
        let pos: u64 = self.position_ms(now_ms);
        match &mut self.current {
            Some(t) => {
                t.last_playback_position_ms = pos;
                t.last_playback_timestamp = None;
            },
            None => {},
        }
    }

    /// Resume: mark the track playing since `now_ms`.  Safe without a track.
    pub fn resume(&mut self, now_ms: u64)
        ensures
            *final(self) == old(self).after_resume(now_ms),
            final(self).clock_ok(now_ms),
            final(self).playing() == (old(self).current is Some),
    {
        match &mut self.current {
            Some(t) => {
                t.last_playback_timestamp = Some(now_ms);
            },
            None => {},
        }
    }

    /// Stop: discard the current track entirely.
    pub fn stop(&mut self)
        ensures
            *final(self) == old(self).after_stop(),
            final(self).current is None,
    {
        self.current = None;
    }

    /// Which half of the system acts on a seek to `to_ms`: nothing (no
    /// track), the controller alone (past the end), or the backend first.
    pub fn seek_decision(&self, to_ms: u64) -> (d: SeekDecision)
        ensures
            d == self.seek_decision_at(to_ms),
    {
        match &self.current {
            None => SeekDecision::NoTrack,
            Some(t) => {
                match t.info.duration_ms {
                    Some(d) => if to_ms >= d {
                        SeekDecision::PastEnd
                    } else {
                        SeekDecision::Backend
                    },
                    None => SeekDecision::Backend,
                }
            },
        }
    }

    /// Commit a seek to `to_ms` at `now_ms`, given the backend's verdict.
    ///
    /// Without a track this succeeds as a no-op.  At or past the known
    /// duration it is equivalent to `stop`.  Otherwise, when the backend
    /// accepted the seek (`backend_ok`), the position becomes `to_ms` and
    /// the play/pause state is preserved; when it rejected the seek, the
    /// state is left in the pre-seek condition and the caller gets
    /// `SeekError`.
    pub fn seek(&mut self, to_ms: u64, now_ms: u64, backend_ok: bool) -> (r: Result<
        (),
        PlayerError,
    >)
        ensures
            *final(self) == old(self).after_seek(to_ms, now_ms, backend_ok),
            r == old(self).seek_outcome(to_ms, backend_ok),
            old(self).clock_ok(now_ms) ==> final(self).clock_ok(now_ms),
    {
        let decision = self.seek_decision(to_ms);
        match decision {
            SeekDecision::NoTrack => Ok(()),
            SeekDecision::PastEnd => {
                self.current = None;
                Ok(())
            },
            SeekDecision::Backend => {
                if backend_ok {
                    match &mut self.current {
                        Some(t) => {
                            let was_playing: bool = t.last_playback_timestamp.is_some();
                            t.last_playback_position_ms = to_ms;
                            t.last_playback_timestamp = if was_playing {
                                Some(now_ms)
                            } else {
                                None
                            };
                        },
                        None => {},
                    }
                    Ok(())
                } else {
                    Err(PlayerError::SeekError)
                }
            },
        }
    }

    /// The target of `advance_or_rewind(delta_ms)` from the current
    /// position: the sum floored at 0, so a rewind can never underflow, and
    /// saturated at `u64::MAX`.
    pub fn advance_target(&self, delta_ms: i64, now_ms: u64) -> (r: u64)
        requires
            self.clock_ok(now_ms),
        ensures
            r == Player::seek_target(self.position_at(now_ms), delta_ms),
    {
        let pos: u64 = self.position_ms(now_ms);
        if delta_ms >= 0 {
            let d: u64 = delta_ms as u64;
            if d <= u64::MAX - pos {
                pos + d
            } else {
                u64::MAX
            }
        } else {
            let back: u64 = if delta_ms == i64::MIN {
                // the magnitude of i64::MIN, which `-` cannot produce
                9223372036854775808u64
            } else {
                (-delta_ms) as u64
            };
            if back <= pos {
                pos - back
            } else {
                0
            }
        }
    }

    /// Seek relative to the current position: `delta_ms` may be negative to
    /// rewind, and the target is floored at 0.  Delegates to `seek`, so the
    /// duration-overrun rule and the fails-closed behaviour are the same.
    pub fn advance_or_rewind(&mut self, delta_ms: i64, now_ms: u64, backend_ok: bool) -> (r: Result<
        (),
        PlayerError,
    >)
        requires
            old(self).clock_ok(now_ms),
        ensures
            *final(self) == old(self).after_seek(
                Player::seek_target(old(self).position_at(now_ms), delta_ms),
                now_ms,
                backend_ok,
            ),
            r == old(self).seek_outcome(
                Player::seek_target(old(self).position_at(now_ms), delta_ms),
                backend_ok,
            ),
            final(self).clock_ok(now_ms),
    {
        let target: u64 = self.advance_target(delta_ms, now_ms);
        self.seek(target, now_ms, backend_ok)
    }

    /// Whether the controller is paused: a track is loaded and its timestamp
    /// is cleared.  Without a track this reports `false`.
    pub fn is_paused(&self) -> (r: bool)
        ensures
            r == self.paused(),
    {
        match &self.current {
            Some(t) => t.last_playback_timestamp.is_none(),
            None => false,
        }
    }

    /// Whether nothing is loaded: the controller is in the `Idle` state.
    pub fn empty(&self) -> (r: bool)
        ensures
            r == (self.current is None),
    {
        self.current.is_none()
    }

    /// The currently loaded track, if any.
    pub fn current_track(&self) -> (r: Option<&CurrentTrack>)
        ensures
            match self.current {
                Some(t) => r matches Some(c) && *c == t,
                None => r is None,
            },
    {
        self.current.as_ref()
    }

    /// A snapshot of the controller state at `now_ms`: the loaded path and
    /// duration (absent when idle), the position by the invariant formula,
    /// and whether playback is paused.
    pub fn status(&self, now_ms: u64) -> (r: StatusResponse)
        requires
            self.clock_ok(now_ms),
        ensures
            r.position_ms == self.position_at(now_ms),
            r.paused == self.paused(),
            match self.current {
                Some(t) => r.path matches Some(p) && p == t.info.path && r.duration_ms
                    == t.info.duration_ms,
                None => r.path is None && r.duration_ms is None,
            },
    {
        let position_ms: u64 = self.position_ms(now_ms);
        match &self.current {
            Some(t) => StatusResponse {
                path: Some(t.info.path.clone()),
                duration_ms: t.info.duration_ms,
                position_ms,
                paused: t.last_playback_timestamp.is_none(),
            },
            None => StatusResponse { path: None, duration_ms: None, position_ms, paused: false },
        }
    }
}

} // verus!
