//! Track metadata and the per-track position bookkeeping.

use vstd::prelude::*;

verus! {

/// Immutable descriptor of a loaded track: the path it was loaded from and
/// its total duration in milliseconds, when the backend could report one.
#[derive(Clone, Debug)]
pub struct TrackInfo {
    pub path: String,
    pub duration_ms: Option<u64>,
}

/// Mutable state of the track currently loaded into the sink.
///
/// `last_playback_timestamp` is the wall-clock instant (in milliseconds) at
/// which playback last started or resumed; `None` means currently paused.
/// `last_playback_position_ms` is the position recorded at the last
/// load/pause/seek event.
#[derive(Clone, Debug)]
pub struct CurrentTrack {
    pub info: TrackInfo,
    pub last_playback_timestamp: Option<u64>,
    pub last_playback_position_ms: u64,
}

impl CurrentTrack {
    /// The recorded timestamp, if any, does not lie in the future of `now_ms`.
    pub open spec fn anchored(self, now_ms: u64) -> bool {
        self.last_playback_timestamp matches Some(ts) ==> ts <= now_ms
    }

    /// The load-bearing invariant of the whole core: the true position is the
    /// recorded position plus the time elapsed since the last resume when
    /// playing, and exactly the recorded position when paused.  The sum
    /// saturates at `u64::MAX` rather than wrapping.
    pub open spec fn position_at(self, now_ms: u64) -> u64
        recommends
            self.anchored(now_ms),
    {
        match self.last_playback_timestamp {
            Some(ts) => {
                if self.last_playback_position_ms + (now_ms - ts) <= u64::MAX {
                    (self.last_playback_position_ms + (now_ms - ts)) as u64
                } else {
                    u64::MAX
                }
            },
            None => self.last_playback_position_ms,
        }
    }

    /// `to_ms` is at or beyond the known duration of this track.
    pub open spec fn past_end(self, to_ms: u64) -> bool {
        self.info.duration_ms matches Some(d) && to_ms >= d
    }
}

} // verus!
