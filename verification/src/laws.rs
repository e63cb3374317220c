//! The general laws of the controller, stated and proved once for all
//! states, clock readings and commands.

use vstd::prelude::*;

use crate::actor::run_state;
use crate::actor::step_reply;
use crate::actor::step_state;
use crate::actor::times_nondecreasing;
use crate::actor::Command;
use crate::actor::Reply;
use crate::player::LoadOutcome;
use crate::player::Player;
use crate::player::PlayerError;

verus! {

/// Issuing `Play(path)`, then `Pause`, then `Status`, processed strictly in
/// that order at nondecreasing clock readings, always earns a `Status`
/// reply that reports `path` loaded and paused at the instant of the pause
/// — whatever state the controller started in, and however the three
/// submissions were interleaved before they were enqueued.
pub proof fn lemma_play_pause_status_fifo(
    p: Player,
    path: String,
    duration_ms: Option<u64>,
    n1: u64,
    n2: u64,
    n3: u64,
)
    requires
        n1 <= n2 <= n3,
    ensures
        ({
            let play = (Command::Play { path, outcome: (LoadOutcome::Loaded { duration_ms }) });
            let p1 = step_state(p, play, n1);
            let p2 = step_state(p1, Command::Pause, n2);
            let r = step_reply(p2, Command::Status, n3);
            &&& r matches Reply::Report(s)
            &&& s.paused
            &&& s.path == Some(path)
            &&& s.duration_ms == duration_ms
            &&& s.position_ms == n2 - n1
        }),
{
}

/// Pausing twice in a row yields the same state — and so the same reported
/// position — as pausing once: the first pause freezes the position, and a
/// later pause recomputes it to the same value.
pub proof fn lemma_pause_idempotent(p: Player, n1: u64, n2: u64)
    requires
        p.clock_ok(n1),
        n1 <= n2,
    ensures
        p.after_pause(n1).after_pause(n2) == p.after_pause(n1),
        p.after_pause(n1).after_pause(n2).position_at(n2) == p.after_pause(n1).position_at(n1),
{
}

/// Resuming twice at one instant yields the same state as resuming once.
/// Two resumes a moment apart differ by at most that moment: the timer
/// granularity the wall-clock position tracking accepts.
pub proof fn lemma_resume_idempotent(p: Player, now_ms: u64)
    ensures
        p.after_resume(now_ms).after_resume(now_ms) == p.after_resume(now_ms),
        p.after_resume(now_ms).after_resume(now_ms).position_at(now_ms) == p.after_resume(
            now_ms,
        ).position_at(now_ms),
{
}

/// A rewind that would drive the position below 0 clamps the seek target to
/// exactly 0; the target is unsigned, so no negative value and no
/// wraparound can come out.
pub proof fn lemma_advance_clamps(pos: u64, delta_ms: i64)
    ensures
        pos + delta_ms < 0 ==> Player::seek_target(pos, delta_ms) == 0,
        0 <= pos + delta_ms <= u64::MAX ==> Player::seek_target(pos, delta_ms) == pos + delta_ms,
        Player::seek_target(pos, delta_ms) <= pos + delta_ms || Player::seek_target(pos, delta_ms)
            == 0,
{
}

/// Seeking at or beyond the known duration leaves the same final state as
/// `stop`, and succeeds: the track ran off the end and the controller is
/// idle, whatever the backend would have said.
pub proof fn lemma_seek_past_end_stops(p: Player, to_ms: u64, now_ms: u64, backend_ok: bool)
    requires
        p.current matches Some(t) && t.past_end(to_ms),
    ensures
        p.after_seek(to_ms, now_ms, backend_ok) == p.after_stop(),
        p.after_seek(to_ms, now_ms, backend_ok).current is None,
        p.seek_outcome(to_ms, backend_ok) == Ok::<(), PlayerError>(()),
{
}

/// A committed seek within the track preserves the play/pause state: a
/// playing controller stays playing, timestamped from the seek, and a
/// paused one stays paused — in either case at the new position.
pub proof fn lemma_seek_preserves_play_state(p: Player, to_ms: u64, now_ms: u64)
    requires
        p.current matches Some(t) && !t.past_end(to_ms),
    ensures
        p.after_seek(to_ms, now_ms, true).playing() == p.playing(),
        p.after_seek(to_ms, now_ms, true).paused() == p.paused(),
        p.after_seek(to_ms, now_ms, true).current is Some,
        p.after_seek(to_ms, now_ms, true).position_at(now_ms) == to_ms,
{
}

/// After any queue of commands drained at nondecreasing clock readings, the
/// controller never records a timestamp in the future of the clock reading
/// of the command about to run: the position-invariant formula of
/// [`Player::position_at`] is therefore the position at every point of every
/// such run.
pub proof fn lemma_run_clock_ok(p: Player, cmds: Seq<(Command, u64)>, k: int)
    requires
        times_nondecreasing(cmds),
        cmds.len() > 0 ==> p.clock_ok(cmds[0].1),
        0 <= k < cmds.len(),
    ensures
        run_state(p, cmds.take(k)).clock_ok(cmds[k].1),
    decreases k,
{
    if k == 0 {
        assert(cmds.take(0) =~= Seq::<(Command, u64)>::empty());
    } else {
        lemma_run_clock_ok(p, cmds, k - 1);
        crate::actor::lemma_step_clock_ok(
            run_state(p, cmds.take(k - 1)),
            cmds[k - 1].0,
            cmds[k - 1].1,
            cmds[k].1,
        );
        assert(cmds.take(k).drop_last() =~= cmds.take(k - 1));
        crate::actor::lemma_run_state_snoc(p, cmds.take(k));
    }
}

} // verus!
