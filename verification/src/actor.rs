//! The command protocol that serializes access to the controller.
//!
//! One dedicated execution context owns the [`Player`] and drains an ordered
//! queue of commands; external callers only enqueue.  The queue transport is
//! the backend's business; what stands here is the dispatch itself — what
//! each command does to the controller and what reply it earns — as one
//! function of plain values, and the FIFO drain of a whole queue.
//!
//! A command that needs the backend (loading a file, seeking within it)
//! carries the outcome the backend reported while the actor processed it, so
//! the transition is a function of the command record alone.

use vstd::prelude::*;

use crate::player::LoadOutcome;
use crate::player::Player;
use crate::player::PlayerError;
use crate::player::StatusResponse;
use crate::track::TrackInfo;

verus! {

/// A command submitted to the actor, together with what the backend answered
/// while it was processed.
pub enum Command {
    /// Load `path` and start playing it; `outcome` is what the backend's
    /// decoder reported for the file.
    Play { path: String, outcome: LoadOutcome },
    /// Pause playback (fire-and-forget).
    Pause,
    /// Resume playback (fire-and-forget).
    Resume,
    /// Stop playback and discard the current track (fire-and-forget).
    Stop,
    /// Seek relative to the current position; `backend_ok` is the backend's
    /// verdict on the resulting seek request.
    Advance { delta_ms: i64, backend_ok: bool },
    /// Query a snapshot of the controller state.
    Status,
}

/// The reply the actor sends back for one command, reflecting the controller
/// state immediately after that command's effect was applied.
pub enum Reply {
    /// Reply to `Play`.
    Loaded(Result<TrackInfo, PlayerError>),
    /// Reply to `Advance`.
    Seeked(Result<(), PlayerError>),
    /// Reply to `Status`.
    Report(StatusResponse),
    /// Acknowledgement of a fire-and-forget command.
    Done,
}

/// The controller state after one command is applied at time `now_ms`.
pub open spec fn step_state(p: Player, cmd: Command, now_ms: u64) -> Player {
    match cmd {
        Command::Play { path, outcome } => match outcome {
            LoadOutcome::Loaded { duration_ms } => Player::after_load(path, duration_ms, now_ms),
            LoadOutcome::Failed => p,
        },
        Command::Pause => p.after_pause(now_ms),
        Command::Resume => p.after_resume(now_ms),
        Command::Stop => p.after_stop(),
        Command::Advance { delta_ms, backend_ok } => p.after_seek(
            Player::seek_target(p.position_at(now_ms), delta_ms),
            now_ms,
            backend_ok,
        ),
        Command::Status => p,
    }
}

/// The reply one command earns when applied to `p` at time `now_ms`.
pub open spec fn step_reply(p: Player, cmd: Command, now_ms: u64) -> Reply {
    match cmd {
        Command::Play { path, outcome } => match outcome {
            LoadOutcome::Loaded { duration_ms } => Reply::Loaded(
                Ok(TrackInfo { path, duration_ms }),
            ),
            LoadOutcome::Failed => Reply::Loaded(Err(PlayerError::LoadError)),
        },
        Command::Pause => Reply::Done,
        Command::Resume => Reply::Done,
        Command::Stop => Reply::Done,
        Command::Advance { delta_ms, backend_ok } => Reply::Seeked(
            p.seek_outcome(Player::seek_target(p.position_at(now_ms), delta_ms), backend_ok),
        ),
        Command::Status => Reply::Report(
            StatusResponse {
                path: match p.current {
                    Some(t) => Some(t.info.path),
                    None => None,
                },
                duration_ms: match p.current {
                    Some(t) => t.info.duration_ms,
                    None => None,
                },
                position_ms: p.position_at(now_ms),
                paused: p.paused(),
            },
        ),
    }
}

/// The controller state after a whole queue of timestamped commands is
/// drained in order.
pub open spec fn run_state(p: Player, cmds: Seq<(Command, u64)>) -> Player
    decreases cmds.len(),
{
    if cmds.len() == 0 {
        p
    } else {
        run_state(step_state(p, cmds[0].0, cmds[0].1), cmds.drop_first())
    }
}

/// The clock readings attached to the queue never decrease: commands are
/// processed in submission order, each seeing a time at or after the one
/// before it.
pub open spec fn times_nondecreasing(cmds: Seq<(Command, u64)>) -> bool {
    forall|i: int, j: int| 0 <= i <= j < cmds.len() ==> cmds[i].1 <= cmds[j].1
}

/// Apply one command to the controller and produce its reply.
///
/// This is the whole of the actor's dispatch: the reply corresponds to the
/// controller state immediately after the command's effect.
pub fn apply_command(player: &mut Player, cmd: &Command, now_ms: u64) -> (r: Reply)
    requires
        old(player).clock_ok(now_ms),
    ensures
        *final(player) == step_state(*old(player), *cmd, now_ms),
        r == step_reply(*old(player), *cmd, now_ms),
        final(player).clock_ok(now_ms),
{
    match cmd {
        Command::Play { path, outcome } => Reply::Loaded(
            player.load_and_play(path.clone(), outcome, now_ms),
        ),
        Command::Pause => {
            player.pause(now_ms);
            Reply::Done
        },
        Command::Resume => {
            player.resume(now_ms);
            Reply::Done
        },
        Command::Stop => {
            player.stop();
            Reply::Done
        },
        Command::Advance { delta_ms, backend_ok } => Reply::Seeked(
            player.advance_or_rewind(*delta_ms, now_ms, *backend_ok),
        ),
        Command::Status => Reply::Report(player.status(now_ms)),
    }
}

/// After one command at `n1`, the controller is still consistent with every
/// later clock reading `n2`.
pub proof fn lemma_step_clock_ok(p: Player, cmd: Command, n1: u64, n2: u64)
    requires
        p.clock_ok(n1),
        n1 <= n2,
    ensures
        step_state(p, cmd, n1).clock_ok(n2),
{
}

/// Drain a queue of timestamped commands in FIFO order, returning the
/// replies in the same order: the reply at `i` reflects the controller state
/// right after command `i` was applied, with no reordering.
pub fn run_queue(player: &mut Player, cmds: &Vec<(Command, u64)>) -> (replies: Vec<Reply>)
    requires
        times_nondecreasing(cmds@),
        cmds@.len() > 0 ==> old(player).clock_ok(cmds@[0].1),
    ensures
        *final(player) == run_state(*old(player), cmds@),
        replies@.len() == cmds@.len(),
        forall|i: int|
            0 <= i < cmds@.len() ==> replies@[i] == step_reply(
                run_state(*old(player), cmds@.take(i)),
                cmds@[i].0,
                cmds@[i].1,
            ),
{
    let ghost p0: Player = *player;
    let mut replies: Vec<Reply> = Vec::new();
    let n: usize = cmds.len();
    let mut i: usize = 0;
    while i < n
        invariant
            n == cmds@.len(),
            0 <= i <= n,
            times_nondecreasing(cmds@),
            *player == run_state(p0, cmds@.take(i as int)),
            i < n ==> player.clock_ok(cmds@[i as int].1),
            replies@.len() == i,
            forall|k: int|
                0 <= k < i ==> replies@[k] == step_reply(
                    run_state(p0, cmds@.take(k)),
                    cmds@[k].0,
                    cmds@[k].1,
                ),
        decreases n - i,
    {
        let cmd: &(Command, u64) = &cmds[i];
        let r: Reply = apply_command(player, &cmd.0, cmd.1);
        replies.push(r);
        proof {
            assert(cmds@.take(i + 1).drop_last() =~= cmds@.take(i as int));
            lemma_run_state_snoc(p0, cmds@.take(i + 1));
            if i + 1 < n {
                lemma_step_clock_ok(
                    run_state(p0, cmds@.take(i as int)),
                    cmds@[i as int].0,
                    cmds@[i as int].1,
                    cmds@[i + 1].1,
                );
            }
        }
        i = i + 1;
    }
    proof {
        assert(cmds@.take(n as int) =~= cmds@);
    }
    replies
}

/// Draining a queue is the drain of all but the last command, followed by
/// one step on the last.
pub proof fn lemma_run_state_snoc(p: Player, cmds: Seq<(Command, u64)>)
    requires
        cmds.len() > 0,
    ensures
        run_state(p, cmds) == step_state(
            run_state(p, cmds.drop_last()),
            cmds.last().0,
            cmds.last().1,
        ),
    decreases cmds.len(),
{
    if cmds.len() == 1 {
        let q = step_state(p, cmds[0].0, cmds[0].1);
        assert(cmds.drop_first() =~= Seq::<(Command, u64)>::empty());
        assert(cmds.drop_last() =~= Seq::<(Command, u64)>::empty());
        assert(run_state(p, cmds) == run_state(q, cmds.drop_first()));
        assert(run_state(q, cmds.drop_first()) == q);
        assert(run_state(p, cmds.drop_last()) == p);
        assert(cmds.last() == cmds[0]);
    } else {
        let d = cmds.drop_first();
        let q = step_state(p, cmds[0].0, cmds[0].1);
        lemma_run_state_snoc(q, d);
        assert(d.drop_last() =~= cmds.drop_last().drop_first());
        assert(d.last() == cmds.last());
        assert(cmds.drop_last().len() > 0);
        assert(cmds.drop_last()[0] == cmds[0]);
        assert(run_state(p, cmds) == run_state(q, d));
        assert(run_state(q, d) == step_state(run_state(q, d.drop_last()), d.last().0, d.last().1));
        assert(run_state(p, cmds.drop_last()) == run_state(q, cmds.drop_last().drop_first()));
    }
}

} // verus!
