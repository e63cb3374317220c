use cadence_core::Command;
use cadence_core::LoadOutcome;
use cadence_core::Player;
use cadence_core::PlayerError;
use cadence_core::Reply;

fn play(path: &str, duration_ms: Option<u64>) -> Command {
    Command::Play {
        path: path.to_string(),
        outcome: LoadOutcome::Loaded { duration_ms },
    }
}

#[test]
fn play_pause_status_in_fifo_order() {
    let mut p = Player::new_default();
    let r1 = cadence_core::apply_command(&mut p, &play("A.flac", Some(8000)), 10);
    match r1 {
        Reply::Loaded(Ok(info)) => {
            assert_eq!(info.path, "A.flac");
            assert_eq!(info.duration_ms, Some(8000));
        }
        _ => panic!("expected a successful load reply"),
    }
    let r2 = cadence_core::apply_command(&mut p, &Command::Pause, 20);
    assert!(matches!(r2, Reply::Done));
    let r3 = cadence_core::apply_command(&mut p, &Command::Status, 30);
    match r3 {
        Reply::Report(st) => {
            assert!(st.paused);
            assert_eq!(st.path, Some("A.flac".to_string()));
            assert_eq!(st.duration_ms, Some(8000));
            assert_eq!(st.position_ms, 10);
        }
        _ => panic!("expected a status reply"),
    }
}

#[test]
fn failed_load_reply_leaves_player_untouched() {
    let mut p = Player::new_default();
    cadence_core::apply_command(&mut p, &play("A.flac", None), 0);
    let r = cadence_core::apply_command(
        &mut p,
        &Command::Play {
            path: "missing.wav".to_string(),
            outcome: LoadOutcome::Failed,
        },
        5,
    );
    assert!(matches!(r, Reply::Loaded(Err(PlayerError::LoadError))));
    let t = p.current_track().expect("previous track kept");
    assert_eq!(t.info.path, "A.flac");
}

#[test]
fn rejected_advance_reply() {
    let mut p = Player::new_default();
    cadence_core::apply_command(&mut p, &play("A.flac", Some(10000)), 0);
    let r = cadence_core::apply_command(
        &mut p,
        &Command::Advance { delta_ms: 1000, backend_ok: false },
        50,
    );
    assert!(matches!(r, Reply::Seeked(Err(PlayerError::SeekError))));
    assert_eq!(p.position_ms(50), 50);
}

#[test]
fn stop_command_discards_track() {
    let mut p = Player::new_default();
    cadence_core::apply_command(&mut p, &play("A.flac", Some(10000)), 0);
    let r = cadence_core::apply_command(&mut p, &Command::Stop, 10);
    assert!(matches!(r, Reply::Done));
    assert!(p.empty());
}

#[test]
fn run_queue_drains_in_order() {
    let mut p = Player::new_default();
    let cmds = vec![
        (play("t.flac", Some(10000)), 0),
        (Command::Advance { delta_ms: -5000, backend_ok: true }, 0),
        (Command::Pause, 0),
        (Command::Status, 0),
        (Command::Advance { delta_ms: 3000, backend_ok: true }, 5),
        (Command::Status, 5),
    ];
    let replies = cadence_core::run_queue(&mut p, &cmds);
    assert_eq!(replies.len(), 6);
    match &replies[3] {
        Reply::Report(st) => {
            assert!(st.paused);
            assert_eq!(st.position_ms, 0);
        }
        _ => panic!("expected a status reply"),
    }
    match &replies[5] {
        Reply::Report(st) => {
            assert!(st.paused);
            assert_eq!(st.position_ms, 3000);
            assert_eq!(st.path, Some("t.flac".to_string()));
        }
        _ => panic!("expected a status reply"),
    }
    assert!(p.is_paused());
    assert_eq!(p.position_ms(5), 3000);
}

#[test]
fn run_queue_on_empty_queue() {
    let mut p = Player::new_default();
    let cmds: Vec<(Command, u64)> = Vec::new();
    let replies = cadence_core::run_queue(&mut p, &cmds);
    assert!(replies.is_empty());
    assert!(p.empty());
}

#[test]
fn resume_command_restarts_clock() {
    let mut p = Player::new_default();
    cadence_core::apply_command(&mut p, &play("A.flac", None), 0);
    cadence_core::apply_command(&mut p, &Command::Pause, 100);
    let r = cadence_core::apply_command(&mut p, &Command::Resume, 200);
    assert!(matches!(r, Reply::Done));
    assert!(!p.is_paused());
    assert_eq!(p.position_ms(300), 200);
}
