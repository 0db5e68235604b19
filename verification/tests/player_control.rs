use bedclock::player::{Player, PlayerAction, PlayerCmd, ProcessStatus};

use PlayerAction::{Send, Settle, Spawn};

#[test]
fn new_player_is_cold() {
    let p = Player::new();
    assert!(!p.started);
    assert_eq!(p.current, 0);
}

#[test]
fn play_cold_start_spawns_and_configures() {
    let mut p = Player::new();
    let acts = p.play(ProcessStatus::Running);
    assert_eq!(
        acts,
        vec![
            Spawn,
            Send(PlayerCmd::Volume),
            Settle,
            Send(PlayerCmd::Clear),
            Send(PlayerCmd::Enqueue(0)),
            Send(PlayerCmd::EnqueueFallback),
            Send(PlayerCmd::LoopOn),
            Send(PlayerCmd::Play),
        ]
    );
    assert!(p.started);
}

#[test]
fn play_running_sends_only_play() {
    let mut p = Player::new();
    p.init();
    let acts = p.play(ProcessStatus::Running);
    assert_eq!(acts, vec![Send(PlayerCmd::Play)]);
}

#[test]
fn stop_after_exit_respawns_first() {
    let mut p = Player::new();
    p.init();
    let acts = p.stop(ProcessStatus::Exited);
    assert_eq!(
        acts,
        vec![
            Spawn,
            Settle,
            Send(PlayerCmd::Clear),
            Send(PlayerCmd::Enqueue(0)),
            Send(PlayerCmd::EnqueueFallback),
            Send(PlayerCmd::LoopOn),
            Send(PlayerCmd::Stop),
        ]
    );
}

#[test]
fn volume_commands() {
    let mut p = Player::new();
    p.init();
    assert_eq!(p.voldown(ProcessStatus::Running), vec![Send(PlayerCmd::VolDown)]);
    assert_eq!(p.volup(ProcessStatus::Running), vec![Send(PlayerCmd::VolUp)]);
}

#[test]
fn change_url_wraps_and_requeues() {
    let mut p = Player::new();
    p.init();
    // a single-entry URL table: stepping either way stays at entry 0
    let acts = p.change_url(true, ProcessStatus::Running);
    assert_eq!(p.current, 0);
    assert_eq!(
        acts,
        vec![
            Send(PlayerCmd::Clear),
            Send(PlayerCmd::Add(0)),
            Send(PlayerCmd::EnqueueFallback),
        ]
    );
    let acts_back = p.change_url(false, ProcessStatus::Running);
    assert_eq!(p.current, 0);
    assert_eq!(
        acts_back,
        vec![
            Send(PlayerCmd::Clear),
            Send(PlayerCmd::Add(0)),
            Send(PlayerCmd::EnqueueFallback),
        ]
    );
}

#[test]
fn requeue_without_play_enqueues() {
    let p = Player::new();
    let acts = p.requeue(false);
    assert_eq!(
        acts,
        vec![
            Send(PlayerCmd::Clear),
            Send(PlayerCmd::Enqueue(0)),
            Send(PlayerCmd::EnqueueFallback),
        ]
    );
}
