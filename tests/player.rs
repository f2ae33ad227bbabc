use std::cell::Cell;

use youtube_player_api::{
    plan_api_load, plan_payload, starts_with, ApiLoadStep, Callback, EventName, PayloadPlan,
    PlayerAction, PlayerError, PlayerState, Prepared, Readiness, RemoteCall, YtPlayer,
    API_SCRIPT_URL,
};

fn entries(list: &[(&str, u64)]) -> Vec<(String, u64)> {
    list.iter().map(|(n, i)| (n.to_string(), *i)).collect()
}

fn ready_player() -> YtPlayer {
    let prepared = Prepared::new(&Vec::new());
    let mut player = YtPlayer::new(prepared.registry, true);
    assert!(player.mark_ready());
    player
}

/// A stand-in for the remote player that counts what reaches it.
#[derive(Default)]
struct RemoteDouble {
    calls: Vec<RemoteCall>,
    listeners: Vec<String>,
}

impl RemoteDouble {
    fn perform(&mut self, action: PlayerAction) {
        if let PlayerAction::Call(call) = action {
            self.calls.push(call);
        }
    }
}

#[test]
fn prepare_files_caller_handlers_then_readiness() {
    let list = entries(&[
        ("onReady", 1),
        ("stateChange.ui", 2),
        ("bogus", 3),
        ("ready", 4),
        ("", 5),
    ]);
    let prepared = Prepared::new(&list);
    assert_eq!(vec![2usize, 4], prepared.skipped);
    assert_eq!(
        vec![Callback::External(1), Callback::External(4), Callback::Readiness],
        prepared.registry.fire(EventName::Ready)
    );
    assert_eq!(
        vec![Callback::External(2)],
        prepared.registry.fire(EventName::StateChange)
    );
    let listeners: Vec<(EventName, String)> = prepared
        .listeners
        .iter()
        .map(|l| (l.event, l.handler_name.clone()))
        .collect();
    assert_eq!(
        vec![
            (EventName::Ready, "onReady".to_string()),
            (EventName::StateChange, "onStateChange".to_string())
        ],
        listeners
    );
}

#[test]
fn prepare_without_entries_listens_for_ready_only() {
    let prepared = Prepared::new(&Vec::new());
    assert!(prepared.skipped.is_empty());
    assert_eq!(1, prepared.listeners.len());
    assert_eq!(EventName::Ready, prepared.listeners[0].event);
    assert_eq!(vec![Callback::Readiness], prepared.registry.fire(EventName::Ready));
}

#[test]
fn commands_before_ready_are_no_ops() {
    let prepared = Prepared::new(&Vec::new());
    let player = YtPlayer::new(prepared.registry, true);
    let mut remote = RemoteDouble::default();
    assert_eq!(PlayerAction::WarnNotReady, player.play_video());
    assert_eq!(PlayerAction::WarnNotReady, player.pause_video());
    assert_eq!(PlayerAction::WarnNotReady, player.stop_video());
    assert_eq!(PlayerAction::WarnNotReady, player.change_video("abc"));
    remote.perform(player.play_video());
    remote.perform(player.change_video("abc"));
    assert!(remote.calls.is_empty());
    let asked = Cell::new(0);
    let state = player.get_player_state(|| {
        asked.set(asked.get() + 1);
        PlayerState::PLAYING
    });
    assert_eq!(PlayerState::UNSTARTED, state);
    assert_eq!(0, asked.get());
    assert_eq!(None, player.ready_outcome());
    assert!(!player.is_ready());
    assert_eq!(Readiness::Unready, player.readiness_state());
}

#[test]
fn ready_releases_once_and_commands_reach_remote() {
    let prepared = Prepared::new(&Vec::new());
    let mut player = YtPlayer::new(prepared.registry, true);
    let mut released = 0;
    for _ in 0..3 {
        for callback in player.fire(EventName::Ready) {
            if callback == Callback::Readiness && player.mark_ready() {
                released += 1;
            }
        }
    }
    assert_eq!(1, released);
    assert_eq!(Some(Ok(())), player.ready_outcome());
    let mut remote = RemoteDouble::default();
    remote.perform(player.play_video());
    remote.perform(player.pause_video());
    remote.perform(player.stop_video());
    remote.perform(player.change_video("cE0wfjsybIQ"));
    assert_eq!(
        vec![
            RemoteCall::PlayVideo,
            RemoteCall::PauseVideo,
            RemoteCall::StopVideo,
            RemoteCall::CueVideoById("cE0wfjsybIQ".to_string())
        ],
        remote.calls
    );
    assert_eq!(PlayerState::PAUSED, player.get_player_state(|| PlayerState::PAUSED));
}

#[test]
fn failed_construction_rejects_and_stays_inert() {
    let prepared = Prepared::new(&entries(&[("stateChange", 7)]));
    let mut player = YtPlayer::new(prepared.registry, false);
    assert_eq!(
        Some(Err(PlayerError::PlayerConstructionFailed)),
        player.ready_outcome()
    );
    assert!(!player.mark_ready());
    assert!(!player.mark_ready());
    assert_eq!(Readiness::Failed, player.readiness_state());
    let mut remote = RemoteDouble::default();
    remote.perform(player.play_video());
    remote.perform(player.pause_video());
    remote.perform(player.stop_video());
    remote.perform(player.change_video("x"));
    assert!(remote.calls.is_empty());
    assert_eq!(PlayerState::UNSTARTED, player.get_player_state(|| PlayerState::CUED));
    // no listener is handed out for a player that does not exist
    assert_eq!(Ok(None), player.on("error", 1).map(|l| l.map(|l| l.event)));
}

#[test]
fn two_subscriptions_install_one_listener() {
    let mut player = ready_player();
    let mut remote = RemoteDouble::default();
    for (name, id) in [("stateChange", 1), ("stateChange.ui", 2), ("onStateChange", 3)] {
        if let Some(listener) = player.on(name, id).unwrap() {
            remote.listeners.push(listener.handler_name);
        }
    }
    assert_eq!(vec!["onStateChange".to_string()], remote.listeners);
    assert_eq!(
        vec![Callback::External(1), Callback::External(2), Callback::External(3)],
        player.fire(EventName::StateChange)
    );
}

#[test]
fn on_ready_event_needs_no_new_listener() {
    let mut player = ready_player();
    assert_eq!(Ok(None), player.on("ready", 9).map(|l| l.map(|l| l.event)));
    assert_eq!(
        vec![Callback::Readiness, Callback::External(9)],
        player.fire(EventName::Ready)
    );
}

#[test]
fn on_before_ready_installs_on_constructed_player() {
    let prepared = Prepared::new(&Vec::new());
    let mut player = YtPlayer::new(prepared.registry, true);
    let listener = player.on("apiChange", 4).unwrap().unwrap();
    assert_eq!(EventName::ApiChange, listener.event);
    assert_eq!("onApiChange", listener.handler_name);
}

#[test]
fn on_and_off_reject_unknown_names() {
    let mut player = ready_player();
    assert_eq!(
        Err(PlayerError::InvalidInput),
        player.on("", 1).map(|l| l.map(|l| l.event))
    );
    assert_eq!(
        Err(PlayerError::InvalidInput),
        player.on("videoEnd", 1).map(|l| l.map(|l| l.event))
    );
    assert_eq!(Err(PlayerError::InvalidInput), player.off("videoEnd.ui"));
    assert_eq!(Err(PlayerError::InvalidInput), player.off(""));
    assert!(player.fire(EventName::Error).is_empty());
}

#[test]
fn off_with_namespace_removes_only_that_namespace() {
    let mut player = ready_player();
    player.on("error.a", 1).unwrap();
    player.on("error", 2).unwrap();
    player.on("error.b", 3).unwrap();
    assert_eq!(Ok(()), player.off("error.a"));
    assert_eq!(
        vec![Callback::External(2), Callback::External(3)],
        player.fire(EventName::Error)
    );
    assert_eq!(Ok(()), player.off("onError"));
    assert!(player.fire(EventName::Error).is_empty());
    // the listener stays: subscribing again asks for none
    assert_eq!(Ok(None), player.on("error", 4).map(|l| l.map(|l| l.event)));
    assert_eq!(vec![Callback::External(4)], player.fire(EventName::Error));
}

#[test]
fn payload_plans() {
    let keys = |ks: &[&str]| ks.iter().map(|k| k.to_string()).collect::<Vec<String>>();
    assert_eq!(
        PayloadPlan { strip_target: true, forward: false },
        plan_payload(&keys(&["target"]))
    );
    assert_eq!(
        PayloadPlan { strip_target: true, forward: true },
        plan_payload(&keys(&["target", "data"]))
    );
    assert_eq!(
        PayloadPlan { strip_target: false, forward: true },
        plan_payload(&keys(&["data"]))
    );
    assert_eq!(
        PayloadPlan { strip_target: false, forward: false },
        plan_payload(&keys(&[]))
    );
    assert_eq!(
        PayloadPlan { strip_target: false, forward: true },
        plan_payload(&keys(&["targets"]))
    );
}

#[test]
fn api_load_plans() {
    let api = format!("{}?v=1", API_SCRIPT_URL);
    let other = "https://example.com/app.js".to_string();
    assert_eq!(
        ApiLoadStep::InstallHook { insert_script: true },
        plan_api_load(&vec![], false)
    );
    assert_eq!(
        ApiLoadStep::InstallHook { insert_script: true },
        plan_api_load(&vec![other.clone()], true)
    );
    assert_eq!(
        ApiLoadStep::InstallHook { insert_script: false },
        plan_api_load(&vec![other.clone(), api.clone()], false)
    );
    assert_eq!(
        ApiLoadStep::ResolveNow,
        plan_api_load(&vec![api.clone(), other], true)
    );
}

#[test]
fn prefix_check() {
    assert!(starts_with("https://www.youtube.com/player_api", API_SCRIPT_URL));
    assert!(!starts_with("https://www.youtube.com/player", API_SCRIPT_URL));
    assert!(starts_with("abc", ""));
    assert!(!starts_with("", "a"));
    assert!(!starts_with("xbc", "ab"));
}
