use sinuous::engine::{refresh_wanted, DeviceOp, RefreshData, SonosError, SonosService};
use sinuous::favorites::FavoritePlaylist;
use sinuous::group::SpeakerInfo;
use sinuous::input::{handle_input, should_quit, Event, KeyCode, KeyEvent};
use sinuous::state::Update;
use sinuous::track::{Track, TrackInfo};
use sinuous::{Action, Direction, ViewMode};

fn fav(title: &str, uri: &str, metadata: &str) -> FavoritePlaylist {
    FavoritePlaylist {
        title: title.to_string(),
        description: String::new(),
        uri: uri.to_string(),
        metadata: metadata.to_string(),
    }
}

fn track(uri: &str, title: &str) -> Track {
    Track {
        uri: uri.to_string(),
        title: title.to_string(),
        album: None,
        creator: None,
        duration: Some(180),
    }
}

/// An engine with one resolved device that coordinates every group given.
fn engine_with_groups(names: &[&str]) -> SonosService {
    let mut e = SonosService::new();
    let uuids: Vec<String> = names.iter().map(|n| format!("uuid-{n}")).collect();
    e.register_devices(uuids.clone()).unwrap();
    let topology: Vec<(String, Vec<SpeakerInfo>)> = names
        .iter()
        .map(|n| {
            (
                format!("uuid-{n}"),
                vec![SpeakerInfo { uuid: format!("uuid-{n}"), name: n.to_string() }],
            )
        })
        .collect();
    e.install_groups(topology);
    e
}

#[test]
fn group_selection_wraps_both_ways() {
    let mut e = engine_with_groups(&["a", "b", "c"]);
    assert_eq!(e.selected_group, 0);
    e.select_prev_group();
    assert_eq!(e.selected_group, 2);
    e.select_next_group();
    assert_eq!(e.selected_group, 0);
}

#[test]
fn group_selection_round_trips_from_every_index() {
    for start in 0..3usize {
        let mut e = engine_with_groups(&["a", "b", "c"]);
        for _ in 0..start {
            e.select_next_group();
        }
        assert_eq!(e.selected_group, start);
        e.select_next_group();
        e.select_prev_group();
        assert_eq!(e.selected_group, start);
        e.select_prev_group();
        e.select_next_group();
        assert_eq!(e.selected_group, start);
    }
}

#[test]
fn group_selection_on_empty_list_stays_put() {
    let mut e = SonosService::new();
    e.select_next_group();
    assert_eq!(e.selected_group, 0);
    e.select_prev_group();
    assert_eq!(e.selected_group, 0);
}

#[test]
fn refresh_failure_keeps_every_cached_field() {
    let mut e = engine_with_groups(&["a"]);
    e.finish_refresh(Some(RefreshData {
        is_playing: true,
        volume: 37,
        now_playing: Some(TrackInfo { track: track("x-file:one", "One"), elapsed: 10, duration: 60 }),
        queue: vec![track("x-file:one", "One"), track("x-file:two", "Two")],
    }));
    let before = e.build_state();
    e.finish_refresh(None);
    let after = e.build_state();
    assert_eq!(after.is_playing, before.is_playing);
    assert_eq!(after.current_volume, before.current_volume);
    assert_eq!(
        after.now_playing.as_ref().map(|t| t.track.uri.clone()),
        before.now_playing.as_ref().map(|t| t.track.uri.clone())
    );
    assert_eq!(after.queue.len(), before.queue.len());
    for (x, y) in after.queue.iter().zip(before.queue.iter()) {
        assert_eq!(x.uri, y.uri);
        assert_eq!(x.title, y.title);
        assert_eq!(x.duration, y.duration);
    }
}

#[test]
fn refresh_success_replaces_all_four_fields_together() {
    let mut e = engine_with_groups(&["a"]);
    e.finish_refresh(Some(RefreshData {
        is_playing: true,
        volume: 12,
        now_playing: None,
        queue: vec![track("x-file:one", "One")],
    }));
    assert!(e.cached_is_playing);
    assert_eq!(e.cached_volume, 12);
    assert!(e.cached_now_playing.is_none());
    assert_eq!(e.cached_queue.len(), 1);
}

#[test]
fn five_toggles_in_one_wake_coalesce_to_one_refresh_and_one_update() {
    let mut e = engine_with_groups(&["a"]);
    let cmds = vec![Action::Play, Action::Pause, Action::Play, Action::Pause, Action::Play];
    let plans = e.run_batch(&cmds);
    assert_eq!(plans.len(), 5);
    let mut refresh_calls = 0;
    let mut succeeded = Vec::new();
    for p in &plans {
        let p = p.as_ref().unwrap();
        assert!(p.refresh_on_success);
        assert_eq!(p.steps.len(), 1);
        succeeded.push(true);
    }
    if refresh_wanted(&plans, &succeeded) {
        refresh_calls += 1;
        e.finish_refresh(None);
    }
    assert_eq!(refresh_calls, 1);
    let updates = vec![Update::NewState(Box::new(e.build_state()))];
    assert_eq!(updates.len(), 1);
}

#[test]
fn refresh_not_wanted_when_no_command_succeeded() {
    let mut e = engine_with_groups(&["a"]);
    let cmds = vec![Action::Play, Action::Pause];
    let plans = e.run_batch(&cmds);
    assert!(!refresh_wanted(&plans, &vec![false, false]));
    assert!(refresh_wanted(&plans, &vec![false, true]));
}

#[test]
fn local_commands_request_no_refresh() {
    let mut e = engine_with_groups(&["a", "b"]);
    for cmd in [
        Action::NextSpeaker,
        Action::PrevSpeaker,
        Action::SwitchView(ViewMode::Favorites),
        Action::NavigateFavorites(Direction::Down),
        Action::Nop,
    ] {
        let plan = e.handle_command(&cmd).unwrap();
        assert!(!plan.refresh_on_success);
        assert!(plan.steps.is_empty());
        assert!(plan.target.is_none());
    }
}

#[test]
fn play_favorite_container_issues_add_to_queue_then_play() {
    let mut e = engine_with_groups(&["a"]);
    e.set_favorites(vec![fav(
        "Mix",
        "x-rincon-cpcontainer:1006206cspotify%3aplaylist%3a1",
        "<desc>spotify</desc>",
    )]);
    let plan = e.handle_command(&Action::PlayFavorite(0)).unwrap();
    assert_eq!(plan.target.as_deref(), Some("uuid-a"));
    assert!(plan.refresh_on_success);
    assert_eq!(plan.steps.len(), 3);
    assert_eq!(plan.steps[0].op, DeviceOp::ClearQueue);
    assert!(plan.steps[0].best_effort);
    let payload = "<InstanceID>0</InstanceID>\n<EnqueuedURI>x-rincon-cpcontainer:1006206cspotify%3aplaylist%3a1</EnqueuedURI>\n<EnqueuedURIMetaData><desc>spotify</desc></EnqueuedURIMetaData>\n<DesiredFirstTrackNumberEnqueued>0</DesiredFirstTrackNumberEnqueued>\n<EnqueueAsNext>1</EnqueueAsNext>";
    assert_eq!(plan.steps[1].op, DeviceOp::AddUriToQueue(payload.to_string()));
    assert!(!plan.steps[1].best_effort);
    assert_eq!(plan.steps[2].op, DeviceOp::Play);
    for s in &plan.steps {
        assert!(!matches!(s.op, DeviceOp::QueueNext(_, _)));
        assert_ne!(s.op, DeviceOp::Next);
    }
}

#[test]
fn play_favorite_track_issues_queue_next_then_next() {
    let mut e = engine_with_groups(&["a"]);
    e.set_favorites(vec![fav(
        "Song",
        "x-sonos-spotify:track%3a9?sid=12&amp;flags=0",
        "<r:resMD a=&quot;b&quot;/>",
    )]);
    let plan = e.handle_command(&Action::PlayFavorite(0)).unwrap();
    assert_eq!(plan.steps.len(), 3);
    assert_eq!(plan.steps[0].op, DeviceOp::ClearQueue);
    assert_eq!(
        plan.steps[1].op,
        DeviceOp::QueueNext(
            "x-sonos-spotify:track%3a9?sid=12&flags=0".to_string(),
            "<r:resMD a=\"b\"/>".to_string()
        )
    );
    assert_eq!(plan.steps[2].op, DeviceOp::Next);
    for s in &plan.steps {
        assert!(!matches!(s.op, DeviceOp::AddUriToQueue(_)));
        assert_ne!(s.op, DeviceOp::Play);
    }
}

#[test]
fn play_favorite_with_invalid_index_is_a_no_op() {
    let mut e = engine_with_groups(&["a"]);
    e.set_favorites(vec![fav("Mix", "x-file:playlist", "")]);
    let plan = e.handle_command(&Action::PlayFavorite(5)).unwrap();
    assert!(plan.steps.is_empty());
    assert!(!plan.refresh_on_success);
}

#[test]
fn volume_adjust_sends_exactly_the_delta() {
    let mut e = engine_with_groups(&["a"]);
    e.finish_refresh(Some(RefreshData {
        is_playing: true,
        volume: 10,
        now_playing: None,
        queue: vec![],
    }));
    let plan = e.handle_command(&Action::VolAdjust(-2)).unwrap();
    assert_eq!(plan.steps.len(), 1);
    assert_eq!(plan.steps[0].op, DeviceOp::SetVolumeRelative(-2));
    assert!(plan.refresh_on_success);
}

#[test]
fn transport_commands_without_a_group_fail_without_side_effects() {
    let mut e = SonosService::new();
    for cmd in [Action::Play, Action::Pause, Action::Next, Action::Prev, Action::VolAdjust(2)] {
        assert_eq!(e.handle_command(&cmd).unwrap_err(), SonosError::NoSelectedGroup);
    }
}

#[test]
fn registering_no_devices_fails() {
    let mut e = SonosService::new();
    assert_eq!(e.register_devices(Vec::new()).unwrap_err(), SonosError::NoDevicesFound);
    assert_eq!(e.topology_source().unwrap_err(), SonosError::NoSpeakerDiscovered);
}

#[test]
fn topology_source_is_the_first_device() {
    let mut e = SonosService::new();
    e.register_devices(vec!["u1".to_string(), "u2".to_string()]).unwrap();
    assert_eq!(e.topology_source().unwrap(), "u1");
}

#[test]
fn favorite_navigation_saturates_at_both_ends() {
    let mut e = SonosService::new();
    e.set_favorites(vec![fav("a", "x:playlist", ""), fav("b", "y:playlist", ""), fav("c", "z:playlist", "")]);
    e.navigate_favorites(Direction::Up);
    assert_eq!(e.selected_favorite, 0);
    e.navigate_favorites(Direction::Down);
    e.navigate_favorites(Direction::Down);
    assert_eq!(e.selected_favorite, 2);
    e.navigate_favorites(Direction::Down);
    assert_eq!(e.selected_favorite, 2);
}

#[test]
fn favorite_selection_stays_in_bounds_when_the_list_shrinks() {
    let mut e = SonosService::new();
    e.set_favorites(vec![fav("a", "x:playlist", ""), fav("b", "y:playlist", ""), fav("c", "z:playlist", "")]);
    e.navigate_favorites(Direction::Down);
    e.navigate_favorites(Direction::Down);
    assert_eq!(e.selected_favorite, 2);
    e.set_favorites(vec![fav("a", "x:playlist", "")]);
    assert!(e.selected_favorite < e.favorites.len());
    e.navigate_favorites(Direction::Down);
    assert!(e.selected_favorite < e.favorites.len());
    e.set_favorites(Vec::new());
    assert_eq!(e.selected_favorite, 0);
    e.navigate_favorites(Direction::Down);
    assert_eq!(e.selected_favorite, 0);
}

#[test]
fn navigation_on_empty_favorites_never_panics() {
    let mut e = SonosService::new();
    e.navigate_favorites(Direction::Up);
    e.navigate_favorites(Direction::Down);
    assert_eq!(e.selected_favorite, 0);
}

#[test]
fn build_state_copies_engine_fields_and_joins_group_names() {
    let mut e = engine_with_groups(&["Kitchen", "Den"]);
    e.set_favorites(vec![fav("Mix", "x:playlist", "")]);
    e.finish_refresh(Some(RefreshData {
        is_playing: true,
        volume: 25,
        now_playing: None,
        queue: vec![track("x-file:one", "One")],
    }));
    let st = e.build_state();
    assert!(st.is_playing);
    assert_eq!(st.current_volume, 25);
    assert_eq!(st.group_names, vec!["Kitchen".to_string(), "Den".to_string()]);
    assert_eq!(st.selected_group, 0);
    assert_eq!(st.group_name(), "Kitchen");
    assert_eq!(st.queue.len(), 1);
    assert_eq!(st.favorites.len(), 1);
    assert_eq!(st.favorites[0].title, "Mix");
    assert_eq!(st.current_view, ViewMode::Queue);
}

#[test]
fn switch_view_changes_only_the_view() {
    let mut e = engine_with_groups(&["a"]);
    let plan = e.handle_command(&Action::SwitchView(ViewMode::Favorites)).unwrap();
    assert!(plan.steps.is_empty());
    assert_eq!(e.current_view, ViewMode::Favorites);
    assert_eq!(e.selected_group, 0);
}

#[test]
fn quit_is_the_letter_q_alone() {
    assert!(should_quit(&Event::Key(KeyEvent { code: KeyCode::Char('q'), shift: false })));
    assert!(should_quit(&Event::Key(KeyEvent { code: KeyCode::Char('q'), shift: true })));
    assert!(!should_quit(&Event::Key(KeyEvent { code: KeyCode::Char('x'), shift: false })));
    assert!(!should_quit(&Event::Other));
}

#[test]
fn keys_translate_to_commands_by_view_and_playing_state() {
    let mut e = engine_with_groups(&["a"]);
    let queue_view = e.build_state();
    let key = |c: char| KeyEvent { code: KeyCode::Char(c), shift: false };
    assert_eq!(handle_input(&key(' '), &queue_view), Action::Play);
    assert_eq!(handle_input(&key('n'), &queue_view), Action::Next);
    assert_eq!(handle_input(&key('p'), &queue_view), Action::Prev);
    assert_eq!(handle_input(&key('['), &queue_view), Action::VolAdjust(-2));
    assert_eq!(handle_input(&key(']'), &queue_view), Action::VolAdjust(2));
    assert_eq!(handle_input(&key('1'), &queue_view), Action::SwitchView(ViewMode::Queue));
    assert_eq!(handle_input(&key('2'), &queue_view), Action::SwitchView(ViewMode::Favorites));
    // navigation keys do nothing in the queue view
    assert_eq!(handle_input(&KeyEvent { code: KeyCode::Up, shift: false }, &queue_view), Action::Nop);
    assert_eq!(handle_input(&KeyEvent { code: KeyCode::Enter, shift: false }, &queue_view), Action::Nop);
    assert_eq!(handle_input(&key('k'), &queue_view), Action::Nop);

    e.handle_command(&Action::SwitchView(ViewMode::Favorites)).unwrap();
    e.set_favorites(vec![fav("a", "x:playlist", ""), fav("b", "y:playlist", "")]);
    e.navigate_favorites(Direction::Down);
    e.finish_refresh(Some(RefreshData { is_playing: true, volume: 1, now_playing: None, queue: vec![] }));
    let fav_view = e.build_state();
    assert_eq!(handle_input(&key(' '), &fav_view), Action::Pause);
    assert_eq!(handle_input(&KeyEvent { code: KeyCode::Up, shift: false }, &fav_view), Action::NavigateFavorites(Direction::Up));
    assert_eq!(handle_input(&key('j'), &fav_view), Action::NavigateFavorites(Direction::Down));
    assert_eq!(handle_input(&KeyEvent { code: KeyCode::Enter, shift: false }, &fav_view), Action::PlayFavorite(1));
    assert_eq!(handle_input(&KeyEvent { code: KeyCode::Tab, shift: false }, &fav_view), Action::NextSpeaker);
    assert_eq!(handle_input(&KeyEvent { code: KeyCode::Tab, shift: true }, &fav_view), Action::PrevSpeaker);
    assert_eq!(handle_input(&KeyEvent { code: KeyCode::Other, shift: false }, &fav_view), Action::Nop);
}

#[test]
fn shutdown_guard_runs_its_action_once() {
    let guard = sinuous::term::OnShutdown::new(|| Ok(()));
    assert!(guard.finish().is_ok());
    let failing = sinuous::term::OnShutdown::new(|| Err("cleanup failed".to_string()));
    assert_eq!(failing.finish().unwrap_err(), "cleanup failed");
}
