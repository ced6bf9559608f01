use vibrance::model::{Album, Track};
use vibrance::player::command::{coalesce, MediaKey, PlayerCommand, PlayerEvent, Repeat};
use vibrance::player::engine::{
    offset_for, Action, DeviceStatus, Engine, Phase, DEBOUNCE_MS, SHORT_TICK_MS, TICK_MS,
};

fn track(title: &str) -> Track {
    Track::new_local(
        title.to_string(),
        vec![],
        Album::new("Album".to_string(), vec![], None, None),
        180_000,
        format!("/music/{title}.flac"),
        None,
    )
}

fn quiet() -> DeviceStatus {
    DeviceStatus { empty: true, paused: false, position_ms: 0 }
}

fn playing(position_ms: u64) -> DeviceStatus {
    DeviceStatus { empty: false, paused: false, position_ms }
}

/// An engine that plays `first` with `rest` waiting in the queue.
fn engine_playing(first: &Track, rest: &[Track], repeat: Repeat) -> Engine {
    let mut engine = Engine::new(500_000);
    engine.apply(PlayerCommand::SetRepeat(repeat), quiet(), 0);
    engine.apply(PlayerCommand::AddTrack(first.clone()), quiet(), 0);
    for t in rest {
        engine.apply(PlayerCommand::AddTrack(t.clone()), quiet(), 0);
    }
    engine.apply(PlayerCommand::Play, quiet(), 0);
    engine.loaded(Some(180_000));
    engine
}

#[test]
fn new_engine_is_idle() {
    let engine = Engine::new(250_000);
    assert!(engine.queue.is_empty());
    assert_eq!(engine.current, None);
    assert_eq!(engine.repeat, Repeat::Off);
    assert_eq!(engine.volume, 250_000);
    assert_eq!(engine.audible, 250_000);
    assert_eq!(engine.duration_ms, 0);
    assert_eq!(engine.pending_volume_save, None);
}

#[test]
fn add_track_appends_without_event() {
    let (a, b) = (track("a"), track("b"));
    let mut engine = Engine::new(0);
    assert!(engine.apply(PlayerCommand::AddTrack(a.clone()), quiet(), 0).is_empty());
    assert!(engine.apply(PlayerCommand::AddTrack(b.clone()), quiet(), 0).is_empty());
    assert_eq!(engine.queue, vec![a, b]);
    assert_eq!(engine.current, None);
}

#[test]
fn remove_track_in_range_removes_it() {
    let (a, b, c) = (track("a"), track("b"), track("c"));
    let mut engine = Engine::new(0);
    for t in [&a, &b, &c] {
        engine.apply(PlayerCommand::AddTrack(t.clone()), quiet(), 0);
    }
    assert!(engine.apply(PlayerCommand::RemoveTrack(1), quiet(), 0).is_empty());
    assert_eq!(engine.queue, vec![a, c]);
}

#[test]
fn remove_track_out_of_range_is_a_silent_no_op() {
    let (a, b) = (track("a"), track("b"));
    let mut engine = engine_playing(&a, &[b.clone()], Repeat::All);
    let before = engine.clone();
    for index in [1usize, 2, 99, usize::MAX] {
        let actions = engine.apply(PlayerCommand::RemoveTrack(index), playing(10), 5);
        assert!(actions.is_empty());
        assert_eq!(engine, before);
    }
    assert_eq!(engine.queue, vec![b]);
}

#[test]
fn play_on_empty_queue_does_nothing() {
    let mut engine = Engine::new(0);
    assert!(engine.apply(PlayerCommand::Play, quiet(), 0).is_empty());
    assert_eq!(engine, Engine::new(0));
}

#[test]
fn play_moves_head_of_queue_to_current() {
    let (a, b) = (track("a"), track("b"));
    let mut engine = Engine::new(0);
    engine.apply(PlayerCommand::AddTrack(a.clone()), quiet(), 0);
    engine.apply(PlayerCommand::AddTrack(b.clone()), quiet(), 0);
    let actions = engine.apply(PlayerCommand::Play, quiet(), 0);
    assert_eq!(actions, vec![Action::Resolve(a.clone())]);
    assert_eq!(engine.current, Some(a.clone()));
    assert_eq!(engine.queue, vec![b]);
    assert!(!engine.queue.contains(&a));
}

#[test]
fn loaded_track_starts_and_reports_resumed() {
    let a = track("a");
    let mut engine = Engine::new(0);
    engine.apply(PlayerCommand::AddTrack(a.clone()), quiet(), 0);
    engine.apply(PlayerCommand::Play, quiet(), 0);
    let actions = engine.loaded(Some(42_000));
    assert_eq!(
        actions,
        vec![
            Action::Emit(PlayerEvent::TrackLoaded(a.clone())),
            Action::StartOutput,
            Action::Emit(PlayerEvent::Resumed),
        ]
    );
    assert_eq!(engine.duration_ms, 42_000);
    assert_eq!(engine.current, Some(a));
}

#[test]
fn track_that_does_not_resolve_is_dropped() {
    let (a, b) = (track("a"), track("b"));
    let mut engine = Engine::new(0);
    engine.apply(PlayerCommand::SetRepeat(Repeat::All), quiet(), 0);
    engine.apply(PlayerCommand::AddTrack(a), quiet(), 0);
    engine.apply(PlayerCommand::AddTrack(b.clone()), quiet(), 0);
    engine.apply(PlayerCommand::Play, quiet(), 0);
    assert!(engine.loaded(None).is_empty());
    assert_eq!(engine.current, None);
    assert_eq!(engine.duration_ms, 0);
    // Nothing plays, so the tick sees no end of a track and reports nothing.
    let tick = engine.poll(quiet(), 1_000);
    assert!(tick.actions.is_empty());
    assert_eq!(engine.queue, vec![b.clone()]);
    // The next command goes on with the queue; the dropped track is not tried again.
    assert_eq!(
        engine.apply(PlayerCommand::Play, quiet(), 2_000),
        vec![Action::Resolve(b.clone())]
    );
    assert_eq!(engine.current, Some(b));
    assert!(engine.queue.is_empty());
}

#[test]
fn loaded_without_current_track_does_nothing() {
    let mut engine = Engine::new(0);
    assert!(engine.loaded(Some(5)).is_empty());
    assert_eq!(engine, Engine::new(0));
}

#[test]
fn play_interrupts_current_track() {
    let (a, b) = (track("a"), track("b"));
    let mut engine = engine_playing(&a, &[b.clone()], Repeat::Off);
    let actions = engine.apply(PlayerCommand::Play, playing(1_000), 10);
    assert_eq!(
        actions,
        vec![Action::ClearOutput, Action::Resolve(b.clone())]
    );
    assert_eq!(engine.current, Some(b));
    assert!(engine.queue.is_empty());
    assert_eq!(engine.duration_ms, 0);
}

#[test]
fn play_with_repeat_all_requeues_interrupted_track() {
    let (a, b) = (track("a"), track("b"));
    let mut engine = engine_playing(&a, &[b.clone()], Repeat::All);
    engine.apply(PlayerCommand::Play, playing(1_000), 10);
    assert_eq!(engine.current, Some(b));
    assert_eq!(engine.queue, vec![a]);
}

#[test]
fn repeat_one_plays_finished_track_again() {
    let (a, b) = (track("a"), track("b"));
    let mut engine = engine_playing(&a, &[b.clone()], Repeat::One);
    let tick = engine.poll(quiet(), 200_000);
    assert_eq!(
        tick.actions,
        vec![
            Action::Emit(PlayerEvent::End),
            Action::ClearOutput,
            Action::Resolve(a.clone()),
        ]
    );
    assert_eq!(engine.current, Some(a.clone()));
    assert_eq!(engine.queue, vec![b]);
    assert_eq!(tick.pause_ms, TICK_MS);
    assert_eq!(engine.loaded(Some(180_000))[0], Action::Emit(PlayerEvent::TrackLoaded(a)));
}

#[test]
fn repeat_all_moves_finished_track_to_tail() {
    let (a, b) = (track("a"), track("b"));
    let mut engine = engine_playing(&a, &[b.clone()], Repeat::All);
    let tick = engine.poll(quiet(), 200_000);
    assert_eq!(
        tick.actions,
        vec![
            Action::Emit(PlayerEvent::End),
            Action::ClearOutput,
            Action::Resolve(b.clone()),
        ]
    );
    // The queue was [B, A] when B was taken from its head.
    assert_eq!(engine.current, Some(b));
    assert_eq!(engine.queue, vec![a]);
}

#[test]
fn repeat_all_with_one_track_plays_it_again() {
    let a = track("a");
    let mut engine = engine_playing(&a, &[], Repeat::All);
    engine.poll(quiet(), 200_000);
    assert_eq!(engine.current, Some(a));
    assert!(engine.queue.is_empty());
}

#[test]
fn repeat_off_goes_on_with_the_queue() {
    let (a, b) = (track("a"), track("b"));
    let mut engine = engine_playing(&a, &[b.clone()], Repeat::Off);
    engine.poll(quiet(), 200_000);
    assert_eq!(engine.current, Some(b));
    assert!(engine.queue.is_empty());
}

#[test]
fn end_of_last_track_leaves_engine_idle() {
    let a = track("a");
    let mut engine = engine_playing(&a, &[], Repeat::Off);
    let tick = engine.poll(quiet(), 200_000);
    assert_eq!(tick.actions, vec![Action::Emit(PlayerEvent::End)]);
    assert_eq!(engine.current, None);
    assert!(engine.queue.is_empty());
    assert_eq!(engine.duration_ms, 0);
    // The end is reported once.
    assert!(engine.poll(quiet(), 200_200).actions.is_empty());
}

#[test]
fn progress_is_reported_at_most_every_100_ms() {
    let a = track("a");
    let mut engine = engine_playing(&a, &[], Repeat::Off);
    let first = engine.poll(playing(1_000), 10_000);
    assert_eq!(first.actions, vec![Action::Emit(PlayerEvent::Progress(1_000, 180_000))]);
    assert_eq!(first.pause_ms, TICK_MS);
    let held = engine.poll(playing(1_099), 10_099);
    assert!(held.actions.is_empty());
    assert_eq!(held.pause_ms, SHORT_TICK_MS);
    let second = engine.poll(playing(1_100), 10_100);
    assert_eq!(second.actions, vec![Action::Emit(PlayerEvent::Progress(1_100, 180_000))]);
    assert_eq!(engine.last_progress, 10_100);
}

#[test]
fn paused_device_reports_no_progress() {
    let a = track("a");
    let mut engine = engine_playing(&a, &[], Repeat::Off);
    let status = DeviceStatus { empty: false, paused: true, position_ms: 5 };
    let tick = engine.poll(status, 10_000);
    assert!(tick.actions.is_empty());
    assert_eq!(tick.pause_ms, TICK_MS);
}

#[test]
fn pause_toggles_between_paused_and_resumed() {
    let a = track("a");
    let mut engine = engine_playing(&a, &[], Repeat::Off);
    let pause = engine.apply(PlayerCommand::Pause, playing(7_000), 0);
    assert_eq!(
        pause,
        vec![
            Action::PauseOutput,
            Action::Emit(PlayerEvent::Progress(7_000, 180_000)),
            Action::Emit(PlayerEvent::Paused),
        ]
    );
    let status = DeviceStatus { empty: false, paused: true, position_ms: 7_000 };
    let resume = engine.apply(PlayerCommand::Pause, status, 0);
    assert_eq!(resume, vec![Action::ResumeOutput, Action::Emit(PlayerEvent::Resumed)]);
}

#[test]
fn seek_turns_fraction_into_offset() {
    let a = track("a");
    let mut engine = engine_playing(&a, &[], Repeat::Off);
    let actions = engine.apply(PlayerCommand::Seek(250_000), playing(0), 0);
    assert_eq!(actions, vec![Action::SeekTo(45_000)]);
    assert_eq!(engine.apply(PlayerCommand::Seek(0), playing(0), 0), vec![Action::SeekTo(0)]);
    assert_eq!(
        engine.apply(PlayerCommand::Seek(1_000_000), playing(0), 0),
        vec![Action::SeekTo(180_000)]
    );
}

#[test]
fn seek_without_current_track_does_nothing() {
    let mut engine = Engine::new(0);
    assert!(engine.apply(PlayerCommand::Seek(500_000), quiet(), 0).is_empty());
    assert_eq!(engine, Engine::new(0));
}

#[test]
fn seek_offset_rounds_down_and_saturates() {
    assert_eq!(offset_for(1_000, 333_333), 333);
    assert_eq!(offset_for(3, 500_000), 1);
    assert_eq!(offset_for(0, 1_000_000), 0);
    assert_eq!(offset_for(u64::MAX, 1_000_000), u64::MAX);
    assert_eq!(offset_for(u64::MAX, 2_000_000), u64::MAX);
    assert_eq!(offset_for(10, u32::MAX), 42_949);
}

#[test]
fn set_volume_sets_gain_and_marks_volume_pending() {
    let mut engine = Engine::new(100_000);
    let actions = engine.apply(PlayerCommand::SetVolume(700_000), quiet(), 1_234);
    assert_eq!(actions, vec![Action::SetGain(700_000)]);
    assert_eq!(engine.volume, 700_000);
    assert_eq!(engine.pending_volume_save, Some(700_000));
    assert_eq!(engine.last_volume_change, 1_234);
}

#[test]
fn mute_silences_and_unmute_restores_without_touching_stored_volume() {
    let mut engine = Engine::new(600_000);
    assert_eq!(
        engine.apply(PlayerCommand::SetMuted(true), quiet(), 0),
        vec![Action::SetGain(0)]
    );
    assert_eq!(engine.volume, 600_000);
    assert_eq!(engine.pending_volume_save, None);
    assert_eq!(
        engine.apply(PlayerCommand::SetMuted(false), quiet(), 0),
        vec![Action::SetGain(600_000)]
    );
    assert_eq!(engine.settle_volume(10_000), None);
}

#[test]
fn unmute_restores_the_last_volume_above_zero() {
    let mut engine = Engine::new(600_000);
    engine.apply(PlayerCommand::SetVolume(300_000), quiet(), 0);
    engine.apply(PlayerCommand::SetVolume(0), quiet(), 10);
    assert_eq!(engine.volume, 0);
    assert_eq!(engine.pending_volume_save, Some(0));
    assert_eq!(
        engine.apply(PlayerCommand::SetMuted(false), quiet(), 20),
        vec![Action::SetGain(300_000)]
    );
    // The volume that is stored stays the one that was set.
    assert_eq!(engine.settle_volume(10 + DEBOUNCE_MS), Some(0));
    let mut silent = Engine::new(0);
    assert_eq!(
        silent.apply(PlayerCommand::SetMuted(false), quiet(), 0),
        vec![Action::SetGain(0)]
    );
}

#[test]
fn engine_goes_through_its_phases() {
    let (a, b) = (track("a"), track("b"));
    let mut engine = Engine::new(0);
    assert_eq!(engine.phase(quiet()), Phase::Idle);
    engine.apply(PlayerCommand::AddTrack(a), quiet(), 0);
    engine.apply(PlayerCommand::AddTrack(b), quiet(), 0);
    assert_eq!(engine.phase(quiet()), Phase::Idle);
    engine.apply(PlayerCommand::Play, quiet(), 0);
    assert_eq!(engine.phase(quiet()), Phase::Loading);
    engine.loaded(Some(1_000));
    assert_eq!(engine.phase(playing(0)), Phase::Playing);
    let paused = DeviceStatus { empty: false, paused: true, position_ms: 0 };
    assert_eq!(engine.phase(paused), Phase::Paused);
    engine.poll(quiet(), 5_000);
    assert_eq!(engine.phase(quiet()), Phase::Loading);
    engine.loaded(Some(1_000));
    engine.poll(quiet(), 9_000);
    assert_eq!(engine.phase(quiet()), Phase::Idle);
}

#[test]
fn stop_silences_and_keeps_queue() {
    let (a, b) = (track("a"), track("b"));
    let mut engine = engine_playing(&a, &[b.clone()], Repeat::Off);
    let actions = engine.apply(PlayerCommand::Stop, playing(5), 0);
    assert_eq!(actions, vec![Action::ClearOutput]);
    assert_eq!(engine.duration_ms, 0);
    assert_eq!(engine.current, Some(a));
    assert_eq!(engine.queue, vec![b]);
    // A stopped track is not taken for one that played to its end.
    assert!(engine.poll(quiet(), 1_000).actions.is_empty());
}

#[test]
fn clear_queue_empties_everything() {
    let (a, b) = (track("a"), track("b"));
    let mut engine = engine_playing(&a, &[b], Repeat::One);
    let actions = engine.apply(PlayerCommand::ClearQueue, playing(5), 0);
    assert_eq!(actions, vec![Action::ClearOutput]);
    assert_eq!(engine.current, None);
    assert!(engine.queue.is_empty());
    assert_eq!(engine.duration_ms, 0);
    assert_eq!(engine.repeat, Repeat::One);
}

#[test]
fn set_repeat_changes_only_the_mode() {
    let mut engine = Engine::new(1);
    assert!(engine.apply(PlayerCommand::SetRepeat(Repeat::All), quiet(), 0).is_empty());
    assert_eq!(engine.repeat, Repeat::All);
    assert!(engine.apply(PlayerCommand::SetRepeat(Repeat::Off), quiet(), 0).is_empty());
    assert_eq!(engine, Engine::new(1));
}

#[test]
fn coalescing_keeps_only_the_last_volume() {
    let commands = vec![
        PlayerCommand::SetVolume(100_000),
        PlayerCommand::SetVolume(900_000),
        PlayerCommand::SetVolume(500_000),
    ];
    let kept = coalesce(commands);
    assert_eq!(kept, vec![PlayerCommand::SetVolume(500_000)]);
    let mut engine = Engine::new(0);
    let mut gains = Vec::new();
    for cmd in kept {
        gains.extend(engine.apply(cmd, quiet(), 0));
    }
    assert_eq!(gains, vec![Action::SetGain(500_000)]);
    assert_eq!(engine.volume, 500_000);
}

#[test]
fn coalescing_keeps_other_commands_in_order_and_latest_last() {
    let a = track("a");
    let commands = vec![
        PlayerCommand::SetMuted(true),
        PlayerCommand::AddTrack(a.clone()),
        PlayerCommand::Seek(100),
        PlayerCommand::SetVolume(1),
        PlayerCommand::Play,
        PlayerCommand::Seek(200),
        PlayerCommand::Pause,
        PlayerCommand::SetMuted(false),
        PlayerCommand::SetVolume(2),
        PlayerCommand::RemoveTrack(3),
        PlayerCommand::Pause,
    ];
    assert_eq!(
        coalesce(commands),
        vec![
            PlayerCommand::AddTrack(a),
            PlayerCommand::Play,
            PlayerCommand::Pause,
            PlayerCommand::RemoveTrack(3),
            PlayerCommand::Pause,
            PlayerCommand::SetVolume(2),
            PlayerCommand::Seek(200),
            PlayerCommand::SetMuted(false),
        ]
    );
}

#[test]
fn coalescing_nothing_yields_nothing() {
    assert_eq!(coalesce(vec![]), vec![]);
    assert_eq!(
        coalesce(vec![PlayerCommand::Stop, PlayerCommand::ClearQueue]),
        vec![PlayerCommand::Stop, PlayerCommand::ClearQueue]
    );
}

#[test]
fn volume_is_stored_once_after_300_ms_of_quiet() {
    let mut engine = Engine::new(0);
    let mut writes = Vec::new();
    // A drag of the slider: a change every 100 ms, looked after on each tick.
    for (i, volume) in [100_000u32, 200_000, 300_000, 400_000].into_iter().enumerate() {
        let now = 1_000 + 100 * i as i64;
        engine.apply(PlayerCommand::SetVolume(volume), quiet(), now);
        writes.extend(engine.settle_volume(now));
        writes.extend(engine.settle_volume(now + 99));
    }
    assert!(writes.is_empty());
    // The last change was at 1300.
    writes.extend(engine.settle_volume(1_300 + DEBOUNCE_MS - 1));
    assert!(writes.is_empty());
    writes.extend(engine.settle_volume(1_300 + DEBOUNCE_MS));
    assert_eq!(writes, vec![400_000]);
    writes.extend(engine.settle_volume(1_300 + DEBOUNCE_MS + 200));
    writes.extend(engine.settle_volume(100_000));
    assert_eq!(writes, vec![400_000]);
    assert_eq!(engine.pending_volume_save, None);
    assert_eq!(engine.volume, 400_000);
}

#[test]
fn debounce_holds_at_the_ends_of_time() {
    let mut engine = Engine::new(0);
    engine.apply(PlayerCommand::SetVolume(5), quiet(), i64::MIN);
    assert_eq!(engine.settle_volume(i64::MAX), Some(5));
    engine.apply(PlayerCommand::SetVolume(6), quiet(), i64::MAX);
    assert_eq!(engine.settle_volume(i64::MIN), None);
    assert_eq!(engine.pending_volume_save, Some(6));
}

#[test]
fn repeat_control_cycles_through_the_modes() {
    assert_eq!(Repeat::Off.next(), Repeat::All);
    assert_eq!(Repeat::All.next(), Repeat::One);
    assert_eq!(Repeat::One.next(), Repeat::Off);
    assert_eq!(Repeat::Off.next().next().next(), Repeat::Off);
}

#[test]
fn media_keys_toggle_playback() {
    assert_eq!(MediaKey::Play.command(), Some(PlayerCommand::Pause));
    assert_eq!(MediaKey::Pause.command(), Some(PlayerCommand::Pause));
    assert_eq!(MediaKey::Other.command(), None);
}
