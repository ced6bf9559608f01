//! The state machine of the playback engine.
//!
//! The engine owns the queue, the current track and the repeat mode. It never
//! touches the audio device: each step takes what the device reports and the
//! time, and returns the actions to perform on the device and the events to
//! broadcast. The task that runs the engine performs them in order.

use vstd::prelude::*;
use crate::model::{clone_tracks, track_views, Track, TrackView};
use crate::player::command::{CommandView, EventView, PlayerCommand, PlayerEvent, Repeat};

verus! {

/// Quiet time after the last change of volume before it is stored, in
/// milliseconds.
pub const DEBOUNCE_MS: i64 = 300;

/// Least time between two reports of progress, in milliseconds.
pub const PROGRESS_INTERVAL_MS: i64 = 100;

/// Pause between two ticks, in milliseconds.
pub const TICK_MS: u64 = 200;

/// Pause after a tick that held back a report of progress, in milliseconds.
pub const SHORT_TICK_MS: u64 = 100;

/// What the audio device reports of itself.
#[derive(Debug, Clone, Copy)]
pub struct DeviceStatus {
    /// Nothing is left to play.
    pub empty: bool,
    pub paused: bool,
    /// Place of the playhead within what is playing, in milliseconds.
    pub position_ms: u64,
}

/// Something for the engine's task to do.
#[derive(Debug, PartialEq)]
pub enum Action {
    /// Silence the device and discard what it holds.
    ClearOutput,
    /// Resolve the audio of this track, which is the current one, and tell
    /// the engine with [`Engine::loaded`] what came of it.
    Resolve(Track),
    /// Hand the resolved audio to the device and let it play.
    StartOutput,
    ResumeOutput,
    PauseOutput,
    /// Move the playhead to this offset, in milliseconds.
    SeekTo(u64),
    /// Set the gain of the device, in millionths of full scale.
    SetGain(u32),
    /// Broadcast this event.
    Emit(PlayerEvent),
}

/// Mathematical value of an [`Action`].
pub enum ActionView {
    ClearOutput,
    Resolve(TrackView),
    StartOutput,
    ResumeOutput,
    PauseOutput,
    SeekTo(u64),
    SetGain(u32),
    Emit(EventView),
}

impl View for Action {
    type V = ActionView;

    open spec fn view(&self) -> ActionView {
        match self {
            Action::ClearOutput => ActionView::ClearOutput,
            Action::Resolve(t) => ActionView::Resolve(t@),
            Action::StartOutput => ActionView::StartOutput,
            Action::ResumeOutput => ActionView::ResumeOutput,
            Action::PauseOutput => ActionView::PauseOutput,
            Action::SeekTo(o) => ActionView::SeekTo(*o),
            Action::SetGain(g) => ActionView::SetGain(*g),
            Action::Emit(e) => ActionView::Emit(e@),
        }
    }
}

/// Values of a sequence of actions, in order.
pub open spec fn action_views(s: Seq<Action>) -> Seq<ActionView> {
    s.map_values(|a: Action| a@)
}

/// The offset that lies `fraction` millionths into `duration_ms`, rounded
/// down, and no more than a `u64` holds.
pub open spec fn seek_offset(duration_ms: u64, fraction: u32) -> u64 {
    let exact = duration_ms * fraction / 1_000_000;
    if exact > u64::MAX {
        u64::MAX
    } else {
        exact as u64
    }
}

/// The queue after a track that played to its end took its place again.
pub open spec fn requeued(
    queue: Seq<TrackView>,
    finished: Option<TrackView>,
    repeat: Repeat,
) -> Seq<TrackView> {
    match (repeat, finished) {
        (Repeat::One, Some(t)) => seq![t] + queue,
        (Repeat::All, Some(t)) => queue.push(t),
        _ => queue,
    }
}

/// State of the playback engine.
#[derive(Debug, PartialEq)]
pub struct Engine {
    /// Tracks that wait to be played, the next one first.
    pub queue: Vec<Track>,
    /// The track that is loaded, if any.
    pub current: Option<Track>,
    pub repeat: Repeat,
    /// The volume that was set last, in millionths.
    pub volume: u32,
    /// The last volume above zero: the gain that the device gets back when
    /// it is no longer muted. Zero while no volume above zero was set.
    pub audible: u32,
    /// Duration of what the device plays, in milliseconds; 0 while nothing
    /// is loaded.
    pub duration_ms: u64,
    /// A volume that was set and is not stored yet.
    pub pending_volume_save: Option<u32>,
    /// Time of the last change of volume.
    pub last_volume_change: i64,
    /// Time of the last report of progress.
    pub last_progress: i64,
}

/// Mathematical value of an [`Engine`].
pub struct EngineView {
    pub queue: Seq<TrackView>,
    pub current: Option<TrackView>,
    pub repeat: Repeat,
    pub volume: u32,
    pub audible: u32,
    pub duration_ms: u64,
    pub pending_volume_save: Option<u32>,
    pub last_volume_change: i64,
    pub last_progress: i64,
}

/// Value of an optional track.
pub open spec fn opt_track(o: Option<Track>) -> Option<TrackView> {
    match o {
        Some(t) => Some(t@),
        None => None,
    }
}

impl View for Engine {
    type V = EngineView;

    open spec fn view(&self) -> EngineView {
        EngineView {
            queue: track_views(self.queue@),
            current: opt_track(self.current),
            repeat: self.repeat,
            volume: self.volume,
            audible: self.audible,
            duration_ms: self.duration_ms,
            pending_volume_save: self.pending_volume_save,
            last_volume_change: self.last_volume_change,
            last_progress: self.last_progress,
        }
    }
}

impl Clone for Engine {
    fn clone(&self) -> (r: Self)
        ensures
            r@ == self@,
    {
        let current = match &self.current {
            Some(t) => Some(t.clone()),
            None => None,
        };
        Engine {
            queue: clone_tracks(&self.queue),
            current,
            repeat: self.repeat,
            volume: self.volume,
            audible: self.audible,
            duration_ms: self.duration_ms,
            pending_volume_save: self.pending_volume_save,
            last_volume_change: self.last_volume_change,
            last_progress: self.last_progress,
        }
    }
}

/// What a step of the engine comes to: the state after it and the actions it
/// asks for.
pub struct Outcome {
    pub state: EngineView,
    pub actions: Seq<ActionView>,
}

impl EngineView {
    /// A duration is known only of a loaded track.
    pub open spec fn well_formed(self) -> bool {
        self.current is None ==> self.duration_ms == 0
    }

    /// The engine has nothing to play.
    pub open spec fn idle(self) -> bool {
        self.current is None && self.queue.len() == 0
    }

    /// Where the engine stands, with the device as `status` reports it.
    pub open spec fn phase(self, status: DeviceStatus) -> Phase {
        if self.current is None {
            Phase::Idle
        } else if self.duration_ms == 0 {
            Phase::Loading
        } else if status.paused {
            Phase::Paused
        } else {
            Phase::Playing
        }
    }

    /// The state of an engine that was just made.
    pub open spec fn initial(volume: u32) -> EngineView {
        EngineView {
            queue: seq![],
            current: None,
            repeat: Repeat::Off,
            volume,
            audible: volume,
            duration_ms: 0,
            pending_volume_save: None,
            last_volume_change: 0,
            last_progress: 0,
        }
    }

    /// The head of `queue` becomes the current track and is to be resolved.
    pub open spec fn advance(self, queue: Seq<TrackView>) -> Outcome
        recommends
            queue.len() > 0,
    {
        Outcome {
            state: EngineView {
                queue: queue.drop_first(),
                current: Some(queue[0]),
                duration_ms: 0,
                ..self
            },
            actions: seq![ActionView::Resolve(queue[0])],
        }
    }

    /// `Play`: nothing on an empty queue. Else a current track is
    /// interrupted, and goes to the end of the queue if all tracks repeat;
    /// then the head of the queue becomes the current track.
    pub open spec fn play(self) -> Outcome {
        if self.queue.len() == 0 {
            Outcome { state: self, actions: seq![] }
        } else {
            match self.current {
                Some(t) => {
                    let queue = if self.repeat == Repeat::All {
                        self.queue.push(t)
                    } else {
                        self.queue
                    };
                    let next = self.advance(queue);
                    Outcome {
                        state: next.state,
                        actions: seq![ActionView::ClearOutput] + next.actions,
                    }
                },
                None => self.advance(self.queue),
            }
        }
    }

    /// What applying one command comes to, at time `now` and with the device
    /// as `status` reports it.
    pub open spec fn apply(self, cmd: CommandView, status: DeviceStatus, now: i64) -> Outcome {
        match cmd {
            CommandView::AddTrack(t) => Outcome {
                state: EngineView { queue: self.queue.push(t), ..self },
                actions: seq![],
            },
            CommandView::RemoveTrack(i) => Outcome {
                state: if i < self.queue.len() {
                    EngineView { queue: self.queue.remove(i as int), ..self }
                } else {
                    self
                },
                actions: seq![],
            },
            CommandView::ClearQueue => Outcome {
                state: EngineView { queue: seq![], current: None, duration_ms: 0, ..self },
                actions: seq![ActionView::ClearOutput],
            },
            CommandView::SetRepeat(mode) => Outcome {
                state: EngineView { repeat: mode, ..self },
                actions: seq![],
            },
            CommandView::Play => self.play(),
            CommandView::Pause => Outcome {
                state: self,
                actions: if status.paused {
                    seq![ActionView::ResumeOutput, ActionView::Emit(EventView::Resumed)]
                } else {
                    seq![
                        ActionView::PauseOutput,
                        ActionView::Emit(EventView::Progress(status.position_ms, self.duration_ms)),
                        ActionView::Emit(EventView::Paused),
                    ]
                },
            },
            CommandView::Stop => Outcome {
                state: EngineView { duration_ms: 0, ..self },
                actions: seq![ActionView::ClearOutput],
            },
            CommandView::Seek(fraction) => Outcome {
                state: self,
                actions: if self.current is Some {
                    seq![ActionView::SeekTo(seek_offset(self.duration_ms, fraction))]
                } else {
                    seq![]
                },
            },
            CommandView::SetVolume(v) => Outcome {
                state: EngineView {
                    volume: v,
                    audible: if v > 0 {
                        v
                    } else {
                        self.audible
                    },
                    pending_volume_save: Some(v),
                    last_volume_change: now,
                    ..self
                },
                actions: seq![ActionView::SetGain(v)],
            },
            CommandView::SetMuted(muted) => Outcome {
                state: self,
                actions: seq![ActionView::SetGain(if muted { 0 } else { self.audible })],
            },
        }
    }

    /// What the end of resolving the current track comes to. With a duration
    /// the track is reported as loaded and starts to play. Without one its
    /// audio could not be had: the track is dropped, and nothing is reported.
    pub open spec fn loaded(self, duration_ms: Option<u64>) -> Outcome {
        match (self.current, duration_ms) {
            (Some(t), Some(d)) => Outcome {
                state: EngineView { duration_ms: d, ..self },
                actions: seq![
                    ActionView::Emit(EventView::TrackLoaded(t)),
                    ActionView::StartOutput,
                    ActionView::Emit(EventView::Resumed),
                ],
            },
            (Some(_), None) => Outcome {
                state: EngineView { current: None, duration_ms: 0, ..self },
                actions: seq![],
            },
            (None, _) => Outcome { state: self, actions: seq![] },
        }
    }

    /// Whether a volume waits to be stored and has been left alone for long
    /// enough at time `now`.
    pub open spec fn volume_due(self, now: i64) -> bool {
        self.pending_volume_save is Some && now - self.last_volume_change >= DEBOUNCE_MS
    }

    /// The state after the volume was looked after at time `now`.
    pub open spec fn settle(self, now: i64) -> EngineView {
        if self.volume_due(now) {
            EngineView { pending_volume_save: None, ..self }
        } else {
            self
        }
    }

    /// The volume to store at time `now`, if one is due.
    pub open spec fn volume_to_store(self, now: i64) -> Option<u32> {
        if self.volume_due(now) {
            self.pending_volume_save
        } else {
            None
        }
    }

    /// Whether the device has played a track to its end.
    pub open spec fn at_end(self, status: DeviceStatus) -> bool {
        status.empty && self.duration_ms > 0
    }

    /// Whether a report of progress is held back at time `now`.
    pub open spec fn throttled(self, status: DeviceStatus, now: i64) -> bool {
        !status.empty && !status.paused && now - self.last_progress < PROGRESS_INTERVAL_MS
    }

    /// What looking at the device once per tick comes to. At the end of a
    /// track the repeat mode decides where the track goes, and the head of
    /// the queue, if there is one, becomes the current track. While the
    /// device plays, progress is reported, but not more often than the
    /// interval allows.
    pub open spec fn poll(self, status: DeviceStatus, now: i64) -> Outcome {
        if self.at_end(status) {
            let queue = requeued(self.queue, self.current, self.repeat);
            if queue.len() > 0 {
                let next = self.advance(queue);
                Outcome {
                    state: next.state,
                    actions: seq![ActionView::Emit(EventView::End), ActionView::ClearOutput]
                        + next.actions,
                }
            } else {
                Outcome {
                    state: EngineView { current: None, duration_ms: 0, ..self },
                    actions: seq![ActionView::Emit(EventView::End)],
                }
            }
        } else if !status.empty && !status.paused && !self.throttled(status, now) {
            Outcome {
                state: EngineView { last_progress: now, ..self },
                actions: seq![
                    ActionView::Emit(EventView::Progress(status.position_ms, self.duration_ms)),
                ],
            }
        } else {
            Outcome { state: self, actions: seq![] }
        }
    }

    /// How long to wait after the tick's look at the device, in milliseconds.
    pub open spec fn pause_after_poll(self, status: DeviceStatus, now: i64) -> u64 {
        if self.throttled(status, now) {
            SHORT_TICK_MS
        } else {
            TICK_MS
        }
    }
}

/// Where the engine stands.
#[derive(Debug, PartialEq, Eq, Structural, Clone, Copy)]
pub enum Phase {
    /// No track is current.
    Idle,
    /// A track is current and its audio is not there: it is being resolved,
    /// or was stopped.
    Loading,
    /// A track is current and the device plays it.
    Playing,
    /// A track is current and the device holds it paused.
    Paused,
}

/// What a look at the device asks for, and how long to wait after it.
#[derive(Debug, PartialEq)]
pub struct Tick {
    pub actions: Vec<Action>,
    /// Time to wait before the next tick, in milliseconds.
    pub pause_ms: u64,
}

/// Computes [`seek_offset`].
pub fn offset_for(duration_ms: u64, fraction: u32) -> (r: u64)
    ensures
        r == seek_offset(duration_ms, fraction),
{
    assert(duration_ms * fraction <= 0xffff_ffff_ffff_ffff * 0xffff_ffff) by (nonlinear_arith)
        requires
            duration_ms <= 0xffff_ffff_ffff_ffff,
            fraction <= 0xffff_ffff,
    ;
    let product: u128 = (duration_ms as u128) * (fraction as u128);
    let exact: u128 = product / 1_000_000;
    if exact > u64::MAX as u128 {
        u64::MAX
    } else {
        exact as u64
    }
}

impl Engine {
    /// An engine with an empty queue, no current track and no repeat.
    pub fn new(volume: u32) -> (r: Engine)
        ensures
            r@ == EngineView::initial(volume),
            r@.well_formed(),
            r@.idle(),
    {
        let r = Engine {
            queue: Vec::new(),
            current: None,
            repeat: Repeat::Off,
            volume,
            audible: volume,
            duration_ms: 0,
            pending_volume_save: None,
            last_volume_change: 0,
            last_progress: 0,
        };
        assert(r@.queue =~= seq![]);
        r
    }

    /// Tells where the engine stands, with the device as `status` reports it.
    pub fn phase(&self, status: DeviceStatus) -> (r: Phase)
        ensures
            r == self@.phase(status),
    {
        if self.current.is_none() {
            Phase::Idle
        } else if self.duration_ms == 0 {
            Phase::Loading
        } else if status.paused {
            Phase::Paused
        } else {
            Phase::Playing
        }
    }

    /// Makes the head of the queue the current track and asks for its audio.
    fn advance(&mut self, actions: &mut Vec<Action>)
        requires
            old(self).queue@.len() > 0,
        ensures
            final(self)@ == old(self)@.advance(old(self)@.queue).state,
            action_views(final(actions)@) == action_views(old(actions)@) + old(self)@.advance(
                old(self)@.queue,
            ).actions,
    {
        let ghost before = action_views(actions@);
        let next = self.queue.remove(0);
        actions.push(Action::Resolve(next.clone()));
        self.current = Some(next);
        self.duration_ms = 0;
        proof {
            let old_queue = old(self)@.queue;
            assert(self@.queue =~= old_queue.drop_first());
            assert(action_views(actions@) =~= before + old(self)@.advance(old_queue).actions);
        }
    }

    /// Applies one command, at time `now` and with the device as `status`
    /// reports it. The actions are to be performed in order before the next
    /// step.
    #[verifier::rlimit(40)]
    pub fn apply(&mut self, cmd: PlayerCommand, status: DeviceStatus, now: i64) -> (r: Vec<Action>)
        ensures
            final(self)@ == old(self)@.apply(cmd@, status, now).state,
            action_views(r@) == old(self)@.apply(cmd@, status, now).actions,
            old(self)@.well_formed() ==> final(self)@.well_formed(),
    {
        let mut actions: Vec<Action> = Vec::new();
        assert(action_views(actions@) =~= seq![]);
        match cmd {
            PlayerCommand::AddTrack(track) => {
                self.queue.push(track);
                assert(self@.queue =~= old(self)@.queue.push(track@));
            },
            PlayerCommand::RemoveTrack(index) => {
                if index < self.queue.len() {
                    let _ = self.queue.remove(index);
                    assert(self@.queue =~= old(self)@.queue.remove(index as int));
                }
            },
            PlayerCommand::ClearQueue => {
                self.queue.clear();
                self.current = None;
                self.duration_ms = 0;
                actions.push(Action::ClearOutput);
                assert(self@.queue =~= seq![]);
            },
            PlayerCommand::SetRepeat(mode) => {
                self.repeat = mode;
            },
            PlayerCommand::Play => {
                if self.queue.len() > 0 {
                    match self.current.take() {
                        Some(interrupted) => {
                            actions.push(Action::ClearOutput);
                            if self.repeat == Repeat::All {
                                self.queue.push(interrupted);
                                assert(self@.queue =~= old(self)@.queue.push(interrupted@));
                            }
                            assert(action_views(actions@) =~= seq![ActionView::ClearOutput]);
                            self.advance(&mut actions);
                        },
                        None => {
                            self.advance(&mut actions);
                        },
                    }
                }
            },
            PlayerCommand::Pause => {
                if status.paused {
                    actions.push(Action::ResumeOutput);
                    actions.push(Action::Emit(PlayerEvent::Resumed));
                } else {
                    actions.push(Action::PauseOutput);
                    actions.push(
                        Action::Emit(PlayerEvent::Progress(status.position_ms, self.duration_ms)),
                    );
                    actions.push(Action::Emit(PlayerEvent::Paused));
                }
            },
            PlayerCommand::Stop => {
                self.duration_ms = 0;
                actions.push(Action::ClearOutput);
            },
            PlayerCommand::Seek(fraction) => {
                if self.current.is_some() {
                    actions.push(Action::SeekTo(offset_for(self.duration_ms, fraction)));
                }
            },
            PlayerCommand::SetVolume(v) => {
                self.volume = v;
                if v > 0 {
                    self.audible = v;
                }
                self.pending_volume_save = Some(v);
                self.last_volume_change = now;
                actions.push(Action::SetGain(v));
            },
            PlayerCommand::SetMuted(muted) => {
                let gain: u32 = if muted { 0 } else { self.audible };
                actions.push(Action::SetGain(gain));
            },
        }
        assert(self@ == old(self)@.apply(cmd@, status, now).state);
        assert(action_views(actions@) =~= old(self)@.apply(cmd@, status, now).actions);
        actions
    }

    /// Takes note of how resolving the current track ended: `Some` with the
    /// duration of the audio, in milliseconds, or `None` where the audio
    /// could not be had.
    pub fn loaded(&mut self, duration_ms: Option<u64>) -> (r: Vec<Action>)
        ensures
            final(self)@ == old(self)@.loaded(duration_ms).state,
            action_views(r@) == old(self)@.loaded(duration_ms).actions,
            old(self)@.well_formed() ==> final(self)@.well_formed(),
    {
        let mut actions: Vec<Action> = Vec::new();
        match (&self.current, duration_ms) {
            (Some(track), Some(d)) => {
                actions.push(Action::Emit(PlayerEvent::TrackLoaded(track.clone())));
                actions.push(Action::StartOutput);
                actions.push(Action::Emit(PlayerEvent::Resumed));
                self.duration_ms = d;
            },
            (Some(_), None) => {
                self.current = None;
                self.duration_ms = 0;
            },
            (None, _) => {},
        }
        assert(action_views(actions@) =~= old(self)@.loaded(duration_ms).actions);
        actions
    }

    /// Returns the volume to store, once it has been left alone for
    /// [`DEBOUNCE_MS`]; it is then no longer pending.
    pub fn settle_volume(&mut self, now: i64) -> (r: Option<u32>)
        ensures
            final(self)@ == old(self)@.settle(now),
            r == old(self)@.volume_to_store(now),
            old(self)@.well_formed() ==> final(self)@.well_formed(),
    {
        match self.pending_volume_save {
            Some(v) => {
                if (now as i128) - (self.last_volume_change as i128) >= DEBOUNCE_MS as i128 {
                    self.pending_volume_save = None;
                    Some(v)
                } else {
                    None
                }
            },
            None => None,
        }
    }

    /// Looks at the device once per tick, at time `now`.
    #[verifier::rlimit(40)]
    pub fn poll(&mut self, status: DeviceStatus, now: i64) -> (r: Tick)
        ensures
            final(self)@ == old(self)@.poll(status, now).state,
            action_views(r.actions@) == old(self)@.poll(status, now).actions,
            r.pause_ms == old(self)@.pause_after_poll(status, now),
            old(self)@.well_formed() ==> final(self)@.well_formed(),
    {
        let mut actions: Vec<Action> = Vec::new();
        let mut pause_ms: u64 = TICK_MS;
        if status.empty && self.duration_ms > 0 {
            actions.push(Action::Emit(PlayerEvent::End));
            match self.current.take() {
                Some(finished) => {
                    match self.repeat {
                        Repeat::One => {
                            self.queue.insert(0, finished);
                            assert(self@.queue =~= seq![finished@] + old(self)@.queue);
                        },
                        Repeat::All => {
                            self.queue.push(finished);
                            assert(self@.queue =~= old(self)@.queue.push(finished@));
                        },
                        Repeat::Off => {},
                    }
                },
                None => {},
            }
            assert(self@.queue == requeued(old(self)@.queue, old(self)@.current, self.repeat));
            if self.queue.len() > 0 {
                actions.push(Action::ClearOutput);
                assert(action_views(actions@) =~= seq![
                    ActionView::Emit(EventView::End),
                    ActionView::ClearOutput,
                ]);
                self.advance(&mut actions);
            } else {
                self.duration_ms = 0;
            }
        } else if !status.empty && !status.paused {
            if (now as i128) - (self.last_progress as i128) < PROGRESS_INTERVAL_MS as i128 {
                pause_ms = SHORT_TICK_MS;
            } else {
                actions.push(
                    Action::Emit(PlayerEvent::Progress(status.position_ms, self.duration_ms)),
                );
                self.last_progress = now;
            }
        }
        assert(self@ == old(self)@.poll(status, now).state);
        assert(action_views(actions@) =~= old(self)@.poll(status, now).actions);
        Tick { actions, pause_ms }
    }
}

} // verus!
