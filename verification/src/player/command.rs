//! Commands to the playback engine, its events, and the coalescing of the
//! commands that arrive within one tick.

use vstd::prelude::*;
use crate::model::{Track, TrackView};
use crate::vecs::reversed;

verus! {

/// What happens to a track when it has played to its end.
#[derive(Debug, PartialEq, Eq, Structural, Clone, Copy)]
pub enum Repeat {
    /// It is not played again.
    Off,
    /// It goes to the end of the queue.
    All,
    /// It goes to the front of the queue, and so plays again.
    One,
}

impl Repeat {
    /// The mode that follows this one when the control for it is pressed:
    /// from off to all, from all to one, and from one to off again.
    pub fn next(self) -> (r: Repeat)
        ensures
            r == match self {
                Repeat::Off => Repeat::All,
                Repeat::All => Repeat::One,
                Repeat::One => Repeat::Off,
            },
            r != self,
    {
        match self {
            Repeat::Off => Repeat::All,
            Repeat::All => Repeat::One,
            Repeat::One => Repeat::Off,
        }
    }
}

/// Parts of the full scale in one whole: gains and positions within a track
/// are given in millionths.
pub const FULL_SCALE: u32 = 1_000_000;

/// A request to the playback engine.
#[derive(Debug, PartialEq)]
pub enum PlayerCommand {
    /// Append a track to the queue.
    AddTrack(Track),
    /// Remove the track at this place of the queue, if there is one.
    RemoveTrack(usize),
    /// Empty the queue, forget the current track and silence the device.
    ClearQueue,
    SetRepeat(Repeat),
    /// Start the track at the head of the queue.
    Play,
    /// Pause a playing device, resume a paused one.
    Pause,
    /// Silence the device and keep the queue.
    Stop,
    /// Move to a position within the current track, in millionths of its
    /// duration.
    Seek(u32),
    /// Set the gain of the device, in millionths of full scale.
    SetVolume(u32),
    SetMuted(bool),
}

/// Mathematical value of a [`PlayerCommand`].
pub enum CommandView {
    AddTrack(TrackView),
    RemoveTrack(usize),
    ClearQueue,
    SetRepeat(Repeat),
    Play,
    Pause,
    Stop,
    Seek(u32),
    SetVolume(u32),
    SetMuted(bool),
}

impl View for PlayerCommand {
    type V = CommandView;

    open spec fn view(&self) -> CommandView {
        match self {
            PlayerCommand::AddTrack(t) => CommandView::AddTrack(t@),
            PlayerCommand::RemoveTrack(i) => CommandView::RemoveTrack(*i),
            PlayerCommand::ClearQueue => CommandView::ClearQueue,
            PlayerCommand::SetRepeat(m) => CommandView::SetRepeat(*m),
            PlayerCommand::Play => CommandView::Play,
            PlayerCommand::Pause => CommandView::Pause,
            PlayerCommand::Stop => CommandView::Stop,
            PlayerCommand::Seek(p) => CommandView::Seek(*p),
            PlayerCommand::SetVolume(v) => CommandView::SetVolume(*v),
            PlayerCommand::SetMuted(m) => CommandView::SetMuted(*m),
        }
    }
}

/// Values of a sequence of commands, in order.
pub open spec fn command_views(s: Seq<PlayerCommand>) -> Seq<CommandView> {
    s.map_values(|c: PlayerCommand| c@)
}

/// A report of the playback engine to its observers.
#[derive(Debug, PartialEq)]
pub enum PlayerEvent {
    /// The audio of this track, the current one, is there: it starts to
    /// play.
    TrackLoaded(Track),
    /// Position within the current track and its duration, in milliseconds.
    Progress(u64, u64),
    Paused,
    Resumed,
    /// The current track played to its end.
    End,
}

/// Mathematical value of a [`PlayerEvent`].
pub enum EventView {
    TrackLoaded(TrackView),
    Progress(u64, u64),
    Paused,
    Resumed,
    End,
}

impl View for PlayerEvent {
    type V = EventView;

    open spec fn view(&self) -> EventView {
        match self {
            PlayerEvent::TrackLoaded(t) => EventView::TrackLoaded(t@),
            PlayerEvent::Progress(p, d) => EventView::Progress(*p, *d),
            PlayerEvent::Paused => EventView::Paused,
            PlayerEvent::Resumed => EventView::Resumed,
            PlayerEvent::End => EventView::End,
        }
    }
}

/// A key of the system's media controls.
#[derive(Debug, PartialEq, Eq, Structural, Clone, Copy)]
pub enum MediaKey {
    Play,
    Pause,
    /// Any other key.
    Other,
}

impl MediaKey {
    /// The command that a key stands for: the keys to play and to pause both
    /// toggle between the two, the others do nothing.
    pub fn command(self) -> (r: Option<PlayerCommand>)
        ensures
            match r {
                Some(c) => self != MediaKey::Other && c@ == CommandView::Pause,
                None => self == MediaKey::Other,
            },
    {
        match self {
            MediaKey::Play | MediaKey::Pause => Some(PlayerCommand::Pause),
            MediaKey::Other => None,
        }
    }
}

impl CommandView {
    /// Whether only the latest command of this kind within a tick counts.
    pub open spec fn last_write_wins(self) -> bool {
        self is SetVolume || self is Seek || self is SetMuted
    }
}

/// The commands of which each one counts, in the order of their arrival.
pub open spec fn ordered_part(cmds: Seq<CommandView>) -> Seq<CommandView> {
    cmds.filter(|c: CommandView| !c.last_write_wins())
}

/// The gain of the latest `SetVolume` among `cmds`.
pub open spec fn latest_volume(cmds: Seq<CommandView>) -> Option<u32>
    decreases cmds.len(),
{
    if cmds.len() == 0 {
        None
    } else {
        match cmds.last() {
            CommandView::SetVolume(v) => Some(v),
            _ => latest_volume(cmds.drop_last()),
        }
    }
}

/// The position of the latest `Seek` among `cmds`.
pub open spec fn latest_seek(cmds: Seq<CommandView>) -> Option<u32>
    decreases cmds.len(),
{
    if cmds.len() == 0 {
        None
    } else {
        match cmds.last() {
            CommandView::Seek(p) => Some(p),
            _ => latest_seek(cmds.drop_last()),
        }
    }
}

/// The flag of the latest `SetMuted` among `cmds`.
pub open spec fn latest_muted(cmds: Seq<CommandView>) -> Option<bool>
    decreases cmds.len(),
{
    if cmds.len() == 0 {
        None
    } else {
        match cmds.last() {
            CommandView::SetMuted(m) => Some(m),
            _ => latest_muted(cmds.drop_last()),
        }
    }
}

/// The latest change of volume among `cmds`, if there is one.
pub open spec fn volume_piece(cmds: Seq<CommandView>) -> Seq<CommandView> {
    match latest_volume(cmds) {
        Some(v) => seq![CommandView::SetVolume(v)],
        None => seq![],
    }
}

/// The latest seek among `cmds`, if there is one.
pub open spec fn seek_piece(cmds: Seq<CommandView>) -> Seq<CommandView> {
    match latest_seek(cmds) {
        Some(p) => seq![CommandView::Seek(p)],
        None => seq![],
    }
}

/// The latest muting among `cmds`, if there is one.
pub open spec fn mute_piece(cmds: Seq<CommandView>) -> Seq<CommandView> {
    match latest_muted(cmds) {
        Some(m) => seq![CommandView::SetMuted(m)],
        None => seq![],
    }
}

/// The latest command of each last-write-wins kind: volume, then seek, then
/// mute.
pub open spec fn latest_part(cmds: Seq<CommandView>) -> Seq<CommandView> {
    volume_piece(cmds) + seek_piece(cmds) + mute_piece(cmds)
}

/// What the engine applies of the commands of one tick: those of which each
/// one counts, in their order, and after them the latest of each other kind.
pub open spec fn coalesced(cmds: Seq<CommandView>) -> Seq<CommandView> {
    ordered_part(cmds) + latest_part(cmds)
}

/// Reduces the commands that arrived within one tick to those that the engine
/// applies.
pub fn coalesce(commands: Vec<PlayerCommand>) -> (r: Vec<PlayerCommand>)
    ensures
        command_views(r@) == coalesced(command_views(commands@)),
{
    let ghost all = command_views(commands@);
    let mut latest_volume_seen: Option<u32> = None;
    let mut latest_seek_seen: Option<u32> = None;
    let mut latest_muted_seen: Option<bool> = None;
    let mut kept: Vec<PlayerCommand> = Vec::new();
    let mut rest = reversed(commands);
    let ghost mut done: int = 0;
    while rest.len() > 0
        invariant
            0 <= done <= all.len(),
            rest@.len() + done == all.len(),
            forall|j: int| 0 <= j < rest@.len() ==> (#[trigger] rest@[j])@ == all[all.len() - 1 - j],
            command_views(kept@) == ordered_part(all.take(done)),
            latest_volume_seen == latest_volume(all.take(done)),
            latest_seek_seen == latest_seek(all.take(done)),
            latest_muted_seen == latest_muted(all.take(done)),
        decreases rest.len(),
    {
        let ghost before = command_views(kept@);
        let cmd = rest.pop().unwrap();
        proof {
            assert(cmd@ == all[done]);
            assert(all.take(done + 1).drop_last() =~= all.take(done));
            assert(all.take(done + 1).last() == all[done]);
            lemma_ordered_part_push(all.take(done), all[done]);
            assert(all.take(done).push(all[done]) =~= all.take(done + 1));
        }
        match cmd {
            PlayerCommand::SetVolume(v) => {
                latest_volume_seen = Some(v);
            },
            PlayerCommand::Seek(p) => {
                latest_seek_seen = Some(p);
            },
            PlayerCommand::SetMuted(m) => {
                latest_muted_seen = Some(m);
            },
            other => {
                kept.push(other);
                assert(command_views(kept@) =~= before.push(other@));
            },
        }
        proof {
            done = done + 1;
        }
    }
    assert(all.take(done) =~= all);
    let ghost ordered = command_views(kept@);
    if let Some(v) = latest_volume_seen {
        kept.push(PlayerCommand::SetVolume(v));
    }
    if let Some(p) = latest_seek_seen {
        kept.push(PlayerCommand::Seek(p));
    }
    if let Some(m) = latest_muted_seen {
        kept.push(PlayerCommand::SetMuted(m));
    }
    assert(command_views(kept@) =~= ordered + latest_part(all));
    kept
}

/// Appending a command to a sequence appends it to the ordered part if each
/// command of its kind counts, and leaves the ordered part as it is if not.
pub proof fn lemma_ordered_part_push(cmds: Seq<CommandView>, c: CommandView)
    ensures
        ordered_part(cmds.push(c)) == if c.last_write_wins() {
            ordered_part(cmds)
        } else {
            ordered_part(cmds).push(c)
        },
{
    let keep = |c: CommandView| !c.last_write_wins();
    assert(cmds.push(c).drop_last() =~= cmds);
    reveal(Seq::filter);
    assert(cmds.push(c).filter(keep) == if keep(c) {
        cmds.filter(keep).push(c)
    } else {
        cmds.filter(keep)
    });
}

} // verus!
