//! What holds of the playback engine whatever its state.

use vstd::prelude::*;
use crate::model::TrackView;
use crate::player::command::{
    coalesced, latest_part, latest_volume, mute_piece, ordered_part, seek_piece, volume_piece,
    CommandView, Repeat,
};
use crate::player::engine::{requeued, DeviceStatus, EngineView, DEBOUNCE_MS};

verus! {

/// The current track, if any, and after it the queue.
pub open spec fn lineup(s: EngineView) -> Seq<TrackView> {
    match s.current {
        Some(t) => seq![t] + s.queue,
        None => s.queue,
    }
}

/// No track stands twice among the current track and the queue.
pub open spec fn distinct(s: EngineView) -> bool {
    lineup(s).no_duplicates()
}

/// After `Play` on a non-empty queue the current track is the former head of
/// the queue, and the queue has lost that head. An interrupted track went to
/// the end of the queue first where all tracks repeat.
pub proof fn law_play_takes_head(s: EngineView, status: DeviceStatus, now: i64)
    requires
        s.queue.len() > 0,
    ensures
        s.apply(CommandView::Play, status, now).state.current == Some(s.queue[0]),
        s.apply(CommandView::Play, status, now).state.queue == requeued(
            s.queue,
            s.current,
            if s.repeat == Repeat::All {
                Repeat::All
            } else {
                Repeat::Off
            },
        ).drop_first(),
{
}

/// Where no track stands twice, the current track is not in the queue.
pub proof fn law_current_not_queued(s: EngineView)
    requires
        distinct(s),
        s.current is Some,
    ensures
        !s.queue.contains(s.current.unwrap()),
{
    let c = s.current.unwrap();
    if s.queue.contains(c) {
        let j = choose|j: int| 0 <= j < s.queue.len() && s.queue[j] == c;
        assert(lineup(s)[0] == c);
        assert(lineup(s)[j + 1] == c);
    }
}

/// A sequence without duplicates stays so when its first item moves to the
/// end or leaves.
proof fn lemma_rotate(t: TrackView, queue: Seq<TrackView>)
    requires
        (seq![t] + queue).no_duplicates(),
    ensures
        queue.push(t).no_duplicates(),
        queue.no_duplicates(),
{
    let whole = seq![t] + queue;
    assert forall|i: int, j: int|
        0 <= i < queue.len() && 0 <= j < queue.len() && i != j implies queue[i] != queue[j] by {
        assert(whole[i + 1] == queue[i]);
        assert(whole[j + 1] == queue[j]);
    }
    let turned = queue.push(t);
    assert forall|i: int, j: int|
        0 <= i < turned.len() && 0 <= j < turned.len() && i != j implies turned[i] != turned[j] by {
        let a = if i == queue.len() { 0 } else { i + 1 };
        let b = if j == queue.len() { 0 } else { j + 1 };
        assert(whole[a] == turned[i]);
        assert(whole[b] == turned[j]);
    }
}

/// No step of the engine makes a track stand twice among the current track
/// and the queue, as long as no track is added that is already there. So the
/// track that becomes current is never in the queue as well.
#[verifier::rlimit(40)]
pub proof fn law_apply_keeps_distinct(
    s: EngineView,
    cmd: CommandView,
    status: DeviceStatus,
    now: i64,
)
    requires
        distinct(s),
        cmd matches CommandView::AddTrack(t) ==> !lineup(s).contains(t),
    ensures
        distinct(s.apply(cmd, status, now).state),
{
    let after = s.apply(cmd, status, now).state;
    match cmd {
        CommandView::AddTrack(t) => {
            assert(lineup(after) =~= lineup(s).push(t));
            assert forall|i: int, j: int|
                0 <= i < lineup(after).len() && 0 <= j < lineup(after).len() && i != j implies lineup(
                after,
            )[i] != lineup(after)[j] by {
                if i == lineup(s).len() {
                    assert(lineup(s)[j] == lineup(after)[j]);
                } else if j == lineup(s).len() {
                    assert(lineup(s)[i] == lineup(after)[i]);
                }
            }
        },
        CommandView::RemoveTrack(k) => {
            if k < s.queue.len() {
                let at = if s.current is Some { k + 1 } else { k as int };
                assert(lineup(after) =~= lineup(s).remove(at));
                assert forall|i: int, j: int|
                    0 <= i < lineup(after).len() && 0 <= j < lineup(after).len() && i
                        != j implies lineup(after)[i] != lineup(after)[j] by {
                    let a = if i < at { i } else { i + 1 };
                    let b = if j < at { j } else { j + 1 };
                    assert(lineup(s)[a] == lineup(after)[i]);
                    assert(lineup(s)[b] == lineup(after)[j]);
                }
            }
        },
        CommandView::ClearQueue => {
            assert(lineup(after) =~= seq![]);
        },
        CommandView::Play => {
            if s.queue.len() > 0 {
                match s.current {
                    Some(t) => {
                        lemma_rotate(t, s.queue);
                        if s.repeat == Repeat::All {
                            assert(lineup(after) =~= s.queue.push(t));
                        } else {
                            assert(lineup(after) =~= s.queue);
                        }
                    },
                    None => {
                        assert(lineup(after) =~= s.queue);
                    },
                }
            }
        },
        _ => {
            assert(lineup(after) =~= lineup(s));
        },
    }
}

/// The end of a track makes no track stand twice either.
pub proof fn law_poll_keeps_distinct(s: EngineView, status: DeviceStatus, now: i64)
    requires
        distinct(s),
    ensures
        distinct(s.poll(status, now).state),
{
    let after = s.poll(status, now).state;
    if s.at_end(status) {
        match s.current {
            Some(t) => {
                lemma_rotate(t, s.queue);
                match s.repeat {
                    Repeat::One => {
                        assert((seq![t] + s.queue).drop_first() =~= s.queue);
                        assert(lineup(after) =~= lineup(s));
                    },
                    Repeat::All => {
                        assert(lineup(after) =~= s.queue.push(t));
                    },
                    Repeat::Off => {
                        assert(lineup(after) =~= s.queue);
                    },
                }
            },
            None => {
                assert(lineup(after) =~= s.queue);
            },
        }
    } else {
        assert(lineup(after) =~= lineup(s));
    }
}

/// The end of resolving a track makes no track stand twice: the track stays
/// where it is, or is dropped where its audio could not be had. The care for
/// the volume changes neither the current track nor the queue.
pub proof fn law_bookkeeping_keeps_distinct(s: EngineView, duration_ms: Option<u64>, now: i64)
    requires
        distinct(s),
    ensures
        distinct(s.loaded(duration_ms).state),
        duration_ms is Some ==> lineup(s.loaded(duration_ms).state) == lineup(s),
        duration_ms is None ==> lineup(s.loaded(duration_ms).state) == s.queue,
        lineup(s.settle(now)) == lineup(s),
{
    match s.current {
        Some(t) => {
            lemma_rotate(t, s.queue);
        },
        None => {},
    }
}

/// Repeat one: the track that played to its end is the current track again,
/// and the queue is as it was.
pub proof fn law_repeat_one(s: EngineView, status: DeviceStatus, now: i64)
    requires
        s.at_end(status),
        s.repeat == Repeat::One,
        s.current is Some,
    ensures
        s.poll(status, now).state.current == s.current,
        s.poll(status, now).state.queue == s.queue,
        lineup(s.poll(status, now).state) == lineup(s),
{
    let t = s.current.unwrap();
    assert((seq![t] + s.queue).drop_first() =~= s.queue);
}

/// Repeat all: the track that played to its end goes to the end of the
/// queue, and the head of that queue becomes the current track and leaves
/// it. So the tracks come round in their order: what was the queue with the
/// finished track after it is now the current track with the queue after it.
pub proof fn law_repeat_all(s: EngineView, status: DeviceStatus, now: i64)
    requires
        s.at_end(status),
        s.repeat == Repeat::All,
        s.current is Some,
    ensures
        requeued(s.queue, s.current, s.repeat) == s.queue.push(s.current.unwrap()),
        lineup(s.poll(status, now).state) == s.queue.push(s.current.unwrap()),
        s.poll(status, now).state.current == Some(s.queue.push(s.current.unwrap())[0]),
        s.poll(status, now).state.queue == s.queue.push(s.current.unwrap()).drop_first(),
        s.queue.len() > 0 ==> s.poll(status, now).state.current == Some(s.queue[0]) && s.poll(
            status,
            now,
        ).state.queue == s.queue.drop_first().push(s.current.unwrap()),
{
    let t = s.current.unwrap();
    if s.queue.len() > 0 {
        assert(s.queue.push(t).drop_first() =~= s.queue.drop_first().push(t));
    }
    assert(lineup(s.poll(status, now).state) =~= s.queue.push(t));
}

/// Without repeat the track that played to its end is gone: the head of the
/// queue follows it, and with an empty queue the engine is idle.
pub proof fn law_repeat_off(s: EngineView, status: DeviceStatus, now: i64)
    requires
        s.at_end(status),
        s.repeat == Repeat::Off,
    ensures
        s.queue.len() > 0 ==> s.poll(status, now).state.current == Some(s.queue[0]) && s.poll(
            status,
            now,
        ).state.queue == s.queue.drop_first(),
        s.queue.len() == 0 ==> s.poll(status, now).state.idle(),
{
}

/// Removing a track at a place that the queue does not have changes nothing
/// and asks for nothing.
pub proof fn law_remove_out_of_range(s: EngineView, index: usize, status: DeviceStatus, now: i64)
    requires
        index >= s.queue.len(),
    ensures
        s.apply(CommandView::RemoveTrack(index), status, now).state == s,
        s.apply(CommandView::RemoveTrack(index), status, now).actions == Seq::<
            crate::player::engine::ActionView,
        >::empty(),
{
}

/// A volume is stored only after it has been left alone for the debounce
/// time: before that nothing is stored and the volume stays pending; then it
/// is stored once, and nothing more is stored until the volume is set again.
pub proof fn law_debounce(
    s: EngineView,
    volume: u32,
    status: DeviceStatus,
    set_at: i64,
    now: i64,
    later: i64,
)
    ensures
        ({
            let set = s.apply(CommandView::SetVolume(volume), status, set_at).state;
            &&& now - set_at < DEBOUNCE_MS ==> set.volume_to_store(now) is None && set.settle(now)
                == set
            &&& now - set_at >= DEBOUNCE_MS ==> set.volume_to_store(now) == Some(volume)
                && set.settle(now).volume_to_store(later) is None
        }),
{
}

/// What [`latest_volume`] is: the gain of a `SetVolume` after which no other
/// follows, and none where there is no such command.
pub proof fn law_latest_volume(cmds: Seq<CommandView>)
    ensures
        match latest_volume(cmds) {
            Some(v) => exists|i: int|
                0 <= i < cmds.len() && cmds[i] == CommandView::SetVolume(v) && forall|j: int|
                    i < j < cmds.len() ==> !(#[trigger] cmds[j] is SetVolume),
            None => forall|j: int| 0 <= j < cmds.len() ==> !(#[trigger] cmds[j] is SetVolume),
        },
    decreases cmds.len(),
{
    if cmds.len() > 0 {
        let front = cmds.drop_last();
        law_latest_volume(front);
        match cmds.last() {
            CommandView::SetVolume(v) => {
                assert(cmds[cmds.len() - 1] == CommandView::SetVolume(v));
            },
            _ => {
                match latest_volume(front) {
                    Some(v) => {
                        let i = choose|i: int|
                            0 <= i < front.len() && front[i] == CommandView::SetVolume(v)
                                && forall|j: int|
                                i < j < front.len() ==> !(#[trigger] front[j] is SetVolume);
                        assert(cmds[i] == front[i]);
                        assert forall|j: int| i < j < cmds.len() implies !(#[trigger] cmds[j]
                            is SetVolume) by {
                            if j < front.len() {
                                assert(cmds[j] == front[j]);
                            }
                        }
                    },
                    None => {
                        assert forall|j: int| 0 <= j < cmds.len() implies !(#[trigger] cmds[j]
                            is SetVolume) by {
                            if j < front.len() {
                                assert(cmds[j] == front[j]);
                            }
                        }
                    },
                }
            },
        }
    }
}

/// Of the commands of which each one counts, none is of a kind of which
/// only the latest counts.
proof fn lemma_ordered_part_has_none(cmds: Seq<CommandView>, pick: spec_fn(CommandView) -> bool)
    requires
        forall|c: CommandView| pick(c) ==> c.last_write_wins(),
    ensures
        ordered_part(cmds).filter(pick) == Seq::<CommandView>::empty(),
{
    let kept = ordered_part(cmds);
    let keep = |c: CommandView| !c.last_write_wins();
    let picked = kept.filter(pick);
    if picked.len() > 0 {
        kept.lemma_filter_pred(pick, 0);
        assert(picked.contains(picked[0]));
        kept.lemma_filter_contains_rev(pick, picked[0]);
        let k = choose|k: int| 0 <= k < kept.len() && kept[k] == picked[0];
        cmds.lemma_filter_pred(keep, k);
        assert(false);
    }
    assert(picked =~= Seq::<CommandView>::empty());
}

/// Filtering at most one item.
proof fn lemma_piece_filter(piece: Seq<CommandView>, pick: spec_fn(CommandView) -> bool)
    requires
        piece.len() <= 1,
    ensures
        piece.filter(pick) == if piece.len() == 1 && pick(piece[0]) {
            piece
        } else {
            Seq::<CommandView>::empty()
        },
{
    reveal_with_fuel(Seq::filter, 2);
    if piece.len() == 1 {
        assert(piece.drop_last() =~= Seq::<CommandView>::empty());
        assert(Seq::<CommandView>::empty().push(piece[0]) =~= piece);
    } else {
        assert(piece =~= Seq::<CommandView>::empty());
    }
}

/// Filtering what coalescing leaves is filtering its four parts.
proof fn lemma_coalesced_filter(cmds: Seq<CommandView>, pick: spec_fn(CommandView) -> bool)
    ensures
        coalesced(cmds).filter(pick) == ordered_part(cmds).filter(pick) + volume_piece(
            cmds,
        ).filter(pick) + seek_piece(cmds).filter(pick) + mute_piece(cmds).filter(pick),
{
    let ordered = ordered_part(cmds);
    let volume = volume_piece(cmds);
    let seek = seek_piece(cmds);
    let mute = mute_piece(cmds);
    Seq::filter_distributes_over_add(ordered, volume + seek + mute, pick);
    Seq::filter_distributes_over_add(volume + seek, mute, pick);
    Seq::filter_distributes_over_add(volume, seek, pick);
    assert(coalesced(cmds).filter(pick) =~= ordered.filter(pick) + volume.filter(pick)
        + seek.filter(pick) + mute.filter(pick));
}

/// Of the commands of one tick the engine applies at most one change of
/// volume, and that one carries the gain that was sent last.
pub proof fn law_one_volume_change(cmds: Seq<CommandView>)
    ensures
        coalesced(cmds).filter(|c: CommandView| c is SetVolume) == volume_piece(cmds),
{
    let pick = |c: CommandView| c is SetVolume;
    lemma_coalesced_filter(cmds, pick);
    lemma_ordered_part_has_none(cmds, pick);
    lemma_piece_filter(volume_piece(cmds), pick);
    lemma_piece_filter(seek_piece(cmds), pick);
    lemma_piece_filter(mute_piece(cmds), pick);
    assert(coalesced(cmds).filter(pick) =~= volume_piece(cmds));
}

/// The same of the positions to seek to.
pub proof fn law_one_seek(cmds: Seq<CommandView>)
    ensures
        coalesced(cmds).filter(|c: CommandView| c is Seek) == seek_piece(cmds),
{
    let pick = |c: CommandView| c is Seek;
    lemma_coalesced_filter(cmds, pick);
    lemma_ordered_part_has_none(cmds, pick);
    lemma_piece_filter(volume_piece(cmds), pick);
    lemma_piece_filter(seek_piece(cmds), pick);
    lemma_piece_filter(mute_piece(cmds), pick);
    assert(coalesced(cmds).filter(pick) =~= seek_piece(cmds));
}

/// The same of muting.
pub proof fn law_one_mute(cmds: Seq<CommandView>)
    ensures
        coalesced(cmds).filter(|c: CommandView| c is SetMuted) == mute_piece(cmds),
{
    let pick = |c: CommandView| c is SetMuted;
    lemma_coalesced_filter(cmds, pick);
    lemma_ordered_part_has_none(cmds, pick);
    lemma_piece_filter(volume_piece(cmds), pick);
    lemma_piece_filter(seek_piece(cmds), pick);
    lemma_piece_filter(mute_piece(cmds), pick);
    assert(coalesced(cmds).filter(pick) =~= mute_piece(cmds));
}

/// Filtering keeps a sequence of which every item passes.
proof fn lemma_filter_all(s: Seq<CommandView>, pick: spec_fn(CommandView) -> bool)
    requires
        forall|i: int| 0 <= i < s.len() ==> pick(#[trigger] s[i]),
    ensures
        s.filter(pick) == s,
    decreases s.len(),
{
    reveal(Seq::filter);
    if s.len() > 0 {
        lemma_filter_all(s.drop_last(), pick);
        assert(s.drop_last().push(s.last()) =~= s);
    }
}

/// The commands of which each one counts pass through coalescing untouched
/// and in their order.
pub proof fn law_ordered_commands_kept(cmds: Seq<CommandView>)
    ensures
        ordered_part(coalesced(cmds)) == ordered_part(cmds),
{
    let keep = |c: CommandView| !c.last_write_wins();
    lemma_coalesced_filter(cmds, keep);
    lemma_piece_filter(volume_piece(cmds), keep);
    lemma_piece_filter(seek_piece(cmds), keep);
    lemma_piece_filter(mute_piece(cmds), keep);
    let kept = ordered_part(cmds);
    assert forall|i: int| 0 <= i < kept.len() implies keep(#[trigger] kept[i]) by {
        cmds.lemma_filter_pred(keep, i);
    }
    lemma_filter_all(kept, keep);
    assert(ordered_part(coalesced(cmds)) =~= ordered_part(cmds));
}

/// The state after commands were applied one after the other.
pub open spec fn after_all(
    s: EngineView,
    cmds: Seq<CommandView>,
    status: DeviceStatus,
    now: i64,
) -> EngineView
    decreases cmds.len(),
{
    if cmds.len() == 0 {
        s
    } else {
        after_all(s.apply(cmds[0], status, now).state, cmds.drop_first(), status, now)
    }
}

/// Applying commands one after the other is applying the first ones and
/// then the rest.
pub proof fn lemma_after_all_split(
    s: EngineView,
    first: Seq<CommandView>,
    then: Seq<CommandView>,
    status: DeviceStatus,
    now: i64,
)
    ensures
        after_all(s, first + then, status, now) == after_all(
            after_all(s, first, status, now),
            then,
            status,
            now,
        ),
    decreases first.len(),
{
    if first.len() == 0 {
        assert(first + then =~= then);
    } else {
        assert((first + then).drop_first() =~= first.drop_first() + then);
        lemma_after_all_split(
            s.apply(first[0], status, now).state,
            first.drop_first(),
            then,
            status,
            now,
        );
    }
}

/// Commands other than a change of volume leave the volume as it is.
proof fn lemma_volume_untouched(
    s: EngineView,
    cmds: Seq<CommandView>,
    status: DeviceStatus,
    now: i64,
)
    requires
        forall|i: int| 0 <= i < cmds.len() ==> !(#[trigger] cmds[i] is SetVolume),
    ensures
        after_all(s, cmds, status, now).volume == s.volume,
        after_all(s, cmds, status, now).pending_volume_save == s.pending_volume_save,
    decreases cmds.len(),
{
    if cmds.len() > 0 {
        let rest = cmds.drop_first();
        assert forall|i: int| 0 <= i < rest.len() implies !(#[trigger] rest[i] is SetVolume) by {
            assert(rest[i] == cmds[i + 1]);
        }
        assert(!(cmds[0] is SetVolume));
        let next = s.apply(cmds[0], status, now).state;
        assert(next.volume == s.volume && next.pending_volume_save == s.pending_volume_save) by {
            if cmds[0] is Play {
                assert(s.play().state.volume == s.volume);
            }
        }
        lemma_volume_untouched(next, rest, status, now);
    }
}

/// However many changes of volume arrive within one tick, the engine ends
/// the tick with the volume that was sent last, and with that volume
/// waiting to be stored; with no change of volume among the commands both
/// are as they were.
#[verifier::rlimit(40)]
pub proof fn law_last_volume_wins(
    s: EngineView,
    cmds: Seq<CommandView>,
    status: DeviceStatus,
    now: i64,
)
    ensures
        ({
            let after = after_all(s, coalesced(cmds), status, now);
            match latest_volume(cmds) {
                Some(v) => after.volume == v && after.pending_volume_save == Some(v),
                None => after.volume == s.volume && after.pending_volume_save
                    == s.pending_volume_save,
            }
        }),
{
    let ordered = ordered_part(cmds);
    let keep = |c: CommandView| !c.last_write_wins();
    assert forall|i: int| 0 <= i < ordered.len() implies !(#[trigger] ordered[i] is SetVolume) by {
        cmds.lemma_filter_pred(keep, i);
    }
    lemma_after_all_split(s, ordered, latest_part(cmds), status, now);
    let middle = after_all(s, ordered, status, now);
    lemma_volume_untouched(s, ordered, status, now);
    let others = seek_piece(cmds) + mute_piece(cmds);
    assert forall|i: int| 0 <= i < others.len() implies !(#[trigger] others[i] is SetVolume) by {}
    match latest_volume(cmds) {
        Some(v) => {
            let first = seq![CommandView::SetVolume(v)];
            assert(latest_part(cmds) =~= first + others);
            lemma_after_all_split(middle, first, others, status, now);
            reveal_with_fuel(after_all, 2);
            assert(first.drop_first() =~= Seq::<CommandView>::empty());
            let set = middle.apply(CommandView::SetVolume(v), status, now).state;
            assert(after_all(middle, first, status, now) == set);
            lemma_volume_untouched(set, others, status, now);
        },
        None => {
            assert(latest_part(cmds) =~= others);
            lemma_volume_untouched(middle, others, status, now);
        },
    }
}

} // verus!
