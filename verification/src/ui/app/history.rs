//! A server's play history: newest first, kept for 30 days and at most
//! 100 plays.
use vstd::prelude::*;
use crate::model::RecentlyPlayedEntry;

verus! {

/// How long a play is kept, in seconds: 30 days.
pub const HISTORY_KEEP_SECS: i128 = 2_592_000;
/// The most plays kept.
pub const HISTORY_MAX: usize = 100;

/// Is a play at `played_at` still kept at `now`: at most 30 days ago?
pub open spec fn still_kept(played_at: i64, now: i64) -> bool {
    now - played_at <= HISTORY_KEEP_SECS
}

/// The plays of `h` still kept at `now`, in order.
pub open spec fn kept_plays(h: Seq<RecentlyPlayedEntry>, now: i64) -> Seq<RecentlyPlayedEntry>
    decreases h.len(),
{
    if h.len() == 0 {
        seq![]
    } else {
        let r = kept_plays(h.drop_last(), now);
        if still_kept(h.last().played_at, now) { r.push(h.last()) } else { r }
    }
}

/// The history after the play `e` (stamped with the time it was recorded):
/// it goes first, plays older than 30 days leave, and at most the newest
/// [`HISTORY_MAX`] stay.
pub open spec fn recorded(h: Seq<RecentlyPlayedEntry>, e: RecentlyPlayedEntry) -> Seq<RecentlyPlayedEntry> {
    let all = kept_plays(seq![e] + h, e.played_at);
    if all.len() > HISTORY_MAX { all.take(HISTORY_MAX as int) } else { all }
}

/// A copy of a play.
fn copy_entry(e: &RecentlyPlayedEntry) -> (r: RecentlyPlayedEntry)
    ensures
        r == *e,
{
    RecentlyPlayedEntry {
        file: e.file.clone(),
        title: e.title.clone(),
        artist: e.artist.clone(),
        album_artist: e.album_artist.clone(),
        album: e.album.clone(),
        played_at: e.played_at,
    }
}

/// Record the play `e` in `history`; see [`recorded`].
pub fn record_play(history: &mut Vec<RecentlyPlayedEntry>, e: RecentlyPlayedEntry)
    ensures
        final(history)@ == recorded(old(history)@, e),
{
    let ghost e0 = e;
    let now = e.played_at;
    history.insert(0, e);
    let ghost all = history@;
    assert(all =~= seq![e0] + old(history)@);
    let mut out: Vec<RecentlyPlayedEntry> = Vec::new();
    let mut rest: Vec<RecentlyPlayedEntry> = Vec::new();
    std::mem::swap(history, &mut rest);
    let n = rest.len();
    let mut i: usize = 0;
    while i < n
        invariant
            n == rest@.len(),
            rest@ == all,
            i <= n,
            out@ == kept_plays(all.take(i as int), now),
        decreases n - i,
    {
        let x = &rest[i];
        assert(all.take(i + 1 as int).drop_last() =~= all.take(i as int));
        assert(all.take(i + 1 as int).last() == all[i as int]);
        if (now as i128) - (x.played_at as i128) <= HISTORY_KEEP_SECS {
            out.push(copy_entry(x));
        }
        i = i + 1;
    }
    assert(all.take(n as int) =~= all);
    out.truncate(HISTORY_MAX);
    *history = out;
}

/// Every play [`kept_plays`] keeps is still kept at `now`; when the first
/// play is, it stays first.
proof fn lemma_kept_plays(h: Seq<RecentlyPlayedEntry>, now: i64)
    ensures
        kept_plays(h, now).len() <= h.len(),
        forall|i: int| 0 <= i < kept_plays(h, now).len()
            ==> still_kept(#[trigger] kept_plays(h, now)[i].played_at, now),
        h.len() > 0 && still_kept(h[0].played_at, now)
            ==> kept_plays(h, now).len() > 0 && kept_plays(h, now)[0] == h[0],
    decreases h.len(),
{
    if h.len() > 0 {
        lemma_kept_plays(h.drop_last(), now);
        if h.len() == 1 {
            assert(h.drop_last().len() == 0);
        } else {
            assert(h.drop_last()[0] == h[0]);
        }
    }
}

/// The history is kept for 30 days and to at most [`HISTORY_MAX`] plays,
/// newest first: a play just recorded is first, and every play kept is at
/// most 30 days older than it.
pub proof fn law_history_keeps_30_days(h: Seq<RecentlyPlayedEntry>, e: RecentlyPlayedEntry)
    ensures
        recorded(h, e).len() <= HISTORY_MAX,
        recorded(h, e).len() > 0 && recorded(h, e)[0] == e,
        forall|i: int| 0 <= i < recorded(h, e).len()
            ==> still_kept(#[trigger] recorded(h, e)[i].played_at, e.played_at),
{
    let all = seq![e] + h;
    lemma_kept_plays(all, e.played_at);
    assert(all[0] == e);
    let k = kept_plays(all, e.played_at);
    if k.len() > HISTORY_MAX {
        assert forall|i: int| 0 <= i < recorded(h, e).len()
            implies still_kept(#[trigger] recorded(h, e)[i].played_at, e.played_at) by {
            assert(recorded(h, e)[i] == k[i]);
        }
    }
}

} // verus!
