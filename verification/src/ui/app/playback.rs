//! The decisions behind the playback and queue controls: which command a
//! control sends, where a queued song goes, and which songs and albums
//! count as played.
use vstd::prelude::*;
use vstd::string::*;
use crate::model::{ConsumeState, SingleState};
use crate::text::{decimal, decimal_string, owned, starts_with, str_eq};
use crate::ui::message::View;
use vstd::view::View as DataView;

verus! {

/// The prefix of an audio-CD track's URI.
pub const CD_SCHEME: &'static str = "cdda://";

/// How many tracks a disc probe tries at most.
pub const CD_MAX_TRACKS: u32 = 99;

/// MPD's player state.
#[derive(Debug, Clone, Copy, PartialEq, Eq, Structural)]
pub enum PlayState {
    Play,
    Pause,
    Stop,
}

/// What Play sends to MPD.
#[derive(Debug, Clone, Copy, PartialEq, Eq, Structural)]
pub enum PlayCommand {
    /// Resume a paused track where it was.
    Resume,
    /// Start playing.
    Play,
}

/// What Play sends: resume when paused, play otherwise.
pub fn play_command(state: PlayState) -> (c: PlayCommand)
    ensures
        c == (if state == PlayState::Pause { PlayCommand::Resume } else { PlayCommand::Play }),
{
    match state {
        PlayState::Pause => PlayCommand::Resume,
        _ => PlayCommand::Play,
    }
}

/// The single mode that Single steps to, as MPD's protocol writes it: off
/// to on ("1"), on to one track only ("oneshot"), one track only to off
/// ("0").
pub fn next_single_mode(state: SingleState) -> (r: &'static str)
    ensures
        r@ == (match state {
            SingleState::Off => "1"@,
            SingleState::On => "oneshot"@,
            SingleState::Oneshot => "0"@,
        }),
{
    match state {
        SingleState::Off => "1",
        SingleState::On => "oneshot",
        SingleState::Oneshot => "0",
    }
}

/// The consume mode that Consume steps to, in the same cycle as Single.
pub fn next_consume_mode(state: ConsumeState) -> (r: &'static str)
    ensures
        r@ == (match state {
            ConsumeState::Off => "1"@,
            ConsumeState::On => "oneshot"@,
            ConsumeState::Oneshot => "0"@,
        }),
{
    match state {
        ConsumeState::Off => "1",
        ConsumeState::On => "oneshot",
        ConsumeState::Oneshot => "0",
    }
}

/// The move that "move up" sends for the entry at `pos`: to `pos - 1`, and
/// none for the first entry.
pub fn move_up_target(pos: u32) -> (r: Option<u32>)
    ensures
        pos == 0 ==> r is None,
        pos > 0 ==> r == Some((pos - 1) as u32),
{
    if pos == 0 { None } else { Some(pos - 1) }
}

/// The move that "move down" sends for the entry at `pos`: to `pos + 1`.
pub fn move_down_target(pos: u32) -> (r: u32)
    requires
        pos < u32::MAX,
    ensures
        r == pos + 1,
{
    pos + 1
}

/// Where "play next" puts a song added at the end of the queue.
#[derive(Debug, Clone, Copy, PartialEq, Eq, Structural)]
pub enum AddNextPlan {
    /// Move it to this position, right after the current song.
    MoveTo(u32),
    /// Nothing is current and the player is stopped: play it.
    PlayIt,
    /// Nothing is current but the player is not stopped: leave it at the end.
    Leave,
}

/// Where "play next" puts a song, given the current song's queue position
/// and whether the player is stopped.
pub fn add_next_plan(song_pos: Option<u32>, stopped: bool) -> (r: AddNextPlan)
    requires
        song_pos != Some(u32::MAX),
    ensures
        r == (match song_pos {
            Some(p) => AddNextPlan::MoveTo((p + 1) as u32),
            None => if stopped { AddNextPlan::PlayIt } else { AddNextPlan::Leave },
        }),
{
    match song_pos {
        Some(p) => AddNextPlan::MoveTo(p + 1),
        None => if stopped { AddNextPlan::PlayIt } else { AddNextPlan::Leave },
    }
}

/// The move that puts the song just added (the last of a queue of
/// `queue_len` entries) at `insert_at`: none when the queue is empty or the
/// song is already there. The length is read as MPD's 32-bit position.
pub fn move_after_add(queue_len: usize, insert_at: u32) -> (r: Option<(u32, u32)>)
    ensures
        ({
            let len = queue_len as u32;
            &&& len == 0 ==> r is None
            &&& len > 0 && (len - 1) as u32 == insert_at ==> r is None
            &&& len > 0 && (len - 1) as u32 != insert_at ==> r == Some(((len - 1) as u32, insert_at))
        }),
{
    #[verifier::truncate]
    let len = queue_len as u32;
    if len == 0 {
        return None;
    }
    let end = len - 1;
    if end != insert_at { Some((end, insert_at)) } else { None }
}

/// The queue position to scroll to and the last position of the queue, for
/// "jump to current": none when nothing is current or the queue has fewer
/// than two entries (there is nowhere to scroll).
pub fn jump_target(song_pos: Option<u32>, queue_len: usize) -> (r: Option<(u32, usize)>)
    ensures
        r == (match song_pos {
            Some(p) => if queue_len >= 2 { Some((p, (queue_len - 1) as usize)) } else { None },
            None => None,
        }),
{
    match song_pos {
        Some(p) => if queue_len >= 2 { Some((p, queue_len - 1)) } else { None },
        None => None,
    }
}

/// Is `file` a track of an audio CD?
pub open spec fn is_cd_track(file: Seq<char>) -> bool {
    CD_SCHEME@.len() <= file.len() && file.subrange(0, CD_SCHEME@.len() as int) == CD_SCHEME@
}

/// Does playing `file` count towards the play history? A physical disc is
/// not a play worth recording the way a library file or a stream is.
pub fn counts_as_played(file: &str) -> (r: bool)
    ensures
        r == !is_cd_track(file@),
{
    !starts_with(file, CD_SCHEME)
}

/// Does a new song start a new entry in the recently played albums? Only
/// when its album differs from the previous song's, is a real album, and it
/// is not a CD track.
pub fn starts_new_album(prev_album: Option<&str>, new_album: &str, new_file: &str) -> (r: bool)
    ensures
        r == (!(prev_album matches Some(p) && p@ == new_album@)
            && new_album@ != "Unknown Album"@
            && !is_cd_track(new_file@)),
{
    let same = match prev_album {
        Some(p) => str_eq(p, new_album),
        None => false,
    };
    !same && !str_eq(new_album, "Unknown Album") && !starts_with(new_file, CD_SCHEME)
}

/// Did the track change? (A new track sends the lyrics pane back to the
/// top.)
pub fn track_changed(prev_file: Option<&str>, new_file: Option<&str>) -> (r: bool)
    ensures
        r == !(match (prev_file, new_file) {
            (Some(a), Some(b)) => a@ == b@,
            (None, None) => true,
            _ => false,
        }),
{
    match (prev_file, new_file) {
        (Some(a), Some(b)) => !str_eq(a, b),
        (None, None) => false,
        _ => true,
    }
}

/// The URI of a whole disc: `cdda://{device}`, or `cdda:///` for the
/// default drive.
pub fn cd_disc_uri(device: Option<&str>) -> (r: String)
    ensures
        r@ == (match device { Some(d) => CD_SCHEME@ + d@, None => "cdda:///"@ }),
{
    match device {
        Some(d) => {
            let mut r = owned(CD_SCHEME);
            r.append(d);
            r
        },
        None => String::from_str("cdda:///"),
    }
}

/// The URI of track `n` of a disc: `cdda://{device}/{n}`, or `cdda:///{n}`
/// for the default drive.
pub fn cd_track_uri(device: Option<&str>, n: u32) -> (r: String)
    ensures
        r@ == (match device { Some(d) => CD_SCHEME@ + d@ + "/"@, None => "cdda:///"@ }) + decimal(n as nat),
{
    let mut r = match device {
        Some(d) => {
            let mut r = owned(CD_SCHEME);
            r.append(d);
            r.append("/");
            r
        },
        None => String::from_str("cdda:///"),
    };
    let k = decimal_string(n as u64);
    r.append(k.as_str());
    r
}

/// The partition to come back to after moving an output: the current one,
/// or "default" when none is known.
pub fn partition_or_default(current: Option<&str>) -> (r: String)
    ensures
        r@ == (match current { Some(p) => p@, None => "default"@ }),
{
    match current {
        Some(p) => owned(p),
        None => String::from_str("default"),
    }
}

/// What one poll tick does besides expiring toasts: refresh the status (and
/// follow the lyrics) while connected, and reload the statistics while they
/// are on screen.
pub fn tick_work(connected: bool, view: &View) -> (r: (bool, bool))
    ensures
        r == (connected, connected && *view == View::ServerStats),
{
    (connected, connected && matches!(view, View::ServerStats))
}

/// Clearing the caches takes two presses: the first arms it, the second
/// clears. Returns the new armed state and whether to clear now.
pub fn clear_caches_press(armed: bool) -> (r: (bool, bool))
    ensures
        r == (!armed, armed),
{
    (!armed, armed)
}

/// The timers that drive the app.
#[derive(Debug, Clone, Copy, PartialEq, Eq, Structural)]
pub struct PollPlan {
    /// Milliseconds between ticks.
    pub tick_ms: u64,
    /// Are the ticks status polls (connected) rather than reconnect attempts?
    pub status_ticks: bool,
    /// Is the Snapcast state polled (every two seconds)?
    pub snapcast_poll: bool,
}

/// The timers: a status poll every 500 ms while connected, a reconnect
/// attempt every 3 s while not, and a Snapcast poll only while its view is
/// open.
pub fn poll_plan(connected: bool, view: &View) -> (p: PollPlan)
    ensures
        p.tick_ms == (if connected { 500u64 } else { 3000u64 }),
        p.status_ticks == connected,
        p.snapcast_poll == (*view == View::Snapcast),
{
    PollPlan {
        tick_ms: if connected { 500 } else { 3000 },
        status_ticks: connected,
        snapcast_poll: matches!(view, View::Snapcast),
    }
}

/// The queue entry to show as "Up Next": the first whose position is the
/// next song's position, given each entry's position.
pub fn up_next(positions: &Vec<Option<u32>>, next_pos: Option<u32>) -> (r: Option<usize>)
    ensures
        match next_pos {
            None => r is None,
            Some(p) => match r {
                Some(i) => i < positions@.len() && positions@[i as int] == Some(p)
                    && forall|j: int| 0 <= j < i ==> #[trigger] positions@[j] != Some(p),
                None => forall|j: int| 0 <= j < positions@.len() ==> #[trigger] positions@[j] != Some(p),
            },
        },
{
    let p = match next_pos {
        Some(p) => p,
        None => return None,
    };
    let mut i: usize = 0;
    while i < positions.len()
        invariant
            i <= positions@.len(),
            next_pos == Some(p),
            forall|j: int| 0 <= j < i ==> #[trigger] positions@[j] != Some(p),
        decreases positions@.len() - i,
    {
        let here = match positions[i] {
            Some(q) => q == p,
            None => false,
        };
        if here {
            return Some(i);
        }
        i = i + 1;
    }
    None
}


/// A CD track is exactly a file whose URI starts with "cdda://", and only
/// those are left out of the play history.
pub proof fn law_cd_tracks(file: Seq<char>)
    ensures
        is_cd_track(file) <==> (file.len() >= 7 && file.take(7) == "cdda://"@),
{
    reveal_strlit("cdda://");
    assert(CD_SCHEME@ == "cdda://"@);
    if file.len() >= 7 {
        assert(file.take(7) =~= file.subrange(0, 7));
    }
}

} // verus!
