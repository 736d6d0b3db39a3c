//! A stored playlist's header captions and row actions.
//!
//! Stored playlists outlive the files in them: MPD lists an entry whose file
//! is gone and skips it on load. Such an entry is shown rather than hidden,
//! so the list still matches what was saved and the dead entry can be
//! removed, and it is marked with the folder the file was in.
use vstd::prelude::*;
use crate::text::{decimal, decimal_string, last_index_of, lemma_last_index_of, owned, rfind_char};
use crate::ui::message::Message;
use crate::ui::widgets::song_row::is_current_uri;
use vstd::string::*;

verus! {

/// Hover text on a missing entry.
pub const MISSING_TIP: &'static str =
    "No longer in the music library — moved, renamed or deleted — so it can't be played or queued.";

/// The header's count line: what Play will actually play, and separately
/// how many entries are gone.
pub open spec fn summary(total: nat, missing: nat, minutes: nat) -> Seq<char> {
    if missing == 0 {
        decimal(total) + " tracks  |  "@ + decimal(minutes) + " min"@
    } else {
        decimal((total - missing) as nat) + " tracks  |  "@ + decimal(missing) + " missing  |  "@
            + decimal(minutes) + " min"@
    }
}

/// The header's count line, `"{n} tracks  |  {m} min"`, counting only what
/// Play will play and naming the missing entries apart.
pub fn track_summary(total: usize, missing: usize, minutes: u64) -> (r: String)
    requires
        missing <= total,
    ensures
        r@ == summary(total as nat, missing as nat, minutes as nat),
{
    if missing == 0 {
        let mut r = decimal_string(total as u64);
        r.append(" tracks  |  ");
        let m = decimal_string(minutes);
        r.append(m.as_str());
        r.append(" min");
        r
    } else {
        let mut r = decimal_string((total - missing) as u64);
        r.append(" tracks  |  ");
        let k = decimal_string(missing as u64);
        r.append(k.as_str());
        r.append(" missing  |  ");
        let m = decimal_string(minutes);
        r.append(m.as_str());
        r.append(" min");
        r
    }
}

/// The explanation under the header, for `missing` entries gone.
pub open spec fn note(missing: nat) -> Seq<char> {
    (if missing == 1 { "One file in this playlist is"@ } else { decimal(missing) + " files in this playlist are"@ })
        + " no longer in the library, so Play skips "@
        + (if missing == 1 { "it"@ } else { "them"@ })
        + ". Marked below with the folder "@
        + (if missing == 1 { "it was"@ } else { "each was"@ })
        + " in."@
}

/// The header's explanation, shown only when something is missing; it
/// agrees in number with the count.
pub fn missing_note(missing: usize) -> (r: Option<String>)
    ensures
        missing == 0 ==> r is None,
        missing != 0 ==> (r matches Some(t) && t@ == note(missing as nat)),
{
    if missing == 0 {
        return None;
    }
    let mut r = if missing == 1 {
        String::from_str("One file in this playlist is")
    } else {
        let mut l = decimal_string(missing as u64);
        l.append(" files in this playlist are");
        l
    };
    r.append(" no longer in the library, so Play skips ");
    r.append(if missing == 1 { "it" } else { "them" });
    r.append(". Marked below with the folder ");
    r.append(if missing == 1 { "it was" } else { "each was" });
    r.append(" in.");
    Some(r)
}

/// The folder of a file path: what comes before its last `/`, if there is
/// a `/`.
pub open spec fn folder_of(file: Seq<char>) -> Option<Seq<char>> {
    let k = last_index_of(file, '/');
    if k >= 0 { Some(file.take(k)) } else { None }
}

/// The second line of a missing row.
pub open spec fn caption(file: Seq<char>) -> Seq<char> {
    match folder_of(file) {
        Some(folder) => if folder.len() > 0 { "Missing file · "@ + folder } else { "Missing file"@ },
        None => "Missing file"@,
    }
}

/// The second line of a missing row: "Missing file", plus the folder the
/// file was in when there is one.
pub fn missing_caption(file: &str) -> (r: String)
    ensures
        r@ == caption(file@),
{
    proof {
        lemma_last_index_of(file@, '/');
    }
    match rfind_char(file, '/') {
        Some(k) => {
            if k > 0 {
                let mut r = String::from_str("Missing file · ");
                r.append(file.substring_char(0, k));
                r
            } else {
                String::from_str("Missing file")
            }
        },
        None => String::from_str("Missing file"),
    }
}

/// One entry of a stored playlist, as the view reads it.
#[derive(Debug, Clone)]
pub struct PlaylistEntry {
    /// The song's URI.
    pub file: String,
    /// Its index in the playlist, when the server reported one.
    pub pos: Option<u32>,
    /// Its length in whole seconds, when known.
    pub duration_secs: Option<u64>,
    /// Is its file gone from the library?
    pub missing: bool,
}

/// The number of missing entries.
pub open spec fn missing_in(entries: Seq<PlaylistEntry>) -> nat
    decreases entries.len(),
{
    if entries.len() == 0 {
        0
    } else {
        missing_in(entries.drop_last()) + if entries.last().missing { 1nat } else { 0nat }
    }
}

/// The total of the known lengths, in seconds.
pub open spec fn total_secs(entries: Seq<PlaylistEntry>) -> nat
    decreases entries.len(),
{
    if entries.len() == 0 {
        0
    } else {
        total_secs(entries.drop_last()) + match entries.last().duration_secs {
            Some(d) => d as nat,
            None => 0nat,
        }
    }
}

proof fn lemma_missing_in_bounded(entries: Seq<PlaylistEntry>)
    ensures
        missing_in(entries) <= entries.len(),
    decreases entries.len(),
{
    if entries.len() > 0 {
        lemma_missing_in_bounded(entries.drop_last());
    }
}

proof fn lemma_total_prefix(entries: Seq<PlaylistEntry>, i: int)
    requires
        0 <= i <= entries.len(),
    ensures
        total_secs(entries.take(i)) <= total_secs(entries),
    decreases entries.len(),
{
    if i < entries.len() {
        assert(entries.drop_last().take(i) =~= entries.take(i));
        lemma_total_prefix(entries.drop_last(), i);
    } else {
        assert(entries.take(i) =~= entries);
    }
}

/// The header's counts: how many entries are missing, and the total length
/// in seconds of those whose length is known.
pub fn playlist_totals(entries: &[PlaylistEntry]) -> (r: (usize, u64))
    requires
        total_secs(entries@) <= u64::MAX,
    ensures
        r.0 == missing_in(entries@),
        r.0 <= entries@.len(),
        r.1 == total_secs(entries@),
{
    let mut missing: usize = 0;
    let mut total: u64 = 0;
    let mut i: usize = 0;
    while i < entries.len()
        invariant
            i <= entries@.len(),
            missing == missing_in(entries@.take(i as int)),
            missing <= i,
            total == total_secs(entries@.take(i as int)),
            total_secs(entries@) <= u64::MAX,
        decreases entries@.len() - i,
    {
        proof {
            assert(entries@.take(i + 1).drop_last() =~= entries@.take(i as int));
            lemma_total_prefix(entries@, i + 1);
        }
        if entries[i].missing {
            missing = missing + 1;
        }
        match entries[i].duration_secs {
            Some(d) => {
                total = total + d;
            },
            None => {},
        }
        i = i + 1;
    }
    proof {
        assert(entries@.take(i as int) =~= entries@);
    }
    (missing, total)
}

/// What each control of a playlist row asks for; `None` draws the control
/// disabled (never omitted, so that no column shifts).
#[derive(Debug, Clone)]
pub struct RowActions {
    pub play_now: Option<Message>,
    pub add_to_queue: Option<Message>,
    pub play_next: Option<Message>,
    pub move_up: Option<Message>,
    pub move_down: Option<Message>,
    pub add_to_playlist: Option<Message>,
    pub remove: Message,
}

/// The playlist position of the row at `index`: the one the server
/// reported, else the index itself.
pub open spec fn row_pos(entry: PlaylistEntry, index: usize) -> u32 {
    match entry.pos {
        Some(p) => p,
        None => index as u32,
    }
}

/// The actions of the row at `index` in a playlist of `count` entries.
/// A missing file cannot be played or queued or added elsewhere (MPD would
/// reject it), but can still be moved and removed; the first row cannot move
/// up, nor the last down.
pub fn row_actions(playlist: &str, entry: &PlaylistEntry, index: usize, count: usize) -> (r: RowActions)
    requires
        index < count,
    ensures
        ({
            let pos = row_pos(*entry, index);
            let playable = !entry.missing;
            &&& (playable ==> (r.play_now matches Some(Message::PlaylistPlayAt(n, p)) && n@ == playlist@ && p == pos))
            &&& (playable ==> (r.add_to_queue matches Some(Message::QueueAddOnly(f)) && f@ == entry.file@))
            &&& (playable ==> (r.play_next matches Some(Message::QueueAddNext(f)) && f@ == entry.file@))
            &&& (playable ==> (r.add_to_playlist matches Some(Message::OpenAddToPlaylist(v))
                && v@.len() == 1 && v@[0]@ == entry.file@))
            &&& (!playable ==> r.play_now is None && r.add_to_queue is None && r.play_next is None
                && r.add_to_playlist is None)
            &&& (index > 0 ==> (r.move_up matches Some(Message::PlaylistMoveSongUp(n, p)) && n@ == playlist@ && p == pos))
            &&& (index == 0 ==> r.move_up is None)
            &&& (index + 1 < count ==> (r.move_down matches Some(Message::PlaylistMoveSongDown(n, p))
                && n@ == playlist@ && p == pos))
            &&& (index + 1 >= count ==> r.move_down is None)
            &&& (r.remove matches Message::PlaylistRemoveSong(n, p) && n@ == playlist@ && p == pos)
        }),
{
    let pos: u32 = match entry.pos {
        Some(p) => p,
        None => index as u32,
    };
    let playable = !entry.missing;
    let play_now = if playable { Some(Message::PlaylistPlayAt(owned(playlist), pos)) } else { None };
    let add_to_queue = if playable { Some(Message::QueueAddOnly(entry.file.clone())) } else { None };
    let play_next = if playable { Some(Message::QueueAddNext(entry.file.clone())) } else { None };
    let add_to_playlist = if playable {
        let mut v: Vec<String> = Vec::new();
        v.push(entry.file.clone());
        Some(Message::OpenAddToPlaylist(v))
    } else {
        None
    };
    let move_up = if index > 0 { Some(Message::PlaylistMoveSongUp(owned(playlist), pos)) } else { None };
    let move_down = if index + 1 < count {
        Some(Message::PlaylistMoveSongDown(owned(playlist), pos))
    } else {
        None
    };
    RowActions {
        play_now,
        add_to_queue,
        play_next,
        move_up,
        move_down,
        add_to_playlist,
        remove: Message::PlaylistRemoveSong(owned(playlist), pos),
    }
}

/// Is this row the playing one? Matched by URI, never by position (a
/// playlist index is unrelated to the queue position), and never for a
/// missing entry.
pub fn row_is_current(entry: &PlaylistEntry, current_file: Option<&str>) -> (r: bool)
    ensures
        r == (!entry.missing && (current_file matches Some(c) && c@ == entry.file@)),
{
    !entry.missing && is_current_uri(entry.file.as_str(), current_file)
}

/// The row's number, one-based.
pub fn row_number_label(pos: u32) -> (r: String)
    requires
        pos < u32::MAX,
    ensures
        r@ == decimal(pos as nat + 1),
{
    decimal_string(pos as u64 + 1)
}


/// The counts behind the summary: no more files are missing than listed,
/// none when none is marked, all when all are; an entry of unknown length
/// adds no time.
pub proof fn law_playlist_counts(entries: Seq<PlaylistEntry>)
    ensures
        missing_in(entries) <= entries.len(),
        (forall|i: int| 0 <= i < entries.len() ==> !(#[trigger] entries[i]).missing) ==> missing_in(entries) == 0,
        (forall|i: int| 0 <= i < entries.len() ==> (#[trigger] entries[i]).missing) ==> missing_in(entries) == entries.len(),
        (forall|i: int| 0 <= i < entries.len() ==> (#[trigger] entries[i]).duration_secs is None) ==> total_secs(entries) == 0,
    decreases entries.len(),
{
    if entries.len() > 0 {
        let e0 = entries.drop_last();
        law_playlist_counts(e0);
        assert forall|i: int| 0 <= i < e0.len() implies #[trigger] e0[i] == entries[i] by {}
        if forall|i: int| 0 <= i < entries.len() ==> !(#[trigger] entries[i]).missing {
            assert forall|i: int| 0 <= i < e0.len() implies !(#[trigger] e0[i]).missing by { assert(e0[i] == entries[i]); }
            assert(!entries[entries.len() - 1].missing);
        }
        if forall|i: int| 0 <= i < entries.len() ==> (#[trigger] entries[i]).missing {
            assert forall|i: int| 0 <= i < e0.len() implies (#[trigger] e0[i]).missing by { assert(e0[i] == entries[i]); }
            assert(entries[entries.len() - 1].missing);
        }
        if forall|i: int| 0 <= i < entries.len() ==> (#[trigger] entries[i]).duration_secs is None {
            assert forall|i: int| 0 <= i < e0.len() implies (#[trigger] e0[i]).duration_secs is None by { assert(e0[i] == entries[i]); }
            assert(entries[entries.len() - 1].duration_secs is None);
        }
    }
}

/// The summary reads "N tracks  |  M min", and with missing files
/// "N tracks  |  K missing  |  M min", N counting the playable tracks.
pub proof fn law_summary_reads(total: nat, missing: nat, minutes: nat)
    requires
        missing <= total,
    ensures
        missing == 0 ==> summary(total, missing, minutes) == decimal(total) + " tracks  |  "@ + decimal(minutes) + " min"@,
        missing > 0 ==> summary(total, missing, minutes) == decimal((total - missing) as nat) + " tracks  |  "@
            + decimal(missing) + " missing  |  "@ + decimal(minutes) + " min"@,
{
}

/// A missing file's caption names the folder it was in, when its path has
/// one.
pub proof fn law_missing_caption(file: Seq<char>)
    ensures
        (forall|i: int| 0 <= i < file.len() ==> file[i] != '/') ==> caption(file) == "Missing file"@,
{
    crate::text::lemma_last_index_of(file, '/');
}

} // verus!
