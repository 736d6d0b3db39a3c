//! Captions and small choices shared by the list views: counts, headings,
//! the album link of a library row, and the toggles' words.
use vstd::prelude::*;
use crate::model::AlbumGroup;
use crate::text::{decimal, decimal_string, owned};

verus! {

/// `"{n} {noun}"`, the count line of a list ("12 tracks", "3 albums").
pub fn count_caption(n: usize, noun: &str) -> (r: String)
    ensures
        r@ == decimal(n as nat) + " "@ + noun@,
{
    let mut r = decimal_string(n as u64);
    r.append(" ");
    r.append(noun);
    r
}

/// `"{heading} ({n})"`, a search-results section heading.
pub fn section_heading(heading: &str, n: usize) -> (r: String)
    ensures
        r@ == heading@ + " ("@ + decimal(n as nat) + ")"@,
{
    let mut r = owned(heading);
    r.append(" (");
    let k = decimal_string(n as u64);
    r.append(k.as_str());
    r.append(")");
    r
}

/// The search header: a hint before anything is typed, else the counts of
/// songs, albums and artists found.
pub fn search_status(query_empty: bool, songs: usize, albums: usize, artists: usize) -> (r: String)
    ensures
        query_empty ==> r@ == "Type to search"@,
        !query_empty ==> r@ == decimal(songs as nat) + " songs · "@ + decimal(albums as nat) + " albums · "@
            + decimal(artists as nat) + " artists"@,
{
    if query_empty {
        return String::from_str("Type to search");
    }
    let mut r = decimal_string(songs as u64);
    r.append(" songs · ");
    let a = decimal_string(albums as u64);
    r.append(a.as_str());
    r.append(" albums · ");
    let t = decimal_string(artists as u64);
    r.append(t.as_str());
    r.append(" artists");
    r
}

/// The album artist to send when a library album is opened: none when the
/// server could not group by album artist (the group's artist is then
/// empty), so that disc variants are not merged without an artist.
pub fn artist_opt(group: &AlbumGroup) -> (r: Option<String>)
    ensures
        group.artist@.len() == 0 ==> r is None,
        group.artist@.len() > 0 ==> (r matches Some(a) && a@ == group.artist@),
{
    if group.artist.as_str().unicode_len() == 0 { None } else { Some(group.artist.clone()) }
}

/// The disc count shown beside an album that collapses several discs:
/// `"{n} discs"` for more than one variant, nothing for one.
pub fn disc_caption(variants: usize) -> (r: Option<String>)
    ensures
        variants <= 1 ==> r is None,
        variants > 1 ==> (r matches Some(c) && c@ == decimal(variants as nat) + " discs"@),
{
    if variants > 1 {
        let mut r = decimal_string(variants as u64);
        r.append(" discs");
        Some(r)
    } else {
        None
    }
}

/// The title of the "add to playlist" picker: "Add to Playlist" for one
/// song, `"Add {n} Songs"` for several.
pub fn add_to_playlist_title(song_count: usize) -> (r: String)
    ensures
        song_count == 1 ==> r@ == "Add to Playlist"@,
        song_count != 1 ==> r@ == "Add "@ + decimal(song_count as nat) + " Songs"@,
{
    if song_count == 1 {
        return String::from_str("Add to Playlist");
    }
    let mut r = String::from_str("Add ");
    let k = decimal_string(song_count as u64);
    r.append(k.as_str());
    r.append(" Songs");
    r
}

/// The label of a disc track, `"Track {index + 1}"`.
pub fn cd_track_label(index: usize) -> (r: String)
    requires
        index < usize::MAX,
    ensures
        r@ == "Track "@ + decimal(index as nat + 1),
{
    let mut r = String::from_str("Track ");
    let k = decimal_string((index + 1) as u64);
    r.append(k.as_str());
    r
}

/// The CD view's body note: probing, or nothing loaded yet; none once
/// tracks are listed.
pub fn cd_note(probing: bool, track_count: usize) -> (r: Option<&'static str>)
    ensures
        probing ==> (r matches Some(s) && s@ == "Probing disc…"@),
        !probing && track_count == 0 ==> (r matches Some(s) && s@ == "No tracks loaded. Insert a disc and click Load Tracks."@),
        !probing && track_count > 0 ==> r is None,
{
    if probing {
        Some("Probing disc…")
    } else if track_count == 0 {
        Some("No tracks loaded. Insert a disc and click Load Tracks.")
    } else {
        None
    }
}

/// The Recently Played mode toggle's caption, `"View: Albums"` or
/// `"View: Tracks"`.
pub fn history_mode_label(show_albums: bool) -> (r: &'static str)
    ensures
        r@ == (if show_albums { "View: Albums"@ } else { "View: Tracks"@ }),
{
    if show_albums { "View: Albums" } else { "View: Tracks" }
}

/// An output's state caption and the caption of its toggle.
pub fn output_labels(enabled: bool) -> (r: (&'static str, &'static str))
    ensures
        r.0@ == (if enabled { "Enabled"@ } else { "Disabled"@ }),
        r.1@ == (if enabled { "Disable"@ } else { "Enable"@ }),
{
    if enabled { ("Enabled", "Disable") } else { ("Disabled", "Enable") }
}

/// A bio panel's toggle caption.
pub fn bio_toggle_label(shown: bool) -> (r: &'static str)
    ensures
        r@ == (if shown { "Hide info"@ } else { "Show info"@ }),
{
    if shown { "Hide info" } else { "Show info" }
}

/// A partition row: the marker before the name, and whether Switch and
/// Delete are offered (not for the partition in use).
pub fn partition_row(is_current: bool) -> (r: (&'static str, bool))
    ensures
        r.0@ == (if is_current { "> "@ } else { "  "@ }),
        r.1 == !is_current,
{
    if is_current { ("> ", false) } else { ("  ", true) }
}

} // verus!
