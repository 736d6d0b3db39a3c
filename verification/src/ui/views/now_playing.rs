//! The Now Playing view's captions and choices: the technical and metadata
//! lines, the recently played strip, and what the lyrics pane shows.
use vstd::prelude::*;
use vstd::string::*;
use crate::model::{art_key, art_key_for, AudioFormat, RecentAlbum};
use crate::text::{decimal, decimal_string, join, joined, str_eq, views};
use crate::ui::message::View;
use crate::ui::widgets::icon;
use crate::ui::theme::colors::{palette_of, AppColors, Rgb};
use vstd::view::View as DataView;

verus! {

/// What separates the parts of a caption line.
pub const SEPARATOR: &'static str = "  ·  ";

/// How many recently played albums the strip shows.
pub const RECENTS_SHOWN: usize = 5;

/// The parts of the technical line: the format when it is known, the sample
/// rate, bit depth and channels when MPD reports an audio format, and the
/// bitrate when it reports one.
pub open spec fn tech_parts(fmt: Seq<char>, audio: Option<AudioFormat>, bitrate: Option<u32>) -> Seq<Seq<char>> {
    let a: Seq<Seq<char>> = if fmt.len() > 0 { seq![fmt] } else { seq![] };
    let b: Seq<Seq<char>> = match audio {
        Some(f) => seq![
            decimal(f.sample_rate as nat) + " Hz"@,
            decimal(f.bits as nat) + " bit"@,
            decimal(f.channels as nat) + " ch"@,
        ],
        None => seq![],
    };
    let c: Seq<Seq<char>> = match bitrate {
        Some(br) => seq![decimal(br as nat) + " kbps"@],
        None => seq![],
    };
    a + b + c
}

fn with_suffix(n: u32, suffix: &str) -> (r: String)
    ensures
        r@ == decimal(n as nat) + suffix@,
{
    let mut r = decimal_string(n as u64);
    r.append(suffix);
    r
}

/// Technical audio details: format · sample rate · bit depth · channels ·
/// bitrate, leaving out what is unknown.
pub fn format_tech_line(fmt: &str, audio: Option<AudioFormat>, bitrate: Option<u32>) -> (r: String)
    ensures
        r@ == joined(tech_parts(fmt@, audio, bitrate), SEPARATOR@),
{
    let mut parts: Vec<String> = Vec::new();
    if fmt.unicode_len() > 0 {
        parts.push(String::from_str(fmt));
    }
    match audio {
        Some(f) => {
            parts.push(with_suffix(f.sample_rate, " Hz"));
            parts.push(with_suffix(f.bits, " bit"));
            parts.push(with_suffix(f.channels, " ch"));
        },
        None => {},
    }
    match bitrate {
        Some(br) => {
            parts.push(with_suffix(br, " kbps"));
        },
        None => {},
    }
    proof {
        assert(views(parts@) =~= tech_parts(fmt@, audio, bitrate));
    }
    join(&parts, SEPARATOR)
}

/// The year shown for a date tag: its first four bytes when it is longer
/// than that (a full date), else the whole tag.
pub open spec fn year_of(date: &str) -> Seq<char> {
    if date.spec_bytes().len() > 4 {
        vstd::utf8::decode_utf8(date.spec_bytes().subrange(0, 4))
    } else {
        date@
    }
}

/// The parts of the metadata line: the genre and the year, when known.
pub open spec fn meta_parts(genre: Option<&str>, date: Option<&str>) -> Seq<Seq<char>> {
    let a: Seq<Seq<char>> = match genre { Some(g) => seq![g@], None => seq![] };
    let b: Seq<Seq<char>> = match date { Some(d) => seq![year_of(d)], None => seq![] };
    a + b
}

/// Can the date tag be cut after its fourth byte? It must be, when it is
/// longer than that, for a year to be shown.
pub open spec fn date_cuttable(date: Option<&str>) -> bool {
    match date {
        Some(d) => d.spec_bytes().len() > 4 ==> vstd::utf8::is_char_boundary(d.spec_bytes(), 4),
        None => true,
    }
}

/// Genre and year: genre · year.
pub fn format_meta_line(genre: Option<&str>, date: Option<&str>) -> (r: String)
    requires
        date_cuttable(date),
    ensures
        r@ == joined(meta_parts(genre, date), SEPARATOR@),
{
    let mut parts: Vec<String> = Vec::new();
    match genre {
        Some(g) => {
            parts.push(String::from_str(g));
        },
        None => {},
    }
    match date {
        Some(d) => {
            if d.as_bytes().len() > 4 {
                let (y, _rest) = d.split_at(4);
                proof {
                    vstd::utf8::encode_utf8_decode_utf8(y@);
                    assert(y.spec_bytes() =~= d.spec_bytes().subrange(0, 4));
                    assert(y@ == year_of(d));
                }
                parts.push(String::from_str(y));
            } else {
                parts.push(String::from_str(d));
            }
        },
        None => {},
    }
    proof {
        assert(views(parts@) =~= meta_parts(genre, date));
    }
    join(&parts, SEPARATOR)
}

/// `s` cut to `max_chars` characters, with "…" appended when it was cut.
pub open spec fn truncated(s: Seq<char>, max_chars: nat) -> Seq<char> {
    if s.len() > max_chars { s.take(max_chars as int) + "…"@ } else { s }
}

/// Truncate a string at `max_chars`, appending "…" if it was cut.
pub fn truncate(s: &str, max_chars: usize) -> (r: String)
    ensures
        r@ == truncated(s@, max_chars as nat),
{
    let n = s.unicode_len();
    if n > max_chars {
        let mut r = String::from_str(s.substring_char(0, max_chars));
        r.append("…");
        r
    } else {
        String::from_str(s)
    }
}

/// Is a recent album other than the one playing (whose art key is `current`)?
pub open spec fn other_album(r: (Seq<char>, Seq<char>), current: Seq<char>) -> bool {
    art_key(r.0, r.1) != current
}

/// At most the first `RECENTS_SHOWN` of `s`.
pub open spec fn first_shown<A>(s: Seq<A>) -> Seq<A> {
    if s.len() <= RECENTS_SHOWN { s } else { s.take(RECENTS_SHOWN as int) }
}

/// The recently played albums in the strip: the first five, in order, that
/// are not the album playing.
pub open spec fn shown_recents(recents: Seq<(Seq<char>, Seq<char>)>, current: Seq<char>) -> Seq<(Seq<char>, Seq<char>)> {
    first_shown(recents.filter(|r: (Seq<char>, Seq<char>)| other_album(r, current)))
}

/// The recently played albums to show beside the playing one (whose art key
/// is `current_key`): the first five others, most recent first.
pub fn visible_recents<'a>(recents: &'a Vec<RecentAlbum>, current_key: &str) -> (r: Vec<&'a RecentAlbum>)
    ensures
        r@.map_values(|x: &RecentAlbum| x@) == shown_recents(recents@.map_values(|x: RecentAlbum| x@), current_key@),
{
    let ghost rv = recents@.map_values(|x: RecentAlbum| x@);
    let ghost pred = |r: (Seq<char>, Seq<char>)| other_album(r, current_key@);
    let mut r: Vec<&'a RecentAlbum> = Vec::new();
    let mut i: usize = 0;
    while i < recents.len()
        invariant
            i <= recents@.len(),
            rv == recents@.map_values(|x: RecentAlbum| x@),
            pred == (|r: (Seq<char>, Seq<char>)| other_album(r, current_key@)),
            r@.map_values(|x: &RecentAlbum| x@) == first_shown(rv.take(i as int).filter(pred)),
        decreases recents@.len() - i,
    {
        let x = &recents[i];
        let key = art_key_for(x.artist.as_str(), x.album.as_str());
        let other = !str_eq(key.as_str(), current_key);
        proof {
            assert(rv.take(i + 1) =~= rv.take(i as int).push(rv[i as int]));
            rv.take(i as int).lemma_filter_push(rv[i as int], pred);
            assert(other == pred(rv[i as int]));
        }
        if other && r.len() < RECENTS_SHOWN {
            r.push(x);
        }
        proof {
            let f0 = rv.take(i as int).filter(pred);
            let f1 = rv.take(i + 1).filter(pred);
            if other {
                if f0.len() < RECENTS_SHOWN {
                    assert(r@.map_values(|x: &RecentAlbum| x@) =~= first_shown(f1));
                } else {
                    assert(first_shown(f1) =~= first_shown(f0));
                }
            }
        }
        i = i + 1;
    }
    proof {
        assert(rv.take(i as int) =~= rv);
    }
    r
}

/// What the lyrics pane knows about the playing track's lyrics.
#[derive(Debug, Clone, Copy, PartialEq, Eq, Structural)]
pub enum LyricsState {
    /// Not looked up yet.
    Loading,
    /// Looked up, and there are none.
    NotFound,
    /// Found: whether the track is marked instrumental, and which of the
    /// synced and plain texts exist.
    Found { instrumental: bool, synced: bool, plain: bool },
}

/// What the lyrics pane shows.
#[derive(Debug, Clone, Copy, PartialEq, Eq, Structural)]
pub enum LyricsPane {
    /// A centred note: still loading.
    Loading,
    /// A centred note: nothing to show.
    NoLyrics,
    /// The instrumental marker.
    Instrumental,
    /// The synced lines, the active one highlighted.
    Synced,
    /// The plain text.
    Plain,
}

/// The pane for a state: synced lines are preferred over plain text, and an
/// instrumental track shows its marker whatever text it carries.
pub open spec fn pane_for(state: LyricsState) -> LyricsPane {
    match state {
        LyricsState::Loading => LyricsPane::Loading,
        LyricsState::NotFound => LyricsPane::NoLyrics,
        LyricsState::Found { instrumental, synced, plain } =>
            if instrumental { LyricsPane::Instrumental }
            else if synced { LyricsPane::Synced }
            else if plain { LyricsPane::Plain }
            else { LyricsPane::NoLyrics },
    }
}

/// What the lyrics pane shows for `state`.
pub fn lyrics_pane(state: LyricsState) -> (p: LyricsPane)
    ensures
        p == pane_for(state),
{
    match state {
        LyricsState::Loading => LyricsPane::Loading,
        LyricsState::NotFound => LyricsPane::NoLyrics,
        LyricsState::Found { instrumental, synced, plain } => {
            if instrumental {
                LyricsPane::Instrumental
            } else if synced {
                LyricsPane::Synced
            } else if plain {
                LyricsPane::Plain
            } else {
                LyricsPane::NoLyrics
            }
        },
    }
}

/// Is the Sync/Scroll switch shown? Only when there is something to sync
/// to: synced lyrics on a track that is not instrumental.
pub fn shows_follow_toggle(state: LyricsState) -> (r: bool)
    ensures
        r == (pane_for(state) == LyricsPane::Synced),
{
    match state {
        LyricsState::Found { instrumental, synced, plain: _ } => !instrumental && synced,
        _ => false,
    }
}

/// Colour and size of a synced lyric line: the accent and 17 for the active
/// line, muted and 15 for the others.
pub fn lyric_line_style(colors: &AppColors, is_active: bool) -> (r: (Rgb, u16))
    ensures
        r == (if is_active { (palette_of(colors.spec_dark()).accent, 17u16) }
            else { (palette_of(colors.spec_dark()).text_muted, 15u16) }),
{
    if is_active { (colors.accent(), 17) } else { (colors.text_muted(), 15) }
}

/// Should the lyrics pane follow the active line? Only while lyrics are
/// shown, following is on, and Now Playing is the open view (the pane exists
/// nowhere else).
pub fn autoscroll_wanted(show_lyrics: bool, follow: bool, view: &View) -> (r: bool)
    ensures
        r == (show_lyrics && follow && *view == View::NowPlaying),
{
    show_lyrics && follow && matches!(view, View::NowPlaying)
}

/// The Sync/Scroll switch: its glyph, its word and the hint beside it.
pub fn follow_toggle_parts(follow: bool) -> (r: (&'static str, &'static str, &'static str))
    ensures
        follow ==> r.0 == icon::HISTORY && r.1@ == "Sync"@
            && r.2@ == "Following the song — click to scroll freely"@,
        !follow ==> r.0 == icon::LIST && r.1@ == "Scroll"@
            && r.2@ == "Free scrolling — click to follow the song"@,
{
    if follow {
        (icon::HISTORY, "Sync", "Following the song — click to scroll freely")
    } else {
        (icon::LIST, "Scroll", "Free scrolling — click to follow the song")
    }
}

/// The lyrics toggle's caption.
pub fn lyrics_toggle_label(show: bool) -> (r: &'static str)
    ensures
        r@ == (if show { "Hide lyrics"@ } else { "Show lyrics"@ }),
{
    if show { "Hide lyrics" } else { "Show lyrics" }
}


/// The link shown under the track while the queue is a stored playlist:
/// "Playing from" and the playlist's name.
pub fn playing_from_caption(name: &str) -> (r: String)
    ensures
        r@ == "Playing from "@ + name@,
{
    let mut r = String::from_str("Playing from ");
    r.append(name);
    proof {
        reveal_strlit("Playing from ");
    }
    r
}


/// A caption is cut only when it is longer than allowed: then it keeps
/// exactly the allowed number of characters, followed by "…"; otherwise it
/// is shown whole.
pub proof fn law_truncation(s: Seq<char>, max_chars: nat)
    ensures
        s.len() <= max_chars ==> truncated(s, max_chars) == s,
        s.len() > max_chars ==> truncated(s, max_chars).len() == max_chars + 1,
        s.len() > max_chars ==> truncated(s, max_chars).take(max_chars as int) == s.take(max_chars as int),
        s.len() > max_chars ==> truncated(s, max_chars).last() == '…',
{
    reveal_strlit("…");
    if s.len() > max_chars {
        assert(truncated(s, max_chars).take(max_chars as int) =~= s.take(max_chars as int));
    }
}

/// The strip shows at most five albums, never the one playing, each one of
/// the recently played, in order.
pub proof fn law_recents_strip(recents: Seq<(Seq<char>, Seq<char>)>, current: Seq<char>)
    ensures
        shown_recents(recents, current).len() <= 5,
        forall|i: int| 0 <= i < shown_recents(recents, current).len()
            ==> art_key((#[trigger] shown_recents(recents, current)[i]).0, shown_recents(recents, current)[i].1) != current
                && recents.contains(shown_recents(recents, current)[i]),
{
    let p = |r: (Seq<char>, Seq<char>)| other_album(r, current);
    let f = recents.filter(p);
    let shown = shown_recents(recents, current);
    assert forall|i: int| 0 <= i < shown.len() implies art_key((#[trigger] shown[i]).0, shown[i].1) != current
        && recents.contains(shown[i]) by {
        recents.lemma_filter_len(p);
        assert(shown[i] == f[i]);
        recents.lemma_filter_pred(p, i);
        assert(f.contains(f[i]));
        recents.lemma_filter_contains_rev(p, f[i]);
    }
}

/// The lyrics pane: still loading, nothing found, and an instrumental
/// track each show their note; otherwise synced lines come before plain
/// text, and a track with neither shows the "no lyrics" note.
pub proof fn law_lyrics_pane(instrumental: bool, synced: bool, plain: bool)
    ensures
        pane_for(LyricsState::Loading) == LyricsPane::Loading,
        pane_for(LyricsState::NotFound) == LyricsPane::NoLyrics,
        instrumental ==> pane_for(LyricsState::Found { instrumental, synced, plain }) == LyricsPane::Instrumental,
        !instrumental && synced ==> pane_for(LyricsState::Found { instrumental, synced, plain }) == LyricsPane::Synced,
        !instrumental && !synced && plain ==> pane_for(LyricsState::Found { instrumental, synced, plain }) == LyricsPane::Plain,
        !instrumental && !synced && !plain ==> pane_for(LyricsState::Found { instrumental, synced, plain }) == LyricsPane::NoLyrics,
{
}

/// The technical line lists what is known, in the order format, sample
/// rate, bit depth, channels, bitrate, each with its unit.
pub proof fn law_tech_parts(fmt: Seq<char>, audio: Option<AudioFormat>, bitrate: Option<u32>)
    ensures
        tech_parts(fmt, audio, bitrate).len()
            == (if fmt.len() > 0 { 1int } else { 0 }) + (if audio is Some { 3int } else { 0 }) + (if bitrate is Some { 1int } else { 0 }),
        fmt.len() > 0 ==> tech_parts(fmt, audio, bitrate)[0] == fmt,
        bitrate matches Some(br) ==> tech_parts(fmt, audio, bitrate).last() == decimal(br as nat) + " kbps"@,
        audio matches Some(f) ==> tech_parts(fmt, audio, bitrate)[if fmt.len() > 0 { 1int } else { 0 }]
            == decimal(f.sample_rate as nat) + " Hz"@,
{
}


/// The metadata line lists the genre, then the year, each only when known.
pub proof fn law_meta_parts(genre: Option<&str>, date: Option<&str>)
    ensures
        meta_parts(genre, date).len() == (if genre is Some { 1int } else { 0 }) + (if date is Some { 1int } else { 0 }),
        genre matches Some(g) ==> meta_parts(genre, date)[0] == g@,
        date matches Some(d) ==> meta_parts(genre, date).last() == year_of(d),
{
}

} // verus!
