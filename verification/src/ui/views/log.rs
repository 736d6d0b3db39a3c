//! The Log view: which entries it lists, how a line reads, and the text
//! that "Copy all" puts on the clipboard.
use vstd::prelude::*;
use crate::text::{contains_seq, contains_str, join, joined, pad_right, padded, strip_prefix_or_keep, views, without_prefix};
use crate::ui::theme::colors::{palette_of, AppColors, Rgb};

verus! {

/// The prefix of the app's own log targets, left out when a line is shown.
pub const CRATE_PREFIX: &'static str = "winrmpc::";

/// One captured log line.
#[derive(Debug, Clone)]
pub struct LogEntry {
    pub timestamp: String,
    pub level: String,
    pub target: String,
    pub message: String,
}

/// A [`LogEntry`] as plain characters.
pub struct LogEntryV {
    pub timestamp: Seq<char>,
    pub level: Seq<char>,
    pub target: Seq<char>,
    pub message: Seq<char>,
}

impl vstd::view::View for LogEntry {
    type V = LogEntryV;

    open spec fn view(&self) -> LogEntryV {
        LogEntryV {
            timestamp: self.timestamp@,
            level: self.level@,
            target: self.target@,
            message: self.message@,
        }
    }
}

/// The entries' views.
pub open spec fn entries_view(v: Seq<LogEntry>) -> Seq<LogEntryV> {
    v.map_values(|e: LogEntry| e@)
}

/// Is an entry listed? All are, unless only MPD's are asked for: those whose
/// target mentions "mpd".
pub open spec fn listed(e: LogEntryV, mpd_only: bool) -> bool {
    !mpd_only || contains_seq(e.target, "mpd"@)
}

/// The entries listed, oldest first.
pub open spec fn listed_entries(v: Seq<LogEntryV>, mpd_only: bool) -> Seq<LogEntryV> {
    v.filter(|e: LogEntryV| listed(e, mpd_only))
}

/// The entries the view lists, oldest first (the view shows them newest
/// first).
pub fn displayed<'a>(entries: &'a Vec<LogEntry>, mpd_only: bool) -> (r: Vec<&'a LogEntry>)
    ensures
        r@.map_values(|e: &LogEntry| e@) == listed_entries(entries_view(entries@), mpd_only),
{
    let ghost ev = entries_view(entries@);
    let mut r: Vec<&'a LogEntry> = Vec::new();
    let mut i: usize = 0;
    while i < entries.len()
        invariant
            i <= entries@.len(),
            ev == entries_view(entries@),
            r@.map_values(|e: &LogEntry| e@) == listed_entries(ev.take(i as int), mpd_only),
        decreases entries@.len() - i,
    {
        let e = &entries[i];
        proof {
            assert(ev.take(i + 1) =~= ev.take(i as int).push(ev[i as int]));
            ev.take(i as int).lemma_filter_push(ev[i as int], |e: LogEntryV| listed(e, mpd_only));
        }
        if !mpd_only || contains_str(e.target.as_str(), "mpd") {
            r.push(e);
        }
        proof {
            assert(r@.map_values(|e: &LogEntry| e@) =~= listed_entries(ev.take(i + 1), mpd_only));
        }
        i = i + 1;
    }
    proof {
        assert(ev.take(i as int) =~= ev);
    }
    r
}

/// The note shown when nothing is listed.
pub fn empty_note(mpd_only: bool, has_entries: bool) -> (r: &'static str)
    ensures
        r@ == (if mpd_only && has_entries { "No MPD log entries yet."@ } else { "No log entries yet."@ }),
{
    if mpd_only && has_entries { "No MPD log entries yet." } else { "No log entries yet." }
}

/// A line's text after its timestamp: the level padded to five
/// characters, the target without the app's prefix, two spaces, the message.
pub open spec fn line_body(e: LogEntryV) -> Seq<char> {
    padded(e.level, 5) + " "@ + without_prefix(e.target, CRATE_PREFIX@) + "  "@ + e.message
}

fn body_of(e: &LogEntry) -> (r: String)
    ensures
        r@ == line_body(e@),
{
    let mut r = pad_right(e.level.as_str(), 5);
    r.append(" ");
    r.append(strip_prefix_or_keep(e.target.as_str(), CRATE_PREFIX));
    r.append("  ");
    r.append(e.message.as_str());
    r
}

/// A line as the view shows it: `"{timestamp} {level:5} {target}  {message}"`.
pub fn view_line(e: &LogEntry) -> (r: String)
    ensures
        r@ == e@.timestamp + " "@ + line_body(e@),
{
    let mut r = e.timestamp.clone();
    r.append(" ");
    let b = body_of(e);
    r.append(b.as_str());
    r
}

/// A line as "Copy all" writes it: `"[{timestamp}] {level:5} {target}  {message}"`.
pub open spec fn copied_line(e: LogEntryV) -> Seq<char> {
    "["@ + e.timestamp + "] "@ + line_body(e)
}

fn copy_line(e: &LogEntry) -> (r: String)
    ensures
        r@ == copied_line(e@),
{
    let mut r = String::from_str("[");
    r.append(e.timestamp.as_str());
    r.append("] ");
    let b = body_of(e);
    r.append(b.as_str());
    r
}

/// The text "Copy all" puts on the clipboard: the listed entries, oldest
/// first, one line each.
pub fn copy_text(entries: &Vec<LogEntry>, mpd_only: bool) -> (r: String)
    ensures
        r@ == joined(listed_entries(entries_view(entries@), mpd_only).map_values(|e: LogEntryV| copied_line(e)), "\n"@),
{
    let shown = displayed(entries, mpd_only);
    let ghost lv = listed_entries(entries_view(entries@), mpd_only);
    let mut lines: Vec<String> = Vec::new();
    let mut i: usize = 0;
    while i < shown.len()
        invariant
            i <= shown@.len(),
            shown@.map_values(|e: &LogEntry| e@) == lv,
            views(lines@) == lv.take(i as int).map_values(|e: LogEntryV| copied_line(e)),
        decreases shown@.len() - i,
    {
        let l = copy_line(shown[i]);
        let ghost old_lines = lines@;
        lines.push(l);
        proof {
            assert(shown@[i as int]@ == lv[i as int]);
            assert(lines@ == old_lines.push(l));
            assert(views(lines@) =~= views(old_lines).push(l@));
            assert(lv.take(i + 1).map_values(|e: LogEntryV| copied_line(e)) =~= lv.take(i as int).map_values(|e: LogEntryV| copied_line(e)).push(copied_line(lv[i as int])));
            assert(views(lines@) =~= lv.take(i + 1).map_values(|e: LogEntryV| copied_line(e)));
        }
        i = i + 1;
    }
    proof {
        assert(lv.take(i as int) =~= lv);
    }
    join(&lines, "\n")
}

/// The colour of a line: the warning colour for a slow command, else by
/// level (errors red, warnings amber, info primary, the rest muted).
pub fn level_color(colors: &AppColors, level: &str, slow: bool) -> (c: Rgb)
    ensures
        ({
            let p = palette_of(colors.spec_dark());
            c == (if slow { p.warning }
                else if level@ == "ERROR"@ { p.error }
                else if level@ == "WARN"@ { p.warning }
                else if level@ == "INFO"@ { p.text_primary }
                else { p.text_muted })
        }),
{
    if slow {
        colors.warning()
    } else if crate::text::str_eq(level, "ERROR") {
        colors.error()
    } else if crate::text::str_eq(level, "WARN") {
        colors.warning()
    } else if crate::text::str_eq(level, "INFO") {
        colors.text_primary()
    } else {
        colors.text_muted()
    }
}


/// Every entry is listed unless only MPD's are asked for; then exactly the
/// entries whose target contains "mpd" are.
pub proof fn law_log_filter(e: LogEntryV)
    ensures
        listed(e, false),
        listed(e, true) <==> exists|k: int| 0 <= k && k + 3 <= e.target.len() && #[trigger] e.target.subrange(k, k + 3) == "mpd"@,
{
    reveal_strlit("mpd");
    let n: Seq<char> = "mpd"@;
    assert(n.len() == 3);
    if listed(e, true) {
        let k = choose|k: int| 0 <= k && k + n.len() <= e.target.len() && #[trigger] e.target.subrange(k, k + n.len()) == n;
        assert(e.target.subrange(k, k + 3) == n);
    }
    if exists|k: int| 0 <= k && k + 3 <= e.target.len() && #[trigger] e.target.subrange(k, k + 3) == "mpd"@ {
        let k = choose|k: int| 0 <= k && k + 3 <= e.target.len() && #[trigger] e.target.subrange(k, k + 3) == "mpd"@;
        assert(e.target.subrange(k, k + n.len()) == n);
    }
}

} // verus!
