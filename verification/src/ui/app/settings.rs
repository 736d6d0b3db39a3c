//! The Settings forms' small decisions: what a field saves as, and the form
//! state reset on entering the view.
use vstd::prelude::*;
use crate::text::{decimal, decimal_string, parse_u32, parsed_unsigned, trim, trimmed};

verus! {

/// The art cache size a field saves: the field trimmed and read as a
/// number of megabytes, which must be above zero.
pub open spec fn cache_size_of(field: Seq<char>) -> Option<u32> {
    match parsed_unsigned(trimmed(field), u32::MAX as nat) {
        Some(mb) => if mb > 0 { Some(mb as u32) } else { None },
        None => None,
    }
}

/// The art cache size the field gives, in megabytes, if it is a valid one
/// (a whole number above zero); an invalid field saves nothing.
pub fn art_cache_size_from(field: &str) -> (r: Option<u32>)
    ensures
        r == cache_size_of(field@),
{
    let t = trim(field);
    match parse_u32(t.as_str()) {
        Some(mb) => if mb > 0 { Some(mb) } else { None },
        None => None,
    }
}

/// The station the "add radio station" form adds: its name and URL
/// trimmed, when both are non-empty.
pub fn radio_station_from(name: &str, url: &str) -> (r: Option<(String, String)>)
    ensures
        (trimmed(name@).len() > 0 && trimmed(url@).len() > 0) ==>
            (r matches Some(p) && p.0@ == trimmed(name@) && p.1@ == trimmed(url@)),
        !(trimmed(name@).len() > 0 && trimmed(url@).len() > 0) ==> r is None,
{
    let n = trim(name);
    let u = trim(url);
    if n.as_str().unicode_len() > 0 && u.as_str().unicode_len() > 0 { Some((n, u)) } else { None }
}

/// The Settings view's transient form state.
#[derive(Debug, Clone)]
pub struct SettingsForm {
    /// Is "clear caches" armed, waiting for its confirming press?
    pub confirm_clear_caches: bool,
    /// The server whose details are being edited.
    pub editing: Option<String>,
    /// The server being renamed.
    pub renaming: Option<String>,
    /// The art cache size field.
    pub cache_size_input: String,
}

impl SettingsForm {
    /// Entering the Settings view: leaving and coming back must not find the
    /// purge still armed or a half-finished edit or rename still open, and
    /// the cache size field shows the saved size again.
    pub fn on_enter(&mut self, art_cache_mb: u32)
        ensures
            !final(self).confirm_clear_caches,
            final(self).editing is None,
            final(self).renaming is None,
            final(self).cache_size_input@ == decimal(art_cache_mb as nat),
    {
        self.confirm_clear_caches = false;
        self.editing = None;
        self.renaming = None;
        self.cache_size_input = decimal_string(art_cache_mb as u64);
    }
}

/// Saving the cache size field as Settings shows it on entering keeps the
/// saved size: the field shows the size in decimal, and a size above zero
/// reads back as itself.
pub proof fn law_cache_size_field_reads_back(mb: u32)
    requires
        mb > 0,
    ensures
        cache_size_of(decimal(mb as nat)) == Some(mb),
{
    crate::text::law_decimal_parses_back(mb as nat, u32::MAX as nat);
}


/// The cache size field saves exactly the sizes above zero that it reads
/// as (trimmed, base ten); zero, a blank or anything unreadable saves
/// nothing.
pub proof fn law_cache_size_field(field: Seq<char>)
    ensures
        cache_size_of(field) is Some ==> cache_size_of(field)->0 > 0
            && parsed_unsigned(trimmed(field), u32::MAX as nat) == Some(cache_size_of(field)->0 as nat),
        parsed_unsigned(trimmed(field), u32::MAX as nat) is None ==> cache_size_of(field) is None,
        parsed_unsigned(trimmed(field), u32::MAX as nat) == Some(0nat) ==> cache_size_of(field) is None,
        (parsed_unsigned(trimmed(field), u32::MAX as nat) matches Some(v) && v > 0) ==> cache_size_of(field)
            == Some(parsed_unsigned(trimmed(field), u32::MAX as nat)->0 as u32),
{
}

} // verus!
