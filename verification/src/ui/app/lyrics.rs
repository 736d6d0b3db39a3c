//! When lyrics and biographies are fetched: each track's lyrics and each
//! artist's or album's biography (or the fact that there is none) are
//! looked up once a session, from memory, then from the store, and only
//! then from the network (LRCLIB, Wikipedia), whose answer is stored.
use vstd::prelude::*;
use crate::keyset::KeySet;


verus! {

/// What showing a track (or opening an artist or album) asks for, given
/// what is already in memory.
#[derive(Debug, Clone, Copy, PartialEq, Eq, Structural)]
pub enum LookupStep {
    /// Already known this session (lyrics, or known to have none).
    Nothing,
    /// Read the store; see [`lyrics_after_store`].
    ReadStore,
}

/// What happens once the store has answered.
#[derive(Debug, Clone, Copy, PartialEq, Eq, Structural)]
pub enum AfterStore {
    /// The store had an answer (the text, or a stored "none"): use it.
    UseStored,
    /// Nothing stored: ask the network, store its answer (a "none" too),
    /// use it.
    FetchAndStore,
}

/// The decision for the track `key` when the keys in `cached` are known.
pub open spec fn lyrics_decision(cached: Set<Seq<char>>, key: Seq<char>) -> LookupStep {
    if cached.contains(key) { LookupStep::Nothing } else { LookupStep::ReadStore }
}

/// Showing the track `key`: nothing when its lyrics are known in memory,
/// else read the store.
pub fn lyrics_step(cached: &KeySet, key: &str) -> (a: LookupStep)
    ensures
        a == lyrics_decision(cached@, key@),
{
    if cached.contains(key) { LookupStep::Nothing } else { LookupStep::ReadStore }
}

/// After reading the store: use what it had, or fetch and store.
pub fn lyrics_after_store(stored: bool) -> (a: AfterStore)
    ensures
        a == (if stored { AfterStore::UseStored } else { AfterStore::FetchAndStore }),
{
    if stored { AfterStore::UseStored } else { AfterStore::FetchAndStore }
}

/// Opening an artist or album whose biography is known under `key`:
/// nothing when it is known in memory, else read the store (then
/// [`lyrics_after_store`] decides the rest, the same way as for lyrics).
pub fn bio_step(known: &KeySet, key: &str) -> (a: LookupStep)
    ensures
        a == lyrics_decision(known@, key@),
{
    if known.contains(key) { LookupStep::Nothing } else { LookupStep::ReadStore }
}

/// The store key of an artist's biography: `artist:` and the name (the
/// in-memory set is keyed by the bare name).
pub fn artist_bio_store_key(artist: &str) -> (k: String)
    ensures
        k@ == "artist:"@ + artist@,
{
    let mut k = String::from_str("artist:");
    k.append(artist);
    proof {
        reveal_strlit("artist:");
    }
    k
}

} // verus!
