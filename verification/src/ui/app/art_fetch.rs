//! How one cover is looked up: which sources are tried, in which order, and
//! what a miss leaves behind; and which covers a view asks for.
use vstd::prelude::*;
use crate::model::{art_key, art_key_for, key_separator, RecentAlbum};
use crate::text::{owned, starts_with};
use crate::ui::app::art::ArtQueue;
use crate::ui::app::playback::{is_cd_track, CD_SCHEME};
use crate::ui::message::{ArtOutcome, View};
use vstd::view::View as DataView;

verus! {

/// A place a cover can come from.
#[derive(Debug, Clone, Copy, PartialEq, Eq, Structural)]
pub enum ArtSource {
    /// The art cache, memory then disk.
    Cache,
    /// The picture embedded in the song's tags (MPD `readpicture`).
    MpdTag,
    /// A cover file beside the song (MPD `albumart`).
    CoverFile,
    /// The persisted "no art anywhere" record: when it says so, stop.
    KnownMissing,
    /// MusicBrainz and the Cover Art Archive, by artist and album.
    MusicBrainz,
}

/// How a cover is looked up: the sources to try in order, stopping at the
/// first that has it, and whether a miss everywhere is remembered.
#[derive(Debug, Clone, PartialEq, Eq)]
pub struct ArtPlan {
    pub sources: Vec<ArtSource>,
    pub remember_miss: bool,
}

/// The sources tried for a song at `uri`: the cache; then, when there is a
/// song to ask about, its tag picture and its cover file (cheap local
/// queries, tried even when a miss was remembered); then the remembered
/// miss, which gates only the rate-limited MusicBrainz lookup; then
/// MusicBrainz.
pub open spec fn plan_sources(uri: Seq<char>) -> Seq<ArtSource> {
    if uri.len() > 0 {
        seq![ArtSource::Cache, ArtSource::MpdTag, ArtSource::CoverFile, ArtSource::KnownMissing, ArtSource::MusicBrainz]
    } else {
        seq![ArtSource::Cache, ArtSource::KnownMissing, ArtSource::MusicBrainz]
    }
}

/// How to look up the cover of the song at `uri` (empty when only the album
/// is known). Never for a CD track: asking MPD for the art of a disc track
/// makes it open the drive, which corrupts its state. A miss is remembered
/// only when MPD itself was asked, so that an album-only lookup cannot block
/// the local sources later.
pub fn art_plan(uri: &str) -> (p: Option<ArtPlan>)
    ensures
        is_cd_track(uri@) ==> p is None,
        !is_cd_track(uri@) ==> (p matches Some(plan)
            && plan.sources@ == plan_sources(uri@)
            && plan.remember_miss == (uri@.len() > 0)),
{
    if starts_with(uri, CD_SCHEME) {
        return None;
    }
    let mut sources: Vec<ArtSource> = Vec::new();
    sources.push(ArtSource::Cache);
    let has_uri = uri.unicode_len() > 0;
    if has_uri {
        sources.push(ArtSource::MpdTag);
        sources.push(ArtSource::CoverFile);
    }
    sources.push(ArtSource::KnownMissing);
    sources.push(ArtSource::MusicBrainz);
    proof {
        assert(sources@ =~= plan_sources(uri@));
    }
    Some(ArtPlan { sources, remember_miss: has_uri })
}

/// How the local stage looks up an album's cover: the cache, then the tag
/// picture of a track of the album, then a cover file beside it, then the
/// remembered miss. It never goes to the network, and remembers no miss of
/// its own: a cover file dropped in later must still be found.
pub fn album_local_plan() -> (p: ArtPlan)
    ensures
        p.sources@ == seq![ArtSource::Cache, ArtSource::MpdTag, ArtSource::CoverFile, ArtSource::KnownMissing],
        !p.remember_miss,
{
    let mut sources: Vec<ArtSource> = Vec::new();
    sources.push(ArtSource::Cache);
    sources.push(ArtSource::MpdTag);
    sources.push(ArtSource::CoverFile);
    sources.push(ArtSource::KnownMissing);
    proof {
        assert(sources@ =~= seq![ArtSource::Cache, ArtSource::MpdTag, ArtSource::CoverFile, ArtSource::KnownMissing]);
    }
    ArtPlan { sources, remember_miss: false }
}

/// What the local stage reports for an album, and whether the cover bytes
/// are to be stored in the cache: a cached cover is reported as it is; when
/// MPD could not be asked, a local miss, with nothing stored (the album is
/// retried on the next visit); a track's tag picture, else its cover file,
/// is reported and stored; otherwise the album is final-missing when a miss
/// was remembered, else a local miss for the MusicBrainz stage.
pub open spec fn local_outcome(
    cached: Option<Vec<u8>>,
    find_ok: bool,
    has_song: bool,
    tag_art: Option<Vec<u8>>,
    cover_art: Option<Vec<u8>>,
    known_missing: bool,
) -> (ArtOutcome, bool) {
    match cached {
        Some(d) => (ArtOutcome::Loaded(d), false),
        None => if !find_ok {
            (ArtOutcome::MpdMiss, false)
        } else if has_song && tag_art is Some {
            (ArtOutcome::Loaded(tag_art->0), true)
        } else if has_song && cover_art is Some {
            (ArtOutcome::Loaded(cover_art->0), true)
        } else if known_missing {
            (ArtOutcome::Missing, false)
        } else {
            (ArtOutcome::MpdMiss, false)
        },
    }
}

/// The local stage's outcome from what each of its sources answered: the
/// cache, whether MPD's `find` worked and found a track, the track's tag
/// picture and cover file, and whether a miss is remembered. See
/// [`local_outcome`].
pub fn album_local_outcome(
    cached: Option<Vec<u8>>,
    find_ok: bool,
    has_song: bool,
    tag_art: Option<Vec<u8>>,
    cover_art: Option<Vec<u8>>,
    known_missing: bool,
) -> (r: (ArtOutcome, bool))
    ensures
        r == local_outcome(cached, find_ok, has_song, tag_art, cover_art, known_missing),
{
    match cached {
        Some(d) => (ArtOutcome::Loaded(d), false),
        None => if !find_ok {
            (ArtOutcome::MpdMiss, false)
        } else if has_song && tag_art.is_some() {
            match tag_art {
                Some(d) => (ArtOutcome::Loaded(d), true),
                None => (ArtOutcome::MpdMiss, false),
            }
        } else if has_song && cover_art.is_some() {
            match cover_art {
                Some(d) => (ArtOutcome::Loaded(d), true),
                None => (ArtOutcome::MpdMiss, false),
            }
        } else if known_missing {
            (ArtOutcome::Missing, false)
        } else {
            (ArtOutcome::MpdMiss, false)
        },
    }
}

/// What the MusicBrainz stage writes to the cache.
#[derive(Debug, Clone, Copy, PartialEq, Eq, Structural)]
pub enum CacheWrite {
    /// Nothing (the cover was already cached).
    Nothing,
    /// The cover bytes found.
    Bytes,
    /// A remembered miss: both stages have asked, and no later session asks
    /// again.
    Miss,
}

/// What the MusicBrainz stage reports for an album, and what it writes: a
/// cover cached meanwhile (by another list, or the playing track) is
/// reported as it is; a cover found is reported and stored; otherwise the
/// album is final-missing, and the miss is remembered. `fetched` is `None`
/// also when the key does not split into artist and album, since nothing
/// is asked then.
pub open spec fn remote_outcome(cached: Option<Vec<u8>>, fetched: Option<Vec<u8>>) -> (ArtOutcome, CacheWrite) {
    match cached {
        Some(d) => (ArtOutcome::Loaded(d), CacheWrite::Nothing),
        None => match fetched {
            Some(d) => (ArtOutcome::Loaded(d), CacheWrite::Bytes),
            None => (ArtOutcome::Missing, CacheWrite::Miss),
        },
    }
}

/// The MusicBrainz stage's outcome; see [`remote_outcome`]. What it asks
/// MusicBrainz for is the art key split back into artist and album
/// ([`split_art_key`]).
pub fn album_remote_outcome(cached: Option<Vec<u8>>, fetched: Option<Vec<u8>>) -> (r: (ArtOutcome, CacheWrite))
    ensures
        r == remote_outcome(cached, fetched),
{
    match cached {
        Some(d) => (ArtOutcome::Loaded(d), CacheWrite::Nothing),
        None => match fetched {
            Some(d) => (ArtOutcome::Loaded(d), CacheWrite::Bytes),
            None => (ArtOutcome::Missing, CacheWrite::Miss),
        },
    }
}

/// The index of the first `c` in `s`, or -1.
pub open spec fn first_index_of(s: Seq<char>, c: char) -> int
    decreases s.len(),
{
    if s.len() == 0 {
        -1
    } else if s[0] == c {
        0
    } else {
        let r = first_index_of(s.drop_first(), c);
        if r < 0 { -1 } else { r + 1 }
    }
}

proof fn lemma_first_index_of(s: Seq<char>, c: char)
    ensures
        -1 <= first_index_of(s, c) < s.len(),
        first_index_of(s, c) >= 0 ==> s[first_index_of(s, c)] == c,
        forall|j: int| 0 <= j < s.len() && (first_index_of(s, c) < 0 || j < first_index_of(s, c))
            ==> #[trigger] s[j] != c,
    decreases s.len(),
{
    if s.len() > 0 && s[0] != c {
        lemma_first_index_of(s.drop_first(), c);
        assert forall|j: int| 0 <= j < s.len() && (first_index_of(s, c) < 0 || j < first_index_of(s, c))
            implies #[trigger] s[j] != c by {
            if j > 0 {
                assert(s[j] == s.drop_first()[j - 1]);
            }
        }
    }
}

/// An art key split at its first separator into artist and album.
pub open spec fn split_key(key: Seq<char>) -> Option<(Seq<char>, Seq<char>)> {
    let k = first_index_of(key, key_separator());
    if k < 0 { None } else { Some((key.take(k), key.skip(k + 1))) }
}

/// The artist and album a MusicBrainz lookup is made with: the key split at
/// its first separator; none when the key has no separator.
pub fn split_art_key(key: &str) -> (r: Option<(String, String)>)
    ensures
        match split_key(key@) {
            Some(p) => r matches Some(q) && q.0@ == p.0 && q.1@ == p.1,
            None => r is None,
        },
{
    proof {
        lemma_first_index_of(key@, key_separator());
    }
    let n = key.unicode_len();
    let mut i: usize = 0;
    while i < n
        invariant
            n == key@.len(),
            i <= n,
            -1 <= first_index_of(key@, key_separator()) < key@.len(),
            first_index_of(key@, key_separator()) >= 0 ==> key@[first_index_of(key@, key_separator())] == key_separator(),
            forall|j: int| 0 <= j < key@.len() && (first_index_of(key@, key_separator()) < 0 || j < first_index_of(key@, key_separator()))
                ==> #[trigger] key@[j] != key_separator(),
            forall|j: int| 0 <= j < i ==> #[trigger] key@[j] != key_separator(),
        decreases n - i,
    {
        if key.get_char(i) == '\u{1f}' {
            proof {
                assert(first_index_of(key@, key_separator()) == i);
            }
            let artist = key.substring_char(0, i);
            let album = key.substring_char(i + 1, n);
            proof {
                assert(artist@ =~= key@.take(i as int));
                assert(album@ =~= key@.skip(i + 1));
            }
            return Some((owned(artist), owned(album)));
        }
        i = i + 1;
    }
    None
}

/// An album's art key splits back into its artist and album, provided the
/// artist holds no separator.
pub proof fn law_art_key_splits_back(artist: Seq<char>, album: Seq<char>)
    requires
        !artist.contains(key_separator()),
    ensures
        split_key(art_key(artist, album)) == Some((artist, album)),
{
    let key = art_key(artist, album);
    lemma_first_index_of(key, key_separator());
    let n = artist.len() as int;
    assert(key[n] == key_separator());
    assert forall|j: int| 0 <= j < n implies #[trigger] key[j] != key_separator() by {
        assert(key[j] == artist[j]);
    }
    let k = first_index_of(key, key_separator());
    if k < n {
        assert(key[k] == artist[k]);
    }
    assert(k == n);
    assert(key.take(n) =~= artist);
    assert(key.skip(n + 1) =~= album);
}

/// The art key of an artist's image, `"artist:{name}"`.
pub fn artist_art_key(name: &str) -> (k: String)
    ensures
        k@ == "artist:"@ + name@,
{
    let mut k = String::from_str("artist:");
    k.append(name);
    k
}

/// The art keys of the recently played albums whose covers are not loaded,
/// in order; each is looked up by album only.
pub fn recent_art_to_fetch(recents: &Vec<RecentAlbum>, art: &ArtQueue) -> (r: Vec<String>)
    requires
        art.wf(),
    ensures
        crate::text::views(r@) == recents@.map_values(|x: RecentAlbum| x@)
            .filter(|p: (Seq<char>, Seq<char>)| !art@.loaded.contains(art_key(p.0, p.1)))
            .map_values(|p: (Seq<char>, Seq<char>)| art_key(p.0, p.1)),
{
    let ghost rv = recents@.map_values(|x: RecentAlbum| x@);
    let ghost pred = |p: (Seq<char>, Seq<char>)| !art@.loaded.contains(art_key(p.0, p.1));
    let ghost f = |p: (Seq<char>, Seq<char>)| art_key(p.0, p.1);
    let mut r: Vec<String> = Vec::new();
    let mut i: usize = 0;
    while i < recents.len()
        invariant
            i <= recents@.len(),
            art.wf(),
            rv == recents@.map_values(|x: RecentAlbum| x@),
            pred == (|p: (Seq<char>, Seq<char>)| !art@.loaded.contains(art_key(p.0, p.1))),
            f == (|p: (Seq<char>, Seq<char>)| art_key(p.0, p.1)),
            crate::text::views(r@) == rv.take(i as int).filter(pred).map_values(f),
        decreases recents@.len() - i,
    {
        let x = &recents[i];
        let key = art_key_for(x.artist.as_str(), x.album.as_str());
        proof {
            assert(rv.take(i + 1) =~= rv.take(i as int).push(rv[i as int]));
            rv.take(i as int).lemma_filter_push(rv[i as int], pred);
        }
        let ghost before = r@;
        proof {
            assert(rv[i as int] == (x.artist@, x.album@));
            assert(key@ == f(rv[i as int]));
            let fl = rv.take(i as int).filter(pred);
            assert(fl.push(rv[i as int]).map_values(f) =~= fl.map_values(f).push(f(rv[i as int])));
        }
        if !art.has_art(key.as_str()) {
            r.push(key);
            proof {
                assert(crate::text::views(r@) =~= crate::text::views(before).push(key@));
                assert(crate::text::views(r@) =~= rv.take(i + 1).filter(pred).map_values(f));
            }
        } else {
            proof {
                assert(crate::text::views(r@) =~= rv.take(i + 1).filter(pred).map_values(f));
            }
        }
        i = i + 1;
    }
    proof {
        assert(rv.take(i as int) =~= rv);
    }
    r
}

/// The album list whose covers a view shows.
#[derive(Debug, Clone, Copy, PartialEq, Eq, Structural)]
pub enum ArtList {
    Albums,
    RecentlyAdded,
    RecentlyPlayed,
}

/// The album list whose covers are queued when `view` opens or its list
/// loads; none for views that are not album lists.
pub fn art_list_for(view: &View) -> (r: Option<ArtList>)
    ensures
        r == (match *view {
            View::Albums => Some(ArtList::Albums),
            View::RecentlyAdded => Some(ArtList::RecentlyAdded),
            View::RecentlyPlayed => Some(ArtList::RecentlyPlayed),
            _ => None,
        }),
{
    match view {
        View::Albums => Some(ArtList::Albums),
        View::RecentlyAdded => Some(ArtList::RecentlyAdded),
        View::RecentlyPlayed => Some(ArtList::RecentlyPlayed),
        _ => None,
    }
}


/// A song's cover is looked up in the cache first and at MusicBrainz last,
/// after the remembered miss; MPD's tag picture and the cover file are
/// asked, in that order, only when there is a song to ask about.
pub proof fn law_lookup_order(uri: Seq<char>)
    ensures
        plan_sources(uri)[0] == ArtSource::Cache,
        plan_sources(uri).last() == ArtSource::MusicBrainz,
        plan_sources(uri)[plan_sources(uri).len() - 2] == ArtSource::KnownMissing,
        uri.len() > 0 ==> plan_sources(uri).len() == 5 && plan_sources(uri)[1] == ArtSource::MpdTag
            && plan_sources(uri)[2] == ArtSource::CoverFile,
        uri.len() == 0 ==> plan_sources(uri).len() == 3,
{
}

/// The local stage: a cached cover is reported as it is and not stored
/// again; if MPD could not be asked the album is a local miss and nothing
/// is stored; a cover found beside a track is stored; nothing is ever
/// stored but found cover bytes; a remembered miss is reported only when
/// no cover was found.
pub proof fn law_local_stage(
    cached: Option<Vec<u8>>,
    find_ok: bool,
    has_song: bool,
    tag_art: Option<Vec<u8>>,
    cover_art: Option<Vec<u8>>,
    known_missing: bool,
)
    ensures
        ({
            let r = local_outcome(cached, find_ok, has_song, tag_art, cover_art, known_missing);
            &&& cached matches Some(d) ==> r == (ArtOutcome::Loaded(d), false)
            &&& (cached is None && !find_ok) ==> r == (ArtOutcome::MpdMiss, false)
            &&& r.1 ==> (cached is None && find_ok && has_song && r.0 is Loaded)
            &&& (cached is None && find_ok && has_song && tag_art is Some) ==> r == (ArtOutcome::Loaded(tag_art->0), true)
            &&& (cached is None && find_ok && has_song && tag_art is None && cover_art is Some) ==> r == (ArtOutcome::Loaded(cover_art->0), true)
            &&& r.0 is Missing ==> known_missing
            &&& (cached is None && find_ok && (!has_song || (tag_art is None && cover_art is None)))
                ==> r == (if known_missing { (ArtOutcome::Missing, false) } else { (ArtOutcome::MpdMiss, false) })
        }),
{
}

/// The MusicBrainz stage never answers a local miss: it reports the cover
/// cached meanwhile, else the cover it found (stored), else a final miss
/// (remembered).
pub proof fn law_remote_stage(cached: Option<Vec<u8>>, fetched: Option<Vec<u8>>)
    ensures
        !(remote_outcome(cached, fetched).0 is MpdMiss),
        cached matches Some(d) ==> remote_outcome(cached, fetched) == (ArtOutcome::Loaded(d), CacheWrite::Nothing),
        (cached is None && fetched is Some) ==> remote_outcome(cached, fetched) == (ArtOutcome::Loaded(fetched->0), CacheWrite::Bytes),
        (cached is None && fetched is None) ==> remote_outcome(cached, fetched) == (ArtOutcome::Missing, CacheWrite::Miss),
{
}

} // verus!
