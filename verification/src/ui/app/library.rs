//! Library listings as the app assembles them: merging tag lists, ordering
//! names as strings order, finding an album's disc variants, and ordering
//! an album's tracks.
use vstd::prelude::*;
use vstd::string::*;
use crate::keyset::lists_str;
use crate::model::AlbumGroup;
use crate::text::{parsed_unsigned, parse_u32, str_eq, trim, trimmed, views};

verus! {

broadcast use vstd::seq_lib::group_to_multiset_ensures;

// ---------------------------------------------------------------------------
// Merging tag lists
// ---------------------------------------------------------------------------

/// `primary` followed by each of `extra` that is not already listed (and,
/// when `skip_empty`, not empty), in order.
pub open spec fn merged(primary: Seq<Seq<char>>, extra: Seq<Seq<char>>, skip_empty: bool) -> Seq<Seq<char>>
    decreases extra.len(),
{
    if extra.len() == 0 {
        primary
    } else {
        let m = merged(primary, extra.drop_last(), skip_empty);
        let x = extra.last();
        if (skip_empty && x.len() == 0) || m.contains(x) { m } else { m.push(x) }
    }
}

/// Merge a second tag list into a first: the first as it is, then each name
/// of the second that is not listed yet, skipping empty names when asked.
/// (The artist lists merge track artists into album artists this way.)
pub fn merge_tag_lists(primary: Vec<String>, extra: &Vec<String>, skip_empty: bool) -> (r: Vec<String>)
    ensures
        views(r@) == merged(views(primary@), views(extra@), skip_empty),
{
    let ghost p0 = views(primary@);
    let mut r = primary;
    let mut i: usize = 0;
    while i < extra.len()
        invariant
            i <= extra@.len(),
            views(r@) == merged(p0, views(extra@).take(i as int), skip_empty),
        decreases extra@.len() - i,
    {
        proof {
            assert(views(extra@).take(i + 1).drop_last() =~= views(extra@).take(i as int));
            assert(views(extra@).take(i + 1).last() == extra@[i as int]@);
        }
        let x = &extra[i];
        let empty = x.as_str().unicode_len() == 0;
        if !((skip_empty && empty) || lists_str(&r, x.as_str())) {
            let ghost before = r@;
            r.push(x.clone());
            proof {
                assert(views(r@) =~= views(before).push(x@));
            }
        }
        i = i + 1;
    }
    proof {
        assert(views(extra@).take(i as int) =~= views(extra@));
    }
    r
}

/// Merging adds no duplicate: a name already listed once in the result is
/// never added again, so a duplicate-free first list stays duplicate-free.
pub proof fn law_merge_adds_no_duplicate(primary: Seq<Seq<char>>, extra: Seq<Seq<char>>, skip_empty: bool)
    requires
        primary.no_duplicates(),
    ensures
        merged(primary, extra, skip_empty).no_duplicates(),
        forall|i: int| 0 <= i < primary.len() ==> merged(primary, extra, skip_empty)[i] == primary[i],
        primary.len() <= merged(primary, extra, skip_empty).len(),
    decreases extra.len(),
{
    if extra.len() > 0 {
        law_merge_adds_no_duplicate(primary, extra.drop_last(), skip_empty);
    }
}

// ---------------------------------------------------------------------------
// String order
// ---------------------------------------------------------------------------

/// Is `a` before `b` in lexicographic byte order, the order of `str`?
pub open spec fn bytes_lt(a: Seq<u8>, b: Seq<u8>) -> bool
    decreases a.len(),
{
    if a.len() == 0 {
        b.len() > 0
    } else if b.len() == 0 {
        false
    } else if a[0] != b[0] {
        a[0] < b[0]
    } else {
        bytes_lt(a.drop_first(), b.drop_first())
    }
}

/// Is the string `a` ordered before `b`, as `str` and `String` order?
pub open spec fn name_lt(a: Seq<char>, b: Seq<char>) -> bool {
    bytes_lt(vstd::utf8::encode_utf8(a), vstd::utf8::encode_utf8(b))
}

proof fn lemma_bytes_lt_irreflexive(a: Seq<u8>)
    ensures
        !bytes_lt(a, a),
    decreases a.len(),
{
    if a.len() > 0 {
        lemma_bytes_lt_irreflexive(a.drop_first());
    }
}

proof fn lemma_bytes_lt_transitive(a: Seq<u8>, b: Seq<u8>, c: Seq<u8>)
    requires
        bytes_lt(a, b),
        bytes_lt(b, c),
    ensures
        bytes_lt(a, c),
    decreases a.len(),
{
    if a.len() > 0 && b.len() > 0 && c.len() > 0 && a[0] == b[0] && b[0] == c[0] {
        lemma_bytes_lt_transitive(a.drop_first(), b.drop_first(), c.drop_first());
    }
}

proof fn lemma_bytes_lt_total(a: Seq<u8>, b: Seq<u8>)
    requires
        a != b,
    ensures
        bytes_lt(a, b) || bytes_lt(b, a),
    decreases a.len(),
{
    if a.len() > 0 && b.len() > 0 && a[0] == b[0] {
        if a.drop_first() == b.drop_first() {
            assert(a =~= seq![a[0]] + a.drop_first());
            assert(b =~= seq![b[0]] + b.drop_first());
        }
        lemma_bytes_lt_total(a.drop_first(), b.drop_first());
    } else if a.len() == 0 && b.len() == 0 {
        assert(a =~= b);
    }
}

/// Is `a` ordered before `b`, as `str` orders?
pub fn str_lt(a: &str, b: &str) -> (r: bool)
    ensures
        r == name_lt(a@, b@),
{
    let x = a.as_bytes();
    let y = b.as_bytes();
    let ghost xs = x@;
    let ghost ys = y@;
    let mut i: usize = 0;
    proof {
        assert(xs.skip(0) =~= xs);
        assert(ys.skip(0) =~= ys);
    }
    while i < x.len() && i < y.len()
        invariant
            xs == x@,
            ys == y@,
            xs == a.spec_bytes(),
            ys == b.spec_bytes(),
            i <= xs.len(),
            i <= ys.len(),
            bytes_lt(xs, ys) == bytes_lt(xs.skip(i as int), ys.skip(i as int)),
        decreases xs.len() - i,
    {
        if x[i] != y[i] {
            return x[i] < y[i];
        }
        proof {
            assert(xs.skip(i as int).drop_first() =~= xs.skip(i + 1));
            assert(ys.skip(i as int).drop_first() =~= ys.skip(i + 1));
        }
        i = i + 1;
    }
    i < y.len()
}

/// Is `s` in ascending string order?
pub open spec fn sorted_names(s: Seq<Seq<char>>) -> bool {
    forall|i: int, j: int| 0 <= i < j < s.len() ==> !name_lt(#[trigger] s[j], #[trigger] s[i])
}

proof fn lemma_insert_multiset<A>(s: Seq<A>, p: int, x: A)
    requires
        0 <= p <= s.len(),
    ensures
        s.insert(p, x).to_multiset() =~= s.to_multiset().insert(x),
{
    broadcast use vstd::multiset::group_multiset_axioms;
    let t = s.insert(p, x);
    assert(t.remove(p) =~= s);
    assert(t[p] == x);
    assert(t.to_multiset().count(x) > 0) by {
        assert(t.contains(x));
    }
}

/// The names in ascending string order (the order `sort` gives a
/// `Vec<String>`).
pub fn sort_names(v: Vec<String>) -> (r: Vec<String>)
    ensures
        sorted_names(views(r@)),
        views(r@).to_multiset() == views(v@).to_multiset(),
{
    let mut r: Vec<String> = Vec::new();
    let mut i: usize = 0;
    proof {
        assert(views(v@).take(0) =~= Seq::<Seq<char>>::empty());
        assert(views(r@) =~= Seq::<Seq<char>>::empty());
    }
    while i < v.len()
        invariant
            i <= v@.len(),
            sorted_names(views(r@)),
            views(r@).to_multiset() == views(v@).take(i as int).to_multiset(),
        decreases v@.len() - i,
    {
        let x = &v[i];
        let mut p: usize = 0;
        while p < r.len() && !str_lt(x.as_str(), r[p].as_str())
            invariant
                p <= r@.len(),
                forall|k: int| 0 <= k < p ==> !name_lt(x@, #[trigger] views(r@)[k]),
            decreases r@.len() - p,
        {
            p = p + 1;
        }
        let ghost before = views(r@);
        r.insert(p, x.clone());
        proof {
            assert(views(r@) =~= before.insert(p as int, x@));
            lemma_insert_multiset(before, p as int, x@);
            assert(views(v@).take(i + 1) =~= views(v@).take(i as int).push(x@));
            let s = views(r@);
            assert forall|a: int, b: int| 0 <= a < b < s.len() implies !name_lt(#[trigger] s[b], #[trigger] s[a]) by {
                let xb = vstd::utf8::encode_utf8(x@);
                if a < p && b == p {
                    assert(!name_lt(x@, before[a]));
                } else if a == p && b > p {
                    // x is before `before[p]`, which no later name precedes.
                    assert(name_lt(x@, before[p as int]));
                    if b - 1 > p {
                        assert(!name_lt(before[b - 1], before[p as int]));
                    }
                    if name_lt(before[b - 1], x@) {
                        lemma_bytes_lt_transitive(
                            vstd::utf8::encode_utf8(before[b - 1]),
                            xb,
                            vstd::utf8::encode_utf8(before[p as int]),
                        );
                        if b - 1 == p {
                            lemma_bytes_lt_irreflexive(vstd::utf8::encode_utf8(before[p as int]));
                        }
                    }
                } else if a < p && b > p {
                    assert(s[a] == before[a] && s[b] == before[b - 1]);
                } else if a > p {
                    assert(s[a] == before[a - 1] && s[b] == before[b - 1]);
                } else {
                    assert(s[a] == before[a] && s[b] == before[b]);
                }
            }
        }
        i = i + 1;
    }
    proof {
        assert(views(v@).take(i as int) =~= views(v@));
    }
    r
}

// ---------------------------------------------------------------------------
// An album's disc variants
// ---------------------------------------------------------------------------

/// The ASCII lower case of a byte.
pub open spec fn ascii_lower(b: u8) -> u8 {
    if 65 <= b <= 90 { (b + 32) as u8 } else { b }
}

/// Do `a` and `b` match ignoring ASCII case, as `str::eq_ignore_ascii_case`
/// compares (byte by byte)?
pub open spec fn eq_ignore_ascii_case(a: Seq<char>, b: Seq<char>) -> bool {
    let x = vstd::utf8::encode_utf8(a);
    let y = vstd::utf8::encode_utf8(b);
    x.len() == y.len() && forall|i: int| 0 <= i < x.len() ==> ascii_lower(#[trigger] x[i]) == ascii_lower(y[i])
}

fn lower_byte(b: u8) -> (r: u8)
    ensures
        r == ascii_lower(b),
{
    if 65 <= b && b <= 90 { b + 32 } else { b }
}

/// Do `a` and `b` match ignoring ASCII case?
pub fn same_ignoring_ascii_case(a: &str, b: &str) -> (r: bool)
    ensures
        r == eq_ignore_ascii_case(a@, b@),
{
    let x = a.as_bytes();
    let y = b.as_bytes();
    if x.len() != y.len() {
        return false;
    }
    let mut i: usize = 0;
    while i < x.len()
        invariant
            x@ == a.spec_bytes(),
            y@ == b.spec_bytes(),
            x@.len() == y@.len(),
            i <= x@.len(),
            forall|k: int| 0 <= k < i ==> ascii_lower(#[trigger] x@[k]) == ascii_lower(y@[k]),
        decreases x@.len() - i,
    {
        if lower_byte(x[i]) != lower_byte(y[i]) {
            return false;
        }
        i = i + 1;
    }
    true
}

/// An album group as plain values: artist, base name, variants.
pub open spec fn group_view(g: AlbumGroup) -> (Seq<char>, Seq<char>, Seq<Seq<char>>) {
    (g.artist@, g.base@, views(g.variants@))
}

/// Is `g` the album `album` of the artist `artist` (the artist matched
/// ignoring ASCII case)?
pub open spec fn is_album_of(g: AlbumGroup, artist: &str, album: &str) -> bool {
    eq_ignore_ascii_case(g.artist@, artist@) && g.base@ == album@
}

/// The raw album tags to fetch for the album `album` of `artist`: the disc
/// variants of the first group that is that album, else the name itself.
pub fn album_variants(groups: &Vec<AlbumGroup>, artist: &str, album: &str) -> (r: Vec<String>)
    ensures
        (exists|k: int| 0 <= k < groups@.len() && is_album_of(#[trigger] groups@[k], artist, album)) ==> {
            let k = choose|k: int| 0 <= k < groups@.len() && is_album_of(#[trigger] groups@[k], artist, album)
                && forall|j: int| 0 <= j < k ==> !is_album_of(#[trigger] groups@[j], artist, album);
            views(r@) == views(groups@[k].variants@)
        },
        (forall|k: int| 0 <= k < groups@.len() ==> !is_album_of(#[trigger] groups@[k], artist, album))
            ==> views(r@) == seq![album@],
{
    let mut i: usize = 0;
    while i < groups.len()
        invariant
            i <= groups@.len(),
            forall|j: int| 0 <= j < i ==> !is_album_of(#[trigger] groups@[j], artist, album),
        decreases groups@.len() - i,
    {
        let g = &groups[i];
        if same_ignoring_ascii_case(g.artist.as_str(), artist) && str_eq(g.base.as_str(), album) {
            proof {
                assert(is_album_of(groups@[i as int], artist, album));
                let k = choose|k: int| 0 <= k < groups@.len() && is_album_of(#[trigger] groups@[k], artist, album)
                    && forall|j: int| 0 <= j < k ==> !is_album_of(#[trigger] groups@[j], artist, album);
                if k != i {
                    if k < i {
                    } else {
                        assert(!is_album_of(groups@[i as int], artist, album));
                    }
                }
            }
            return g.variants.clone();
        }
        i = i + 1;
    }
    let mut r: Vec<String> = Vec::new();
    r.push(String::from_str(album));
    proof {
        assert(views(r@) =~= seq![album@]);
    }
    r
}

// ---------------------------------------------------------------------------
// Track order within an album
// ---------------------------------------------------------------------------

/// The part of `s` before its first `c`, all of `s` when there is none.
pub open spec fn before_first(s: Seq<char>, c: char) -> Seq<char>
    decreases s.len(),
{
    if s.len() == 0 {
        s
    } else if s[0] == c {
        Seq::empty()
    } else {
        seq![s[0]] + before_first(s.drop_first(), c)
    }
}

fn cut_at_first<'a>(s: &'a str, c: char) -> (r: &'a str)
    ensures
        r@ == before_first(s@, c),
{
    let n = s.unicode_len();
    let mut i: usize = 0;
    proof {
        assert(s@.skip(0) =~= s@);
        assert(s@.take(0) + s@ =~= s@);
    }
    while i < n && s.get_char(i) != c
        invariant
            n == s@.len(),
            i <= n,
            before_first(s@, c) == s@.take(i as int) + before_first(s@.skip(i as int), c),
        decreases n - i,
    {
        proof {
            let t = s@.skip(i as int);
            assert(t.drop_first() =~= s@.skip(i + 1));
            assert(s@.take(i + 1) =~= s@.take(i as int) + seq![t[0]]);
        }
        i = i + 1;
    }
    proof {
        if i == n {
            assert(s@.skip(i as int) =~= Seq::<char>::empty());
        }
        assert(s@.take(i as int) + Seq::<char>::empty() =~= s@.take(i as int));
        assert(s@.subrange(0, i as int) =~= s@.take(i as int));
    }
    s.substring_char(0, i)
}

/// The track number a track tag gives for ordering: the part before any
/// `/` ("3/12" is track 3), trimmed and read as a number; 0 when there is
/// no tag or it does not read as one.
pub open spec fn track_no(track: Option<Seq<char>>) -> u32 {
    match track {
        Some(t) => match parsed_unsigned(trimmed(before_first(t, '/')), u32::MAX as nat) {
            Some(v) => v as u32,
            None => 0,
        },
        None => 0,
    }
}

/// The track number a track tag gives for ordering, 0 when there is none.
pub fn track_number(track: Option<&str>) -> (r: u32)
    ensures
        r == track_no(match track { Some(t) => Some(t@), None => None }),
{
    match track {
        Some(t) => {
            let head = cut_at_first(t, '/');
            let trimmed_head = trim(head);
            match parse_u32(trimmed_head.as_str()) {
                Some(v) => v,
                None => 0,
            }
        },
        None => 0,
    }
}

/// Does the entry at index `i` with key `ki` come before the one at `j`
/// with key `kj`? By disc, then track, then by the order they came in.
pub open spec fn track_before(ki: (u32, u32), i: int, kj: (u32, u32), j: int) -> bool {
    ki.0 < kj.0 || (ki.0 == kj.0 && (ki.1 < kj.1 || (ki.1 == kj.1 && i < j)))
}

fn key_lt(a: (u32, u32), b: (u32, u32)) -> (r: bool)
    ensures
        r == (a.0 < b.0 || (a.0 == b.0 && a.1 < b.1)),
{
    a.0 < b.0 || (a.0 == b.0 && a.1 < b.1)
}

/// The order to list an album's tracks in, given each track's (disc, track)
/// key: by disc, then by track number, tracks with equal keys keeping the
/// order they came in (a stable sort). Returns the indices in listing order;
/// each index occurs once.
pub fn album_order(keys: &Vec<(u32, u32)>) -> (r: Vec<usize>)
    ensures
        r@.len() == keys@.len(),
        forall|a: int| 0 <= a < r@.len() ==> #[trigger] r@[a] < keys@.len(),
        forall|a: int, b: int| 0 <= a < b < r@.len() ==>
            track_before(keys@[#[trigger] r@[a] as int], r@[a] as int, keys@[#[trigger] r@[b] as int], r@[b] as int),
{
    let mut r: Vec<usize> = Vec::new();
    let mut i: usize = 0;
    while i < keys.len()
        invariant
            i <= keys@.len(),
            r@.len() == i,
            forall|a: int| 0 <= a < r@.len() ==> #[trigger] r@[a] < i,
            forall|a: int, b: int| 0 <= a < b < r@.len() ==>
                track_before(keys@[#[trigger] r@[a] as int], r@[a] as int, keys@[#[trigger] r@[b] as int], r@[b] as int),
        decreases keys@.len() - i,
    {
        let k = keys[i];
        let mut p: usize = 0;
        while p < r.len() && !key_lt(k, keys[r[p]])
            invariant
                p <= r@.len(),
                r@.len() == i,
                i < keys@.len(),
                k == keys@[i as int],
                forall|a: int| 0 <= a < r@.len() ==> #[trigger] r@[a] < i,
                forall|a: int| 0 <= a < p ==> {
                    let q = #[trigger] keys@[r@[a] as int];
                    !(k.0 < q.0 || (k.0 == q.0 && k.1 < q.1))
                },
            decreases r@.len() - p,
        {
            p = p + 1;
        }
        let ghost before = r@;
        r.insert(p, i);
        proof {
            assert(r@ =~= before.insert(p as int, i));
            assert forall|a: int, b: int| 0 <= a < b < r@.len() implies
                track_before(keys@[#[trigger] r@[a] as int], r@[a] as int, keys@[#[trigger] r@[b] as int], r@[b] as int) by {
                if a < p && b == p {
                    assert(r@[a] == before[a]);
                } else if a == p && b > p {
                    assert(r@[b] == before[b - 1]);
                    if b - 1 > p {
                        assert(track_before(keys@[before[p as int] as int], before[p as int] as int,
                            keys@[before[b - 1] as int], before[b - 1] as int));
                    }
                } else if a < p && b > p {
                    assert(r@[a] == before[a] && r@[b] == before[b - 1]);
                } else if a > p {
                    assert(r@[a] == before[a - 1] && r@[b] == before[b - 1]);
                } else {
                    assert(r@[a] == before[a] && r@[b] == before[b]);
                }
            }
        }
        i = i + 1;
    }
    r
}

// ---------------------------------------------------------------------------
// Recently added: newest first
// ---------------------------------------------------------------------------

/// Is the modification stamp `a` strictly newer than `b`? Stamps compare as
/// strings; an unknown stamp is older than any known one.
pub open spec fn stamp_newer(a: Option<Seq<char>>, b: Option<Seq<char>>) -> bool {
    match (a, b) {
        (Some(x), Some(y)) => name_lt(y, x),
        (Some(_), None) => true,
        _ => false,
    }
}

/// Does the song at index `i` with stamp `a` list before the one at `j`
/// with stamp `b`? Newest first, unknown stamps last, equal stamps in the
/// order the songs came in.
pub open spec fn listed_before(a: Option<Seq<char>>, i: int, b: Option<Seq<char>>, j: int) -> bool {
    stamp_newer(a, b) || (a == b && i < j)
}

/// The stamps as plain characters.
pub open spec fn stamps_view(v: Seq<Option<String>>) -> Seq<Option<Seq<char>>> {
    v.map_values(|o: Option<String>| match o { Some(t) => Some(t@), None => None })
}

proof fn lemma_encode_injective(x: Seq<char>, y: Seq<char>)
    requires
        vstd::utf8::encode_utf8(x) == vstd::utf8::encode_utf8(y),
    ensures
        x == y,
{
    vstd::utf8::encode_utf8_decode_utf8(x);
    vstd::utf8::encode_utf8_decode_utf8(y);
}

proof fn lemma_not_newer(a: Option<Seq<char>>, b: Option<Seq<char>>)
    requires
        !stamp_newer(a, b),
    ensures
        stamp_newer(b, a) || a == b,
{
    match (a, b) {
        (Some(x), Some(y)) => {
            if x != y {
                if vstd::utf8::encode_utf8(x) == vstd::utf8::encode_utf8(y) {
                    lemma_encode_injective(x, y);
                }
                lemma_bytes_lt_total(vstd::utf8::encode_utf8(x), vstd::utf8::encode_utf8(y));
            }
        },
        _ => {},
    }
}

proof fn lemma_newer_transitive(a: Option<Seq<char>>, b: Option<Seq<char>>, c: Option<Seq<char>>)
    requires
        stamp_newer(a, b),
        stamp_newer(b, c) || b == c,
    ensures
        stamp_newer(a, c),
{
    match (a, b, c) {
        (Some(x), Some(y), Some(z)) => {
            if y != z {
                lemma_bytes_lt_transitive(vstd::utf8::encode_utf8(z), vstd::utf8::encode_utf8(y), vstd::utf8::encode_utf8(x));
            }
        },
        _ => {},
    }
}

fn newer(a: &Option<String>, b: &Option<String>) -> (r: bool)
    ensures
        r == stamp_newer(
            match *a { Some(t) => Some(t@), None => None },
            match *b { Some(t) => Some(t@), None => None },
        ),
{
    match (a, b) {
        (Some(x), Some(y)) => str_lt(y.as_str(), x.as_str()),
        (Some(_), None) => true,
        _ => false,
    }
}

/// The order to list recently added songs in, given each song's
/// modification stamp: newest first, songs without a stamp last, songs with
/// equal stamps in the order they came in (a stable sort). Returns the
/// indices in listing order; each index occurs once.
pub fn recently_added_order(stamps: &Vec<Option<String>>) -> (r: Vec<usize>)
    ensures
        r@.len() == stamps@.len(),
        forall|a: int| 0 <= a < r@.len() ==> #[trigger] r@[a] < stamps@.len(),
        forall|a: int, b: int| 0 <= a < b < r@.len() ==>
            listed_before(stamps_view(stamps@)[#[trigger] r@[a] as int], r@[a] as int,
                stamps_view(stamps@)[#[trigger] r@[b] as int], r@[b] as int),
{
    let ghost sv = stamps_view(stamps@);
    let mut r: Vec<usize> = Vec::new();
    let mut i: usize = 0;
    while i < stamps.len()
        invariant
            i <= stamps@.len(),
            sv == stamps_view(stamps@),
            r@.len() == i,
            forall|a: int| 0 <= a < r@.len() ==> #[trigger] r@[a] < i,
            forall|a: int, b: int| 0 <= a < b < r@.len() ==>
                listed_before(sv[#[trigger] r@[a] as int], r@[a] as int, sv[#[trigger] r@[b] as int], r@[b] as int),
        decreases stamps@.len() - i,
    {
        let mut p: usize = 0;
        while p < r.len() && !newer(&stamps[i], &stamps[r[p]])
            invariant
                p <= r@.len(),
                r@.len() == i,
                i < stamps@.len(),
                sv == stamps_view(stamps@),
                forall|a: int| 0 <= a < r@.len() ==> #[trigger] r@[a] < i,
                forall|a: int| 0 <= a < p ==> !stamp_newer(sv[i as int], #[trigger] sv[r@[a] as int]),
            decreases r@.len() - p,
        {
            p = p + 1;
        }
        let ghost before = r@;
        r.insert(p, i);
        proof {
            assert(r@ =~= before.insert(p as int, i));
            assert forall|a: int, b: int| 0 <= a < b < r@.len() implies
                listed_before(sv[#[trigger] r@[a] as int], r@[a] as int, sv[#[trigger] r@[b] as int], r@[b] as int) by {
                if a < p && b == p {
                    assert(r@[a] == before[a]);
                    lemma_not_newer(sv[i as int], sv[before[a] as int]);
                } else if a == p && b > p {
                    assert(r@[b] == before[b - 1]);
                    let q = before[p as int];
                    let t = before[b - 1];
                    if b - 1 > p {
                        assert(listed_before(sv[q as int], q as int, sv[t as int], t as int));
                    }
                    lemma_newer_transitive(sv[i as int], sv[q as int], sv[t as int]);
                } else if a < p && b > p {
                    assert(r@[a] == before[a] && r@[b] == before[b - 1]);
                } else if a > p {
                    assert(r@[a] == before[a - 1] && r@[b] == before[b - 1]);
                } else {
                    assert(r@[a] == before[a] && r@[b] == before[b]);
                }
            }
        }
        i = i + 1;
    }
    r
}


/// Merging keeps the first list as it is, at the front; adds only names of
/// the second list; and every name of the second list (but an empty one
/// when empties are skipped) ends up listed.
pub proof fn law_merge_keeps_and_adds(primary: Seq<Seq<char>>, extra: Seq<Seq<char>>, skip_empty: bool)
    ensures
        merged(primary, extra, skip_empty).len() >= primary.len(),
        merged(primary, extra, skip_empty).take(primary.len() as int) == primary,
        forall|i: int| primary.len() <= i < merged(primary, extra, skip_empty).len()
            ==> extra.contains(#[trigger] merged(primary, extra, skip_empty)[i]),
        forall|j: int| 0 <= j < extra.len() && !(skip_empty && extra[j].len() == 0)
            ==> merged(primary, extra, skip_empty).contains(#[trigger] extra[j]),
    decreases extra.len(),
{
    let m = merged(primary, extra, skip_empty);
    if extra.len() == 0 {
        assert(primary.take(primary.len() as int) =~= primary);
    } else {
        let e0 = extra.drop_last();
        let m0 = merged(primary, e0, skip_empty);
        law_merge_keeps_and_adds(primary, e0, skip_empty);
        let x = extra.last();
        if !((skip_empty && x.len() == 0) || m0.contains(x)) {
            assert(m =~= m0.push(x));
            assert(m.take(primary.len() as int) =~= m0.take(primary.len() as int));
            assert(m[m.len() - 1] == x);
        }
        assert forall|i: int| primary.len() <= i < m.len() implies extra.contains(#[trigger] m[i]) by {
            if i < m0.len() {
                assert(m[i] == m0[i]);
                assert(e0.contains(m0[i]));
                let k = choose|k: int| 0 <= k < e0.len() && e0[k] == m0[i];
                assert(extra[k] == e0[k]);
            } else {
                assert(m[i] == x);
                assert(extra[extra.len() - 1] == x);
            }
        }
        assert forall|j: int| 0 <= j < extra.len() && !(skip_empty && extra[j].len() == 0)
            implies m.contains(#[trigger] extra[j]) by {
            if j < e0.len() {
                assert(extra[j] == e0[j]);
                assert(m0.contains(e0[j]));
                let k = choose|k: int| 0 <= k < m0.len() && m0[k] == e0[j];
                assert(m[k] == m0[k]);
            } else {
                assert(extra[j] == x);
                if m0.contains(x) {
                    let k = choose|k: int| 0 <= k < m0.len() && m0[k] == x;
                    assert(m[k] == m0[k]);
                } else {
                    assert(m[m.len() - 1] == x);
                }
            }
        }
    }
}

/// Tracks list by disc, then track number, then the order they came in.
pub proof fn law_track_order(ki: (u32, u32), i: int, kj: (u32, u32), j: int)
    ensures
        ki.0 < kj.0 ==> track_before(ki, i, kj, j),
        ki.0 > kj.0 ==> !track_before(ki, i, kj, j),
        ki.0 == kj.0 && ki.1 < kj.1 ==> track_before(ki, i, kj, j),
        ki.0 == kj.0 && ki.1 > kj.1 ==> !track_before(ki, i, kj, j),
        ki == kj ==> (track_before(ki, i, kj, j) <==> i < j),
{
}

/// Newest first: a known stamp lists before an unknown one, an unknown one
/// is never newer, and equal stamps keep the songs' order.
pub proof fn law_newest_first(a: Option<Seq<char>>, i: int, b: Option<Seq<char>>, j: int)
    ensures
        (a is Some && b is None) ==> listed_before(a, i, b, j),
        a is None ==> !stamp_newer(a, b),
        a == b ==> (listed_before(a, i, b, j) <==> i < j || stamp_newer(a, b)),
        (a is Some && b is Some) ==> (stamp_newer(a, b) <==> name_lt(b->0, a->0)),
{
}

/// A track tag without a number, or no tag, orders as track 0.
pub proof fn law_track_number_defaults(t: Seq<char>)
    ensures
        track_no(None) == 0,
        parsed_unsigned(trimmed(before_first(t, '/')), u32::MAX as nat) is None ==> track_no(Some(t)) == 0,
        parsed_unsigned(trimmed(before_first(t, '/')), u32::MAX as nat) matches Some(v) ==> track_no(Some(t)) == v,
{
}

} // verus!
