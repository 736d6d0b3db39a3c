//! The file browser's breadcrumb trail and directory actions.
use vstd::prelude::*;
use crate::text::{joined, last_index_of, lemma_last_index_of, rfind_char};

verus! {

/// The crumbs of a non-empty path, as (label, target) pairs: one per
/// `/`-separated segment, each targeting the path up to the end of that
/// segment.
pub open spec fn crumbs(path: Seq<char>) -> Seq<(Seq<char>, Seq<char>)>
    decreases path.len(),
{
    let k = last_index_of(path, '/');
    if k < 0 || k >= path.len() {
        seq![(path, path)]
    } else {
        crumbs(path.take(k)).push((path.skip(k + 1), path))
    }
}

/// The breadcrumb trail for the browser at `path`: "Root" (targeting the
/// top, the empty path), then one crumb per segment of a non-empty path.
pub open spec fn trail(path: Seq<char>) -> Seq<(Seq<char>, Seq<char>)> {
    if path.len() == 0 { seq![("Root"@, Seq::empty())] } else { seq![("Root"@, Seq::empty())] + crumbs(path) }
}

/// The pairs' views.
pub open spec fn pairs_view(v: Seq<(String, String)>) -> Seq<(Seq<char>, Seq<char>)> {
    v.map_values(|p: (String, String)| (p.0@, p.1@))
}

fn crumbs_of(path: &str) -> (r: Vec<(String, String)>)
    ensures
        pairs_view(r@) == crumbs(path@),
    decreases path@.len(),
{
    proof {
        lemma_last_index_of(path@, '/');
    }
    match rfind_char(path, '/') {
        Some(k) => {
            let n = path.unicode_len();
            let head = path.substring_char(0, k);
            let label = path.substring_char(k + 1, n);
            proof {
                assert(head@ =~= path@.take(k as int));
                assert(label@ =~= path@.skip(k + 1));
            }
            let mut r = crumbs_of(head);
            let ghost before = r@;
            r.push((String::from_str(label), String::from_str(path)));
            proof {
                assert(pairs_view(r@) =~= pairs_view(before).push((label@, path@)));
            }
            r
        },
        None => {
            let mut r: Vec<(String, String)> = Vec::new();
            r.push((String::from_str(path), String::from_str(path)));
            proof {
                assert(pairs_view(r@) =~= seq![(path@, path@)]);
            }
            r
        },
    }
}

/// The breadcrumb trail for the browser at `current_path`: (label, target)
/// pairs, "Root" first.
pub fn breadcrumbs(current_path: &str) -> (r: Vec<(String, String)>)
    ensures
        pairs_view(r@) == trail(current_path@),
{
    let mut r: Vec<(String, String)> = Vec::new();
    r.push((String::from_str("Root"), String::new()));
    if current_path.unicode_len() > 0 {
        let rest = crumbs_of(current_path);
        let mut i: usize = 0;
        while i < rest.len()
            invariant
                i <= rest@.len(),
                pairs_view(rest@) == crumbs(current_path@),
                pairs_view(r@) == seq![("Root"@, Seq::<char>::empty())] + pairs_view(rest@).take(i as int),
            decreases rest@.len() - i,
        {
            let ghost before = r@;
            let a = rest[i].0.clone();
            let b = rest[i].1.clone();
            r.push((a, b));
            proof {
                assert(pairs_view(rest@)[i as int] == (rest@[i as int].0@, rest@[i as int].1@));
                assert(pairs_view(r@) =~= pairs_view(before).push((a@, b@)));
                assert(pairs_view(r@) =~= seq![("Root"@, Seq::<char>::empty())] + pairs_view(rest@).take(i + 1));
            }
            i = i + 1;
        }
        proof {
            assert(pairs_view(rest@).take(i as int) =~= pairs_view(rest@));
        }
    } else {
        proof {
            assert(pairs_view(r@) =~= seq![("Root"@, Seq::<char>::empty())]);
        }
    }
    r
}

/// The labels of a trail of crumbs.
pub open spec fn labels(c: Seq<(Seq<char>, Seq<char>)>) -> Seq<Seq<char>> {
    c.map_values(|p: (Seq<char>, Seq<char>)| p.0)
}

/// The crumbs of a path lose nothing: their labels joined with `/` give the
/// path back, every crumb targets a prefix of the path, the targets grow
/// crumb by crumb, and the last one targets the path itself.
pub proof fn law_crumbs_rebuild_path(path: Seq<char>)
    ensures
        joined(labels(crumbs(path)), "/"@) == path,
        crumbs(path).len() >= 1,
        crumbs(path).last().1 == path,
        forall|i: int| 0 <= i < crumbs(path).len() ==>
            #[trigger] crumbs(path)[i].1 == path.take(crumbs(path)[i].1.len() as int)
            && crumbs(path)[i].1.len() <= path.len(),
    decreases path.len(),
{
    lemma_last_index_of(path, '/');
    let k = last_index_of(path, '/');
    if k < 0 {
        assert(labels(crumbs(path)) =~= seq![path]);
        assert(path.take(path.len() as int) =~= path);
    } else {
        let head = path.take(k);
        law_crumbs_rebuild_path(head);
        reveal_strlit("/");
        assert(labels(crumbs(path)) =~= labels(crumbs(head)).push(path.skip(k + 1)));
        assert(labels(crumbs(path)).drop_last() =~= labels(crumbs(head)));
        assert(head + "/"@ + path.skip(k + 1) =~= path);
        assert(path.take(path.len() as int) =~= path);
        assert forall|i: int| 0 <= i < crumbs(path).len() implies
            #[trigger] crumbs(path)[i].1 == path.take(crumbs(path)[i].1.len() as int)
            && crumbs(path)[i].1.len() <= path.len() by {
            if i < crumbs(head).len() {
                let t = crumbs(head)[i].1;
                assert(crumbs(path)[i] == crumbs(head)[i]);
                assert(t == head.take(t.len() as int));
                assert(t.len() <= head.len());
                assert(head.take(t.len() as int) =~= path.take(t.len() as int));
            }
        }
    }
}

/// Are "Play All" and "Queue All" offered? Only inside a directory (not at
/// the top) that holds files.
pub fn shows_directory_actions(has_files: bool, current_path: &str) -> (r: bool)
    ensures
        r == (has_files && current_path@.len() > 0),
{
    has_files && current_path.unicode_len() > 0
}

/// Should a directory listing that arrived be shown? Only if it is for the
/// path still open: a late answer for a path the user has left is dropped.
pub fn accepts_listing(listed_path: &str, current_path: &str) -> (r: bool)
    ensures
        r == (listed_path@ == current_path@),
{
    crate::text::str_eq(listed_path, current_path)
}


/// The trail starts at "Root", which targets the top; at the top it is all
/// there is, and elsewhere the path's crumbs follow it.
pub proof fn law_trail_starts_at_root(path: Seq<char>)
    ensures
        trail(path)[0] == ("Root"@, Seq::<char>::empty()),
        path.len() == 0 ==> trail(path).len() == 1,
        path.len() > 0 ==> trail(path).len() == 1 + crumbs(path).len() && trail(path).last().1 == path,
{
    if path.len() > 0 {
        law_crumbs_rebuild_path(path);
    }
}

} // verus!
