//! The album-art fetch queue.
//!
//! Browsing a list enqueues every album it shows; the queue keeps at most
//! [`ART_FETCH_CONCURRENCY`] local fetches (MPD embedded art, then a cover
//! file) in flight and starts the next as each finishes. Albums the local
//! stage found nothing for go to a second, MusicBrainz stage, which runs one
//! lookup at a time and only once the local queue is empty: a lookup blocks
//! for seconds on a globally serialized throttle, and it must never stall the
//! cheap local sweep.
use vstd::prelude::*;
use std::collections::VecDeque;
use crate::keyset::{lists_str, KeySet};
use crate::text::views;
use crate::model::{art_key, art_key_for, AlbumGroup};
use crate::ui::message::ArtOutcome;

verus! {

/// How many local album-art fetches run at once.
pub const ART_FETCH_CONCURRENCY: usize = 3;

/// One album cover to fetch: the album's artist, its disc-stripped name, and
/// the raw album tag a track of it can be found by.
#[derive(Debug)]
pub struct ArtTarget {
    pub artist: String,
    pub base: String,
    pub variant: String,
}

/// (artist, base, variant) as character sequences.
pub type TargetV = (Seq<char>, Seq<char>, Seq<char>);

impl View for ArtTarget {
    type V = TargetV;

    open spec fn view(&self) -> TargetV {
        (self.artist@, self.base@, self.variant@)
    }
}

/// A fetch the shell has to start.
#[derive(Debug)]
pub enum ArtFetch {
    /// Local stage for this album: MPD tag art, then a cover file.
    Local(ArtTarget),
    /// MusicBrainz / Cover Art Archive lookup for this art key.
    Remote(String),
}

/// An [`ArtFetch`] as character sequences.
pub enum FetchV {
    Local(TargetV),
    Remote(Seq<char>),
}

impl View for ArtFetch {
    type V = FetchV;

    open spec fn view(&self) -> FetchV {
        match self {
            ArtFetch::Local(t) => FetchV::Local(t@),
            ArtFetch::Remote(k) => FetchV::Remote(k@),
        }
    }
}

/// The queue's state: keys with art, keys known to have none, the local
/// queue, the keys queued or in flight locally, how many local fetches are
/// running, and the same three for the MusicBrainz stage.
#[verifier::ext_equal]
pub struct ArtState {
    pub loaded: Set<Seq<char>>,
    pub missing: Set<Seq<char>>,
    pub queue: Seq<TargetV>,
    pub pending: Set<Seq<char>>,
    pub inflight: nat,
    pub mb_queue: Seq<Seq<char>>,
    pub mb_pending: Set<Seq<char>>,
    pub mb_inflight: nat,
}

/// The art key of a target.
pub open spec fn target_key(t: TargetV) -> Seq<char> {
    art_key(t.0, t.1)
}

/// The art keys of a list of targets, in order.
pub open spec fn keys_of(ts: Seq<TargetV>) -> Seq<Seq<char>> {
    ts.map_values(|t: TargetV| target_key(t))
}

/// Is this album still worth fetching: no art loaded, not known to have none?
pub open spec fn wants(s: ArtState, t: TargetV) -> bool {
    !s.loaded.contains(target_key(t)) && !s.missing.contains(target_key(t))
}

/// The targets still worth fetching, in their order.
pub open spec fn wanted(s: ArtState, ts: Seq<TargetV>) -> Seq<TargetV>
    decreases ts.len(),
{
    if ts.len() == 0 {
        seq![]
    } else {
        let w = wanted(s, ts.drop_last());
        if wants(s, ts.last()) {
            w.push(ts.last())
        } else {
            w
        }
    }
}

/// `q` without the targets whose key is in `keys`, order kept.
pub open spec fn without_keys(q: Seq<TargetV>, keys: Seq<Seq<char>>) -> Seq<TargetV>
    decreases q.len(),
{
    if q.len() == 0 {
        seq![]
    } else {
        let r = without_keys(q.drop_last(), keys);
        if keys.contains(target_key(q.last())) {
            r
        } else {
            r.push(q.last())
        }
    }
}

/// `w` put at the head of the queue, in order, with any older copy of the
/// same albums dropped from further back; their keys become pending.
pub open spec fn enqueued(s: ArtState, w: Seq<TargetV>) -> ArtState {
    ArtState {
        queue: w + without_keys(s.queue, keys_of(w)),
        pending: s.pending.union(keys_of(w).to_set()),
        ..s
    }
}

/// How many local fetches a drain starts.
pub open spec fn local_starts(s: ArtState) -> nat {
    let room: int = ART_FETCH_CONCURRENCY as int - s.inflight as int;
    if room <= 0 {
        0
    } else if s.queue.len() < room {
        s.queue.len()
    } else {
        room as nat
    }
}

/// The state after the local part of a drain.
pub open spec fn after_local(s: ArtState) -> ArtState {
    ArtState {
        queue: s.queue.skip(local_starts(s) as int),
        inflight: s.inflight + local_starts(s),
        ..s
    }
}

/// Does the drain start a MusicBrainz lookup? Only when the local queue is
/// empty and no lookup is running.
pub open spec fn starts_remote(s: ArtState) -> bool {
    let l = after_local(s);
    l.queue.len() == 0 && l.mb_inflight == 0 && l.mb_queue.len() > 0
}

/// The state after a drain: local fetches started up to the concurrency
/// limit, then at most one lookup.
pub open spec fn drained(s: ArtState) -> ArtState {
    let l = after_local(s);
    if starts_remote(s) {
        ArtState { mb_queue: l.mb_queue.drop_first(), mb_inflight: l.mb_inflight + 1, ..l }
    } else {
        l
    }
}

/// The fetches a drain starts, in order.
pub open spec fn drain_fetches(s: ArtState) -> Seq<FetchV> {
    let local = s.queue.take(local_starts(s) as int).map_values(|t: TargetV| FetchV::Local(t));
    if starts_remote(s) {
        local.push(FetchV::Remote(s.mb_queue[0]))
    } else {
        local
    }
}

/// The state after enqueueing `ts`: nothing changes when none of them is
/// worth fetching; otherwise the wanted ones go to the front and the queue
/// is drained.
pub open spec fn after_enqueue(s: ArtState, ts: Seq<TargetV>) -> ArtState {
    let w = wanted(s, ts);
    if w.len() == 0 {
        s
    } else {
        drained(enqueued(s, w))
    }
}

/// The fetches started by enqueueing `ts`.
pub open spec fn enqueue_fetches(s: ArtState, ts: Seq<TargetV>) -> Seq<FetchV> {
    let w = wanted(s, ts);
    if w.len() == 0 {
        seq![]
    } else {
        drain_fetches(enqueued(s, w))
    }
}

/// Booking a finished fetch: the stage that held the key frees a slot (a
/// key no stage holds frees nothing), and the outcome is recorded — cover
/// bytes mark the key loaded, a local miss hands it to the MusicBrainz stage,
/// a final miss marks it missing.
pub open spec fn settled(s: ArtState, key: Seq<char>, outcome: ArtOutcome) -> ArtState {
    let s1 = if s.pending.contains(key) {
        ArtState {
            pending: s.pending.remove(key),
            inflight: if s.inflight > 0 { (s.inflight - 1) as nat } else { 0 },
            ..s
        }
    } else if s.mb_pending.contains(key) {
        ArtState {
            mb_pending: s.mb_pending.remove(key),
            mb_inflight: if s.mb_inflight > 0 { (s.mb_inflight - 1) as nat } else { 0 },
            ..s
        }
    } else {
        s
    };
    match outcome {
        ArtOutcome::Loaded(bytes) => if bytes@.len() > 0 {
            ArtState { loaded: s1.loaded.insert(key), ..s1 }
        } else {
            s1
        },
        ArtOutcome::MpdMiss => ArtState {
            mb_pending: s1.mb_pending.insert(key),
            mb_queue: s1.mb_queue.push(key),
            ..s1
        },
        ArtOutcome::Missing => ArtState { missing: s1.missing.insert(key), ..s1 },
    }
}

/// The fetch queue. See the module documentation.
pub struct ArtQueue {
    loaded: KeySet,
    missing: KeySet,
    queue: VecDeque<ArtTarget>,
    pending: KeySet,
    inflight: usize,
    mb_queue: VecDeque<String>,
    mb_pending: KeySet,
    mb_inflight: usize,
}

impl View for ArtQueue {
    type V = ArtState;

    closed spec fn view(&self) -> ArtState {
        ArtState {
            loaded: self.loaded@,
            missing: self.missing@,
            queue: self.queue@.map_values(|t: ArtTarget| t@),
            pending: self.pending@,
            inflight: self.inflight as nat,
            mb_queue: self.mb_queue@.map_values(|k: String| k@),
            mb_pending: self.mb_pending@,
            mb_inflight: self.mb_inflight as nat,
        }
    }
}

/// At most [`ART_FETCH_CONCURRENCY`] local fetches and one lookup run at once.
pub open spec fn within_limits(s: ArtState) -> bool {
    s.inflight <= ART_FETCH_CONCURRENCY && s.mb_inflight <= 1
}

/// The art target of each album group: its own artist and base name, and
/// its first disc variant as the tag to look a track up by (the base name
/// when it has none).
pub open spec fn group_target(g: AlbumGroup) -> TargetV {
    (g.artist@, g.base@, if g.variants@.len() > 0 { g.variants@[0]@ } else { g.base@ })
}

/// `(artist, base, first variant)` for each album group, in order.
pub fn album_art_targets(groups: &Vec<AlbumGroup>) -> (r: Vec<ArtTarget>)
    ensures
        r@.map_values(|t: ArtTarget| t@) == groups@.map_values(|g: AlbumGroup| group_target(g)),
{
    let mut r: Vec<ArtTarget> = Vec::new();
    let mut i: usize = 0;
    while i < groups.len()
        invariant
            i <= groups@.len(),
            r@.map_values(|t: ArtTarget| t@) == groups@.take(i as int).map_values(
                |g: AlbumGroup| group_target(g),
            ),
        decreases groups@.len() - i,
    {
        let g = &groups[i];
        let variant = if g.variants.len() > 0 { g.variants[0].clone() } else { g.base.clone() };
        let ghost r0 = r@.map_values(|t: ArtTarget| t@);
        r.push(ArtTarget { artist: g.artist.clone(), base: g.base.clone(), variant });
        assert(groups@.take(i + 1 as int) =~= groups@.take(i as int).push(*g));
        assert(r@.map_values(|t: ArtTarget| t@) =~= r0.push(group_target(*g)));
        i = i + 1;
    }
    assert(groups@.take(groups@.len() as int) =~= groups@);
    r
}

impl ArtQueue {
    /// The key sets are well formed and the limits hold.
    pub closed spec fn wf(&self) -> bool {
        &&& self.loaded.wf()
        &&& self.missing.wf()
        &&& self.pending.wf()
        &&& self.mb_pending.wf()
        &&& within_limits(self@)
    }

    /// An empty queue with nothing loaded.
    pub fn new() -> (q: Self)
        ensures
            q.wf(),
            q@.loaded == Set::<Seq<char>>::empty(),
            q@.missing == Set::<Seq<char>>::empty(),
            q@.queue == Seq::<TargetV>::empty(),
            q@.pending == Set::<Seq<char>>::empty(),
            q@.inflight == 0,
            q@.mb_queue == Seq::<Seq<char>>::empty(),
            q@.mb_pending == Set::<Seq<char>>::empty(),
            q@.mb_inflight == 0,
    {
        let q = ArtQueue {
            loaded: KeySet::new(),
            missing: KeySet::new(),
            queue: VecDeque::new(),
            pending: KeySet::new(),
            inflight: 0,
            mb_queue: VecDeque::new(),
            mb_pending: KeySet::new(),
            mb_inflight: 0,
        };
        assert(q@.queue =~= Seq::<TargetV>::empty());
        assert(q@.mb_queue =~= Seq::<Seq<char>>::empty());
        q
    }

    /// Book a finished fetch of `key` and start whatever it makes room for.
    ///
    /// The stage that held the key frees its slot; a key that neither stage
    /// holds (a fetch started before a reset) frees nothing. Cover bytes mark
    /// the key loaded, a local miss hands it to the MusicBrainz stage, and a
    /// final miss marks it missing so no later visit queues it again.
    pub fn fetched(&mut self, key: String, outcome: &ArtOutcome) -> (fetches: Vec<ArtFetch>)
        requires
            old(self).wf(),
        ensures
            final(self).wf(),
            final(self)@ == drained(settled(old(self)@, key@, *outcome)),
            fetches@.map_values(|f: ArtFetch| f@) == drain_fetches(
                settled(old(self)@, key@, *outcome),
            ),
    {
        let ghost s0 = self@;
        if self.pending.remove(key.as_str()) {
            self.inflight = if self.inflight > 0 { self.inflight - 1 } else { 0 };
        } else if self.mb_pending.remove(key.as_str()) {
            self.mb_inflight = if self.mb_inflight > 0 { self.mb_inflight - 1 } else { 0 };
        }
        let ghost s1 = self@;
        match outcome {
            ArtOutcome::Loaded(bytes) => {
                if bytes.len() > 0 {
                    self.loaded.insert(key);
                }
            },
            ArtOutcome::MpdMiss => {
                self.mb_pending.insert(key.clone());
                let ghost mq = self@.mb_queue;
                self.mb_queue.push_back(key);
                assert(self@.mb_queue =~= mq.push(key@));
            },
            ArtOutcome::Missing => {
                self.missing.insert(key);
            },
        }
        assert(self@ =~= settled(s0, key@, *outcome));
        self.drain()
    }

    /// Record that `key` has cover art (a one-off fetch landed it).
    pub fn mark_loaded(&mut self, key: String)
        requires
            old(self).wf(),
        ensures
            final(self).wf(),
            final(self)@ == (ArtState { loaded: old(self)@.loaded.insert(key@), ..old(self)@ }),
    {
        self.loaded.insert(key);
    }

    /// Does `key` have cover art?
    pub fn has_art(&self, key: &str) -> (r: bool)
        requires
            self.wf(),
        ensures
            r == self@.loaded.contains(key@),
    {
        self.loaded.contains(key)
    }

    /// Abandon everything queued or in flight, keeping what is known about
    /// which albums have art and which have none. Used when switching
    /// servers: those lists are about to be replaced, while loaded covers and
    /// known misses are keyed by artist and album and hold on any server.
    pub fn abandon_queued(&mut self)
        requires
            old(self).wf(),
        ensures
            final(self).wf(),
            final(self)@ == (ArtState {
                queue: Seq::empty(),
                pending: Set::empty(),
                inflight: 0,
                mb_queue: Seq::empty(),
                mb_pending: Set::empty(),
                mb_inflight: 0,
                ..old(self)@
            }),
    {
        self.queue.clear();
        self.pending.clear();
        self.inflight = 0;
        self.mb_queue.clear();
        self.mb_pending.clear();
        self.mb_inflight = 0;
        assert(self@.queue =~= Seq::<TargetV>::empty());
        assert(self@.mb_queue =~= Seq::<Seq<char>>::empty());
    }

    /// Forget everything: covers, misses and both queues (the caches are
    /// being cleared).
    pub fn clear_all(&mut self)
        requires
            old(self).wf(),
        ensures
            final(self).wf(),
            final(self)@.loaded == Set::<Seq<char>>::empty(),
            final(self)@.missing == Set::<Seq<char>>::empty(),
            final(self)@.queue == Seq::<TargetV>::empty(),
            final(self)@.pending == Set::<Seq<char>>::empty(),
            final(self)@.inflight == 0,
            final(self)@.mb_queue == Seq::<Seq<char>>::empty(),
            final(self)@.mb_pending == Set::<Seq<char>>::empty(),
            final(self)@.mb_inflight == 0,
    {
        self.abandon_queued();
        self.loaded.clear();
        self.missing.clear();
    }

    /// A target with the same strings.
    fn copy_target(t: &ArtTarget) -> (r: ArtTarget)
        ensures
            r@ == t@,
    {
        ArtTarget { artist: t.artist.clone(), base: t.base.clone(), variant: t.variant.clone() }
    }

    /// Put albums at the head of the local queue, in their order, skipping
    /// any whose art is already loaded or known to be missing; an album
    /// already queued further back is moved rather than queued twice. Then
    /// start as many fetches as the limits allow. Enqueueing nothing worth
    /// fetching changes nothing and starts nothing.
    pub fn enqueue(&mut self, targets: Vec<ArtTarget>) -> (fetches: Vec<ArtFetch>)
        requires
            old(self).wf(),
        ensures
            final(self).wf(),
            final(self)@ == after_enqueue(old(self)@, targets@.map_values(|t: ArtTarget| t@)),
            fetches@.map_values(|f: ArtFetch| f@) == enqueue_fetches(
                old(self)@,
                targets@.map_values(|t: ArtTarget| t@),
            ),
    {
        let ghost s0 = self@;
        let ghost ts = targets@.map_values(|t: ArtTarget| t@);
        let mut picked: Vec<ArtTarget> = Vec::new();
        let mut keys: Vec<String> = Vec::new();
        let mut i: usize = 0;
        while i < targets.len()
            invariant
                self@ == s0,
                self.wf(),
                ts == targets@.map_values(|t: ArtTarget| t@),
                i <= targets@.len(),
                picked@.map_values(|t: ArtTarget| t@) == wanted(s0, ts.take(i as int)),
                views(keys@) == keys_of(picked@.map_values(|t: ArtTarget| t@)),
            decreases targets@.len() - i,
        {
            let t = &targets[i];
            let key = art_key_for(t.artist.as_str(), t.base.as_str());
            assert(ts.take(i + 1 as int).drop_last() =~= ts.take(i as int));
            assert(ts.take(i + 1 as int).last() == t@);
            let ghost w0 = picked@.map_values(|t: ArtTarget| t@);
            let ghost k0 = views(keys@);
            if !self.loaded.contains(key.as_str()) && !self.missing.contains(key.as_str()) {
                picked.push(Self::copy_target(t));
                keys.push(key);
                assert(picked@.map_values(|t: ArtTarget| t@) =~= w0.push(t@));
                assert(views(keys@) =~= k0.push(target_key(t@)));
                assert(keys_of(w0.push(t@)) =~= keys_of(w0).push(target_key(t@)));
            }
            i = i + 1;
        }
        assert(ts.take(targets@.len() as int) =~= ts);
        let ghost w = picked@.map_values(|t: ArtTarget| t@);
        if picked.len() == 0 {
            return Vec::new();
        }
        // Drop stale copies of these albums from further back.
        let ghost q0 = s0.queue;
        let mut kept: VecDeque<ArtTarget> = VecDeque::new();
        let ghost mut j: nat = 0;
        assert(q0.skip(0) =~= q0);
        loop
            invariant
                self.wf(),
                q0 == s0.queue,
                j <= q0.len(),
                self@ == (ArtState { queue: q0.skip(j as int), ..s0 }),
                views(keys@) == keys_of(w),
                kept@.map_values(|t: ArtTarget| t@) == without_keys(q0.take(j as int), keys_of(w)),
            ensures
                self@ == (ArtState { queue: Seq::empty(), ..s0 }),
                kept@.map_values(|t: ArtTarget| t@) == without_keys(q0, keys_of(w)),
            decreases q0.len() - j,
        {
            assert(self@.queue == q0.skip(j as int));
            assert(self@.queue.len() == self.queue@.len());
            assert(self.queue@.len() > 0 ==> self@.queue[0] == self.queue@[0]@);
            assert(self.queue@.len() > 0 ==> q0.skip(j as int)[0] == q0[j as int]);
            match self.queue.pop_front() {
                None => {
                    assert(j == q0.len());
                    assert(q0.take(j as int) =~= q0);
                    assert(self@.queue =~= Seq::<TargetV>::empty());
                    break;
                },
                Some(t) => {
                    let ghost tv = t@;
                    assert(tv == q0[j as int]);
                    let k = art_key_for(t.artist.as_str(), t.base.as_str());
                    let ghost kv0 = kept@.map_values(|t: ArtTarget| t@);
                    assert(q0.take(j + 1 as int).drop_last() =~= q0.take(j as int));
                    assert(q0.take(j + 1 as int).last() == tv);
                    if !lists_str(&keys, k.as_str()) {
                        kept.push_back(t);
                        assert(kept@.map_values(|t: ArtTarget| t@) =~= kv0.push(tv));
                    }
                    proof {
                        assert(q0.skip(j as int).subrange(1, q0.skip(j as int).len() as int)
                            =~= q0.skip(j + 1 as int));
                        j = j + 1;
                    }
                    assert(self@.queue =~= q0.skip(j as int));
                },
            }
        }
        // Re-insert at the front, last first, so they keep their order.
        let ghost kept0 = kept@.map_values(|t: ArtTarget| t@);
        assert(w.skip(w.len() as int) =~= Seq::<TargetV>::empty());
        assert(keys_of(Seq::<TargetV>::empty()).to_set() =~= Set::<Seq<char>>::empty());
        assert(s0.pending.union(Set::<Seq<char>>::empty()) =~= s0.pending);
        assert(picked@.map_values(|t: ArtTarget| t@).take(picked@.len() as int) =~= w);
        while picked.len() > 0
            invariant
                self.wf(),
                w.len() > 0,
                picked@.len() <= w.len(),
                picked@.map_values(|t: ArtTarget| t@) == w.take(picked@.len() as int),
                kept@.map_values(|t: ArtTarget| t@) == w.skip(picked@.len() as int) + kept0,
                self@ == (ArtState {
                    queue: Seq::empty(),
                    pending: s0.pending.union(keys_of(w.skip(picked@.len() as int)).to_set()),
                    ..s0
                }),
            decreases picked@.len(),
        {
            let ghost m = picked@.len();
            assert(picked@.map_values(|t: ArtTarget| t@)[m - 1] == picked@[m - 1]@);
            assert(w.take(m as int)[m - 1] == w[m - 1]);
            let ghost kv1 = kept@.map_values(|t: ArtTarget| t@);
            let t = picked.pop().unwrap();
            let ghost tv = t@;
            assert(tv == w[m - 1]);
            let k = art_key_for(t.artist.as_str(), t.base.as_str());
            self.pending.insert(k);
            kept.push_front(t);
            assert(kept@.map_values(|t: ArtTarget| t@) =~= seq![tv] + kv1);
            proof {
                let rest = w.skip(m as int);
                let more = w.skip(m - 1);
                assert(more =~= seq![tv] + rest);
                assert(keys_of(more).to_set() =~= keys_of(rest).to_set().insert(target_key(tv))) by {
                    assert forall|x: Seq<char>| keys_of(more).contains(x) <==> (keys_of(rest).contains(x) || x == target_key(tv)) by {
                        if keys_of(more).contains(x) {
                            let a = choose|a: int| 0 <= a < keys_of(more).len() && keys_of(more)[a] == x;
                            if a > 0 {
                                assert(keys_of(rest)[a - 1] == x);
                            }
                        }
                        if keys_of(rest).contains(x) {
                            let b = choose|b: int| 0 <= b < keys_of(rest).len() && keys_of(rest)[b] == x;
                            assert(keys_of(more)[b + 1] == x);
                        }
                        if x == target_key(tv) {
                            assert(keys_of(more)[0] == x);
                        }
                    }
                }
                assert(s0.pending.union(keys_of(more).to_set()) =~= s0.pending.union(keys_of(rest).to_set()).insert(target_key(tv)));
                assert(picked@.map_values(|t: ArtTarget| t@) =~= w.take(picked@.len() as int));
                assert(kept@.map_values(|t: ArtTarget| t@) =~= more + kept0);
            }
        }
        self.queue = kept;
        proof {
            assert(w.skip(0) =~= w);
            assert(self@ =~= enqueued(s0, w));
        }
        self.drain()
    }

    /// Start fetches until the local limit is reached, then — only once the
    /// local queue is empty and no lookup is running — at most one
    /// MusicBrainz lookup.
    pub fn drain(&mut self) -> (fetches: Vec<ArtFetch>)
        requires
            old(self).wf(),
        ensures
            final(self).wf(),
            final(self)@ == drained(old(self)@),
            fetches@.map_values(|f: ArtFetch| f@) == drain_fetches(old(self)@),
    {
        let ghost s0 = self@;
        let ghost q0 = s0.queue;
        let mut fetches: Vec<ArtFetch> = Vec::new();
        let ghost mut n: nat = 0;
        assert(q0.skip(0) =~= q0);
        assert(fetches@.map_values(|f: ArtFetch| f@) =~= q0.take(0).map_values(|t: TargetV| FetchV::Local(t)));
        loop
            invariant
                self.wf(),
                q0 == s0.queue,
                within_limits(s0),
                n <= q0.len(),
                self.inflight == s0.inflight + n,
                n > 0 ==> self.inflight <= ART_FETCH_CONCURRENCY,
                self@.queue == q0.skip(n as int),
                self@ == (ArtState { queue: q0.skip(n as int), inflight: s0.inflight + n, ..s0 }),
                fetches@.map_values(|f: ArtFetch| f@) == q0.take(n as int).map_values(
                    |t: TargetV| FetchV::Local(t),
                ),
            ensures
                self.wf(),
                n == local_starts(s0),
                self@ == after_local(s0),
                fetches@.map_values(|f: ArtFetch| f@) == q0.take(n as int).map_values(
                    |t: TargetV| FetchV::Local(t),
                ),
            decreases q0.len() - n,
        {
            if self.inflight >= ART_FETCH_CONCURRENCY {
                assert(s0.inflight <= ART_FETCH_CONCURRENCY);
                assert(self@.queue.len() == q0.len() - n);
                assert(ART_FETCH_CONCURRENCY == 3);
                assert(self.inflight >= 3);
                assert(n > 0 ==> self.inflight == 3);
                assert(n == 0 ==> s0.inflight >= 3);
                assert(s0.inflight >= 3 ==> local_starts(s0) == 0);
                assert(s0.inflight < 3 ==> s0.inflight + n == 3);
                assert(s0.inflight < 3 ==> q0.len() >= 3 - s0.inflight);
                assert(s0.inflight < 3 ==> local_starts(s0) == 3 - s0.inflight);
                assert(n == local_starts(s0));
                assert(self@.queue =~= after_local(s0).queue);
                break;
            }
            assert(self.queue@.len() == self@.queue.len());
            assert(self.queue@.len() > 0 ==> self@.queue[0] == self.queue@[0]@);
            assert(self.queue@.len() > 0 ==> self@.queue[0] == q0[n as int]);
            match self.queue.pop_front() {
                None => {
                    assert(q0.skip(n as int).len() == 0);
                    assert(n == local_starts(s0));
                    assert(self@.queue =~= after_local(s0).queue);
                    break;
                },
                Some(t) => {
                    let ghost tv = t@;
                    assert(tv == q0[n as int]);
                    self.inflight = self.inflight + 1;
                    let ghost fv0 = fetches@.map_values(|f: ArtFetch| f@);
                    fetches.push(ArtFetch::Local(t));
                    assert(fetches@.map_values(|f: ArtFetch| f@) =~= fv0.push(FetchV::Local(tv)));
                    proof {
                        assert(q0.skip(n as int).subrange(1, q0.skip(n as int).len() as int)
                            =~= q0.skip(n + 1 as int));
                        assert(q0.take(n + 1 as int) =~= q0.take(n as int).push(tv));
                        n = n + 1;
                    }
                    assert(fetches@.map_values(|f: ArtFetch| f@) =~= q0.take(n as int).map_values(
                        |t: TargetV| FetchV::Local(t),
                    ));
                    assert(self@.queue =~= q0.skip(n as int));
                },
            }
        }
        if self.queue.len() == 0 && self.mb_inflight == 0 {
            match self.mb_queue.pop_front() {
                Some(k) => {
                    let ghost kv = k@;
                    self.mb_inflight = self.mb_inflight + 1;
                    fetches.push(ArtFetch::Remote(k));
                    assert(self@.mb_queue =~= s0.mb_queue.drop_first());
                    assert(fetches@.map_values(|f: ArtFetch| f@) =~= drain_fetches(s0));
                },
                None => {},
            }
        }
        assert(self@ =~= drained(s0));
        fetches
    }
}


/// Every wanted album is worth fetching and comes from the list; every album
/// of the list worth fetching is wanted.
proof fn lemma_wanted(s: ArtState, ts: Seq<TargetV>)
    ensures
        forall|i: int| 0 <= i < wanted(s, ts).len() ==> wants(s, #[trigger] wanted(s, ts)[i]),
        forall|i: int| 0 <= i < wanted(s, ts).len() ==> ts.contains(#[trigger] wanted(s, ts)[i]),
        forall|i: int| 0 <= i < ts.len() && wants(s, #[trigger] ts[i]) ==> wanted(s, ts).contains(ts[i]),
    decreases ts.len(),
{
    if ts.len() > 0 {
        let p = ts.drop_last();
        lemma_wanted(s, p);
        let w = wanted(s, p);
        assert forall|i: int| 0 <= i < wanted(s, ts).len() implies ts.contains(#[trigger] wanted(s, ts)[i]) by {
            if i < w.len() {
                assert(wanted(s, ts)[i] == w[i]);
                let j = choose|j: int| 0 <= j < p.len() && p[j] == w[i];
                assert(ts[j] == p[j]);
            } else {
                assert(ts[ts.len() - 1] == ts.last());
            }
        }
        assert forall|i: int| 0 <= i < wanted(s, ts).len() implies wants(s, #[trigger] wanted(s, ts)[i]) by {
            if i < w.len() {
                assert(wanted(s, ts)[i] == w[i]);
            }
        }
        assert forall|i: int| 0 <= i < ts.len() && wants(s, #[trigger] ts[i]) implies wanted(s, ts).contains(ts[i]) by {
            if i < ts.len() - 1 {
                assert(p[i] == ts[i]);
                let j = choose|j: int| 0 <= j < w.len() && w[j] == p[i];
                assert(wanted(s, ts)[j] == w[j]);
            } else {
                assert(wanted(s, ts)[wanted(s, ts).len() - 1] == ts.last());
            }
        }
    }
}

/// Keys of a concatenation.
proof fn lemma_keys_concat(a: Seq<TargetV>, b: Seq<TargetV>)
    ensures
        keys_of(a + b) == keys_of(a) + keys_of(b),
{
    assert(keys_of(a + b) =~= keys_of(a) + keys_of(b));
}

/// A subsequence of the list (by keys) keeps its keys distinct.
proof fn lemma_wanted_keys_distinct(s: ArtState, ts: Seq<TargetV>)
    requires
        keys_of(ts).no_duplicates(),
    ensures
        keys_of(wanted(s, ts)).no_duplicates(),
        forall|k: Seq<char>| #[trigger] keys_of(wanted(s, ts)).contains(k) ==> keys_of(ts).contains(k),
    decreases ts.len(),
{
    if ts.len() > 0 {
        let p = ts.drop_last();
        assert(keys_of(ts) =~= keys_of(p).push(target_key(ts.last())));
        assert(keys_of(p).no_duplicates()) by {
            assert forall|a: int, b: int| 0 <= a < keys_of(p).len() && 0 <= b < keys_of(p).len() && a != b
                implies keys_of(p)[a] != keys_of(p)[b] by {
                assert(keys_of(ts)[a] == keys_of(p)[a]);
                assert(keys_of(ts)[b] == keys_of(p)[b]);
            }
        }
        lemma_wanted_keys_distinct(s, p);
        let w = wanted(s, p);
        assert(!keys_of(p).contains(target_key(ts.last()))) by {
            if keys_of(p).contains(target_key(ts.last())) {
                let j = choose|j: int| 0 <= j < keys_of(p).len() && keys_of(p)[j] == target_key(ts.last());
                assert(keys_of(ts)[j] == keys_of(ts)[ts.len() - 1]);
            }
        }
        assert forall|k: Seq<char>| #[trigger] keys_of(wanted(s, ts)).contains(k) implies keys_of(ts).contains(k) by {
            let j = choose|j: int| 0 <= j < keys_of(wanted(s, ts)).len() && keys_of(wanted(s, ts))[j] == k;
            if j < w.len() {
                assert(wanted(s, ts)[j] == w[j]);
                assert(keys_of(w)[j] == k);
                assert(keys_of(w).contains(k));
                let i = choose|i: int| 0 <= i < keys_of(p).len() && keys_of(p)[i] == k;
                assert(keys_of(ts)[i] == k);
            } else {
                assert(keys_of(ts)[ts.len() - 1] == k);
            }
        }
        if wants(s, ts.last()) {
            let kw = keys_of(w);
            assert(keys_of(wanted(s, ts)) =~= kw.push(target_key(ts.last())));
            assert forall|a: int, b: int| 0 <= a < kw.len() + 1 && 0 <= b < kw.len() + 1 && a != b
                implies kw.push(target_key(ts.last()))[a] != kw.push(target_key(ts.last()))[b] by {
                if a < kw.len() && b < kw.len() {
                } else if a == kw.len() {
                    assert(kw.contains(kw[b]));
                } else {
                    assert(kw.contains(kw[a]));
                }
            }
        }
    }
}

/// The kept part of the queue holds keys of the queue only, none of the
/// dropped ones, and stays duplicate-free.
proof fn lemma_without_keys(q: Seq<TargetV>, ks: Seq<Seq<char>>)
    ensures
        forall|k: Seq<char>| #[trigger] keys_of(without_keys(q, ks)).contains(k) ==> keys_of(q).contains(k) && !ks.contains(k),
        keys_of(q).no_duplicates() ==> keys_of(without_keys(q, ks)).no_duplicates(),
    decreases q.len(),
{
    if q.len() > 0 {
        let p = q.drop_last();
        lemma_without_keys(p, ks);
        let r = without_keys(p, ks);
        assert(keys_of(q) =~= keys_of(p).push(target_key(q.last())));
        assert forall|k: Seq<char>| #[trigger] keys_of(without_keys(q, ks)).contains(k) implies keys_of(q).contains(k) && !ks.contains(k) by {
            let j = choose|j: int| 0 <= j < keys_of(without_keys(q, ks)).len() && keys_of(without_keys(q, ks))[j] == k;
            if j < r.len() {
                assert(without_keys(q, ks)[j] == r[j]);
                assert(keys_of(r)[j] == k);
                assert(keys_of(r).contains(k));
                let i = choose|i: int| 0 <= i < keys_of(p).len() && keys_of(p)[i] == k;
                assert(keys_of(q)[i] == k);
            } else {
                assert(!ks.contains(target_key(q.last())));
                assert(without_keys(q, ks)[j] == q.last());
                assert(keys_of(q)[q.len() - 1] == k);
            }
        }
        if keys_of(q).no_duplicates() {
            assert(keys_of(p).no_duplicates()) by {
                assert forall|a: int, b: int| 0 <= a < keys_of(p).len() && 0 <= b < keys_of(p).len() && a != b
                    implies keys_of(p)[a] != keys_of(p)[b] by {
                    assert(keys_of(q)[a] == keys_of(p)[a]);
                    assert(keys_of(q)[b] == keys_of(p)[b]);
                }
            }
            if !ks.contains(target_key(q.last())) {
                let kr = keys_of(r);
                assert(keys_of(without_keys(q, ks)) =~= kr.push(target_key(q.last())));
                assert(!keys_of(p).contains(target_key(q.last()))) by {
                    if keys_of(p).contains(target_key(q.last())) {
                        let j = choose|j: int| 0 <= j < keys_of(p).len() && keys_of(p)[j] == target_key(q.last());
                        assert(keys_of(q)[j] == keys_of(q)[q.len() - 1]);
                    }
                }
                assert forall|a: int, b: int| 0 <= a < kr.len() + 1 && 0 <= b < kr.len() + 1 && a != b
                    implies kr.push(target_key(q.last()))[a] != kr.push(target_key(q.last()))[b] by {
                    if a < kr.len() && b < kr.len() {
                    } else if a == kr.len() {
                        assert(kr.contains(kr[b]));
                    } else {
                        assert(kr.contains(kr[a]));
                    }
                }
            }
        }
    } else {
        assert(keys_of(without_keys(q, ks)) =~= Seq::<Seq<char>>::empty());
    }
}

/// The limits hold across every step — at most
/// [`ART_FETCH_CONCURRENCY`] local fetches and one MusicBrainz lookup are
/// ever in flight, whatever is enqueued and however fetches end.
pub proof fn law_fetch_limits(s: ArtState, ts: Seq<TargetV>, key: Seq<char>, outcome: ArtOutcome)
    requires
        within_limits(s),
    ensures
        within_limits(drained(s)),
        within_limits(after_enqueue(s, ts)),
        within_limits(drained(settled(s, key, outcome))),
{
}

/// A MusicBrainz lookup starts only once the local queue is empty and
/// no other lookup is running, and it is the last fetch a drain starts.
pub proof fn law_lookup_waits_for_local_stage(s: ArtState)
    ensures
        starts_remote(s) ==> drained(s).queue.len() == 0 && s.mb_inflight == 0,
        forall|i: int| 0 <= i < drain_fetches(s).len() && (#[trigger] drain_fetches(s)[i] is Remote)
            ==> i == drain_fetches(s).len() - 1 && starts_remote(s),
{
    let local = s.queue.take(local_starts(s) as int).map_values(|t: TargetV| FetchV::Local(t));
    assert forall|i: int| 0 <= i < drain_fetches(s).len() && (#[trigger] drain_fetches(s)[i] is Remote)
        implies i == drain_fetches(s).len() - 1 && starts_remote(s) by {
        if i < local.len() {
            assert(drain_fetches(s)[i] == local[i]);
        }
    }
}

/// Enqueueing a list skips exactly the albums whose cover is loaded or
/// known to be missing, and puts the rest at the head of the queue in list
/// order, ahead of everything queued before.
pub proof fn law_enqueue_order(s: ArtState, ts: Seq<TargetV>)
    ensures
        forall|i: int| 0 <= i < wanted(s, ts).len() ==> wants(s, #[trigger] wanted(s, ts)[i]) && ts.contains(wanted(s, ts)[i]),
        forall|i: int| 0 <= i < ts.len() && wants(s, #[trigger] ts[i]) ==> wanted(s, ts).contains(ts[i]),
        enqueued(s, wanted(s, ts)).queue.take(wanted(s, ts).len() as int) == wanted(s, ts),
        wanted(s, ts).len() == 0 ==> after_enqueue(s, ts) == s && enqueue_fetches(s, ts).len() == 0,
{
    lemma_wanted(s, ts);
    let w = wanted(s, ts);
    assert(enqueued(s, w).queue.take(w.len() as int) =~= w);
}

/// No album sits in the local queue twice. When the queue holds each
/// album once and the list being enqueued names each album once, the queue
/// still holds each album once afterwards. (A list naming one album twice
/// queues it twice; that input is left out.)
pub proof fn law_queue_holds_each_album_once(s: ArtState, ts: Seq<TargetV>)
    requires
        keys_of(s.queue).no_duplicates(),
        keys_of(ts).no_duplicates(),
    ensures
        keys_of(after_enqueue(s, ts).queue).no_duplicates(),
{
    let w = wanted(s, ts);
    if w.len() > 0 {
        lemma_wanted_keys_distinct(s, ts);
        lemma_without_keys(s.queue, keys_of(w));
        let r = without_keys(s.queue, keys_of(w));
        let q = w + r;
        lemma_keys_concat(w, r);
        let kq = keys_of(q);
        assert(kq.no_duplicates()) by {
            assert forall|a: int, b: int| 0 <= a < kq.len() && 0 <= b < kq.len() && a != b
                implies kq[a] != kq[b] by {
                let kw = keys_of(w);
                let kr = keys_of(r);
                if a < kw.len() && b < kw.len() {
                } else if a >= kw.len() && b >= kw.len() {
                    assert(kq[a] == kr[a - kw.len()]);
                    assert(kq[b] == kr[b - kw.len()]);
                } else if a < kw.len() {
                    assert(kq[b] == kr[b - kw.len()]);
                    assert(kr.contains(kr[b - kw.len()]));
                    assert(kw.contains(kw[a]));
                } else {
                    assert(kq[a] == kr[a - kw.len()]);
                    assert(kr.contains(kr[a - kw.len()]));
                    assert(kw.contains(kw[b]));
                }
            }
        }
        let d = drained(enqueued(s, w)).queue;
        let n = local_starts(enqueued(s, w));
        assert(d == q.skip(n as int));
        assert(keys_of(d) =~= kq.skip(n as int));
        assert forall|a: int, b: int| 0 <= a < keys_of(d).len() && 0 <= b < keys_of(d).len() && a != b
            implies keys_of(d)[a] != keys_of(d)[b] by {
            assert(keys_of(d)[a] == kq[a + n]);
            assert(keys_of(d)[b] == kq[b + n]);
        }
    }
}

/// A finished fetch gives its slot back — its key is no longer held by
/// the local stage — and a local miss is queued, last, for the MusicBrainz
/// stage.
pub proof fn law_finished_fetch(s: ArtState, key: Seq<char>, outcome: ArtOutcome)
    ensures
        !settled(s, key, outcome).pending.contains(key),
        outcome is MpdMiss ==> settled(s, key, outcome).mb_queue == s.mb_queue.push(key)
            && settled(s, key, outcome).mb_pending.contains(key),
        outcome is Missing ==> settled(s, key, outcome).missing.contains(key),
        (outcome matches ArtOutcome::Loaded(b) && b@.len() > 0) ==> settled(s, key, outcome).loaded.contains(key),
{
}


/// A drain fills the local slots: as many queued albums start as there is
/// room for under [`ART_FETCH_CONCURRENCY`], from the head of the queue, in
/// order.
pub proof fn law_drain_fills_slots(s: ArtState)
    requires
        s.inflight <= 3,
    ensures
        drained(s).inflight == (if s.inflight + s.queue.len() < 3 { s.inflight + s.queue.len() } else { 3 }),
        drained(s).queue == s.queue.skip(drained(s).inflight - s.inflight),
        forall|i: int| 0 <= i < drained(s).inflight - s.inflight
            ==> #[trigger] drain_fetches(s)[i] == FetchV::Local(s.queue[i]),
{
}

} // verus!
