//! Transient messages shown over the main content.
use vstd::prelude::*;
use crate::ui::theme::colors::{palette_of, AppColors, Rgb};
use std::collections::VecDeque;
use std::time::{Duration, Instant};

verus! {

/// How long an informational toast stays up, in seconds.
pub const TOAST_INFO_SECS: u64 = 4;
/// Errors linger longer than info — they are the ones worth reading.
pub const TOAST_ERROR_SECS: u64 = 8;
/// More than this on screen and they would cover what they report on.
pub const MAX_TOASTS: usize = 3;

/// `std::time::Instant`, a reading of the monotonic clock, carried through
/// as an opaque value.
#[verifier::external_type_specification]
#[verifier::external_body]
pub struct ExInstant(Instant);

/// `Instant::now`: the current reading of the monotonic clock. Nothing is
/// claimed about the reading.
#[verifier::external_body]
fn clock_now() -> Instant {
    Instant::now()
}

/// `Instant::elapsed`: the time since `at` by the monotonic clock. It
/// depends on the clock, so nothing is claimed about it.
#[verifier::external_body]
fn elapsed_since(at: &Instant) -> Duration {
    at.elapsed()
}

/// `Duration::as_secs`: the whole seconds a span holds. The span is opaque
/// here, so nothing is claimed about the number.
#[verifier::external_body]
fn whole_secs(d: &Duration) -> u64 {
    d.as_secs()
}

/// How many seconds a toast of this kind stays up.
pub open spec fn ttl(is_error: bool) -> u64 {
    if is_error { TOAST_ERROR_SECS } else { TOAST_INFO_SECS }
}

/// Has a toast of this kind, shown `age_secs` seconds ago, expired?
pub open spec fn expired_at(is_error: bool, age_secs: u64) -> bool {
    age_secs >= ttl(is_error)
}

/// A transient message: its text, whether it reports an error, and when it
/// was shown.
#[derive(Debug)]
pub struct Toast {
    pub text: String,
    /// Errors are styled and timed differently from progress notes.
    pub is_error: bool,
    pub shown_at: Instant,
}

impl View for Toast {
    type V = (Seq<char>, bool);

    open spec fn view(&self) -> (Seq<char>, bool) {
        (self.text@, self.is_error)
    }
}

/// Seconds a toast of this kind stays up.
pub fn lifetime_secs(is_error: bool) -> (s: u64)
    ensures
        s == ttl(is_error),
{
    if is_error { TOAST_ERROR_SECS } else { TOAST_INFO_SECS }
}

/// Has a toast of this kind, shown `age_secs` seconds ago, expired?
pub fn expired_after(is_error: bool, age_secs: u64) -> (r: bool)
    ensures
        r == expired_at(is_error, age_secs),
{
    age_secs >= lifetime_secs(is_error)
}

impl Toast {
    /// A toast shown now.
    pub fn new(text: String, is_error: bool) -> (t: Toast)
        ensures
            t@ == (text@, is_error),
    {
        Toast { text, is_error, shown_at: clock_now() }
    }

    /// A toast shown at `shown_at`.
    pub fn shown_at(text: String, is_error: bool, shown_at: Instant) -> (t: Toast)
        ensures
            t@ == (text@, is_error),
    {
        Toast { text, is_error, shown_at }
    }

    /// Whole seconds since the toast was shown (read from the clock).
    pub fn age_secs(&self) -> u64 {
        let d = elapsed_since(&self.shown_at);
        whole_secs(&d)
    }

    /// Has the toast been up for its whole lifetime? The age is read from
    /// the clock; the verdict for a given age is [`expired_after`].
    pub fn expired(&self) -> bool {
        let age = self.age_secs();
        expired_after(self.is_error, age)
    }
}

/// The toasts on screen, oldest first.
pub struct Toasts {
    shown: VecDeque<Toast>,
}

/// The toasts left after pruning: those whose age (same position in `ages`)
/// is below their lifetime, order kept.
pub open spec fn fresh(ts: Seq<(Seq<char>, bool)>, ages: Seq<u64>) -> Seq<(Seq<char>, bool)>
    decreases ts.len(),
{
    if ts.len() == 0 {
        seq![]
    } else {
        let r = fresh(ts.drop_last(), ages);
        if expired_at(ts.last().1, ages[ts.len() - 1]) {
            r
        } else {
            r.push(ts.last())
        }
    }
}

/// The toasts themselves (each with the time it was shown) left after
/// pruning: those whose age is below their lifetime, order kept.
pub open spec fn fresh_items(ts: Seq<Toast>, ages: Seq<u64>) -> Seq<Toast>
    decreases ts.len(),
{
    if ts.len() == 0 {
        seq![]
    } else {
        let r = fresh_items(ts.drop_last(), ages);
        if expired_at(ts.last().is_error, ages[ts.len() - 1]) {
            r
        } else {
            r.push(ts.last())
        }
    }
}

/// The toasts after showing `t`: the oldest are dropped to make room, so at
/// most [`MAX_TOASTS`] remain and the newest is last.
pub open spec fn pushed<T>(ts: Seq<T>, t: T) -> Seq<T> {
    if ts.len() >= MAX_TOASTS {
        ts.skip(ts.len() - (MAX_TOASTS - 1)).push(t)
    } else {
        ts.push(t)
    }
}

impl View for Toasts {
    type V = Seq<(Seq<char>, bool)>;

    closed spec fn view(&self) -> Seq<(Seq<char>, bool)> {
        self.shown@.map_values(|t: Toast| t@)
    }
}

impl Toasts {
    /// The toasts on screen, oldest first, each with the time it was shown.
    pub closed spec fn items(&self) -> Seq<Toast> {
        self.shown@
    }

    /// The view is each toast's text and kind, in order.
    pub proof fn lemma_view_is_items(&self)
        ensures
            self@ == self.items().map_values(|t: Toast| t@),
    {
    }

    /// Never more than [`MAX_TOASTS`] on screen.
    pub closed spec fn wf(&self) -> bool {
        self.shown@.len() <= MAX_TOASTS
    }

    /// No toasts.
    pub fn new() -> (ts: Self)
        ensures
            ts.wf(),
            ts@ == Seq::<(Seq<char>, bool)>::empty(),
            ts.items() == Seq::<Toast>::empty(),
    {
        let ts = Toasts { shown: VecDeque::new() };
        assert(ts@ =~= Seq::<(Seq<char>, bool)>::empty());
        ts
    }

    /// How many toasts are on screen.
    pub fn len(&self) -> (n: usize)
        ensures
            n == self@.len(),
    {
        self.shown.len()
    }

    /// The toast at `i`, oldest first.
    pub fn get(&self, i: usize) -> (t: &Toast)
        requires
            i < self@.len(),
        ensures
            t@ == self@[i as int],
            *t == self.items()[i as int],
    {
        &self.shown[i]
    }

    /// Show `t`, dropping the oldest rather than refusing the newest: the
    /// most recent failure is the one the user is most likely looking for.
    pub fn push(&mut self, t: Toast)
        requires
            old(self).wf(),
        ensures
            final(self).wf(),
            final(self)@ == pushed(old(self)@, t@),
            final(self).items() == pushed(old(self).items(), t),
    {
        let ghost s0 = self@;
        let ghost i0 = self.shown@;
        let ghost tv = t@;
        let ghost mut dropped: nat = 0;
        while self.shown.len() >= MAX_TOASTS
            invariant
                s0.len() <= MAX_TOASTS,
                dropped <= s0.len(),
                dropped > 0 ==> s0.len() - dropped >= MAX_TOASTS - 1,
                self@ == s0.skip(dropped as int),
                self.shown@ == i0.skip(dropped as int),
                self@.len() == self.shown@.len(),
                i0.len() == s0.len(),
            decreases self.shown@.len(),
        {
            let ghost before = self@;
            let ghost ibefore = self.shown@;
            self.shown.pop_front();
            proof {
                assert(self@ =~= before.subrange(1, before.len() as int));
                assert(self.shown@ =~= ibefore.subrange(1, ibefore.len() as int));
                assert(i0.skip(dropped as int).subrange(1, i0.skip(dropped as int).len() as int)
                    =~= i0.skip(dropped + 1 as int));
                assert(s0.skip(dropped as int).subrange(1, s0.skip(dropped as int).len() as int)
                    =~= s0.skip(dropped + 1 as int));
                dropped = dropped + 1;
            }
        }
        let ghost before = self@;
        let ghost ibefore = self.shown@;
        let ghost tt = t;
        self.shown.push_back(t);
        proof {
            assert(self@ =~= before.push(tv));
            assert(self.shown@ =~= ibefore.push(tt));
            if s0.len() >= MAX_TOASTS {
                assert(dropped == 1);
            } else {
                assert(dropped == 0);
                assert(s0.skip(0) =~= s0);
                assert(i0.skip(0) =~= i0);
            }
        }
    }

    /// Dismiss the oldest toast.
    pub fn dismiss_oldest(&mut self)
        requires
            old(self).wf(),
        ensures
            final(self).wf(),
            final(self)@ == (if old(self)@.len() > 0 { old(self)@.drop_first() } else { old(self)@ }),
            final(self).items() == (if old(self).items().len() > 0 {
                old(self).items().drop_first()
            } else {
                old(self).items()
            }),
    {
        let ghost before = self@;
        let ghost ibefore = self.shown@;
        self.shown.pop_front();
        assert(ibefore.len() > 0 ==> self.shown@ =~= ibefore.drop_first());
        assert(ibefore.len() == 0 ==> self.shown@ =~= ibefore);
        assert(before.len() > 0 ==> self@ =~= before.drop_first());
        assert(before.len() == 0 ==> self@ =~= before);
    }

    /// Drop the toasts whose age (given per toast, oldest first) has reached
    /// their lifetime.
    pub fn prune_by_age(&mut self, ages: &Vec<u64>)
        requires
            old(self).wf(),
            ages@.len() == old(self)@.len(),
        ensures
            final(self).wf(),
            final(self)@ == fresh(old(self)@, ages@),
            final(self).items() == fresh_items(old(self).items(), ages@),
    {
        let ghost s0 = self@;
        let ghost i0 = self.shown@;
        let n = self.shown.len();
        let mut kept: VecDeque<Toast> = VecDeque::new();
        let mut i: usize = 0;
        while i < n
            invariant
                n == s0.len(),
                ages@.len() == n,
                i <= n,
                self.shown@.len() == n - i,
                self@ == s0.skip(i as int),
                self.shown@ == i0.skip(i as int),
                i0.len() == n,
                s0 == i0.map_values(|t: Toast| t@),
                kept@.map_values(|t: Toast| t@) == fresh(s0.take(i as int), ages@),
                kept@ == fresh_items(i0.take(i as int), ages@),
                kept@.len() <= i,
            decreases n - i,
        {
            let ghost before = self@;
            let ghost ibefore = self.shown@;
            assert(self.shown@.map_values(|t: Toast| t@)[0] == self.shown@[0]@);
            let t = self.shown.pop_front().unwrap();
            let ghost kv = kept@.map_values(|t: Toast| t@);
            let ghost ki = kept@;
            assert(s0.take(i + 1 as int).drop_last() =~= s0.take(i as int));
            assert(s0.take(i + 1 as int).last() == s0[i as int]);
            assert(i0.take(i + 1 as int).drop_last() =~= i0.take(i as int));
            assert(i0.take(i + 1 as int).last() == i0[i as int]);
            assert(t == i0[i as int]);
            assert(t@ == s0[i as int]);
            if !expired_after(t.is_error, ages[i]) {
                let ghost tt = t;
                kept.push_back(t);
                assert(kept@.map_values(|t: Toast| t@) =~= kv.push(s0[i as int]));
                assert(kept@ =~= ki.push(tt));
            }
            proof {
                assert(self@ =~= before.subrange(1, before.len() as int));
                assert(self.shown@ =~= ibefore.subrange(1, ibefore.len() as int));
                assert(i0.skip(i as int).subrange(1, i0.skip(i as int).len() as int) =~= i0.skip(i + 1 as int));
                assert(s0.skip(i as int).subrange(1, s0.skip(i as int).len() as int) =~= s0.skip(i + 1 as int));
            }
            i = i + 1;
        }
        assert(s0.take(n as int) =~= s0);
        assert(i0.take(n as int) =~= i0);
        self.shown = kept;
    }

    /// Each toast's age in whole seconds, oldest first, read from the clock.
    pub fn ages(&self) -> (ages: Vec<u64>)
        ensures
            ages@.len() == self@.len(),
    {
        let mut ages: Vec<u64> = Vec::new();
        let mut i: usize = 0;
        while i < self.shown.len()
            invariant
                i <= self.shown@.len(),
                ages@.len() == i,
            decreases self.shown@.len() - i,
        {
            ages.push(self.shown[i].age_secs());
            i = i + 1;
        }
        ages
    }

    /// Drop every toast that has been up for its whole lifetime, reading
    /// each one's age from the clock: the survivors keep their order and
    /// the time they were shown, whatever the ages read.
    pub fn prune_expired(&mut self)
        requires
            old(self).wf(),
        ensures
            final(self).wf(),
            exists|ages: Seq<u64>| ages.len() == old(self)@.len()
                && final(self)@ == fresh(old(self)@, ages)
                && final(self).items() == fresh_items(old(self).items(), ages),
    {
        let ages = self.ages();
        self.prune_by_age(&ages);
    }
}

/// Pruning keeps the toasts in order and never adds one: with no toast at
/// its lifetime all stay, and with every toast at its lifetime none does.
pub proof fn law_prune_drops_the_expired(ts: Seq<(Seq<char>, bool)>, ages: Seq<u64>)
    requires
        ages.len() == ts.len(),
    ensures
        fresh(ts, ages).len() <= ts.len(),
        (forall|i: int| 0 <= i < ts.len() ==> !expired_at(ts[i].1, #[trigger] ages[i])) ==> fresh(ts, ages) == ts,
        (forall|i: int| 0 <= i < ts.len() ==> expired_at(ts[i].1, #[trigger] ages[i])) ==> fresh(ts, ages).len() == 0,
    decreases ts.len(),
{
    if ts.len() > 0 {
        let n = ts.len() - 1;
        let shorter = ages.take(n as int);
        lemma_fresh_prefix_ages(ts.drop_last(), ages);
        law_prune_drops_the_expired(ts.drop_last(), shorter);
        if forall|i: int| 0 <= i < ts.len() ==> !expired_at(ts[i].1, #[trigger] ages[i]) {
            assert forall|i: int| 0 <= i < ts.drop_last().len() implies !expired_at(ts.drop_last()[i].1, #[trigger] shorter[i]) by {
                assert(ts.drop_last()[i] == ts[i]);
                assert(shorter[i] == ages[i]);
            }
            assert(!expired_at(ts[n as int].1, ages[n as int]));
            assert(fresh(ts, ages) =~= ts.drop_last().push(ts.last()));
            assert(ts.drop_last().push(ts.last()) =~= ts);
        }
        if forall|i: int| 0 <= i < ts.len() ==> expired_at(ts[i].1, #[trigger] ages[i]) {
            assert forall|i: int| 0 <= i < ts.drop_last().len() implies expired_at(ts.drop_last()[i].1, #[trigger] shorter[i]) by {
                assert(ts.drop_last()[i] == ts[i]);
                assert(shorter[i] == ages[i]);
            }
            assert(expired_at(ts[n as int].1, ages[n as int]));
        }
    }
}

/// Pruning a prefix reads only the ages of that prefix.
proof fn lemma_fresh_prefix_ages(ts: Seq<(Seq<char>, bool)>, ages: Seq<u64>)
    requires
        ts.len() <= ages.len(),
    ensures
        fresh(ts, ages) == fresh(ts, ages.take(ts.len() as int)),
    decreases ts.len(),
{
    if ts.len() > 0 {
        lemma_fresh_prefix_ages(ts.drop_last(), ages);
        lemma_fresh_prefix_ages(ts.drop_last(), ages.take(ts.len() as int));
        assert(ages.take(ts.len() as int).take(ts.drop_last().len() as int) =~= ages.take(ts.drop_last().len() as int));
    }
}

/// An error outlives an informational toast — at any age at which an
/// error has expired, so has an info toast of the same age, and there is an
/// age at which the info toast is gone while the error is still up.
pub proof fn law_errors_linger_longer(age: u64)
    ensures
        expired_at(true, age) ==> expired_at(false, age),
        expired_at(false, TOAST_INFO_SECS) && !expired_at(true, TOAST_INFO_SECS),
        !expired_at(false, 0) && !expired_at(true, 0),
{
}

/// Showing a toast never puts more than [`MAX_TOASTS`] on screen, the
/// new one is last, and the ones kept are the most recent, in order.
pub proof fn law_push_keeps_newest(ts: Seq<(Seq<char>, bool)>, t: (Seq<char>, bool))
    requires
        ts.len() <= MAX_TOASTS,
    ensures
        pushed(ts, t).len() <= MAX_TOASTS,
        pushed(ts, t).last() == t,
        pushed(ts, t).drop_last() == ts.skip(ts.len() - (pushed(ts, t).len() - 1)),
{
    if ts.len() >= MAX_TOASTS {
        assert(pushed(ts, t).drop_last() =~= ts.skip(ts.len() - (pushed(ts, t).len() - 1)));
    } else {
        assert(pushed(ts, t).drop_last() =~= ts.skip(ts.len() - (pushed(ts, t).len() - 1)));
    }
}

/// The border and text colour of a toast: the error colour for both on an
/// error, the plain border and primary text otherwise.
pub fn toast_colors(colors: &AppColors, is_error: bool) -> (r: (Rgb, Rgb))
    ensures
        ({
            let p = palette_of(colors.spec_dark());
            r == (if is_error { (p.error, p.error) } else { (p.border, p.text_primary) })
        }),
{
    if is_error { (colors.error(), colors.error()) } else { (colors.border(), colors.text_primary()) }
}


/// An informational toast stays up 4 seconds and an error 8: a toast has
/// expired exactly when its age reaches that.
pub proof fn law_toast_lifetimes(is_error: bool, age: u64)
    ensures
        expired_at(is_error, age) <==> age >= (if is_error { 8u64 } else { 4u64 }),
{
}

} // verus!
