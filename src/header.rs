use vstd::prelude::*;

verus! {

/// The reference count of one allocation header, with the discipline that
/// both handle kinds follow: creation starts it at one, each clone adds one,
/// each release takes one away, and the release that takes it from one to
/// zero alone frees the block.
pub struct Header {
    count: usize,
}

/// What a handle can do to the header that it shares.
#[derive(Clone, Copy, Debug, PartialEq, Eq, Structural)]
pub enum Event {
    Clone,
    Widen,
    Release,
}

/// Whether a release that finds the count at `count` frees the block.
pub open spec fn frees_at(count: nat) -> bool {
    count == 1
}

/// The count after `e` acts on a header whose count is `count`.
pub open spec fn count_after(count: nat, e: Event) -> nat {
    match e {
        Event::Clone => count + 1,
        Event::Widen => count,
        Event::Release => (count - 1) as nat,
    }
}

/// Whether `e` may act on a header whose count is `count`: every event is
/// made through a live handle, so none comes once the count is zero.
pub open spec fn enabled(count: nat, e: Event) -> bool {
    count >= 1
}

/// Whether every event of `events` may act in turn, starting from `count`.
pub open spec fn run_enabled(count: nat, events: Seq<Event>) -> bool
    decreases events.len(),
{
    events.len() == 0 || (enabled(count, events[0]) && run_enabled(
        count_after(count, events[0]),
        events.drop_first(),
    ))
}

/// The count after the events of `events` act in turn on `count`.
pub open spec fn run_count(count: nat, events: Seq<Event>) -> nat
    decreases events.len(),
{
    if events.len() == 0 {
        count
    } else {
        run_count(count_after(count, events[0]), events.drop_first())
    }
}

/// How many times the block is freed while the events of `events` act in
/// turn on `count`.
pub open spec fn run_frees(count: nat, events: Seq<Event>) -> nat
    decreases events.len(),
{
    if events.len() == 0 {
        0
    } else {
        (if events[0] == Event::Release && frees_at(count) {
            1nat
        } else {
            0nat
        }) + run_frees(count_after(count, events[0]), events.drop_first())
    }
}

/// `n` copies of `e`.
pub open spec fn repeat(e: Event, n: nat) -> Seq<Event> {
    Seq::new(n, |i: int| e)
}

/// Running `a` and then `b` is running `a + b`.
pub proof fn lemma_run_append(count: nat, a: Seq<Event>, b: Seq<Event>)
    ensures
        run_enabled(count, a + b) == (run_enabled(count, a) && run_enabled(
            run_count(count, a),
            b,
        )),
        run_count(count, a + b) == run_count(run_count(count, a), b),
        run_frees(count, a + b) == run_frees(count, a) + run_frees(run_count(count, a), b),
    decreases a.len(),
{
    if a.len() > 0 {
        assert((a + b).drop_first() =~= a.drop_first() + b);
        assert((a + b)[0] == a[0]);
        lemma_run_append(count_after(count, a[0]), a.drop_first(), b);
    } else {
        assert(a + b =~= b);
    }
}

/// Whatever handles clone, widen and release, in whatever order and
/// interleaving: the block is freed at most once, it is freed exactly when
/// the count has come down to zero, and it is never freed while the count is
/// above zero.
pub proof fn lemma_freed_once_at_zero(count: nat, events: Seq<Event>)
    requires
        count >= 1,
        run_enabled(count, events),
    ensures
        run_frees(count, events) == (if run_count(count, events) == 0 {
            1nat
        } else {
            0nat
        }),
    decreases events.len(),
{
    if events.len() > 0 {
        let next = count_after(count, events[0]);
        if next == 0 {
            reveal_with_fuel(run_enabled, 2);
            assert(events.drop_first().len() == 0);
            assert(run_frees(next, events.drop_first()) == 0);
            assert(run_count(next, events.drop_first()) == 0);
        } else {
            lemma_freed_once_at_zero(next, events.drop_first());
        }
    }
}

/// Cloning `m` times from a live header adds `m` and frees nothing.
pub proof fn lemma_clones(count: nat, m: nat)
    requires
        count >= 1,
    ensures
        run_enabled(count, repeat(Event::Clone, m)),
        run_count(count, repeat(Event::Clone, m)) == count + m,
        run_frees(count, repeat(Event::Clone, m)) == 0,
    decreases m,
{
    if m > 0 {
        assert(repeat(Event::Clone, m).drop_first() =~= repeat(Event::Clone, (m - 1) as nat));
        lemma_clones(count + 1, (m - 1) as nat);
    }
}

/// Releasing `k` of the `count` live handles leaves `count - k`, and frees
/// the block only where `k` is all of them.
pub proof fn lemma_releases(count: nat, k: nat)
    requires
        1 <= count,
        k <= count,
    ensures
        run_enabled(count, repeat(Event::Release, k)),
        run_count(count, repeat(Event::Release, k)) == count - k,
        run_frees(count, repeat(Event::Release, k)) == (if k == count {
            1nat
        } else {
            0nat
        }),
    decreases k,
{
    if k == 0 {
        assert(repeat(Event::Release, k).len() == 0);
    } else {
        let rest = repeat(Event::Release, (k - 1) as nat);
        assert(repeat(Event::Release, k)[0] == Event::Release);
        assert(repeat(Event::Release, k).drop_first() =~= rest);
        if count == 1 {
            assert(rest.len() == 0);
            assert(run_enabled(0, rest));
            assert(run_frees(0, rest) == 0);
            assert(run_count(0, rest) == 0);
        } else {
            lemma_releases((count - 1) as nat, (k - 1) as nat);
        }
    }
}

/// A handle created and released at once: the block is freed exactly once.
pub proof fn lemma_create_then_release()
    ensures
        run_enabled(1, seq![Event::Release]),
        run_count(1, seq![Event::Release]) == 0,
        run_frees(1, seq![Event::Release]) == 1,
{
    assert(seq![Event::Release] =~= repeat(Event::Release, 1));
    lemma_releases(1, 1);
}

/// A handle is created and cloned `n - 1` times, and then `k` of the `n`
/// handles are released. Until all `n` are released the block stays and `n - k`
/// handles still reach it; the `n`-th release frees it, once.
pub proof fn lemma_clone_then_release(n: nat, k: nat)
    requires
        n >= 1,
        k <= n,
    ensures
        ({
            let events = repeat(Event::Clone, (n - 1) as nat) + repeat(Event::Release, k);
            &&& run_enabled(1, events)
            &&& run_count(1, events) == n - k
            &&& run_frees(1, events) == (if k == n {
                1nat
            } else {
                0nat
            })
        }),
{
    let clones = repeat(Event::Clone, (n - 1) as nat);
    lemma_clones(1, (n - 1) as nat);
    lemma_releases(n, k);
    lemma_run_append(1, clones, repeat(Event::Release, k));
}

/// Widening a handle anywhere in a run leaves the count and the frees of the
/// run as they were: a widened handle shares the header and its count.
pub proof fn lemma_widen_keeps_count(count: nat, events: Seq<Event>, i: int)
    requires
        0 <= i <= events.len(),
        run_count(count, events.take(i)) >= 1,
    ensures
        run_enabled(count, events.insert(i, Event::Widen)) == run_enabled(count, events),
        run_count(count, events.insert(i, Event::Widen)) == run_count(count, events),
        run_frees(count, events.insert(i, Event::Widen)) == run_frees(count, events),
{
    let pre = events.take(i);
    let post = events.skip(i);
    let w = seq![Event::Widen];
    assert(events =~= pre + post);
    assert(events.insert(i, Event::Widen) =~= pre + (w + post));
    let mid = run_count(count, pre);
    lemma_run_append(count, pre, post);
    lemma_run_append(count, pre, w + post);
    assert((w + post)[0] == Event::Widen);
    assert((w + post).drop_first() =~= post);
}

impl Header {
    pub closed spec fn count(&self) -> nat {
        self.count as nat
    }

    /// The header of a new allocation: one handle refers to it.
    pub fn new() -> (r: Header)
        ensures
            r.count() == 1,
    {
        Header { count: 1 }
    }

    pub fn get_count(&self) -> (r: usize)
        ensures
            r == self.count(),
    {
        self.count
    }

    /// A clone: one more handle refers to the header.
    pub fn inc_count(&mut self)
        requires
            old(self).count() < usize::MAX,
        ensures
            final(self).count() == count_after(old(self).count(), Event::Clone),
    {
        self.count = self.count + 1;
    }

    /// Takes one away from the count and returns the count as it was.
    pub fn dec_count(&mut self) -> (r: usize)
        requires
            old(self).count() >= 1,
        ensures
            r == old(self).count(),
            final(self).count() == count_after(old(self).count(), Event::Release),
    {
        let v = self.count;
        self.count = v - 1;
        v
    }

    /// A release: returns whether this release is the one that must free
    /// the block.
    pub fn release(&mut self) -> (r: bool)
        requires
            old(self).count() >= 1,
        ensures
            r == frees_at(old(self).count()),
            final(self).count() == count_after(old(self).count(), Event::Release),
    {
        self.dec_count() == 1
    }
}

} // verus!
