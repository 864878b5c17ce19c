use vstd::prelude::*;

verus! {

/// A monotonically increasing counter that orders submissions to the GPU queue.
/// Serials are compared by their numeric value.
#[derive(Clone, Copy, Debug, PartialEq, Eq, Structural, Hash, PartialOrd, Ord, Default)]
pub struct Serial(pub u64);

impl Serial {
    /// The serial that follows `self`.
    pub fn next(self) -> (r: Serial)
        requires
            self.0 < u64::MAX,
        ensures
            r.0 == self.0 + 1,
    {
        Serial(self.0 + 1)
    }

    pub fn zero() -> (r: Serial)
        ensures
            r.0 == 0,
    {
        Serial(0)
    }

    pub fn one() -> (r: Serial)
        ensures
            r.0 == 1,
    {
        Serial(1)
    }

    pub fn get(self) -> (r: u64)
        ensures
            r == self.0,
    {
        self.0
    }

    /// Increments this serial and returns the new value.
    pub fn increment(&mut self) -> (r: Serial)
        requires
            old(self).0 < u64::MAX,
        ensures
            final(self).0 == old(self).0 + 1,
            r == *final(self),
    {
        *self = self.next();
        *self
    }
}

/// The serials of `s`, in order, never decrease.
pub open spec fn sorted_by_serial<T>(s: Seq<(T, Serial)>) -> bool {
    forall|i: int, j: int| 0 <= i <= j < s.len() ==> s[i].1.0 <= s[j].1.0
}

/// Whether an entry is due once `serial` has completed.
pub open spec fn due<T>(serial: Serial) -> spec_fn((T, Serial)) -> bool {
    |e: (T, Serial)| e.1.0 <= serial.0
}

/// Number of leading entries of `s` whose serial is at most `serial`.
pub open spec fn count_due<T>(s: Seq<(T, Serial)>, serial: Serial) -> nat
    decreases s.len(),
{
    if s.len() == 0 {
        0
    } else if s[0].1.0 <= serial.0 {
        1 + count_due(s.drop_first(), serial)
    } else {
        0
    }
}

/// A queue of values tagged with the serial after whose completion they may be
/// released. Entries are kept in non-decreasing serial order.
#[derive(Debug)]
pub struct SerialQueue<T> {
    storage: Vec<(T, Serial)>,
}

impl<T> View for SerialQueue<T> {
    type V = Seq<(T, Serial)>;

    closed spec fn view(&self) -> Seq<(T, Serial)> {
        self.storage@
    }
}

/// Elements of `s` selected by `keep`, in order.
pub open spec fn select<T>(s: Seq<T>, keep: Seq<bool>) -> Seq<T>
    decreases s.len(),
{
    if s.len() == 0 {
        Seq::empty()
    } else {
        let rest = select(s.drop_last(), keep);
        if keep[s.len() - 1] {
            rest.push(s.last())
        } else {
            rest
        }
    }
}

/// Pointwise negation of a sequence of booleans.
pub open spec fn negate(keep: Seq<bool>) -> Seq<bool> {
    Seq::new(keep.len(), |i: int| !keep[i])
}

proof fn lemma_select_push<T>(s: Seq<T>, keep: Seq<bool>, x: T, b: bool)
    requires
        keep.len() == s.len() + 1,
        keep[s.len() as int] == b,
    ensures
        select(s.push(x), keep) == if b { select(s, keep).push(x) } else { select(s, keep) },
{
    assert(s.push(x).drop_last() =~= s);
}

proof fn lemma_select_prefix<T>(s: Seq<T>, keep: Seq<bool>, keep2: Seq<bool>)
    requires
        keep.len() >= s.len(),
        keep2.len() >= s.len(),
        forall|i: int| 0 <= i < s.len() ==> keep[i] == keep2[i],
    ensures
        select(s, keep) == select(s, keep2),
    decreases s.len(),
{
    if s.len() > 0 {
        lemma_select_prefix(s.drop_last(), keep, keep2);
    }
}

/// Selecting by a predicate's values is filtering by that predicate.
proof fn lemma_select_is_filter<T>(s: Seq<T>, keep: Seq<bool>, p: spec_fn(T) -> bool)
    requires
        keep.len() == s.len(),
        forall|i: int| 0 <= i < s.len() ==> keep[i] == p(s[i]),
    ensures
        select(s, keep) == s.filter(p),
    decreases s.len(),
{
    reveal_with_fuel(Seq::filter, 1);
    if s.len() > 0 {
        let k2 = keep.drop_last();
        lemma_select_prefix(s.drop_last(), keep, k2);
        lemma_select_is_filter(s.drop_last(), k2, p);
    }
}

fn reversed<T>(v: Vec<T>) -> (r: Vec<T>)
    ensures
        r@ == v@.reverse(),
{
    let mut src = v;
    let mut out: Vec<T> = Vec::new();
    let ghost orig = src@;
    while src.len() > 0
        invariant
            src@ == orig.subrange(0, src@.len() as int),
            out@.len() + src@.len() == orig.len(),
            forall|i: int| 0 <= i < out@.len() ==> out@[i] == orig[orig.len() - 1 - i],
        decreases src@.len(),
    {
        let x = src.pop().unwrap();
        out.push(x);
    }
    assert(out@ =~= orig.reverse());
    out
}

/// Removes from `this` every element for which `filter` answers true, and
/// returns them in their original order; the other elements stay in `this`,
/// also in order. The predicate is asked once per element, front to back.
pub fn drain_filter<T, F: Fn(&T) -> bool>(this: &mut Vec<T>, filter: F) -> (removed: Vec<T>)
    requires
        forall|x: &T| #[trigger] filter.requires((x,)),
    ensures
        exists|keep: Seq<bool>|
            {
                &&& keep.len() == old(this)@.len()
                &&& forall|i: int|
                    0 <= i < keep.len() ==> filter.ensures((&old(this)@[i],), #[trigger] keep[i])
                &&& removed@ == select(old(this)@, keep)
                &&& final(this)@ == select(old(this)@, negate(keep))
            },
{
    let ghost orig = this@;
    let mut taken: Vec<T> = Vec::new();
    std::mem::swap(this, &mut taken);
    let mut rest = reversed(taken);
    let mut removed: Vec<T> = Vec::new();
    let mut kept: Vec<T> = Vec::new();
    let ghost mut keep: Seq<bool> = Seq::empty();
    while rest.len() > 0
        invariant
            forall|x: &T| #[trigger] filter.requires((x,)),
            keep.len() + rest@.len() == orig.len(),
            forall|i: int| 0 <= i < rest@.len() ==> rest@[i] == orig[orig.len() - 1 - i],
            forall|i: int|
                0 <= i < keep.len() ==> filter.ensures((&orig[i],), #[trigger] keep[i]),
            removed@ == select(orig.subrange(0, keep.len() as int), keep),
            kept@ == select(orig.subrange(0, keep.len() as int), negate(keep)),
        decreases rest@.len(),
    {
        let ghost k = keep.len() as int;
        let x = rest.pop().unwrap();
        assert(x == orig[k]);
        let b = filter(&x);
        proof {
            let pre = orig.subrange(0, k);
            assert(orig.subrange(0, k + 1) =~= pre.push(orig[k]));
            let nk = keep.push(b);
            lemma_select_prefix(pre, keep, nk);
            lemma_select_prefix(pre, negate(keep), negate(nk));
            lemma_select_push(pre, nk, orig[k], b);
            lemma_select_push(pre, negate(nk), orig[k], !b);
            keep = nk;
        }
        if b {
            removed.push(x);
        } else {
            kept.push(x);
        }
    }
    assert(orig.subrange(0, orig.len() as int) =~= orig);
    *this = kept;
    removed
}

impl<T> SerialQueue<T> {
    /// The queue's entries are ordered by serial.
    pub open spec fn wf(&self) -> bool {
        sorted_by_serial(self@)
    }

    pub fn new() -> (r: SerialQueue<T>)
        ensures
            r@ == Seq::<(T, Serial)>::empty(),
            r.wf(),
    {
        SerialQueue { storage: Vec::new() }
    }

    /// Adds `value`, to be released once `serial` has completed.
    /// The serial may not be below the serial of the last entry.
    pub fn enqueue(&mut self, value: T, serial: Serial)
        requires
            old(self)@.len() == 0 || old(self)@.last().1.0 <= serial.0,
            old(self).wf(),
        ensures
            final(self)@ == old(self)@.push((value, serial)),
            final(self).wf(),
    {
        self.storage.push((value, serial));
    }

    /// The entries whose serial is at most `serial`, in queue order.
    pub fn iter_up_to(&self, serial: Serial) -> (r: &[(T, Serial)])
        requires
            self.wf(),
        ensures
            r@ == self@.filter(due(serial)),
            r@ == self@.take(count_due(self@, serial) as int),
    {
        let k = self.count_up_to(serial);
        let (head, _) = self.storage.as_slice().split_at(k);
        proof {
            self.lemma_filter_is_prefix(serial);
        }
        head
    }

    fn count_up_to(&self, serial: Serial) -> (k: usize)
        requires
            self.wf(),
        ensures
            k == count_due(self@, serial),
            k <= self@.len(),
    {
        let mut k: usize = 0;
        proof { self.lemma_count_due_prefix(serial); }
        while k < self.storage.len() && self.storage[k].1.0 <= serial.0
            invariant
                k <= self@.len(),
                self.wf(),
                forall|i: int| 0 <= i < k ==> self@[i].1.0 <= serial.0,
                self@.len() == self.storage@.len(),
                self@ == self.storage@,
            decreases self@.len() - k,
        {
            k = k + 1;
        }
        proof {
            self.lemma_count_due_prefix(serial);
            let c = count_due(self@, serial) as int;
            if (k as int) < c {
                assert(self@[k as int].1.0 <= serial.0);
            }
            if (k as int) > c {
                assert(self@[c].1.0 <= serial.0);
            }
        }
        k
    }

    /// In a sorted queue the due entries form a prefix of length `count_due`.
    proof fn lemma_count_due_prefix(&self, serial: Serial)
        requires
            self.wf(),
        ensures
            count_due(self@, serial) <= self@.len(),
            forall|i: int| 0 <= i < count_due(self@, serial) ==> self@[i].1.0 <= serial.0,
            forall|i: int| count_due(self@, serial) <= i < self@.len() ==> self@[i].1.0 > serial.0,
    {
        lemma_count_due_sorted(self@, serial);
    }

    proof fn lemma_filter_is_prefix(&self, serial: Serial)
        requires
            self.wf(),
        ensures
            self@.filter(due(serial)) == self@.take(count_due(self@, serial) as int),
    {
        lemma_sorted_filter_is_prefix(self@, serial);
    }

    /// Removes and returns the entries whose serial is at most `serial`,
    /// in queue order. The remaining entries keep their order.
    pub fn drain_up_to(&mut self, serial: Serial) -> (r: Vec<(T, Serial)>)
        requires
            old(self).wf(),
        ensures
            r@ == old(self)@.filter(due(serial)),
            r@ == old(self)@.take(count_due(old(self)@, serial) as int),
            final(self)@ == old(self)@.skip(count_due(old(self)@, serial) as int),
            final(self).wf(),
    {
        let ghost old_s = self@;
        let removed = drain_filter(&mut self.storage, |e: &(T, Serial)| -> (b: bool)
            ensures
                b == (e.1.0 <= serial.0),
            { e.1.0 <= serial.0 });
        proof {
            let keep = choose|keep: Seq<bool>|
                {
                    &&& keep.len() == old_s.len()
                    &&& forall|i: int|
                        0 <= i < keep.len() ==> #[trigger] keep[i] == (old_s[i].1.0 <= serial.0)
                    &&& removed@ == select(old_s, keep)
                    &&& self@ == select(old_s, negate(keep))
                };
            lemma_select_is_filter(old_s, keep, due(serial));
            let nd = |e: (T, Serial)| !(e.1.0 <= serial.0);
            lemma_select_is_filter(old_s, negate(keep), nd);
            lemma_sorted_filter_is_prefix(old_s, serial);
            lemma_sorted_filter_not_due_is_suffix(old_s, serial);
        }
        removed
    }

    /// Removes and returns the entries at positions `start..end`.
    pub fn drain(&mut self, start: usize, end: usize) -> (r: Vec<(T, Serial)>)
        requires
            old(self).wf(),
            start <= end <= old(self)@.len(),
        ensures
            r@ == old(self)@.subrange(start as int, end as int),
            final(self)@ == old(self)@.subrange(0, start as int) + old(self)@.subrange(
                end as int,
                old(self)@.len() as int,
            ),
            final(self).wf(),
    {
        let ghost old_s = self@;
        let mut tail = self.storage.split_off(end);
        let middle = self.storage.split_off(start);
        self.storage.append(&mut tail);
        proof {
            assert forall|i: int, j: int| 0 <= i <= j < self@.len() implies self@[i].1.0 <= self@[j].1.0 by {
                let oi = if i < start { i } else { i + (end - start) };
                let oj = if j < start { j } else { j + (end - start) };
                assert(self@[i] == old_s[oi]);
                assert(self@[j] == old_s[oj]);
            }
        }
        middle
    }

    pub fn is_empty(&self) -> (r: bool)
        ensures
            r == (self@.len() == 0),
    {
        self.len() == 0
    }

    pub fn len(&self) -> (r: usize)
        ensures
            r == self@.len(),
    {
        self.storage.len()
    }

    pub fn first(&self) -> (r: Option<&(T, Serial)>)
        ensures
            self@.len() == 0 ==> r.is_none(),
            self@.len() > 0 ==> r.is_some() && *r.unwrap() == self@[0],
    {
        self.storage.as_slice().first()
    }

    /// All entries, in queue order.
    pub fn iter(&self) -> (r: &[(T, Serial)])
        ensures
            r@ == self@,
    {
        self.storage.as_slice()
    }
}

pub proof fn lemma_count_due_sorted<T>(s: Seq<(T, Serial)>, serial: Serial)
    requires
        sorted_by_serial(s),
    ensures
        count_due(s, serial) <= s.len(),
        forall|i: int| 0 <= i < count_due(s, serial) ==> s[i].1.0 <= serial.0,
        forall|i: int| count_due(s, serial) <= i < s.len() ==> s[i].1.0 > serial.0,
    decreases s.len(),
{
    if s.len() > 0 {
        let t = s.drop_first();
        assert(sorted_by_serial(t)) by {
            assert forall|i: int, j: int| 0 <= i <= j < t.len() implies t[i].1.0 <= t[j].1.0 by {
                assert(t[i] == s[i + 1]);
                assert(t[j] == s[j + 1]);
            }
        }
        lemma_count_due_sorted(t, serial);
        if s[0].1.0 <= serial.0 {
            assert forall|i: int| 0 <= i < count_due(s, serial) implies s[i].1.0 <= serial.0 by {
                if i > 0 {
                    assert(s[i] == t[i - 1]);
                }
            }
            assert forall|i: int| count_due(s, serial) <= i < s.len() implies s[i].1.0 > serial.0 by {
                assert(s[i] == t[i - 1]);
            }
        } else {
            assert forall|i: int| 0 <= i < s.len() implies s[i].1.0 > serial.0 by {
                assert(s[0].1.0 <= s[i].1.0);
            }
        }
    }
}

proof fn lemma_filter_all<T>(s: Seq<T>, p: spec_fn(T) -> bool)
    requires
        forall|i: int| 0 <= i < s.len() ==> p(s[i]),
    ensures
        s.filter(p) == s,
    decreases s.len(),
{
    reveal_with_fuel(Seq::filter, 1);
    if s.len() > 0 {
        lemma_filter_all(s.drop_last(), p);
        assert(s.drop_last().push(s.last()) =~= s);
    }
}

proof fn lemma_filter_none<T>(s: Seq<T>, p: spec_fn(T) -> bool)
    requires
        forall|i: int| 0 <= i < s.len() ==> !p(s[i]),
    ensures
        s.filter(p) == Seq::<T>::empty(),
    decreases s.len(),
{
    reveal_with_fuel(Seq::filter, 1);
    if s.len() > 0 {
        lemma_filter_none(s.drop_last(), p);
    }
}

/// Filtering a split sequence is filtering each part.
proof fn lemma_filter_append<T>(a: Seq<T>, b: Seq<T>, p: spec_fn(T) -> bool)
    ensures
        (a + b).filter(p) == a.filter(p) + b.filter(p),
    decreases b.len(),
{
    reveal_with_fuel(Seq::filter, 1);
    if b.len() == 0 {
        assert(a + b =~= a);
        assert(a.filter(p) + b.filter(p) =~= a.filter(p));
    } else {
        lemma_filter_append(a, b.drop_last(), p);
        assert((a + b).drop_last() =~= a + b.drop_last());
        assert((a + b).last() == b.last());
        if p(b.last()) {
            assert(a.filter(p) + b.drop_last().filter(p).push(b.last()) =~= (a.filter(p)
                + b.drop_last().filter(p)).push(b.last()));
        }
    }
}

/// In a sorted queue, the due entries are exactly its first `count_due` entries.
pub proof fn lemma_sorted_filter_is_prefix<T>(s: Seq<(T, Serial)>, serial: Serial)
    requires
        sorted_by_serial(s),
    ensures
        s.filter(due(serial)) == s.take(count_due(s, serial) as int),
{
    lemma_count_due_sorted(s, serial);
    let k = count_due(s, serial) as int;
    let p = due::<T>(serial);
    assert(s =~= s.take(k) + s.skip(k));
    lemma_filter_append(s.take(k), s.skip(k), p);
    lemma_filter_all(s.take(k), p);
    lemma_filter_none(s.skip(k), p);
    assert(s.take(k) + Seq::<(T, Serial)>::empty() =~= s.take(k));
}

proof fn lemma_sorted_filter_not_due_is_suffix<T>(s: Seq<(T, Serial)>, serial: Serial)
    requires
        sorted_by_serial(s),
    ensures
        s.filter(|e: (T, Serial)| !(e.1.0 <= serial.0)) == s.skip(count_due(s, serial) as int),
        sorted_by_serial(s.skip(count_due(s, serial) as int)),
{
    lemma_count_due_sorted(s, serial);
    let k = count_due(s, serial) as int;
    let p = |e: (T, Serial)| !(e.1.0 <= serial.0);
    assert(s =~= s.take(k) + s.skip(k));
    lemma_filter_append(s.take(k), s.skip(k), p);
    lemma_filter_none(s.take(k), p);
    lemma_filter_all(s.skip(k), p);
    assert(Seq::<(T, Serial)>::empty() + s.skip(k) =~= s.skip(k));
    let t = s.skip(k);
    assert forall|i: int, j: int| 0 <= i <= j < t.len() implies t[i].1.0 <= t[j].1.0 by {
        assert(t[i] == s[i + k]);
        assert(t[j] == s[j + k]);
    }
}

/// Draining a queue up to a serial splits it in two: the entries handed out,
/// whose serials are all at most that serial, and the entries that stay,
/// whose serials are all greater and which stay ordered; handed out followed
/// by kept is the queue as it was.
pub proof fn lemma_drain_up_to_partition<T>(s: Seq<(T, Serial)>, serial: Serial)
    requires
        sorted_by_serial(s),
    ensures
        count_due(s, serial) <= s.len(),
        s.take(count_due(s, serial) as int) + s.skip(count_due(s, serial) as int) == s,
        forall|i: int| 0 <= i < count_due(s, serial) ==> #[trigger] s[i].1.0 <= serial.0,
        forall|i: int|
            0 <= i < s.len() - count_due(s, serial) ==> #[trigger] s.skip(
                count_due(s, serial) as int,
            )[i].1.0 > serial.0,
        sorted_by_serial(s.skip(count_due(s, serial) as int)),
{
    lemma_count_due_sorted(s, serial);
    lemma_sorted_filter_not_due_is_suffix(s, serial);
    let k = count_due(s, serial) as int;
    assert(s.take(k) + s.skip(k) =~= s);
    assert forall|i: int| 0 <= i < s.len() - k implies #[trigger] s.skip(k)[i].1.0 > serial.0 by {
        assert(s.skip(k)[i] == s[i + k]);
    }
}

} // verus!
