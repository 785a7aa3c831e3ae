//! The tables that decouple hardware sampling and writing threads from the
//! callers of the channels.
use vstd::prelude::*;

use crate::io::util::{first_key_at, key_eq_is_equality, key_index, PairMap};

verus! {

proof fn lemma_usize_eq()
    ensures
        key_eq_is_equality::<usize>(),
{
}

/// Positions of `a` and `b` hold the same keys.
pub open spec fn same_keys<K, V, W>(a: Seq<(K, V)>, b: Seq<(K, W)>) -> bool {
    &&& a.len() == b.len()
    &&& forall|j: int| 0 <= j < a.len() ==> (#[trigger] a[j]).0 == b[j].0
}

proof fn lemma_key_index_same_keys<K, V, W>(a: Seq<(K, V)>, b: Seq<(K, W)>, k: K)
    requires
        same_keys(a, b),
    ensures
        key_index(a, k) == key_index(b, k),
{
    if exists|i: int| first_key_at(a, k, i) {
        let i = choose|i: int| first_key_at(a, k, i);
        assert forall|j: int| 0 <= j < i implies (#[trigger] b[j]).0 != k by {
            assert(a[j].0 == b[j].0);
        }
        assert(first_key_at(b, k, i));
        crate::io::util::lemma_first_key_unique(a, k, i);
        crate::io::util::lemma_first_key_unique(b, k, i);
    } else if exists|i: int| first_key_at(b, k, i) {
        let i = choose|i: int| first_key_at(b, k, i);
        assert forall|j: int| 0 <= j < i implies (#[trigger] a[j]).0 != k by {
            assert(a[j].0 == b[j].0);
        }
        assert(first_key_at(a, k, i));
    }
}

/// The latest reading of each registered channel; `None` until the first sweep.
pub struct SampleTable<T> {
    pub values: PairMap<usize, Option<T>>,
}

impl<T: Copy> SampleTable<T> {
    /// What a read of `index` returns: the latest reading, else `default`.
    pub open spec fn read_spec(&self, index: usize, default: T) -> T {
        match self.values.lookup(index) {
            Some(Some(v)) => v,
            _ => default,
        }
    }

    /// What one sweep with `readings` (indexed by hardware channel) makes of
    /// the table `self`: every registered channel that the hardware has gets
    /// its reading; nothing else changes.
    pub open spec fn sweep_post(&self, after: &Self, readings: Seq<T>) -> bool {
        &&& same_keys(self.values.pairs@, after.values.pairs@)
        &&& forall|j: int|
            0 <= j < self.values.pairs@.len() ==> (#[trigger] after.values.pairs@[j]).1 == if (
            self.values.pairs@[j].0 as int) < readings.len() {
                Some(readings[self.values.pairs@[j].0 as int])
            } else {
                self.values.pairs@[j].1
            }
    }

    pub fn new() -> (r: Self)
        ensures
            r.values.pairs@.len() == 0,
            r.values.wf(),
    {
        SampleTable { values: PairMap::new() }
    }

    /// Adds channel `index` to the sweep; until the next sweep it reads as the default.
    pub fn register(&mut self, index: usize)
        ensures
            final(self).values.lookup(index) == Some(None::<T>),
            key_index(old(self).values.pairs@, index) >= 0 ==> final(self).values.pairs@ == old(
                self,
            ).values.pairs@.update(key_index(old(self).values.pairs@, index), (index, None)),
            key_index(old(self).values.pairs@, index) < 0 ==> final(self).values.pairs@ == old(
                self,
            ).values.pairs@.push((index, None)),
            old(self).values.wf() ==> final(self).values.wf(),
    {
        proof {
            lemma_usize_eq();
        }
        self.values.set(index, None);
    }

    /// The latest reading of `index`, or `default` where none was taken yet.
    pub fn read_or(&self, index: usize, default: T) -> (r: T)
        ensures
            r == self.read_spec(index, default),
    {
        proof {
            lemma_usize_eq();
        }
        match self.values.get(index) {
            Some(Some(v)) => *v,
            _ => default,
        }
    }

    /// One sweep: stores `readings[index]` for every registered `index` that
    /// the hardware has.
    pub fn sweep(&mut self, readings: &Vec<T>)
        ensures
            old(self).sweep_post(final(self), readings@),
            old(self).values.wf() ==> final(self).values.wf(),
    {
        let n = self.values.pairs.len();
        let mut j: usize = 0;
        while j < n
            invariant
                j <= n == self.values.pairs@.len() == old(self).values.pairs@.len(),
                same_keys(old(self).values.pairs@, self.values.pairs@),
                forall|q: int|
                    0 <= q < n ==> (#[trigger] self.values.pairs@[q]).1 == if q < j && (
                    old(self).values.pairs@[q].0 as int) < readings@.len() {
                        Some(readings@[old(self).values.pairs@[q].0 as int])
                    } else {
                        old(self).values.pairs@[q].1
                    },
            decreases n - j,
        {
            let key = self.values.pairs[j].0;
            if key < readings.len() {
                let v = readings[key];
                self.values.pairs.set(j, (key, Some(v)));
            }
            j = j + 1;
        }
        proof {
            let a = old(self).values.pairs@;
            let b = self.values.pairs@;
            assert forall|p: int, q: int|
                0 <= p < q < b.len() && old(self).values.wf() implies (#[trigger] b[p]).0 != (
                #[trigger] b[q]).0 by {
                assert(a[p].0 == b[p].0 && a[q].0 == b[q].0);
            }
        }
    }
}

/// Sampler liveness: right after channel `index` is registered a read gives
/// the default; after a sweep in which the hardware reported `readings`,
/// a read gives the reading of `index`.
pub proof fn lemma_sample_liveness<T: Copy>(
    t1: SampleTable<T>,
    t2: SampleTable<T>,
    index: usize,
    default: T,
    readings: Seq<T>,
)
    requires
        t1.values.lookup(index) == Some(None::<T>),
        t1.sweep_post(&t2, readings),
        index < readings.len(),
    ensures
        t1.read_spec(index, default) == default,
        t2.read_spec(index, default) == readings[index as int],
{
    let a = t1.values.pairs@;
    let b = t2.values.pairs@;
    lemma_key_index_same_keys(a, b, index);
    let i = key_index(a, index);
    assert(i >= 0);
    if exists|c: int| first_key_at(a, index, c) {
        let c = choose|c: int| first_key_at(a, index, c);
        assert(a[c].0 == index);
    }
    assert(b[i].1 == Some(readings[a[i].0 as int]));
}

/// Values waiting to be written to hardware, at most one per channel.
pub struct PendingWrites<T> {
    pub values: PairMap<usize, Option<T>>,
}

/// The pending `(channel, value)` pairs of `s`, in order.
pub open spec fn pending_of<T>(s: Seq<(usize, Option<T>)>) -> Seq<(usize, T)>
    decreases s.len(),
{
    if s.len() == 0 {
        seq![]
    } else {
        let prev = pending_of(s.drop_last());
        match s.last().1 {
            Some(v) => prev.push((s.last().0, v)),
            None => prev,
        }
    }
}

impl<T: Copy> PendingWrites<T> {
    pub fn new() -> (r: Self)
        ensures
            r.values.pairs@.len() == 0,
            r.values.wf(),
    {
        PendingWrites { values: PairMap::new() }
    }

    /// Queues `value` for channel `index`, replacing a value still pending for it.
    pub fn write(&mut self, index: usize, value: T)
        ensures
            final(self).values.lookup(index) == Some(Some(value)),
            key_index(old(self).values.pairs@, index) >= 0 ==> final(self).values.pairs@ == old(
                self,
            ).values.pairs@.update(key_index(old(self).values.pairs@, index), (index, Some(value))),
            key_index(old(self).values.pairs@, index) < 0 ==> final(self).values.pairs@ == old(
                self,
            ).values.pairs@.push((index, Some(value))),
            old(self).values.wf() ==> final(self).values.wf(),
    {
        proof {
            lemma_usize_eq();
        }
        self.values.set(index, Some(value));
    }

    /// Hands out every pending value in order and clears them.
    pub fn take_pending(&mut self) -> (r: Vec<(usize, T)>)
        ensures
            r@ == pending_of(old(self).values.pairs@),
            same_keys(old(self).values.pairs@, final(self).values.pairs@),
            forall|j: int|
                0 <= j < final(self).values.pairs@.len() ==> (
                #[trigger] final(self).values.pairs@[j]).1 is None,
            old(self).values.wf() ==> final(self).values.wf(),
    {
        let n = self.values.pairs.len();
        let mut out: Vec<(usize, T)> = Vec::new();
        let mut j: usize = 0;
        while j < n
            invariant
                j <= n == self.values.pairs@.len() == old(self).values.pairs@.len(),
                same_keys(old(self).values.pairs@, self.values.pairs@),
                forall|q: int|
                    0 <= q < n ==> (#[trigger] self.values.pairs@[q]).1 == if q < j {
                        None
                    } else {
                        old(self).values.pairs@[q].1
                    },
                out@ == pending_of(old(self).values.pairs@.take(j as int)),
            decreases n - j,
        {
            let key = self.values.pairs[j].0;
            let ghost prev = old(self).values.pairs@;
            assert(prev.take(j + 1).drop_last() =~= prev.take(j as int));
            match self.values.pairs[j].1 {
                Some(v) => {
                    out.push((key, v));
                },
                None => {},
            }
            self.values.pairs.set(j, (key, None));
            j = j + 1;
        }
        assert(old(self).values.pairs@.take(n as int) =~= old(self).values.pairs@);
        proof {
            let a = old(self).values.pairs@;
            let b = self.values.pairs@;
            assert forall|p: int, q: int|
                0 <= p < q < b.len() && old(self).values.wf() implies (#[trigger] b[p]).0 != (
                #[trigger] b[q]).0 by {
                assert(a[p].0 == b[p].0 && a[q].0 == b[q].0);
            }
        }
        out
    }
}

} // verus!
