//! A bounded store of recent samples (such as response times), where a new
//! sample overwrites the oldest once the store is full, and samples may be
//! limited to one per interval.
use vstd::prelude::*;

use crate::do_on_interval::{DoOnInterval, UpdateOnCheck};

verus! {

/// The sum of the samples.
pub open spec fn seq_sum(s: Seq<u64>) -> int
    decreases s.len(),
{
    if s.len() == 0 {
        0
    } else {
        seq_sum(s.drop_last()) + s.last()
    }
}

/// Up to `N` recent samples. Once `N` are held, each new sample overwrites
/// the oldest. With a timer, a sample is kept only once its interval has
/// passed since the last kept one; the first sample is always kept.
#[derive(Debug)]
pub struct MemoryTimedCacher<T, const N: usize> {
    /// The samples, in storage order.
    data: Vec<T>,
    /// The slot that the next sample overwrites once the store is full.
    index: usize,
    /// Limits how often samples are kept.
    timer: Option<DoOnInterval<UpdateOnCheck>>,
}

impl<T, const N: usize> MemoryTimedCacher<T, N> {
    /// At most `N` samples are held; until the store is full new samples are
    /// appended, and once full the slot to overwrite holds the oldest.
    #[verifier::type_invariant]
    closed spec fn well_formed(&self) -> bool {
        &&& self.data@.len() <= N
        &&& (self.index == 0 || self.index < N)
        &&& (self.data@.len() < N ==> self.index == 0)
    }

    /// The samples held, oldest first.
    pub closed spec fn samples(&self) -> Seq<T> {
        self.data@.subrange(self.index as int, self.data@.len() as int) + self.data@.subrange(0, self.index as int)
    }

    /// The timer, as when last done, gap and outstanding updater.
    pub closed spec fn timer_view(&self) -> Option<(Option<u64>, u64, bool)> {
        match self.timer {
            Some(t) => Some(t@),
            None => None,
        }
    }

    /// Whether a sample offered at `now` is kept.
    pub open spec fn accepts_at(&self, now: u64) -> bool {
        self.samples().len() == 0 || match self.timer_view() {
            None => true,
            Some(t) => crate::do_on_interval::interval_elapsed(t.0, t.1, now),
        }
    }

    /// An empty store, limited by `t` if given.
    pub fn new(t: Option<DoOnInterval<UpdateOnCheck>>) -> (r: Self)
        ensures
            r.samples().len() == 0,
            r.timer_view() == (match t {
                Some(d) => Some(d@),
                None => None::<(Option<u64>, u64, bool)>,
            }),
    {
        MemoryTimedCacher { data: Vec::new(), index: 0, timer: t }
    }

    /// Whether no sample is held.
    pub fn is_empty(&self) -> (r: bool)
        ensures
            r == (self.samples().len() == 0),
    {
        proof {
            use_type_invariant(self);
        }
        self.data.len() == 0
    }

    /// Offers a sample at time `now`. If it is kept, it becomes the newest
    /// sample, and once `N` are held the oldest is dropped; the timer then
    /// restarts at `now`.
    pub fn add(&mut self, t: T, now: u64)
        requires
            N > 0,
        ensures
            old(self).accepts_at(now) ==> {
                &&& final(self).samples() == (if old(self).samples().len() < N {
                    old(self).samples().push(t)
                } else {
                    old(self).samples().drop_first().push(t)
                })
                &&& final(self).timer_view() == (match old(self).timer_view() {
                    Some(v) => Some((Some(now), v.1, v.2)),
                    None => None::<(Option<u64>, u64, bool)>,
                })
            },
            !old(self).accepts_at(now) ==> final(self).samples() == old(self).samples()
                && final(self).timer_view() == old(self).timer_view(),
    {
        proof {
            use_type_invariant(&*self);
        }
        let ghost d = self.data@;
        let ghost i = self.index as int;
        let mut timer = None;
        std::mem::swap(&mut self.timer, &mut timer);
        let can = if self.data.len() == 0 {
            true
        } else {
            match &mut timer {
                Some(timer) => timer.can_do(now),
                None => true,
            }
        };
        if can {
            let k = self.index;
            self.index = 0;
            let mut data = Vec::new();
            std::mem::swap(&mut self.data, &mut data);
            let next = if data.len() < N {
                data.push(t);
                assert(data@.subrange(0, data@.len() as int) =~= d.push(t));
                assert(d.subrange(0, d.len() as int) =~= d);
                0
            } else {
                data.set(k, t);
                let j: usize = if k + 1 == N { 0 } else { k + 1 };
                assert(data@.subrange(j as int, N as int) + data@.subrange(0, j as int) =~= (d.subrange(i, N as int) + d.subrange(0, i)).drop_first().push(t));
                j
            };
            self.data = data;
            self.index = next;
            match &mut timer {
                Some(timer) => timer.update_timer(now),
                None => {},
            }
        }
        self.timer = timer;
    }
}

impl<T: Copy, const N: usize> MemoryTimedCacher<T, N> {
    /// A copy of the samples held, oldest first.
    pub fn get_all(&self) -> (r: Vec<T>)
        ensures
            r@ == self.samples(),
    {
        proof {
            use_type_invariant(self);
        }
        let n = self.data.len();
        let start = if self.index < n { self.index } else { 0 };
        assert(start == self.index);
        let mut v: Vec<T> = Vec::with_capacity(n);
        let mut k: usize = 0;
        while k < n
            invariant
                n == self.data@.len(),
                start == self.index,
                start <= n,
                k <= n,
                start == 0 || start < n,
                v@ == self.samples().take(k as int),
                self.samples().len() == n,
            decreases n - k,
        {
            let pos = if k < n - start { start + k } else { k - (n - start) };
            v.push(self.data[pos]);
            k += 1;
            assert(v@ =~= self.samples().take(k as int));
        }
        assert(self.samples().take(n as int) =~= self.samples());
        v
    }
}

impl<const N: usize> MemoryTimedCacher<u64, N> {
    /// The mean of the samples, rounded down; zero when there are none.
    pub fn average_u64(&self) -> (r: u64)
        ensures
            self.samples().len() == 0 ==> r == 0,
            self.samples().len() > 0 ==> r == seq_sum(self.samples()) / (self.samples().len() as int),
    {
        let all = self.get_all();
        let n = all.len();
        if n == 0 {
            return 0;
        }
        let mut total: u128 = 0;
        let mut i: usize = 0;
        while i < n
            invariant
                n == all@.len(),
                i <= n,
                total == seq_sum(all@.take(i as int)),
                total <= i * 0xFFFF_FFFF_FFFF_FFFFu128,
            decreases n - i,
        {
            assert(all@.take(i as int + 1).drop_last() =~= all@.take(i as int));
            let x = all[i];
            assert(total + x <= (i + 1) * 0xFFFF_FFFF_FFFF_FFFFu128) by (nonlinear_arith)
                requires
                    total <= i * 0xFFFF_FFFF_FFFF_FFFFu128,
                    x <= 0xFFFF_FFFF_FFFF_FFFFu64,
            ;
            assert(i < 0x1_0000_0000_0000_0000u128);
            assert((i + 1) * 0xFFFF_FFFF_FFFF_FFFFu128 <= 0x1_0000_0000_0000_0000u128 * 0xFFFF_FFFF_FFFF_FFFFu128) by (nonlinear_arith)
                requires
                    i + 1 <= 0x1_0000_0000_0000_0000u128,
            ;
            total = total + x as u128;
            i += 1;
        }
        assert(all@.take(n as int) =~= all@);
        assert(total / (n as u128) <= 0xFFFF_FFFF_FFFF_FFFFu128) by (nonlinear_arith)
            requires
                total <= n * 0xFFFF_FFFF_FFFF_FFFFu128,
                n >= 1,
        ;
        (total / (n as u128)) as u64
    }
}

impl<T, const N: usize> Default for MemoryTimedCacher<T, N> {
    fn default() -> (r: Self)
        ensures
            r.samples().len() == 0,
            r.timer_view() == Some((None::<u64>, 50u64, false)),
    {
        MemoryTimedCacher::new(Some(DoOnInterval::new(50)))
    }
}

} // verus!
