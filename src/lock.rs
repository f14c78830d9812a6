//! Locks for early multi-CPU boot: a spinlock on one word and Lamport's
//! bakery lock.
//!
//! Both hand out a guard that releases the lock when dropped. The contracts
//! here read each operation as the calling CPU's steps on the shared state:
//! `lock` returns once the state lets the CPU in, and its `requires` is the
//! state in which it does so without waiting for another CPU. `lock_model`
//! interleaves the steps of all CPUs and proves mutual exclusion there.
use vstd::prelude::*;
use crate::memmap::NUM_CPU;

verus! {

/// A spinlock word: 0 when free, nonzero when held.
pub struct LockVar {
    var: u64,
}

/// Holds the spinlock of a `LockVar` until dropped.
pub struct SpinLock<'a> {
    lock: &'a mut u64,
}

/// The word after one exclusive load/store of 1, and whether the load saw
/// the lock free.
pub open spec fn acquire_step(v: u64) -> (u64, bool) {
    (1, v & 1 == 0)
}

/// Atomically stores 1 and returns whether the word was free before.
fn test_and_set(n: &mut u64) -> (r: bool)
    ensures
        (*final(n), r) == acquire_step(*old(n)),
{
    let rd: u64 = *n;
    *n = 1;
    rd & 1 == 0
}

impl LockVar {
    /// The value of the word.
    pub closed spec fn value(&self) -> u64 {
        self.var
    }

    /// A free lock.
    pub fn new() -> (r: LockVar)
        ensures
            r.value() == 0,
    {
        LockVar { var: 0 }
    }

    /// Whether the lock is held.
    pub fn is_locked(&self) -> (r: bool)
        ensures
            r == (self.value() != 0),
    {
        self.var != 0
    }

    /// Acquires the lock; it is released when the guard is dropped. The
    /// word must be free: with the word borrowed here, only another CPU
    /// could release it.
    pub fn lock(&mut self) -> (r: SpinLock<'_>)
        requires
            old(self).value() == 0,
        ensures
            r.word() == 1,
    {
        SpinLock::new(&mut self.var)
    }
}

impl<'a> SpinLock<'a> {
    /// The value of the guarded word.
    pub closed spec fn word(&self) -> u64 {
        *self.lock
    }

    fn new(n: &'a mut u64) -> (r: SpinLock<'a>)
        requires
            *old(n) == 0,
        ensures
            r.word() == 1,
    {
        assert(0u64 & 1u64 == 0u64) by (bit_vector);
        loop
            invariant
                *n == 0,
                0u64 & 1u64 == 0u64,
            decreases 1int,
        {
            if 0 == *n {
                if test_and_set(n) {
                    return SpinLock { lock: n };
                }
            }
        }
    }
}

impl<'a> Drop for SpinLock<'a> {
    fn drop(&mut self)
        opens_invariants none
        no_unwind
    {
        *self.lock = 0;
    }
}

/// Once one CPU's exclusive load/store has taken the word, the next one
/// fails until the word is released.
pub proof fn lemma_spin_exclusion(v: u64)
    ensures
        acquire_step(v).1 ==> !acquire_step(acquire_step(v).0).1,
{
    assert(1u64 & 1u64 == 1u64) by (bit_vector);
}

/// The largest element of `s`, 0 when empty.
pub open spec fn seq_max(s: Seq<usize>) -> nat
    decreases s.len(),
{
    if s.len() == 0 {
        0
    } else {
        let m = seq_max(s.drop_last());
        if m < s.last() {
            s.last() as nat
        } else {
            m
        }
    }
}

/// Bakery tickets: per CPU, whether it is taking a number, and its number
/// (0 when it neither holds nor waits for the lock).
pub struct BakeryTicket {
    entering: [bool; 4],
    number: [usize; 4],
}

/// Holds a bakery lock until dropped.
pub struct BakeryLock<'a> {
    lock: &'a mut BakeryTicket,
    core: usize,
}

impl BakeryTicket {
    /// Per CPU, whether it is taking a number.
    pub closed spec fn entering_view(&self) -> Seq<bool> {
        self.entering@
    }

    /// Per CPU, its number.
    pub closed spec fn numbers(&self) -> Seq<usize> {
        self.number@
    }

    /// One slot per CPU.
    pub open spec fn wf(&self) -> bool {
        self.entering_view().len() == NUM_CPU && self.numbers().len() == NUM_CPU
    }

    /// Whether CPU `a` goes before CPU `b`: by number, then by index.
    pub open spec fn precedes(&self, a: int, b: int) -> bool {
        let na = self.numbers()[a];
        let nb = self.numbers()[b];
        na < nb || (na == nb && a < b)
    }

    /// Whether CPU `i` keeps CPU `core` waiting: it is taking a number, or
    /// holds one that goes first.
    pub open spec fn blocks(&self, i: int, core: int) -> bool {
        self.entering_view()[i] || (self.numbers()[i] != 0 && self.precedes(i, core))
    }

    /// Whether CPU `core` may enter: no CPU keeps it waiting.
    pub open spec fn may_enter_spec(&self, core: int) -> bool {
        forall|i: int| 0 <= i < NUM_CPU ==> !#[trigger] self.blocks(i, core)
    }

    /// No CPU holds a number or is taking one.
    pub open spec fn is_free(&self) -> bool {
        forall|i: int|
            0 <= i < NUM_CPU ==> !#[trigger] self.entering_view()[i] && self.numbers()[i] == 0
    }

    /// All tickets free.
    pub fn new() -> (r: BakeryTicket)
        ensures
            r.wf(),
            r.is_free(),
    {
        let r = BakeryTicket { entering: [false; 4], number: [0; 4] };
        assert(r.entering_view() =~= seq![false, false, false, false]);
        assert(r.numbers() =~= seq![0usize, 0, 0, 0]);
        r
    }

    /// The number of CPU `core`.
    pub fn number(&self, core: usize) -> (r: usize)
        requires
            self.wf(),
            core < NUM_CPU,
        ensures
            r == self.numbers()[core as int],
    {
        self.number[core]
    }

    /// The largest number held.
    fn max_number(&self) -> (r: usize)
        ensures
            r == seq_max(self.numbers()),
    {
        let mut max: usize = 0;
        let mut i: usize = 0;
        while i < 4
            invariant
                i <= self.number@.len(),
                max == seq_max(self.number@.take(i as int)),
            decreases self.number@.len() - i,
        {
            proof {
                assert(self.number@.take(i + 1).drop_last() =~= self.number@.take(i as int));
            }
            if max < self.number[i] {
                max = self.number[i];
            }
            i = i + 1;
        }
        proof {
            assert(self.number@.take(i as int) =~= self.number@);
        }
        max
    }

    /// CPU `core` takes a number one above every number held.
    pub fn take_ticket(&mut self, core: usize)
        requires
            old(self).wf(),
            core < NUM_CPU,
            seq_max(old(self).numbers()) < usize::MAX,
        ensures
            final(self).wf(),
            final(self).numbers() == old(self).numbers().update(
                core as int,
                (1 + seq_max(old(self).numbers())) as usize,
            ),
            final(self).entering_view() == old(self).entering_view().update(core as int, false),
    {
        self.entering[core] = true;
        let max = self.max_number();
        self.number[core] = 1 + max;
        self.entering[core] = false;
    }

    /// Whether CPU `core` may enter now.
    pub fn may_enter(&self, core: usize) -> (r: bool)
        requires
            self.wf(),
            core < NUM_CPU,
        ensures
            r == self.may_enter_spec(core as int),
    {
        let mut i: usize = 0;
        while i < 4
            invariant
                self.wf(),
                core < NUM_CPU,
                i <= NUM_CPU,
                forall|j: int| 0 <= j < i ==> !#[trigger] self.blocks(j, core as int),
            decreases NUM_CPU - i,
        {
            if self.blocks_exec(i, core) {
                return false;
            }
            i = i + 1;
        }
        true
    }

    /// Whether CPU `i` keeps CPU `core` waiting.
    fn blocks_exec(&self, i: usize, core: usize) -> (r: bool)
        requires
            self.wf(),
            i < NUM_CPU,
            core < NUM_CPU,
        ensures
            r == self.blocks(i as int, core as int),
    {
        self.entering[i] || (self.number[i] != 0 && (self.number[i] < self.number[core] || (
        self.number[i] == self.number[core] && i < core)))
    }

    /// CPU `core` gives its number back.
    pub fn release(&mut self, core: usize)
        requires
            old(self).wf(),
            core < NUM_CPU,
        ensures
            final(self).wf(),
            final(self).numbers() == old(self).numbers().update(core as int, 0),
            final(self).entering_view() == old(self).entering_view(),
    {
        self.number[core] = 0;
    }

    /// CPU `core` acquires the lock: it takes a number, then waits for each
    /// CPU that is taking a number or holds one that goes first. It is
    /// released when the guard is dropped.
    pub fn lock(&mut self, core: usize) -> (r: BakeryLock<'_>)
        requires
            old(self).wf(),
            core < NUM_CPU,
            forall|i: int| 0 <= i < NUM_CPU && i != core ==> !#[trigger] old(self).entering_view()[i],
            forall|i: int| 0 <= i < NUM_CPU && i != core ==> #[trigger] old(self).numbers()[i] == 0,
            old(self).numbers()[core as int] < usize::MAX,
        ensures
            r.core_id() == core,
            r.ticket().wf(),
            r.ticket().numbers() == old(self).numbers().update(
                core as int,
                (1 + seq_max(old(self).numbers())) as usize,
            ),
            r.ticket().entering_view() == old(self).entering_view().update(core as int, false),
            r.ticket().may_enter_spec(core as int),
    {
        proof {
            lemma_max_single(old(self).numbers(), core as int);
        }
        self.take_ticket(core);
        BakeryLock::new(self, core)
    }
}

/// When every element but the one at `k` is 0, the largest is that one.
proof fn lemma_max_single(s: Seq<usize>, k: int)
    requires
        0 <= k < s.len(),
        forall|i: int| 0 <= i < s.len() && i != k ==> s[i] == 0,
    ensures
        seq_max(s) == s[k],
    decreases s.len(),
{
    if s.len() > 1 {
        if k < s.len() - 1 {
            lemma_max_single(s.drop_last(), k);
        } else {
            lemma_max_zero(s.drop_last());
        }
    } else {
        lemma_max_zero(s.drop_last());
    }
}

/// The largest element of a sequence of zeros is 0.
proof fn lemma_max_zero(s: Seq<usize>)
    requires
        forall|i: int| 0 <= i < s.len() ==> s[i] == 0,
    ensures
        seq_max(s) == 0,
    decreases s.len(),
{
    if s.len() > 0 {
        lemma_max_zero(s.drop_last());
    }
}

impl<'a> BakeryLock<'a> {
    /// The CPU that holds the lock.
    pub closed spec fn core_id(&self) -> usize {
        self.core
    }

    /// The tickets while the lock is held.
    pub closed spec fn ticket(&self) -> BakeryTicket {
        *self.lock
    }

    fn new(t: &'a mut BakeryTicket, core: usize) -> (r: BakeryLock<'a>)
        requires
            old(t).wf(),
            core < NUM_CPU,
            old(t).numbers()[core as int] != 0,
            !old(t).entering_view()[core as int],
            forall|i: int| 0 <= i < NUM_CPU && i != core ==> !#[trigger] old(t).entering_view()[i],
            forall|i: int| 0 <= i < NUM_CPU && i != core ==> #[trigger] old(t).numbers()[i] == 0,
        ensures
            r.core_id() == core,
            r.ticket() == *old(t),
            r.ticket().may_enter_spec(core as int),
    {
        let mut i: usize = 0;
        while i < 4
            invariant
                t.wf(),
                core < NUM_CPU,
                i <= NUM_CPU,
                t.numbers()[core as int] != 0,
                !t.entering_view()[core as int],
                forall|j: int| 0 <= j < NUM_CPU && j != core ==> !#[trigger] t.entering_view()[j],
                forall|j: int| 0 <= j < NUM_CPU && j != core ==> #[trigger] t.numbers()[j] == 0,
            decreases NUM_CPU - i,
        {
            while t.entering[i]
                invariant
                    t.wf(),
                    i < NUM_CPU,
                    !t.entering_view()[i as int],
                decreases 1int,
            {
            }
            while t.number[i] != 0 && (t.number[i] < t.number[core] || (t.number[i]
                == t.number[core] && i < core))
                invariant
                    t.wf(),
                    i < NUM_CPU,
                    core < NUM_CPU,
                    !t.blocks(i as int, core as int),
                decreases 1int,
            {
            }
            i = i + 1;
        }
        assert(t.may_enter_spec(core as int)) by {
            assert forall|j: int| 0 <= j < NUM_CPU implies !#[trigger] t.blocks(j, core as int) by {
                if j != core {
                    assert(!t.entering_view()[j] && t.numbers()[j] == 0);
                }
            }
        }
        BakeryLock { lock: t, core }
    }
}

impl<'a> Drop for BakeryLock<'a> {
    fn drop(&mut self)
        opens_invariants none
        no_unwind
    {
        if self.core < 4 {
            self.lock.number[self.core] = 0;
        }
    }
}

/// Of two CPUs that both hold numbers, at most one may enter: the order by
/// number, then index, is total, so the later one waits for the earlier.
pub proof fn lemma_bakery_exclusion(t: BakeryTicket, a: int, b: int)
    requires
        t.wf(),
        0 <= a < NUM_CPU,
        0 <= b < NUM_CPU,
        a != b,
        t.numbers()[a] != 0,
        t.numbers()[b] != 0,
    ensures
        !(t.may_enter_spec(a) && t.may_enter_spec(b)),
{
    if t.precedes(a, b) {
        assert(t.blocks(a, b));
    } else {
        assert(t.blocks(b, a));
    }
}

} // verus!
