//! The spinlock and the bakery lock as CPUs that interleave one shared
//! read or write (or one exclusive load/store pair) at a time, and the
//! invariants that keep two of them out of the critical section together.
use vstd::prelude::*;
use crate::lock::acquire_step;
use crate::memmap::NUM_CPU;

verus! {

/// Where a CPU is in the bakery protocol.
pub enum Phase {
    /// Holds no number.
    Idle,
    /// Taking a number: has read the numbers of CPUs below `next`, whose
    /// largest is `seen`.
    Choosing { next: int, seen: nat },
    /// Waiting while CPU `at` takes a number.
    WaitEntering { at: int },
    /// Waiting while CPU `at` holds a number that goes first.
    WaitNumber { at: int },
    /// In the critical section.
    Critical,
}

/// The shared tickets and each CPU's phase.
pub struct BakeryModel {
    pub phase: Seq<Phase>,
    pub entering: Seq<bool>,
    pub number: Seq<nat>,
}

/// Number of CPUs in the model.
pub open spec fn ncpu() -> int {
    NUM_CPU as int
}

impl BakeryModel {
    /// One phase, flag and number per CPU.
    pub open spec fn wf(&self) -> bool {
        &&& self.phase.len() == ncpu()
        &&& self.entering.len() == ncpu()
        &&& self.number.len() == ncpu()
    }

    /// Every CPU idle, no flag raised, no number held.
    pub open spec fn initial(&self) -> bool {
        &&& self.wf()
        &&& forall|c: int| 0 <= c < ncpu() ==> #[trigger] self.phase[c] == Phase::Idle
        &&& forall|c: int| 0 <= c < ncpu() ==> !#[trigger] self.entering[c]
        &&& forall|c: int| 0 <= c < ncpu() ==> #[trigger] self.number[c] == 0
    }

    /// CPU `a` goes before CPU `b`: by number, then by index.
    pub open spec fn before(&self, a: int, b: int) -> bool {
        self.number[a] < self.number[b] || (self.number[a] == self.number[b] && a < b)
    }

    /// The state after CPU `c` takes one step: one read or write of the
    /// shared tickets. A CPU that must wait takes a step that changes
    /// nothing.
    pub open spec fn step(&self, c: int) -> BakeryModel {
        match self.phase[c] {
            Phase::Idle => BakeryModel {
                phase: self.phase.update(c, Phase::Choosing { next: 0, seen: 0 }),
                entering: self.entering.update(c, true),
                number: self.number,
            },
            Phase::Choosing { next, seen } => if next < ncpu() {
                let n = self.number[next];
                BakeryModel {
                    phase: self.phase.update(
                        c,
                        Phase::Choosing { next: next + 1, seen: if seen < n { n } else { seen } },
                    ),
                    entering: self.entering,
                    number: self.number,
                }
            } else {
                BakeryModel {
                    phase: self.phase.update(c, Phase::WaitEntering { at: 0 }),
                    entering: self.entering.update(c, false),
                    number: self.number.update(c, seen + 1),
                }
            },
            Phase::WaitEntering { at } => if at >= ncpu() {
                BakeryModel {
                    phase: self.phase.update(c, Phase::Critical),
                    entering: self.entering,
                    number: self.number,
                }
            } else if self.entering[at] {
                *self
            } else {
                BakeryModel {
                    phase: self.phase.update(c, Phase::WaitNumber { at }),
                    entering: self.entering,
                    number: self.number,
                }
            },
            Phase::WaitNumber { at } => if self.number[at] != 0 && self.before(at, c) {
                *self
            } else {
                BakeryModel {
                    phase: self.phase.update(c, Phase::WaitEntering { at: at + 1 }),
                    entering: self.entering,
                    number: self.number,
                }
            },
            Phase::Critical => BakeryModel {
                phase: self.phase.update(c, Phase::Idle),
                entering: self.entering,
                number: self.number.update(c, 0),
            },
        }
    }

    /// CPU `c` waits for, or is in, the critical section.
    pub open spec fn holds_number(&self, c: int) -> bool {
        match self.phase[c] {
            Phase::WaitEntering { .. } | Phase::WaitNumber { .. } | Phase::Critical => true,
            _ => false,
        }
    }

    /// CPU `i` has found CPU `j` not taking a number.
    pub open spec fn passed_entering(&self, i: int, j: int) -> bool {
        match self.phase[i] {
            Phase::WaitEntering { at } => at > j,
            Phase::WaitNumber { at } => at >= j,
            Phase::Critical => true,
            _ => false,
        }
    }

    /// CPU `i` has found that CPU `j` does not go first.
    pub open spec fn passed_number(&self, i: int, j: int) -> bool {
        match self.phase[i] {
            Phase::WaitEntering { at } => at > j,
            Phase::WaitNumber { at } => at > j,
            Phase::Critical => true,
            _ => false,
        }
    }

    /// The phases stay in range, the flag is up exactly while taking a
    /// number, a number is held exactly while waiting or inside; a CPU
    /// that took its number after another CPU got past its flag has seen
    /// that CPU's number; and a CPU that got past another holding a number
    /// goes before it.
    pub open spec fn inv(&self) -> bool {
        &&& self.wf()
        &&& forall|c: int| 0 <= c < ncpu() ==> #[trigger] self.entering[c] == self.phase[c] is Choosing
        &&& forall|c: int| 0 <= c < ncpu() ==> (#[trigger] self.number[c] != 0) == self.holds_number(c)
        &&& forall|c: int| 0 <= c < ncpu() ==> match #[trigger] self.phase[c] {
            Phase::Choosing { next, seen } => 0 <= next <= ncpu(),
            Phase::WaitEntering { at } => 0 <= at <= ncpu(),
            Phase::WaitNumber { at } => 0 <= at < ncpu(),
            _ => true,
        }
        &&& forall|i: int, j: int|
            0 <= i < ncpu() && 0 <= j < ncpu() && i != j && #[trigger] self.passed_entering(i, j)
                ==> match #[trigger] self.phase[j] {
                Phase::Choosing { next, seen } => next > i ==> seen >= self.number[i],
                _ => true,
            }
        &&& forall|i: int, j: int|
            0 <= i < ncpu() && 0 <= j < ncpu() && i != j && #[trigger] self.passed_number(i, j)
                && self.holds_number(j) ==> self.before(i, j)
    }
}

/// The initial state satisfies the invariant.
pub proof fn lemma_bakery_initial(s: BakeryModel)
    requires
        s.initial(),
    ensures
        s.inv(),
{
}

/// Every step of every CPU keeps the invariant.
pub proof fn lemma_bakery_step(s: BakeryModel, c: int)
    requires
        s.inv(),
        0 <= c < ncpu(),
    ensures
        s.step(c).inv(),
{
    let t = s.step(c);
    assert(t.wf());
    assert forall|i: int, j: int|
        0 <= i < ncpu() && 0 <= j < ncpu() && i != j && #[trigger] t.passed_entering(i, j)
            implies match #[trigger] t.phase[j] {
            Phase::Choosing { next, seen } => next > i ==> seen >= t.number[i],
            _ => true,
        } by {
        if i != c && j != c {
            assert(t.phase[i] == s.phase[i] && t.phase[j] == s.phase[j]);
            assert(s.passed_entering(i, j));
        } else if i == c {
            assert(t.phase[j] == s.phase[j]);
            if s.phase[c] is WaitEntering {
                assert(s.passed_entering(i, j) || s.phase[c]->WaitEntering_at == j);
            } else {
                assert(s.passed_entering(i, j));
            }
        } else {
            assert(t.phase[i] == s.phase[i]);
            assert(s.passed_entering(i, j));
        }
    }
    assert forall|i: int, j: int|
        0 <= i < ncpu() && 0 <= j < ncpu() && i != j && #[trigger] t.passed_number(i, j)
            && t.holds_number(j) implies t.before(i, j) by {
        if i != c && j != c {
            assert(t.phase[i] == s.phase[i] && t.phase[j] == s.phase[j]);
            assert(s.passed_number(i, j));
        } else if i == c {
            assert(t.phase[j] == s.phase[j]);
            if s.phase[c] is WaitNumber {
                assert(s.passed_number(i, j) || s.phase[c]->WaitNumber_at == j);
            } else {
                assert(s.passed_number(i, j));
            }
        } else {
            assert(t.phase[i] == s.phase[i]);
            assert(s.passed_number(i, j));
            assert(s.passed_entering(i, j));
        }
    }
}

/// No two CPUs are in the critical section at once, in any state that
/// the invariant describes.
pub proof fn lemma_bakery_mutual_exclusion(s: BakeryModel, a: int, b: int)
    requires
        s.inv(),
        0 <= a < ncpu(),
        0 <= b < ncpu(),
        s.phase[a] == Phase::Critical,
        s.phase[b] == Phase::Critical,
    ensures
        a == b,
{
    if a != b {
        assert(s.passed_number(a, b) && s.holds_number(b));
        assert(s.passed_number(b, a) && s.holds_number(a));
    }
}

/// The bakery state after the CPUs of `sched` take one step each, in order.
pub open spec fn bakery_run(s: BakeryModel, sched: Seq<int>) -> BakeryModel
    decreases sched.len(),
{
    if sched.len() == 0 {
        s
    } else {
        bakery_run(s, sched.drop_last()).step(sched.last())
    }
}

/// From the initial state, under any interleaving of the CPUs' steps, no
/// two CPUs are ever in the critical section at once.
pub proof fn lemma_bakery_any_schedule(s: BakeryModel, sched: Seq<int>, a: int, b: int)
    requires
        s.initial(),
        forall|k: int| 0 <= k < sched.len() ==> 0 <= #[trigger] sched[k] < ncpu(),
        0 <= a < ncpu(),
        0 <= b < ncpu(),
        bakery_run(s, sched).phase[a] == Phase::Critical,
        bakery_run(s, sched).phase[b] == Phase::Critical,
    ensures
        a == b,
{
    lemma_bakery_run_inv(s, sched);
    lemma_bakery_mutual_exclusion(bakery_run(s, sched), a, b);
}

proof fn lemma_bakery_run_inv(s: BakeryModel, sched: Seq<int>)
    requires
        s.initial(),
        forall|k: int| 0 <= k < sched.len() ==> 0 <= #[trigger] sched[k] < ncpu(),
    ensures
        bakery_run(s, sched).inv(),
    decreases sched.len(),
{
    if sched.len() == 0 {
        lemma_bakery_initial(s);
    } else {
        let prefix = sched.drop_last();
        assert forall|k: int| 0 <= k < prefix.len() implies 0 <= #[trigger] prefix[k] < ncpu() by {
            assert(prefix[k] == sched[k]);
        }
        lemma_bakery_run_inv(s, prefix);
        assert(0 <= sched[sched.len() - 1] < ncpu());
        lemma_bakery_step(bakery_run(s, prefix), sched.last());
    }
}

/// Where a CPU is in the spinlock protocol.
pub enum SpinPhase {
    /// Loads the word and waits while it is held.
    Idle,
    /// Saw the word free; next comes the exclusive load/store pair.
    Ready,
    /// In the critical section.
    Critical,
}

/// The lock word and each CPU's phase.
pub struct SpinModel {
    pub phase: Seq<SpinPhase>,
    pub word: u64,
}

impl SpinModel {
    /// Every CPU idle, the word free.
    pub open spec fn initial(&self) -> bool {
        &&& self.phase.len() == ncpu()
        &&& self.word == 0
        &&& forall|c: int| 0 <= c < ncpu() ==> #[trigger] self.phase[c] == SpinPhase::Idle
    }

    /// The state after CPU `c` takes one step.
    pub open spec fn step(&self, c: int) -> SpinModel {
        match self.phase[c] {
            SpinPhase::Idle => if self.word != 0 {
                *self
            } else {
                SpinModel { phase: self.phase.update(c, SpinPhase::Ready), word: self.word }
            },
            SpinPhase::Ready => {
                let (w, ok) = acquire_step(self.word);
                SpinModel {
                    phase: self.phase.update(
                        c,
                        if ok {
                            SpinPhase::Critical
                        } else {
                            SpinPhase::Idle
                        },
                    ),
                    word: w,
                }
            },
            SpinPhase::Critical => SpinModel {
                phase: self.phase.update(c, SpinPhase::Idle),
                word: 0,
            },
        }
    }

    /// The word is 0 or 1; a CPU inside holds it at 1 and is the only one
    /// inside.
    pub open spec fn inv(&self) -> bool {
        &&& self.phase.len() == ncpu()
        &&& (self.word == 0 || self.word == 1)
        &&& forall|c: int| 0 <= c < ncpu() && #[trigger] self.phase[c] == SpinPhase::Critical ==> self.word == 1
        &&& forall|a: int, b: int|
            0 <= a < ncpu() && 0 <= b < ncpu() && #[trigger] self.phase[a] == SpinPhase::Critical
                && #[trigger] self.phase[b] == SpinPhase::Critical ==> a == b
    }
}

/// The spinlock state after the CPUs of `sched` take one step each.
pub open spec fn spin_run(s: SpinModel, sched: Seq<int>) -> SpinModel
    decreases sched.len(),
{
    if sched.len() == 0 {
        s
    } else {
        spin_run(s, sched.drop_last()).step(sched.last())
    }
}

/// Every step of every CPU keeps the spinlock invariant.
pub proof fn lemma_spin_step(s: SpinModel, c: int)
    requires
        s.inv(),
        0 <= c < ncpu(),
    ensures
        s.step(c).inv(),
{
    assert(0u64 & 1u64 == 0u64 && 1u64 & 1u64 == 1u64) by (bit_vector);
    if s.phase[c] == SpinPhase::Ready && s.word == 0 {
        assert forall|a: int| 0 <= a < ncpu() && a != c implies #[trigger] s.phase[a]
            != SpinPhase::Critical by {}
    }
}

/// From the initial state, under any interleaving of the CPUs' steps, no
/// two CPUs are ever in the critical section at once.
pub proof fn lemma_spin_any_schedule(s: SpinModel, sched: Seq<int>, a: int, b: int)
    requires
        s.initial(),
        forall|k: int| 0 <= k < sched.len() ==> 0 <= #[trigger] sched[k] < ncpu(),
        0 <= a < ncpu(),
        0 <= b < ncpu(),
        spin_run(s, sched).phase[a] == SpinPhase::Critical,
        spin_run(s, sched).phase[b] == SpinPhase::Critical,
    ensures
        a == b,
{
    lemma_spin_run_inv(s, sched);
}

proof fn lemma_spin_run_inv(s: SpinModel, sched: Seq<int>)
    requires
        s.initial(),
        forall|k: int| 0 <= k < sched.len() ==> 0 <= #[trigger] sched[k] < ncpu(),
    ensures
        spin_run(s, sched).inv(),
    decreases sched.len(),
{
    if sched.len() > 0 {
        let prefix = sched.drop_last();
        assert forall|k: int| 0 <= k < prefix.len() implies 0 <= #[trigger] prefix[k] < ncpu() by {
            assert(prefix[k] == sched[k]);
        }
        lemma_spin_run_inv(s, prefix);
        assert(0 <= sched[sched.len() - 1] < ncpu());
        lemma_spin_step(spin_run(s, prefix), sched.last());
    }
}

} // verus!
