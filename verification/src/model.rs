//! A mathematical model of a buffering counter.
//!
//! A buffering counter consists of one shared accumulator plus one private
//! accumulator per contributing thread. `TallyModel` is a snapshot of that
//! whole system: the shared accumulator, every private accumulator, and how
//! many increments each thread has performed. The increment, spill and flush
//! operations are transitions on the model; the lemmas here show that the
//! accounting invariant is preserved by every transition, and the theorems
//! derive from it the bounded-error and exactness guarantees of
//! [`ApproxCounter`](crate::primitive::ApproxCounter) and
//! [`FlushingCounter`](crate::primitive::FlushingCounter).

use vstd::prelude::*;

verus! {

/// The sum of a sequence of naturals.
pub open spec fn seq_sum(s: Seq<nat>) -> nat
    decreases s.len(),
{
    if s.len() == 0 {
        0
    } else {
        s[0] + seq_sum(s.drop_first())
    }
}

/// Appending an element adds its value to the sum.
pub proof fn lemma_seq_sum_push(s: Seq<nat>, v: nat)
    ensures
        seq_sum(s.push(v)) == seq_sum(s) + v,
    decreases s.len(),
{
    if s.len() == 0 {
        assert(s.push(v)[0] == v);
        assert(s.push(v).drop_first() =~= Seq::<nat>::empty());
        assert(seq_sum(Seq::<nat>::empty()) == 0);
    } else {
        lemma_seq_sum_push(s.drop_first(), v);
        assert(s.push(v)[0] == s[0]);
        assert(s.push(v).drop_first() =~= s.drop_first().push(v));
    }
}

/// Replacing one element shifts the sum by the difference.
pub proof fn lemma_seq_sum_update(s: Seq<nat>, i: int, v: nat)
    requires
        0 <= i < s.len(),
    ensures
        seq_sum(s.update(i, v)) + s[i] == seq_sum(s) + v,
    decreases s.len(),
{
    if i == 0 {
        assert(s.update(0, v).drop_first() =~= s.drop_first());
    } else {
        lemma_seq_sum_update(s.drop_first(), i - 1, v);
        assert(s.update(i, v).drop_first() =~= s.drop_first().update(i - 1, v));
        assert(s.drop_first()[i - 1] == s[i]);
    }
}

/// A sum of elements that are each at most `b` is at most `len * b`.
pub proof fn lemma_seq_sum_bounded(s: Seq<nat>, b: nat)
    requires
        forall|i: int| 0 <= i < s.len() ==> s[i] <= b,
    ensures
        seq_sum(s) <= s.len() * b,
    decreases s.len(),
{
    if s.len() == 0 {
    } else {
        assert forall|i: int| 0 <= i < s.drop_first().len() implies s.drop_first()[i] <= b by {
            assert(s.drop_first()[i] == s[i + 1]);
        }
        lemma_seq_sum_bounded(s.drop_first(), b);
        assert(s[0] <= b);
        assert((s.len() - 1) * b + b == s.len() * b) by (nonlinear_arith)
            requires
                s.len() >= 1,
        ;
    }
}

/// A sum is zero exactly when every element is zero.
pub proof fn lemma_seq_sum_zero(s: Seq<nat>)
    ensures
        (seq_sum(s) == 0) <==> (forall|i: int| 0 <= i < s.len() ==> s[i] == 0),
    decreases s.len(),
{
    if s.len() == 0 {
    } else {
        lemma_seq_sum_zero(s.drop_first());
        assert(forall|i: int| 0 <= i < s.drop_first().len() ==> s.drop_first()[i] == s[i + 1]);
        if seq_sum(s) == 0 {
            assert(forall|i: int| 1 <= i < s.len() ==> s[i] == s.drop_first()[i - 1]);
        } else {
            if forall|i: int| 0 <= i < s.len() ==> s[i] == 0 {
                assert forall|i: int| 0 <= i < s.drop_first().len() implies s.drop_first()[i]
                    == 0 by {
                    assert(s[i + 1] == 0);
                }
                assert(seq_sum(s) == s[0] + seq_sum(s.drop_first()));
            }
        }
    }
}

/// A snapshot of a buffering counter and all of its contributing threads.
pub struct TallyModel {
    /// The value the shared accumulator started from.
    pub start: nat,
    /// The spill threshold; an `ApproxCounter` spills a private accumulator
    /// that reaches it. A `FlushingCounter` never spills on its own, which
    /// behaves as an unreachable threshold.
    pub resolution: nat,
    /// The current value of the shared accumulator.
    pub shared: nat,
    /// `locals[i]` is thread `i`'s private accumulator: contributions that
    /// are not yet visible in the shared accumulator.
    pub locals: Seq<nat>,
    /// `counted[i]` is how many increments thread `i` has performed.
    pub counted: Seq<nat>,
}

impl TallyModel {
    /// A freshly constructed counter: no threads, shared accumulator at `start`.
    pub open spec fn init(start: nat, resolution: nat) -> TallyModel {
        TallyModel {
            start,
            resolution,
            shared: start,
            locals: Seq::empty(),
            counted: Seq::empty(),
        }
    }

    /// The exact number the counter stands for: every increment ever made,
    /// plus the start value.
    pub open spec fn true_count(self) -> nat {
        self.start + seq_sum(self.counted)
    }

    /// One private accumulator and one increment tally per thread.
    pub open spec fn wf(self) -> bool {
        self.locals.len() == self.counted.len()
    }

    /// The accounting invariant: no contribution is lost or duplicated. The
    /// shared accumulator plus all private accumulators equals the true count.
    pub open spec fn accounted(self) -> bool {
        self.wf() && self.shared + seq_sum(self.locals) == self.true_count()
    }

    /// The approximate counter's extra invariant: the threshold is positive
    /// and every private accumulator stays strictly below it.
    pub open spec fn bounded(self) -> bool {
        self.resolution >= 1 && forall|i: int|
            0 <= i < self.locals.len() ==> self.locals[i] < self.resolution
    }

    /// A new thread joins with an empty private accumulator.
    pub open spec fn register(self) -> TallyModel {
        TallyModel { locals: self.locals.push(0), counted: self.counted.push(0), ..self }
    }

    /// One increment by thread `i` on an approximate counter: the private
    /// accumulator grows by one and spills into the shared accumulator when
    /// it reaches the threshold.
    pub open spec fn approx_inc(self, i: int) -> TallyModel {
        let stepped = spill_step(self.locals[i], self.resolution);
        TallyModel {
            shared: self.shared + stepped.1,
            locals: self.locals.update(i, stepped.0),
            counted: self.counted.update(i, (self.counted[i] + 1) as nat),
            ..self
        }
    }

    /// One increment by thread `i` on a flushing counter: the private
    /// accumulator grows by one and nothing else moves.
    pub open spec fn buffer_inc(self, i: int) -> TallyModel {
        TallyModel {
            locals: self.locals.update(i, (self.locals[i] + 1) as nat),
            counted: self.counted.update(i, (self.counted[i] + 1) as nat),
            ..self
        }
    }

    /// Thread `i` flushes: its whole private accumulator moves into the
    /// shared accumulator.
    pub open spec fn flush(self, i: int) -> TallyModel {
        TallyModel {
            shared: self.shared + self.locals[i],
            locals: self.locals.update(i, 0),
            ..self
        }
    }

    /// `n` approximate increments in a row by thread `i`.
    pub open spec fn approx_inc_n(self, i: int, n: nat) -> TallyModel
        decreases n,
    {
        if n == 0 {
            self
        } else {
            self.approx_inc_n(i, (n - 1) as nat).approx_inc(i)
        }
    }

    /// `n` buffered increments in a row by thread `i`.
    pub open spec fn buffer_inc_n(self, i: int, n: nat) -> TallyModel
        decreases n,
    {
        if n == 0 {
            self
        } else {
            self.buffer_inc_n(i, (n - 1) as nat).buffer_inc(i)
        }
    }

    /// Whether one step can fire in this state: an increment or a flush
    /// needs a registered thread.
    pub open spec fn enabled(self, step: TallyStep) -> bool {
        match step {
            TallyStep::Register => true,
            TallyStep::ApproxInc { thread } => 0 <= thread < self.locals.len(),
            TallyStep::BufferInc { thread } => 0 <= thread < self.locals.len(),
            TallyStep::Flush { thread } => 0 <= thread < self.locals.len(),
        }
    }

    /// The state one step leads to.
    pub open spec fn apply(self, step: TallyStep) -> TallyModel {
        match step {
            TallyStep::Register => self.register(),
            TallyStep::ApproxInc { thread } => self.approx_inc(thread),
            TallyStep::BufferInc { thread } => self.buffer_inc(thread),
            TallyStep::Flush { thread } => self.flush(thread),
        }
    }

    /// Whether a whole run of steps can fire, each enabled in the state the
    /// steps before it produced. Runs stand for arbitrary interleavings:
    /// which thread takes each step is unconstrained.
    pub open spec fn run_enabled(self, steps: Seq<TallyStep>) -> bool
        decreases steps.len(),
    {
        steps.len() == 0 || (self.enabled(steps[0]) && self.apply(steps[0]).run_enabled(
            steps.drop_first(),
        ))
    }

    /// The state a whole run of steps leads to.
    pub open spec fn apply_all(self, steps: Seq<TallyStep>) -> TallyModel
        decreases steps.len(),
    {
        if steps.len() == 0 {
            self
        } else {
            self.apply(steps[0]).apply_all(steps.drop_first())
        }
    }
}

/// One operation of a buffering counter's protocol, taken by some thread.
pub enum TallyStep {
    /// A new thread joins the counter with an empty private accumulator.
    Register,
    /// Thread `thread` increments an approximate counter.
    ApproxInc { thread: int },
    /// Thread `thread` increments a flushing counter.
    BufferInc { thread: int },
    /// Thread `thread` flushes its private accumulator.
    Flush { thread: int },
}

/// Whether a run consists solely of steps an approximate counter performs.
pub open spec fn approx_only(steps: Seq<TallyStep>) -> bool {
    forall|i: int| 0 <= i < steps.len() ==> !(steps[i] is BufferInc)
}

/// One increment of a private accumulator under spill threshold `resolution`:
/// returns the new private accumulator and the amount spilled into the shared
/// accumulator (zero unless the threshold was reached).
pub open spec fn spill_step(buffered: nat, resolution: nat) -> (nat, nat) {
    if buffered + 1 >= resolution {
        (0, buffered + 1)
    } else {
        (buffered + 1, 0)
    }
}

/// Registering a thread disturbs neither the accounting invariant nor the
/// threshold bound.
pub proof fn lemma_register_preserves(s: TallyModel)
    requires
        s.accounted(),
    ensures
        s.register().accounted(),
        s.bounded() ==> s.register().bounded(),
        s.register().true_count() == s.true_count(),
        s.register().shared == s.shared,
{
    lemma_seq_sum_push(s.locals, 0);
    lemma_seq_sum_push(s.counted, 0);
}

/// An approximate increment preserves the accounting invariant and the
/// threshold bound, and raises the true count by exactly one.
pub proof fn lemma_approx_inc_preserves(s: TallyModel, i: int)
    requires
        s.accounted(),
        0 <= i < s.locals.len(),
    ensures
        s.approx_inc(i).accounted(),
        s.bounded() ==> s.approx_inc(i).bounded(),
        s.approx_inc(i).true_count() == s.true_count() + 1,
{
    let stepped = spill_step(s.locals[i], s.resolution);
    lemma_seq_sum_update(s.locals, i, stepped.0);
    lemma_seq_sum_update(s.counted, i, (s.counted[i] + 1) as nat);
    assert(stepped.0 + stepped.1 == s.locals[i] + 1);
}

/// A buffered increment preserves the accounting invariant and raises the
/// true count by exactly one.
pub proof fn lemma_buffer_inc_preserves(s: TallyModel, i: int)
    requires
        s.accounted(),
        0 <= i < s.locals.len(),
    ensures
        s.buffer_inc(i).accounted(),
        s.buffer_inc(i).true_count() == s.true_count() + 1,
        s.buffer_inc(i).shared == s.shared,
{
    lemma_seq_sum_update(s.locals, i, (s.locals[i] + 1) as nat);
    lemma_seq_sum_update(s.counted, i, (s.counted[i] + 1) as nat);
}

/// A flush preserves the accounting invariant and the threshold bound, moves
/// nothing in the true count, and drains thread `i`'s private accumulator.
pub proof fn lemma_flush_preserves(s: TallyModel, i: int)
    requires
        s.accounted(),
        0 <= i < s.locals.len(),
    ensures
        s.flush(i).accounted(),
        s.bounded() ==> s.flush(i).bounded(),
        s.flush(i).true_count() == s.true_count(),
        s.flush(i).locals[i] == 0,
{
    lemma_seq_sum_update(s.locals, i, 0);
}

/// A run of approximate increments preserves both invariants and raises the
/// true count by its length.
pub proof fn lemma_approx_inc_n_preserves(s: TallyModel, i: int, n: nat)
    requires
        s.accounted(),
        s.bounded(),
        0 <= i < s.locals.len(),
    ensures
        s.approx_inc_n(i, n).accounted(),
        s.approx_inc_n(i, n).bounded(),
        s.approx_inc_n(i, n).true_count() == s.true_count() + n,
        s.approx_inc_n(i, n).locals.len() == s.locals.len(),
        s.approx_inc_n(i, n).start == s.start,
    decreases n,
{
    if n > 0 {
        lemma_approx_inc_n_preserves(s, i, (n - 1) as nat);
        lemma_approx_inc_preserves(s.approx_inc_n(i, (n - 1) as nat), i);
    }
}

/// A run of buffered increments preserves the accounting invariant, raises
/// the true count by its length, and moves nothing into the shared
/// accumulator.
pub proof fn lemma_buffer_inc_n_preserves(s: TallyModel, i: int, n: nat)
    requires
        s.accounted(),
        0 <= i < s.locals.len(),
    ensures
        s.buffer_inc_n(i, n).accounted(),
        s.buffer_inc_n(i, n).true_count() == s.true_count() + n,
        s.buffer_inc_n(i, n).locals.len() == s.locals.len(),
        s.buffer_inc_n(i, n).start == s.start,
        s.buffer_inc_n(i, n).shared == s.shared,
    decreases n,
{
    if n > 0 {
        lemma_buffer_inc_n_preserves(s, i, (n - 1) as nat);
        lemma_buffer_inc_preserves(s.buffer_inc_n(i, (n - 1) as nat), i);
    }
}

/// A buffering counter never overcounts: whatever was buffered, spilled or
/// flushed so far, the shared accumulator is at most the true count.
pub proof fn theorem_never_overcounts(s: TallyModel)
    requires
        s.accounted(),
    ensures
        s.shared <= s.true_count(),
{
}

/// The approximate counter's bounded-error guarantee: under the accounting
/// invariant and the threshold bound, the shared accumulator undershoots the
/// true count by at most `threads * (resolution - 1)`.
pub proof fn theorem_error_bound(s: TallyModel)
    requires
        s.accounted(),
        s.bounded(),
    ensures
        s.shared <= s.true_count(),
        s.true_count() - s.shared <= s.locals.len() * ((s.resolution - 1) as nat),
{
    assert forall|i: int| 0 <= i < s.locals.len() implies s.locals[i] <= (
    (s.resolution - 1) as nat) by {}
    lemma_seq_sum_bounded(s.locals, (s.resolution - 1) as nat);
}

/// The shared accumulator equals the true count exactly when every private
/// accumulator has been drained: flushing after the last increment is both
/// sufficient and necessary for `get` to be exact.
pub proof fn theorem_exact_iff_drained(s: TallyModel)
    requires
        s.accounted(),
    ensures
        (s.shared == s.true_count()) <==> (forall|i: int|
            0 <= i < s.locals.len() ==> s.locals[i] == 0),
{
    lemma_seq_sum_zero(s.locals);
}

/// One enabled step preserves the accounting invariant, and the threshold
/// bound too unless it is a flushing counter's increment.
pub proof fn lemma_step_preserves(s: TallyModel, step: TallyStep)
    requires
        s.accounted(),
        s.enabled(step),
    ensures
        s.apply(step).accounted(),
        s.apply(step).start == s.start,
        s.apply(step).resolution == s.resolution,
        (s.bounded() && !(step is BufferInc)) ==> s.apply(step).bounded(),
{
    match step {
        TallyStep::Register => lemma_register_preserves(s),
        TallyStep::ApproxInc { thread } => lemma_approx_inc_preserves(s, thread),
        TallyStep::BufferInc { thread } => lemma_buffer_inc_preserves(s, thread),
        TallyStep::Flush { thread } => lemma_flush_preserves(s, thread),
    }
}

/// Every state an enabled run reaches from an accounted state is accounted;
/// and when the run is an approximate counter's, the threshold bound is kept
/// all along as well. Runs cover arbitrary interleavings, so the invariants
/// hold at every observation point.
pub proof fn theorem_run_invariant(s: TallyModel, steps: Seq<TallyStep>)
    requires
        s.accounted(),
        s.run_enabled(steps),
    ensures
        s.apply_all(steps).accounted(),
        s.apply_all(steps).start == s.start,
        s.apply_all(steps).resolution == s.resolution,
        (s.bounded() && approx_only(steps)) ==> s.apply_all(steps).bounded(),
    decreases steps.len(),
{
    if steps.len() > 0 {
        lemma_step_preserves(s, steps[0]);
        if approx_only(steps) {
            assert forall|i: int| 0 <= i < steps.drop_first().len() implies !(steps.drop_first()[i]
                is BufferInc) by {
                assert(steps.drop_first()[i] == steps[i + 1]);
            }
        }
        theorem_run_invariant(s.apply(steps[0]), steps.drop_first());
    }
}

/// The bounded-error guarantee at every observation point: whatever enabled
/// run of registrations, approximate increments and flushes a fresh counter
/// has gone through, in any interleaving, the shared accumulator undershoots
/// the true count by at most `threads * (resolution - 1)` and never
/// overshoots it.
pub proof fn theorem_approx_run_bound(start: nat, resolution: nat, steps: Seq<TallyStep>)
    requires
        resolution >= 1,
        TallyModel::init(start, resolution).run_enabled(steps),
        approx_only(steps),
    ensures
        ({
            let reached = TallyModel::init(start, resolution).apply_all(steps);
            reached.shared <= reached.true_count() && reached.true_count() - reached.shared
                <= reached.locals.len() * ((resolution - 1) as nat)
        }),
{
    let fresh = TallyModel::init(start, resolution);
    assert(seq_sum(Seq::<nat>::empty()) == 0);
    theorem_run_invariant(fresh, steps);
    theorem_error_bound(fresh.apply_all(steps));
}

/// The flushing counter's whole guarantee at every observation point: after
/// any enabled run from a fresh counter, in any interleaving, the shared
/// accumulator never exceeds the true count, and equals it exactly when
/// every thread's private accumulator is drained — that is, exactly when the
/// flush discipline was followed.
pub proof fn theorem_flushing_run_exactness(start: nat, steps: Seq<TallyStep>)
    requires
        TallyModel::init(start, 0).run_enabled(steps),
    ensures
        ({
            let reached = TallyModel::init(start, 0).apply_all(steps);
            reached.shared <= reached.true_count() && ((reached.shared == reached.true_count())
                <==> (forall|i: int| 0 <= i < reached.locals.len() ==> reached.locals[i] == 0))
        }),
{
    let fresh = TallyModel::init(start, 0);
    assert(seq_sum(Seq::<nat>::empty()) == 0);
    theorem_run_invariant(fresh, steps);
    theorem_never_overcounts(fresh.apply_all(steps));
    theorem_exact_iff_drained(fresh.apply_all(steps));
}

/// A single thread that performs `n` increments on a fresh approximate
/// counter and then flushes reads the exact count: the shared accumulator
/// equals `start + n`.
pub proof fn theorem_single_thread_approx_exact(start: nat, resolution: nat, n: nat)
    requires
        resolution >= 1,
    ensures
        TallyModel::init(start, resolution).register().approx_inc_n(0, n).flush(0).shared == start
            + n,
{
    let fresh = TallyModel::init(start, resolution);
    assert(seq_sum(Seq::<nat>::empty()) == 0);
    lemma_register_preserves(fresh);
    let joined = fresh.register();
    lemma_approx_inc_n_preserves(joined, 0, n);
    let counted = joined.approx_inc_n(0, n);
    lemma_flush_preserves(counted, 0);
    let flushed = counted.flush(0);
    theorem_exact_iff_drained(flushed);
    assert(forall|j: int| 0 <= j < flushed.locals.len() ==> flushed.locals[j] == 0);
}

/// A single thread that performs `n` increments on a fresh flushing counter
/// and then flushes reads the exact count; before the flush, the shared
/// accumulator still shows only the start value.
pub proof fn theorem_single_thread_flushing_exact(start: nat, n: nat)
    ensures
        TallyModel::init(start, 0).register().buffer_inc_n(0, n).shared == start,
        TallyModel::init(start, 0).register().buffer_inc_n(0, n).flush(0).shared == start + n,
{
    let fresh = TallyModel::init(start, 0);
    assert(seq_sum(Seq::<nat>::empty()) == 0);
    lemma_register_preserves(fresh);
    let joined = fresh.register();
    lemma_buffer_inc_n_preserves(joined, 0, n);
    let counted = joined.buffer_inc_n(0, n);
    lemma_flush_preserves(counted, 0);
    let flushed = counted.flush(0);
    theorem_exact_iff_drained(flushed);
    assert(forall|j: int| 0 <= j < flushed.locals.len() ==> flushed.locals[j] == 0);
}

} // verus!
