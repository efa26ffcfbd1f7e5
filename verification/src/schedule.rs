//! Iteration schedule of the fixed-point solvers (Sinkhorn in both domains,
//! unbalanced Sinkhorn, barycenters): how many iterations run, after which
//! of them convergence is tested, and the iteration count they report.
//!
//! The convergence test itself compares floating-point residuals; its
//! outcome comes in as a `bool`.

use vstd::prelude::*;

verus! {

/// Iterations at which Sinkhorn solvers test convergence: every tenth,
/// starting with the first.
pub const SINKHORN_CHECK_EVERY: usize = 10;

/// Whether iteration `iter` (counted from 0) is followed by a convergence
/// test when tests happen every `check_every` iterations.
pub open spec fn is_checkpoint_spec(iter: int, check_every: int) -> bool {
    iter % check_every == 0
}

/// The checkpoints are exactly the multiples of the period, with no bound
/// on the iteration index: `k * check_every` is a checkpoint for every `k`,
/// and no index strictly between two consecutive multiples is one.
pub proof fn lemma_checkpoints_are_multiples(k: int, r: int, check_every: int)
    requires
        check_every > 0,
        k >= 0,
        0 <= r < check_every,
    ensures
        is_checkpoint_spec(k * check_every + r, check_every) <==> r == 0,
        is_checkpoint_spec(k * check_every, check_every),
{
    vstd::arithmetic::div_mod::lemma_fundamental_div_mod_converse(
        k * check_every + r,
        check_every,
        k,
        r,
    );
    vstd::arithmetic::div_mod::lemma_fundamental_div_mod_converse(
        k * check_every,
        check_every,
        k,
        0,
    );
}

/// Schedule of a solver that runs at most `max_iter` iterations and tests
/// convergence after every `check_every`-th iteration, stopping at the first
/// test that passes.
pub struct IterationSchedule {
    max_iter: usize,
    check_every: usize,
    completed: usize,
    converged: bool,
}

impl IterationSchedule {
    #[verifier::type_invariant]
    spec fn inv(self) -> bool {
        &&& self.check_every > 0
        &&& self.completed <= self.max_iter
        &&& self.converged ==> self.completed > 0 && (self.completed - 1) % (
        self.check_every as int) == 0
    }

    /// The most iterations the solver may run.
    pub closed spec fn limit(self) -> nat {
        self.max_iter as nat
    }

    /// How often convergence is tested.
    pub closed spec fn period(self) -> nat {
        self.check_every as nat
    }

    /// How many iterations have been completed.
    pub closed spec fn done(self) -> nat {
        self.completed as nat
    }

    /// Whether a convergence test has passed.
    pub closed spec fn stopped(self) -> bool {
        self.converged
    }

    /// A schedule with no iteration run yet.
    pub fn new(max_iter: usize, check_every: usize) -> (s: Self)
        requires
            check_every > 0,
        ensures
            s.limit() == max_iter,
            s.period() == check_every,
            s.done() == 0,
            !s.stopped(),
    {
        IterationSchedule { max_iter, check_every, completed: 0, converged: false }
    }

    /// The index of the next iteration to run, or `None` once a convergence
    /// test has passed or `max_iter` iterations have run.
    pub fn next_iteration(&self) -> (r: Option<usize>)
        ensures
            r is Some <==> (!self.stopped() && self.done() < self.limit()),
            r matches Some(i) ==> i == self.done(),
    {
        if !self.converged && self.completed < self.max_iter {
            Some(self.completed)
        } else {
            None
        }
    }

    /// Whether iteration `iter` is followed by a convergence test.
    pub fn is_checkpoint(&self, iter: usize) -> (b: bool)
        ensures
            b == is_checkpoint_spec(iter as int, self.period() as int),
            b == ((iter as int) % (self.period() as int) == 0),
    {
        proof {
            use_type_invariant(self);
        }
        iter % self.check_every == 0
    }

    /// Records that the next iteration has run; `test_passed` is the outcome
    /// of its convergence test, and counts only when the iteration is a
    /// checkpoint.
    pub fn finish_iteration(&mut self, test_passed: bool)
        requires
            !old(self).stopped(),
            old(self).done() < old(self).limit(),
        ensures
            final(self).limit() == old(self).limit(),
            final(self).period() == old(self).period(),
            final(self).done() == old(self).done() + 1,
            final(self).stopped() == (test_passed && is_checkpoint_spec(
                old(self).done() as int,
                old(self).period() as int,
            )),
            final(self).stopped() == (test_passed && (old(self).done() as int) % (old(self).period() as int)
                == 0),
    {
        proof {
            use_type_invariant(&*self);
        }
        let stop: bool = test_passed && self.completed % self.check_every == 0;
        self.completed = self.completed + 1;
        self.converged = stop;
    }

    /// The number of iterations run, which the solver reports. It never
    /// exceeds `max_iter`, and after a passed test it is one more than a
    /// checkpoint index.
    pub fn iterations(&self) -> (n: usize)
        ensures
            n == self.done(),
            n <= self.limit(),
            self.stopped() ==> n > 0 && is_checkpoint_spec(n - 1, self.period() as int),
            self.stopped() ==> n > 0 && (n - 1) % (self.period() as int) == 0,
    {
        proof {
            use_type_invariant(self);
        }
        self.completed
    }

    /// Whether all `max_iter` iterations have run.
    pub fn exhausted(&self) -> (b: bool)
        ensures
            b == (self.done() == self.limit()),
    {
        self.completed == self.max_iter
    }
}

} // verus!
