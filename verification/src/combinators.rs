//! Combinator tasks and the decisions they make.
//!
//! | Combinator | Description |
//! |------------|-------------|
//! | [`MapTask`] | Broadcast a task over a `Vec` of inputs (fan-out / fan-in). |
//! | [`Refine`] | Run the inner task in a loop until it signals completion. |
//! | [`Retry`]  | Re-run the inner task on error, up to `max_attempts` times. |
//!
//! Each combinator alternates child runs (outside work) with decisions. The
//! decisions are the functions here: a caller runs the child the decision
//! asks for and hands back what came of it.

use crate::error::RuntimeError;
use crate::text::decimal;
use crate::text::decimal_text;
use vstd::prelude::*;
use vstd::string::*;

verus! {

/// Broadcast a task over a collection of inputs: one child per element,
/// run concurrently, outputs collected in input order.
///
/// If any child fails, the first error in input order is returned.
#[derive(Debug, Clone)]
pub struct MapTask<T> {
    /// The inner task, applied to each element.
    pub inner: T,
}

/// Whether every result is a success.
pub open spec fn all_ok<O>(rs: Seq<Result<O, RuntimeError>>) -> bool {
    forall|i: int| 0 <= i < rs.len() ==> rs[i] is Ok
}

/// Collect the children's results in input order: all outputs when every
/// child succeeded, else the error of the first child (in input order)
/// that failed.
pub fn collect_in_order<O>(results: Vec<Result<O, RuntimeError>>) -> (r: Result<Vec<O>, RuntimeError>)
    ensures
        match r {
            Ok(outs) => all_ok(results@) && outs@.len() == results@.len()
                && forall|i: int| 0 <= i < outs@.len() ==> results@[i] == Ok::<O, RuntimeError>(#[trigger] outs@[i]),
            Err(e) => exists|k: int| 0 <= k < results@.len() && results@[k] == Err::<O, RuntimeError>(e)
                && all_ok(results@.take(k)),
        },
{
    let ghost rs = results@;
    let mut rest = results;
    let mut outs: Vec<O> = Vec::new();
    let n = rest.len();
    let mut i: usize = 0;
    while i < n
        invariant
            rs == results@,
            n == rs.len(),
            i <= n,
            rest@ == rs.skip(i as int),
            outs@.len() == i,
            forall|j: int| 0 <= j < i ==> rs[j] == Ok::<O, RuntimeError>(#[trigger] outs@[j]),
        decreases n - i,
    {
        assert(rest@[0] == rs[i as int]);
        let next = rest.remove(0);
        assert(rest@ =~= rs.skip(i + 1));
        match next {
            Ok(o) => {
                outs.push(o);
            },
            Err(e) => {
                assert forall|j: int| 0 <= j < rs.take(i as int).len() implies rs.take(i as int)[j] is Ok by {
                    assert(rs[j] == Ok::<O, RuntimeError>(outs@[j]));
                }
                assert(rs[i as int] == Err::<O, RuntimeError>(e));
                return Err(e);
            },
        }
        i += 1;
    }
    assert forall|j: int| 0 <= j < rs.len() implies rs[j] is Ok by {
        assert(rs[j] == Ok::<O, RuntimeError>(outs@[j]));
    }
    Ok(outs)
}

/// The outcome of one refinement step.
#[derive(Debug)]
pub enum RefinementStep<Final, Input> {
    /// Iteration is complete; yield this value.
    Done(Final),
    /// Continue with this new input on the next iteration.
    Continue(Input),
}

/// Run the inner task in a loop until it signals completion, at most
/// `max_iterations` times.
#[derive(Debug, Clone)]
pub struct Refine<T> {
    /// The inner task, called on each iteration.
    pub inner: T,
    /// Maximum number of times the inner task may be invoked.
    pub max_iterations: u32,
}

/// What a refinement does next.
#[derive(Debug)]
pub enum RefineNext<Final, Input> {
    /// Run the inner task on this input.
    Run(Input),
    /// Stop with this result.
    Finish(Result<Final, RuntimeError>),
}

/// The message of the error that ends a refinement that never converged.
pub open spec fn refine_exhausted_text(max_iterations: u32) -> Seq<char> {
    "Refine: max_iterations ("@ + decimal(max_iterations as nat) + ") reached without convergence"@
}

/// Progress of a refinement: how many times the inner task has been run.
#[derive(Debug)]
pub struct RefineState {
    /// Number of runs of the inner task so far.
    pub runs: u32,
}

impl<T> Refine<T> {
    /// The error that ends a refinement that never converged.
    pub fn exhausted(&self) -> (e: RuntimeError)
        ensures
            e matches RuntimeError::TaskPanicked(msg) && msg@ == refine_exhausted_text(self.max_iterations),
    {
        let mut msg = String::from_str("Refine: max_iterations (");
        let n: u64 = self.max_iterations as u64;
        msg.append(decimal_text(n).as_str());
        msg.append(") reached without convergence");
        RuntimeError::TaskPanicked(msg)
    }

    /// Start a refinement on `input`: run the inner task on it, unless no
    /// iteration is allowed at all.
    pub fn begin<F, I>(&self, input: I) -> (r: (RefineState, RefineNext<F, I>))
        ensures
            self.max_iterations == 0 ==> r.0.runs == 0 && (r.1 matches RefineNext::Finish(Err(
                RuntimeError::TaskPanicked(msg),
            )) && msg@ == refine_exhausted_text(self.max_iterations)),
            self.max_iterations > 0 ==> r.0.runs == 1 && r.1 == RefineNext::<F, I>::Run(input),
    {
        if self.max_iterations == 0 {
            (RefineState { runs: 0 }, RefineNext::Finish(Err(self.exhausted())))
        } else {
            (RefineState { runs: 1 }, RefineNext::Run(input))
        }
    }

    /// Decide after a run of the inner task.
    ///
    /// A failed run ends the refinement with its error; `Done` ends it with
    /// the final value; `Continue` runs again on the new input, unless the
    /// runtime was cancelled (error `Cancelled`) or `max_iterations` runs
    /// have been made (the never-converged error).
    pub fn after<F, I>(
        &self,
        state: &mut RefineState,
        result: Result<RefinementStep<F, I>, RuntimeError>,
        cancelled: bool,
    ) -> (r: RefineNext<F, I>)
        requires
            old(state).runs <= self.max_iterations,
        ensures
            final(state).runs <= self.max_iterations,
            match result {
                Err(e) => r == RefineNext::<F, I>::Finish(Err(e)) && final(state).runs == old(state).runs,
                Ok(RefinementStep::Done(f)) => r == RefineNext::<F, I>::Finish(Ok(f))
                    && final(state).runs == old(state).runs,
                Ok(RefinementStep::Continue(next)) => if cancelled {
                    r == RefineNext::<F, I>::Finish(Err(RuntimeError::Cancelled))
                        && final(state).runs == old(state).runs
                } else if old(state).runs >= self.max_iterations {
                    final(state).runs == old(state).runs && (r matches RefineNext::Finish(Err(
                        RuntimeError::TaskPanicked(msg),
                    )) && msg@ == refine_exhausted_text(self.max_iterations))
                } else {
                    r == RefineNext::<F, I>::Run(next) && final(state).runs == old(state).runs + 1
                },
            },
    {
        match result {
            Err(e) => RefineNext::Finish(Err(e)),
            Ok(RefinementStep::Done(f)) => RefineNext::Finish(Ok(f)),
            Ok(RefinementStep::Continue(next)) => {
                if cancelled {
                    RefineNext::Finish(Err(RuntimeError::Cancelled))
                } else if state.runs >= self.max_iterations {
                    RefineNext::Finish(Err(self.exhausted()))
                } else {
                    state.runs = state.runs + 1;
                    RefineNext::Run(next)
                }
            },
        }
    }
}

/// Re-run the inner task on error, up to `max_attempts` times.
///
/// The same input is passed to each attempt. On success the output is
/// returned at once; if every attempt fails, the error of the final attempt
/// is returned. `max_attempts = 0` fails at once.
#[derive(Debug, Clone)]
pub struct Retry<T> {
    /// The inner task to attempt.
    pub inner: T,
    /// Maximum number of attempts (including the first).
    pub max_attempts: u32,
}

/// Progress of a retry: attempts made so far and the last error seen.
#[derive(Debug)]
pub struct RetryState {
    /// Number of attempts started so far.
    pub attempts: u32,
    /// The error of the most recent failed attempt.
    pub last_error: Option<RuntimeError>,
}

/// What a retry does next.
#[derive(Debug)]
pub enum RetryNext {
    /// Run one more attempt.
    Attempt,
    /// Stop with this error.
    GiveUp(RuntimeError),
}

/// The message of the error when no attempt was allowed.
pub open spec fn retry_no_attempts_text() -> Seq<char> {
    "Retry: max_attempts is 0, no attempts were made"@
}

impl<T> Retry<T> {
    /// The state before the first attempt.
    pub fn begin(&self) -> (s: RetryState)
        ensures
            s.attempts == 0,
            s.last_error is None,
    {
        RetryState { attempts: 0, last_error: None }
    }

    /// Decide whether to make another attempt.
    ///
    /// Once `max_attempts` attempts were made, give up with the last error
    /// (or, when no attempt was allowed, a panic report saying so). Before
    /// that, a cancelled runtime gives up with `Cancelled`; otherwise one
    /// more attempt is made.
    pub fn next(&self, state: &mut RetryState, cancelled: bool) -> (r: RetryNext)
        requires
            old(state).attempts <= self.max_attempts,
            old(state).attempts > 0 <==> old(state).last_error is Some,
        ensures
            final(state).attempts <= self.max_attempts,
            if old(state).attempts >= self.max_attempts {
                final(state).attempts == old(state).attempts && match old(state).last_error {
                    Some(e) => r == RetryNext::GiveUp(e),
                    None => (r matches RetryNext::GiveUp(RuntimeError::TaskPanicked(msg))
                        && msg@ == retry_no_attempts_text()),
                }
            } else if cancelled {
                final(state).attempts == old(state).attempts && r == RetryNext::GiveUp(RuntimeError::Cancelled)
            } else {
                r == RetryNext::Attempt && final(state).attempts == old(state).attempts + 1
                    && final(state).last_error == old(state).last_error
            },
    {
        if state.attempts >= self.max_attempts {
            match state.last_error.take() {
                Some(e) => RetryNext::GiveUp(e),
                None => RetryNext::GiveUp(
                    RuntimeError::TaskPanicked(String::from_str("Retry: max_attempts is 0, no attempts were made")),
                ),
            }
        } else if cancelled {
            RetryNext::GiveUp(RuntimeError::Cancelled)
        } else {
            state.attempts = state.attempts + 1;
            RetryNext::Attempt
        }
    }

    /// Record the error of the attempt just made.
    pub fn failed(&self, state: &mut RetryState, e: RuntimeError)
        requires
            old(state).attempts > 0,
        ensures
            final(state).attempts == old(state).attempts,
            final(state).last_error == Some(e),
    {
        state.last_error = Some(e);
    }
}

} // verus!
