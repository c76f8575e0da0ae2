//! The translation pipeline's collaborators and its fixpoint driver.
//!
//! The per-function optimizer, the dead-code-elimination transform and the
//! cross-reference extractor are external collaborators: the pipeline is
//! specified against the `Analysis` trait, and holds for every implementation
//! of it.  The driver applies elimination repeatedly and stops at the first
//! structural fixpoint, under a defensive iteration cap, since termination of
//! the transform is an assumption and not a locally provable fact.

use vstd::prelude::*;
use crate::error::OptimizeError;
use crate::eq::function_eq;
use crate::program::{Function, FunctionV, Program, ProgramV, XRefs, XRefsV};

verus! {

/// The external collaborators of one translation run.
pub trait Analysis: Sized {
    /// What the optimizer returns on a function, or nothing where it fails.
    spec fn opt_spec(&self, f: FunctionV) -> Option<FunctionV>;

    /// What one round of dead-code elimination returns on a function.
    spec fn elim_spec(&self, f: FunctionV) -> FunctionV;

    /// What the cross-reference extraction returns on a program.
    spec fn xrefs_spec(&self, p: ProgramV) -> XRefsV;

    /// Optimizer and eliminator keep every function's stable index.
    proof fn preserves_index(&self, f: FunctionV)
        ensures
            match self.opt_spec(f) {
                Option::Some(g) => g.index == f.index,
                Option::None => true,
            },
            self.elim_spec(f).index == f.index,
    ;

    /// Optimizes one function; failure is per-function and recoverable.
    fn optimize(&self, f: &Function) -> (r: Result<Function, OptimizeError>)
        ensures
            match r {
                Result::Ok(g) => self.opt_spec(f@) == Option::Some(g@),
                Result::Err(_) => self.opt_spec(f@) is None,
            },
    ;

    /// Applies one round of dead-code elimination.
    fn eliminate(&self, f: &Function) -> (r: Function)
        ensures
            r@ == self.elim_spec(f@),
    ;

    /// Computes the cross-reference index of a program.
    fn compute_xrefs(&self, p: &Program) -> (r: XRefs)
        ensures
            r@ == self.xrefs_spec(p@),
    ;
}

/// Where repeated elimination under a step budget arrives from a function:
/// the first structural fixpoint, or the last value when the budget ends.
pub open spec fn spec_dce_result<A: Analysis>(a: A, f: FunctionV, cap: nat) -> FunctionV
    decreases cap,
{
    if cap == 0 {
        f
    } else if a.elim_spec(f) == f {
        f
    } else {
        spec_dce_result(a, a.elim_spec(f), (cap - 1) as nat)
    }
}

/// Whether repeated elimination reaches its fixpoint within the budget.
pub open spec fn spec_dce_converges<A: Analysis>(a: A, f: FunctionV, cap: nat) -> bool
    decreases cap,
{
    if cap == 0 {
        false
    } else if a.elim_spec(f) == f {
        true
    } else {
        spec_dce_converges(a, a.elim_spec(f), (cap - 1) as nat)
    }
}

/// How many elimination rounds the driver performs under a budget.
pub open spec fn spec_dce_steps<A: Analysis>(a: A, f: FunctionV, cap: nat) -> nat
    decreases cap,
{
    if cap == 0 {
        0
    } else if a.elim_spec(f) == f {
        1
    } else {
        1 + spec_dce_steps(a, a.elim_spec(f), (cap - 1) as nat)
    }
}

/// What one function's elimination run produced.
pub struct FixpointOutcome {
    pub function: Function,
    pub iterations: u64,
    pub converged: bool,
}

/// Applies the elimination transform repeatedly, stopping at the first
/// function that is structurally equal to its own elimination — the
/// fixpoint — or after `cap` rounds.
#[verifier::loop_isolation(false)]
pub fn dce_fixpoint<A: Analysis>(analysis: &A, f0: Function, cap: u64) -> (r: FixpointOutcome)
    requires
        cap >= 1,
    ensures
        r.function@ == spec_dce_result(*analysis, f0@, cap as nat),
        r.converged == spec_dce_converges(*analysis, f0@, cap as nat),
        r.iterations == spec_dce_steps(*analysis, f0@, cap as nat),
        r.converged ==> analysis.elim_spec(r.function@) == r.function@,
{
    let mut current = f0;
    let mut i: u64 = 0;
    let mut converged = false;
    while i < cap && !converged
        invariant
            i <= cap,
            !converged ==> spec_dce_result(*analysis, f0@, cap as nat) == spec_dce_result(
                *analysis,
                current@,
                (cap - i) as nat,
            ),
            !converged ==> spec_dce_converges(*analysis, f0@, cap as nat) == spec_dce_converges(
                *analysis,
                current@,
                (cap - i) as nat,
            ),
            !converged ==> spec_dce_steps(*analysis, f0@, cap as nat) == i + spec_dce_steps(
                *analysis,
                current@,
                (cap - i) as nat,
            ),
            converged ==> current@ == spec_dce_result(*analysis, f0@, cap as nat)
                && spec_dce_converges(*analysis, f0@, cap as nat) && i == spec_dce_steps(
                *analysis,
                f0@,
                cap as nat,
            ) && analysis.elim_spec(current@) == current@,
        decreases cap - i + (if converged { 0int } else { 1int }),
    {
        let next = analysis.eliminate(&current);
        i = i + 1;
        if function_eq(&next, &current) {
            converged = true;
        }
        current = next;
    }
    proof {
        if !converged {
            assert(i == cap);
            assert(spec_dce_result(*analysis, current@, 0) == current@);
        }
    }
    FixpointOutcome { function: current, iterations: i, converged }
}

} // verus!

verus! {

/// What translation leaves of one function: the optimizer's failure keeps
/// the prior form; its success is driven to the elimination fixpoint under
/// the cap.
pub open spec fn spec_translate_function<A: Analysis>(a: A, f: FunctionV, cap: nat) -> FunctionV {
    match a.opt_spec(f) {
        Option::None => f,
        Option::Some(g) => spec_dce_result(a, g, cap),
    }
}

/// How many functions of a list the optimizer declines.
pub open spec fn count_skipped<A: Analysis>(a: A, fs: Seq<FunctionV>) -> nat
    decreases fs.len(),
{
    if fs.len() == 0 {
        0
    } else {
        count_skipped(a, fs.drop_last()) + if a.opt_spec(fs.last()) is None {
            1nat
        } else {
            0nat
        }
    }
}

/// How many optimized functions fail to reach their fixpoint under the cap.
pub open spec fn count_capped<A: Analysis>(a: A, fs: Seq<FunctionV>, cap: nat) -> nat
    decreases fs.len(),
{
    if fs.len() == 0 {
        0
    } else {
        count_capped(a, fs.drop_last(), cap) + (match a.opt_spec(fs.last()) {
            Option::None => 0nat,
            Option::Some(g) => if spec_dce_converges(a, g, cap) {
                0nat
            } else {
                1nat
            },
        })
    }
}

/// Extending a prefix by one function adds that function's contribution to
/// both counts.
pub proof fn lemma_count_take_step<A: Analysis>(a: A, s: Seq<FunctionV>, i: int, cap: nat)
    requires
        0 <= i < s.len(),
    ensures
        count_skipped(a, s.take(i + 1)) == count_skipped(a, s.take(i)) + (if a.opt_spec(s[i])
            is None {
            1nat
        } else {
            0nat
        }),
        count_capped(a, s.take(i + 1), cap) == count_capped(a, s.take(i), cap) + (
        match a.opt_spec(s[i]) {
            Option::None => 0nat,
            Option::Some(g) => if spec_dce_converges(a, g, cap) {
                0nat
            } else {
                1nat
            },
        }),
{
    assert(s.take(i + 1).drop_last() =~= s.take(i));
    assert(s.take(i + 1).last() == s[i]);
}

/// Elimination keeps the stable index through every round.
pub proof fn lemma_dce_result_index<A: Analysis>(a: A, f: FunctionV, cap: nat)
    ensures
        spec_dce_result(a, f, cap).index == f.index,
    decreases cap,
{
    if cap == 0 {
    } else if a.elim_spec(f) == f {
    } else {
        a.preserves_index(f);
        lemma_dce_result_index(a, a.elim_spec(f), (cap - 1) as nat);
    }
}

/// Translation keeps the stable index of every function it touches.
pub proof fn lemma_translate_function_index<A: Analysis>(a: A, f: FunctionV, cap: nat)
    ensures
        spec_translate_function(a, f, cap).index == f.index,
{
    a.preserves_index(f);
    match a.opt_spec(f) {
        Option::None => {},
        Option::Some(g) => {
            lemma_dce_result_index(a, g, cap);
        },
    }
}

/// What one translation run reports for observability: how many functions
/// the optimizer handled, how many it declined, and how many ran into the
/// elimination cap.
pub struct TranslationSummary {
    pub optimized: usize,
    pub skipped: usize,
    pub capped: usize,
}

} // verus!

verus! {

/// Where the driver converges, it lands on a true fixpoint of the
/// elimination transform.
pub proof fn lemma_dce_converged_fixpoint<A: Analysis>(a: A, f: FunctionV, cap: nat)
    requires
        spec_dce_converges(a, f, cap),
    ensures
        a.elim_spec(spec_dce_result(a, f, cap)) == spec_dce_result(a, f, cap),
    decreases cap,
{
    if cap == 0 {
    } else if a.elim_spec(f) == f {
    } else {
        lemma_dce_converged_fixpoint(a, a.elim_spec(f), (cap - 1) as nat);
    }
}

/// A function already at its fixpoint passes through the driver unchanged.
pub proof fn lemma_dce_fixpoint_stable<A: Analysis>(a: A, f: FunctionV, cap: nat)
    requires
        a.elim_spec(f) == f,
        cap >= 1,
    ensures
        spec_dce_result(a, f, cap) == f,
        spec_dce_converges(a, f, cap),
{
}

/// The fixpoint loop converges within the cap for any transform that
/// strictly decreases some size metric on every round that changes its
/// input, as soon as the cap exceeds the starting function's metric.
pub proof fn lemma_shrinking_converges<A: Analysis>(
    a: A,
    f: FunctionV,
    cap: nat,
    size: spec_fn(FunctionV) -> nat,
)
    requires
        forall|g: FunctionV|
            a.elim_spec(g) != g ==> size(#[trigger] a.elim_spec(g)) < size(g),
        cap > size(f),
    ensures
        spec_dce_converges(a, f, cap),
    decreases size(f),
{
    if a.elim_spec(f) == f {
        assert(spec_dce_converges(a, f, cap));
    } else {
        assert(size(a.elim_spec(f)) < size(f));
        lemma_shrinking_converges(a, a.elim_spec(f), (cap - 1) as nat, size);
    }
}

/// Translating a second time changes nothing: once every optimized function
/// has reached its elimination fixpoint within the cap, and the optimizer
/// leaves the pipeline's own outputs alone, the pipeline's result is a fixed
/// point of the pipeline itself.
pub proof fn lemma_translate_idempotent<A: Analysis>(a: A, f: FunctionV, cap: nat)
    requires
        cap >= 1,
        forall|g: FunctionV|
            match #[trigger] a.opt_spec(g) {
                Option::None => true,
                Option::Some(h) => a.opt_spec(spec_dce_result(a, h, cap)) == Option::Some(
                    spec_dce_result(a, h, cap),
                ),
            },
        match a.opt_spec(f) {
            Option::None => true,
            Option::Some(g) => spec_dce_converges(a, g, cap),
        },
    ensures
        spec_translate_function(a, spec_translate_function(a, f, cap), cap)
            == spec_translate_function(a, f, cap),
{
    match a.opt_spec(f) {
        Option::None => {},
        Option::Some(g) => {
            let r1 = spec_dce_result(a, g, cap);
            lemma_dce_converged_fixpoint(a, g, cap);
            assert(a.opt_spec(r1) == Option::Some(r1));
            lemma_dce_fixpoint_stable(a, r1, cap);
        },
    }
}

} // verus!
