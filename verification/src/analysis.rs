//! A synthetic set of collaborators for exercising the pipeline: an
//! optimizer that rewrites a function into a normal form of no-ops, an
//! eliminator that then strips one instruction per round, and an empty
//! cross-reference extraction.  The eliminator strictly decreases a size
//! metric, so its fixpoint loop converges whenever the cap exceeds it.

use vstd::prelude::*;
use crate::eq::function_eq;
use crate::error::OptimizeError;
use crate::ir::{InstructionV, OperationV};
use crate::pipeline::Analysis;
use crate::program::{
    Block, BlockV, Function, FunctionV, Program, ProgramV, XRefs, XRefsV,
};

verus! {

/// How many instructions the leading block holds.
pub open spec fn first_len(f: FunctionV) -> nat {
    if f.blocks.len() == 0 {
        0
    } else {
        f.blocks[0].instructions.len()
    }
}

/// A run of no-op instructions, indexed in order.
pub open spec fn nop_instrs(n: nat) -> Seq<InstructionV> {
    Seq::new(
        n,
        |i: int|
            InstructionV {
                operation: OperationV::Nop,
                index: i as usize,
                comment: Option::None,
                address: Option::None,
            },
    )
}

/// The normal form: one block of no-ops, no edges, everything else kept.
pub open spec fn nopified(f: FunctionV, n: nat) -> FunctionV {
    FunctionV {
        address: f.address,
        index: f.index,
        name: f.name,
        blocks: seq![BlockV { index: 0, instructions: nop_instrs(n) }],
        edges: Seq::empty(),
    }
}

/// Whether a function already has the normal form.
pub open spec fn is_normal(f: FunctionV) -> bool {
    f == nopified(f, first_len(f))
}

/// The metric the eliminator strictly decreases: the leading block's
/// instruction count, plus one until the function is in normal form.
pub open spec fn nop_size(f: FunctionV) -> nat {
    first_len(f) + if is_normal(f) {
        0nat
    } else {
        1nat
    }
}

/// The synthetic collaborators.
pub struct NopShrinker;

/// Builds the normal form of a function with `n` no-ops.
#[verifier::loop_isolation(false)]
fn nopified_function(f: &Function, n: usize) -> (r: Function)
    ensures
        r@ == nopified(f@, n as nat),
{
    let mut instructions: Vec<crate::ir::Instruction> = Vec::new();
    for i in 0..n
        invariant
            instructions@.len() == i,
            forall|k: int|
                0 <= k < i ==> (#[trigger] instructions@[k])@ == nop_instrs(n as nat)[k],
    {
        instructions.push(
            crate::ir::Instruction {
                operation: crate::ir::Operation::Nop,
                index: i,
                comment: None,
                address: None,
            },
        );
    }
    let mut blocks: Vec<Block> = Vec::new();
    blocks.push(Block { index: 0, instructions });
    let r = Function {
        address: f.address,
        index: f.index,
        name: f.name.clone(),
        blocks,
        edges: Vec::new(),
    };
    proof {
        assert(r@.blocks[0].instructions =~= nop_instrs(n as nat));
        assert(r@.blocks =~= nopified(f@, n as nat).blocks);
        assert(r@.edges =~= nopified(f@, n as nat).edges);
        assert(r@ == nopified(f@, n as nat));
    }
    r
}

/// The leading block's instruction count.
fn first_len_of(f: &Function) -> (r: usize)
    ensures
        r as nat == first_len(f@),
{
    if f.blocks.len() == 0 {
        0
    } else {
        proof {
            assert(f@.blocks[0] == f.blocks@[0]@);
        }
        f.blocks[0].instructions.len()
    }
}

impl Analysis for NopShrinker {
    open spec fn opt_spec(&self, f: FunctionV) -> Option<FunctionV> {
        Option::Some(nopified(f, first_len(f)))
    }

    open spec fn elim_spec(&self, f: FunctionV) -> FunctionV {
        if is_normal(f) {
            if first_len(f) == 0 {
                f
            } else {
                nopified(f, (first_len(f) - 1) as nat)
            }
        } else {
            nopified(f, first_len(f))
        }
    }

    open spec fn xrefs_spec(&self, p: ProgramV) -> XRefsV {
        XRefsV { from_to: Seq::empty(), to_from: Seq::empty() }
    }

    proof fn preserves_index(&self, f: FunctionV) {
    }

    fn optimize(&self, f: &Function) -> (r: Result<Function, OptimizeError>) {
        let n = first_len_of(f);
        Ok(nopified_function(f, n))
    }

    fn eliminate(&self, f: &Function) -> (r: Function) {
        let n = first_len_of(f);
        let normal = nopified_function(f, n);
        if function_eq(f, &normal) {
            if n == 0 {
                normal
            } else {
                nopified_function(f, n - 1)
            }
        } else {
            normal
        }
    }

    fn compute_xrefs(&self, p: &Program) -> (r: XRefs) {
        let r = XRefs::new();
        proof {
            assert(r@.from_to =~= Seq::<(u64, Seq<u64>)>::empty());
            assert(r@.to_from =~= Seq::<(u64, Seq<u64>)>::empty());
        }
        r
    }
}

/// One elimination round either leaves a function alone or strictly
/// decreases its size metric.
pub proof fn lemma_nop_shrinker_decreases(a: NopShrinker, g: FunctionV)
    ensures
        a.elim_spec(g) != g ==> nop_size(a.elim_spec(g)) < nop_size(g),
{
    let e = a.elim_spec(g);
    if e != g {
        if is_normal(g) {
            assert(first_len(g) > 0);
            assert(first_len(e) == first_len(g) - 1) by {
                assert(e.blocks[0].instructions.len() == first_len(g) - 1);
            }
            assert(is_normal(e)) by {
                assert(nopified(e, first_len(e)) =~~= e);
            }
        } else {
            assert(first_len(e) == first_len(g)) by {
                assert(e.blocks[0].instructions.len() == first_len(g));
            }
            assert(is_normal(e)) by {
                assert(nopified(e, first_len(e)) =~~= e);
            }
        }
    }
}

/// The synthetic eliminator's fixpoint loop converges as soon as the cap
/// exceeds the starting function's size metric.
pub proof fn lemma_nop_shrinker_converges(a: NopShrinker, f: FunctionV, cap: nat)
    requires
        cap > nop_size(f),
    ensures
        crate::pipeline::spec_dce_converges(a, f, cap),
{
    assert forall|g: FunctionV| a.elim_spec(g) != g implies nop_size(#[trigger] a.elim_spec(g))
        < nop_size(g) by {
        lemma_nop_shrinker_decreases(a, g);
    }
    crate::pipeline::lemma_shrinking_converges(a, f, cap, |g: FunctionV| nop_size(g));
}

} // verus!
