//! A document: one lifted program together with the cross-reference index
//! derived from it.  The index always reflects the program as of the most
//! recently completed translation, or is empty before the first one.

use vstd::prelude::*;
use crate::pipeline::{
    Analysis, TranslationSummary, count_capped, count_skipped, dce_fixpoint,
    lemma_count_take_step, lemma_translate_function_index, spec_translate_function,
};
use crate::program::{Program, ProgramV, XRefs, XRefsV, program_wf};

verus! {

/// One analyzed program and its derived cross-reference index.
pub struct Document {
    program: Program,
    xrefs: XRefs,
}

pub struct DocumentV {
    pub program: ProgramV,
    pub xrefs: XRefsV,
}

impl View for Document {
    type V = DocumentV;

    closed spec fn view(&self) -> DocumentV {
        DocumentV { program: self.program@, xrefs: self.xrefs@ }
    }
}

impl Document {
    /// Wraps a freshly loaded program; the index starts empty.  Loading the
    /// raw bytes into a program is the external lifter's work and happens
    /// before a document exists, so a failed load leaves no document behind.
    pub fn new(program: Program) -> (d: Document)
        ensures
            d@.program == program@,
            d@.xrefs.from_to.len() == 0,
            d@.xrefs.to_from.len() == 0,
    {
        Document { program, xrefs: XRefs::new() }
    }

    /// The program, for reading.
    pub fn program(&self) -> (r: &Program)
        ensures
            r@ == self@.program,
    {
        &self.program
    }

    /// The program, for writing.
    pub fn program_mut(&mut self) -> (r: &mut Program)
        ensures
            (*r)@ == old(self)@.program,
            final(self)@.program == (*final(r))@,
            final(self)@.xrefs == old(self)@.xrefs,
    {
        &mut self.program
    }

    /// The cross-reference index of the most recently completed translation.
    pub fn xrefs(&self) -> (r: &XRefs)
        ensures
            r@ == self@.xrefs,
    {
        &self.xrefs
    }

    /// Runs the translation pipeline: optimizes every function, skipping the
    /// ones the optimizer declines; drives each optimized function to its
    /// elimination fixpoint under the cap; replaces every function under its
    /// stable index; and recomputes the cross-reference index from the
    /// updated program.
    #[verifier::loop_isolation(false)]
    pub fn translate<A: Analysis>(&mut self, analysis: &A, cap: u64) -> (summary:
        TranslationSummary)
        requires
            cap >= 1,
        ensures
            final(self)@.program.functions.len() == old(self)@.program.functions.len(),
            forall|k: int|
                0 <= k < old(self)@.program.functions.len()
                    ==> #[trigger] final(self)@.program.functions[k] == spec_translate_function(
                    *analysis,
                    old(self)@.program.functions[k],
                    cap as nat,
                ),
            final(self)@.xrefs == analysis.xrefs_spec(final(self)@.program),
            program_wf(old(self)@.program) ==> program_wf(final(self)@.program),
            summary.optimized + summary.skipped == old(self)@.program.functions.len(),
            summary.skipped == count_skipped(*analysis, old(self)@.program.functions),
            summary.capped == count_capped(*analysis, old(self)@.program.functions, cap as nat),
    {
        let ghost before = self@.program.functions;
        let n = self.program.functions.len();
        let mut optimized: usize = 0;
        let mut skipped: usize = 0;
        let mut capped: usize = 0;
        for i in 0..n
            invariant
                self.program.functions.len() == n,
                n == before.len(),
                forall|k: int|
                    0 <= k < i ==> #[trigger] self@.program.functions[k]
                        == spec_translate_function(*analysis, before[k], cap as nat),
                forall|k: int| i <= k < n ==> #[trigger] self@.program.functions[k] == before[k],
                self@.xrefs == old(self)@.xrefs,
                optimized + skipped == i,
                capped <= optimized,
                skipped == count_skipped(*analysis, before.take(i as int)),
                capped == count_capped(*analysis, before.take(i as int), cap as nat),
        {
            proof {
                lemma_count_take_step(*analysis, before, i as int, cap as nat);
                assert(self.program.functions@[i as int]@ == self@.program.functions[i as int]);
                assert(self@.program.functions[i as int] == before[i as int]);
            }
            let ghost prev = self@.program.functions;
            match analysis.optimize(&self.program.functions[i]) {
                Result::Ok(g) => {
                    let outcome = dce_fixpoint(analysis, g, cap);
                    if !outcome.converged {
                        capped = capped + 1;
                    }
                    optimized = optimized + 1;
                    self.program.functions.set(i, outcome.function);
                    proof {
                        assert(self@.program.functions =~= prev.update(
                            i as int,
                            outcome.function@,
                        ));
                        assert(outcome.function@ == spec_translate_function(
                            *analysis,
                            before[i as int],
                            cap as nat,
                        ));
                    }
                },
                Result::Err(_) => {
                    skipped = skipped + 1;
                },
            }
        }
        proof {
            assert(before.take(n as int) =~= before);
            if program_wf(old(self)@.program) {
                assert forall|k: int| 0 <= k < n implies (#[trigger] self@.program.functions[k])
                    .index == Option::Some(k as usize) by {
                    lemma_translate_function_index(*analysis, before[k], cap as nat);
                }
            }
        }
        let new_xrefs = analysis.compute_xrefs(&self.program);
        self.xrefs = new_xrefs;
        TranslationSummary { optimized, skipped, capped }
    }
}

} // verus!
