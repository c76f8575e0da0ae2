//! Address resolution and symbol-call search over a program snapshot.
//!
//! Resolution scans every function, block and instruction in index order and
//! answers with the first instruction recorded at the queried address;
//! instructions synthesized without an address never match.  The search
//! enumerates every call instruction whose target is exactly the queried
//! symbol, in function-then-block-then-instruction order.

use vstd::prelude::*;
use crate::ir::{CallTargetV, Instruction, InstructionV, OperationV};
use crate::program::{
    BlockV, Function, FunctionLocation, FunctionV, Program, ProgramLocation, ProgramV, program_wf,
};

verus! {

/// Whether an instruction was lifted from the queried address.
pub open spec fn instr_at(i: InstructionV, address: u64) -> bool {
    i.address == Option::Some(address)
}

/// Whether any instruction of a block sits at the address.
pub open spec fn block_has_addr(b: BlockV, address: u64) -> bool {
    exists|k: int| 0 <= k < b.instructions.len() && instr_at(#[trigger] b.instructions[k], address)
}

/// Whether any instruction of a function sits at the address.
pub open spec fn function_has_addr(f: FunctionV, address: u64) -> bool {
    exists|k: int| 0 <= k < f.blocks.len() && block_has_addr(#[trigger] f.blocks[k], address)
}

/// Whether any instruction of a program sits at the address.
pub open spec fn program_has_addr(p: ProgramV, address: u64) -> bool {
    exists|k: int| 0 <= k < p.functions.len() && function_has_addr(
        #[trigger] p.functions[k],
        address,
    )
}

/// Whether the instruction at a position is the first one recorded at the
/// address, in function-then-block-then-instruction order.
pub open spec fn is_first_match(p: ProgramV, address: u64, fi: int, bi: int, ii: int) -> bool {
    &&& 0 <= fi < p.functions.len()
    &&& 0 <= bi < p.functions[fi].blocks.len()
    &&& 0 <= ii < p.functions[fi].blocks[bi].instructions.len()
    &&& instr_at(p.functions[fi].blocks[bi].instructions[ii], address)
    &&& forall|k: int| 0 <= k < fi ==> !function_has_addr(#[trigger] p.functions[k], address)
    &&& forall|k: int|
        0 <= k < bi ==> !block_has_addr(#[trigger] p.functions[fi].blocks[k], address)
    &&& forall|k: int|
        0 <= k < ii ==> !instr_at(#[trigger] p.functions[fi].blocks[bi].instructions[k], address)
}

/// Where an address resolves to: the function's stable index and name, the
/// block's index, and the instruction itself.
pub struct Resolved<'a> {
    pub function_index: usize,
    pub function_name: &'a String,
    pub block_index: usize,
    pub instruction: &'a Instruction,
}

/// Whether a well-formed program carries its functions under their stable
/// indices; establishes the precondition of the queries.
#[verifier::loop_isolation(false)]
pub fn check_program_wf(program: &Program) -> (r: bool)
    ensures
        r == program_wf(program@),
{
    let n = program.functions.len();
    for i in 0..n
        invariant
            forall|k: int|
                0 <= k < i ==> (#[trigger] program@.functions[k]).index == Option::Some(k as usize),
    {
        proof {
            assert(program@.functions[i as int] == program.functions@[i as int]@);
        }
        let ok = match program.functions[i].index {
            Option::Some(x) => x == i,
            Option::None => false,
        };
        if !ok {
            return false;
        }
    }
    true
}

/// Resolves an address to the first instruction recorded at it, enriched
/// with the owning function's stable index and name and the block's index;
/// nothing when no instruction carries the address.
#[verifier::loop_isolation(false)]
pub fn resolve<'a>(program: &'a Program, address: u64) -> (r: Option<Resolved<'a>>)
    requires
        program_wf(program@),
    ensures
        match r {
            Option::None => !program_has_addr(program@, address),
            Option::Some(res) => exists|fi: int, bi: int, ii: int|
                {
                    &&& #[trigger] is_first_match(program@, address, fi, bi, ii)
                    &&& res.function_index == fi
                    &&& res.function_name@ == program@.functions[fi].name
                    &&& res.block_index == program@.functions[fi].blocks[bi].index
                    &&& res.instruction@ == program@.functions[fi].blocks[bi].instructions[ii]
                },
        },
{
    let nf = program.functions.len();
    for fi in 0..nf
        invariant
            forall|k: int| 0 <= k < fi ==> !function_has_addr(#[trigger] program@.functions[k], address),
    {
        let f = &program.functions[fi];
        proof {
            assert(f@ == program@.functions[fi as int]);
        }
        let nb = f.blocks.len();
        for bi in 0..nb
            invariant
                forall|k: int|
                    0 <= k < bi ==> !block_has_addr(#[trigger] f@.blocks[k], address),
        {
            let b = &f.blocks[bi];
            proof {
                assert(b@ == f@.blocks[bi as int]);
            }
            let ni = b.instructions.len();
            for ii in 0..ni
                invariant
                    forall|k: int|
                        0 <= k < ii ==> !instr_at(#[trigger] b@.instructions[k], address),
            {
                let instruction = &b.instructions[ii];
                proof {
                    assert(instruction@ == b@.instructions[ii as int]);
                }
                let here = match instruction.address {
                    Option::Some(a) => a == address,
                    Option::None => false,
                };
                if here {
                    proof {
                        assert(is_first_match(
                            program@,
                            address,
                            fi as int,
                            bi as int,
                            ii as int,
                        ));
                    }
                    return Some(
                        Resolved {
                            function_index: fi,
                            function_name: &f.name,
                            block_index: b.index,
                            instruction,
                        },
                    );
                }
            }
            proof {
                assert(b@.instructions.len() == ni);
                assert(!block_has_addr(f@.blocks[bi as int], address));
            }
        }
        proof {
            assert(f@.blocks.len() == nb);
            assert(!function_has_addr(program@.functions[fi as int], address));
        }
    }
    proof {
        assert(program@.functions.len() == nf);
    }
    None
}

} // verus!

verus! {

/// The symbol a call instruction targets, if its operation is a call whose
/// target is a named symbol.
pub open spec fn instr_call_symbol(i: InstructionV) -> Option<Seq<char>> {
    match i.operation {
        OperationV::Call(c) => match c.target {
            CallTargetV::Symbol(s) => Option::Some(s),
            _ => Option::None,
        },
        _ => Option::None,
    }
}

/// Whether an instruction calls exactly the queried symbol.
pub open spec fn calls_symbol(i: InstructionV, symbol: Seq<char>) -> bool {
    instr_call_symbol(i) == Option::Some(symbol)
}

/// The locations of the matching instructions of one block, in order; each
/// is named by the block's and the instruction's own index.
pub open spec fn spec_instrs_calls(
    function_index: usize,
    block_index: usize,
    instrs: Seq<InstructionV>,
    symbol: Seq<char>,
) -> Seq<ProgramLocation>
    decreases instrs.len(),
{
    if instrs.len() == 0 {
        Seq::empty()
    } else {
        spec_instrs_calls(function_index, block_index, instrs.drop_last(), symbol) + (
        if calls_symbol(instrs.last(), symbol) {
            seq![
                ProgramLocation {
                    function_index,
                    function_location: FunctionLocation::Instruction(
                        block_index,
                        instrs.last().index,
                    ),
                },
            ]
        } else {
            Seq::empty()
        })
    }
}

/// The locations of the matching instructions of one function's blocks.
pub open spec fn spec_blocks_calls(
    function_index: usize,
    blocks: Seq<BlockV>,
    symbol: Seq<char>,
) -> Seq<ProgramLocation>
    decreases blocks.len(),
{
    if blocks.len() == 0 {
        Seq::empty()
    } else {
        spec_blocks_calls(function_index, blocks.drop_last(), symbol) + spec_instrs_calls(
            function_index,
            blocks.last().index,
            blocks.last().instructions,
            symbol,
        )
    }
}

/// The locations of every instruction of the program that calls the symbol,
/// in function-then-block-then-instruction order.
pub open spec fn spec_program_calls(fs: Seq<FunctionV>, symbol: Seq<char>) -> Seq<ProgramLocation>
    decreases fs.len(),
{
    if fs.len() == 0 {
        Seq::empty()
    } else {
        spec_program_calls(fs.drop_last(), symbol) + spec_blocks_calls(
            (fs.len() - 1) as usize,
            fs.last().blocks,
            symbol,
        )
    }
}

/// Extending a prefix of instructions appends that instruction's match.
proof fn lemma_instrs_calls_step(
    function_index: usize,
    block_index: usize,
    instrs: Seq<InstructionV>,
    symbol: Seq<char>,
    i: int,
)
    requires
        0 <= i < instrs.len(),
    ensures
        spec_instrs_calls(function_index, block_index, instrs.take(i + 1), symbol)
            == spec_instrs_calls(function_index, block_index, instrs.take(i), symbol) + (
        if calls_symbol(instrs[i], symbol) {
            seq![
                ProgramLocation {
                    function_index,
                    function_location: FunctionLocation::Instruction(block_index, instrs[i].index),
                },
            ]
        } else {
            Seq::<ProgramLocation>::empty()
        }),
{
    assert(instrs.take(i + 1).drop_last() =~= instrs.take(i));
    assert(instrs.take(i + 1).last() == instrs[i]);
}

/// Extending a prefix of blocks appends that block's matches.
proof fn lemma_blocks_calls_step(
    function_index: usize,
    blocks: Seq<BlockV>,
    symbol: Seq<char>,
    i: int,
)
    requires
        0 <= i < blocks.len(),
    ensures
        spec_blocks_calls(function_index, blocks.take(i + 1), symbol) == spec_blocks_calls(
            function_index,
            blocks.take(i),
            symbol,
        ) + spec_instrs_calls(function_index, blocks[i].index, blocks[i].instructions, symbol),
{
    assert(blocks.take(i + 1).drop_last() =~= blocks.take(i));
    assert(blocks.take(i + 1).last() == blocks[i]);
}

/// Extending a prefix of functions appends that function's matches.
proof fn lemma_program_calls_step(fs: Seq<FunctionV>, symbol: Seq<char>, i: int)
    requires
        0 <= i < fs.len(),
    ensures
        spec_program_calls(fs.take(i + 1), symbol) == spec_program_calls(fs.take(i), symbol)
            + spec_blocks_calls(i as usize, fs[i].blocks, symbol),
{
    assert(fs.take(i + 1).drop_last() =~= fs.take(i));
    assert(fs.take(i + 1).last() == fs[i]);
}

/// Finds every call to a symbol: exactly the instructions whose operation is
/// a call targeting that symbol, case-sensitively, each projected as a
/// program location, in function-then-block-then-instruction order.
#[verifier::loop_isolation(false)]
pub fn find_calls(program: &Program, symbol: &String) -> (r: Vec<ProgramLocation>)
    ensures
        r@ == spec_program_calls(program@.functions, symbol@),
{
    let mut out: Vec<ProgramLocation> = Vec::new();
    let nf = program.functions.len();
    for fi in 0..nf
        invariant
            out@ == spec_program_calls(program@.functions.take(fi as int), symbol@),
    {
        let f = &program.functions[fi];
        proof {
            assert(f@ == program@.functions[fi as int]);
            lemma_program_calls_step(program@.functions, symbol@, fi as int);
        }
        let nb = f.blocks.len();
        for bi in 0..nb
            invariant
                out@ == spec_program_calls(program@.functions.take(fi as int), symbol@)
                    + spec_blocks_calls(fi, f@.blocks.take(bi as int), symbol@),
        {
            let b = &f.blocks[bi];
            proof {
                assert(b@ == f@.blocks[bi as int]);
                lemma_blocks_calls_step(fi, f@.blocks, symbol@, bi as int);
            }
            let ni = b.instructions.len();
            for ii in 0..ni
                invariant
                    out@ == spec_program_calls(program@.functions.take(fi as int), symbol@)
                        + spec_blocks_calls(fi, f@.blocks.take(bi as int), symbol@)
                        + spec_instrs_calls(fi, b.index, b@.instructions.take(ii as int), symbol@),
            {
                let instruction = &b.instructions[ii];
                proof {
                    assert(instruction@ == b@.instructions[ii as int]);
                    lemma_instrs_calls_step(fi, b.index, b@.instructions, symbol@, ii as int);
                }
                let matched = match &instruction.operation {
                    crate::ir::Operation::Call(c) => match &c.target {
                        crate::ir::CallTarget::Symbol(s) => s.eq(symbol),
                        _ => false,
                    },
                    _ => false,
                };
                if matched {
                    out.push(
                        ProgramLocation {
                            function_index: fi,
                            function_location: FunctionLocation::Instruction(
                                b.index,
                                instruction.index,
                            ),
                        },
                    );
                }
            }
            proof {
                assert(b@.instructions.take(ni as int) =~= b@.instructions);
            }
        }
        proof {
            assert(f@.blocks.take(nb as int) =~= f@.blocks);
        }
    }
    proof {
        assert(program@.functions.take(nf as int) =~= program@.functions);
    }
    out
}

} // verus!

verus! {

/// Every location of a block's match list names an instruction of that
/// block whose operation calls exactly the queried symbol.
proof fn lemma_instrs_calls_only(
    function_index: usize,
    block_index: usize,
    instrs: Seq<InstructionV>,
    symbol: Seq<char>,
    j: int,
)
    requires
        0 <= j < spec_instrs_calls(function_index, block_index, instrs, symbol).len(),
    ensures
        exists|ii: int|
            {
                &&& 0 <= ii < instrs.len()
                &&& calls_symbol(#[trigger] instrs[ii], symbol)
                &&& spec_instrs_calls(function_index, block_index, instrs, symbol)[j]
                    == ProgramLocation {
                    function_index,
                    function_location: FunctionLocation::Instruction(
                        block_index,
                        instrs[ii].index,
                    ),
                }
            },
    decreases instrs.len(),
{
    let whole = spec_instrs_calls(function_index, block_index, instrs, symbol);
    let prefix = spec_instrs_calls(function_index, block_index, instrs.drop_last(), symbol);
    if j < prefix.len() {
        lemma_instrs_calls_only(function_index, block_index, instrs.drop_last(), symbol, j);
        let ii = choose|ii: int|
            {
                &&& 0 <= ii < instrs.drop_last().len()
                &&& calls_symbol(#[trigger] instrs.drop_last()[ii], symbol)
                &&& prefix[j] == ProgramLocation {
                    function_index,
                    function_location: FunctionLocation::Instruction(
                        block_index,
                        instrs.drop_last()[ii].index,
                    ),
                }
            };
        assert(instrs.drop_last()[ii] == instrs[ii]);
        assert(whole[j] == prefix[j]);
    } else {
        assert(calls_symbol(instrs.last(), symbol));
        let ii = instrs.len() - 1;
        assert(instrs[ii] == instrs.last());
        assert(whole[j] == ProgramLocation {
            function_index,
            function_location: FunctionLocation::Instruction(block_index, instrs[ii].index),
        });
    }
}

/// Every location of a function's match list names a call instruction of
/// one of its blocks.
proof fn lemma_blocks_calls_only(
    function_index: usize,
    blocks: Seq<BlockV>,
    symbol: Seq<char>,
    j: int,
)
    requires
        0 <= j < spec_blocks_calls(function_index, blocks, symbol).len(),
    ensures
        exists|bi: int, ii: int|
            {
                &&& 0 <= bi < blocks.len()
                &&& 0 <= ii < blocks[bi].instructions.len()
                &&& calls_symbol(#[trigger] blocks[bi].instructions[ii], symbol)
                &&& spec_blocks_calls(function_index, blocks, symbol)[j] == ProgramLocation {
                    function_index,
                    function_location: FunctionLocation::Instruction(
                        blocks[bi].index,
                        blocks[bi].instructions[ii].index,
                    ),
                }
            },
    decreases blocks.len(),
{
    let whole = spec_blocks_calls(function_index, blocks, symbol);
    let prefix = spec_blocks_calls(function_index, blocks.drop_last(), symbol);
    if j < prefix.len() {
        lemma_blocks_calls_only(function_index, blocks.drop_last(), symbol, j);
        let (bi, ii) = choose|bi: int, ii: int|
            {
                &&& 0 <= bi < blocks.drop_last().len()
                &&& 0 <= ii < blocks.drop_last()[bi].instructions.len()
                &&& calls_symbol(#[trigger] blocks.drop_last()[bi].instructions[ii], symbol)
                &&& prefix[j] == ProgramLocation {
                    function_index,
                    function_location: FunctionLocation::Instruction(
                        blocks.drop_last()[bi].index,
                        blocks.drop_last()[bi].instructions[ii].index,
                    ),
                }
            };
        assert(blocks.drop_last()[bi] == blocks[bi]);
        assert(whole[j] == prefix[j]);
    } else {
        let b = blocks.last();
        lemma_instrs_calls_only(
            function_index,
            b.index,
            b.instructions,
            symbol,
            j - prefix.len(),
        );
        let ii = choose|ii: int|
            {
                &&& 0 <= ii < b.instructions.len()
                &&& calls_symbol(#[trigger] b.instructions[ii], symbol)
                &&& spec_instrs_calls(function_index, b.index, b.instructions, symbol)[j
                    - prefix.len()] == ProgramLocation {
                    function_index,
                    function_location: FunctionLocation::Instruction(
                        b.index,
                        b.instructions[ii].index,
                    ),
                }
            };
        let bi = blocks.len() - 1;
        assert(blocks[bi] == b);
        assert(whole[j] == spec_instrs_calls(function_index, b.index, b.instructions, symbol)[j
            - prefix.len()]);
    }
}

/// The search is sound: every reported location names an instruction whose
/// operation is a call targeting exactly the queried symbol.
pub proof fn lemma_find_calls_only_matches(fs: Seq<FunctionV>, symbol: Seq<char>, j: int)
    requires
        0 <= j < spec_program_calls(fs, symbol).len(),
    ensures
        exists|fi: int, bi: int, ii: int|
            {
                &&& 0 <= fi < fs.len()
                &&& 0 <= bi < fs[fi].blocks.len()
                &&& 0 <= ii < fs[fi].blocks[bi].instructions.len()
                &&& calls_symbol(#[trigger] fs[fi].blocks[bi].instructions[ii], symbol)
                &&& spec_program_calls(fs, symbol)[j] == ProgramLocation {
                    function_index: fi as usize,
                    function_location: FunctionLocation::Instruction(
                        fs[fi].blocks[bi].index,
                        fs[fi].blocks[bi].instructions[ii].index,
                    ),
                }
            },
    decreases fs.len(),
{
    let whole = spec_program_calls(fs, symbol);
    let prefix = spec_program_calls(fs.drop_last(), symbol);
    if j < prefix.len() {
        lemma_find_calls_only_matches(fs.drop_last(), symbol, j);
        let (fi, bi, ii) = choose|fi: int, bi: int, ii: int|
            {
                &&& 0 <= fi < fs.drop_last().len()
                &&& 0 <= bi < fs.drop_last()[fi].blocks.len()
                &&& 0 <= ii < fs.drop_last()[fi].blocks[bi].instructions.len()
                &&& calls_symbol(
                    #[trigger] fs.drop_last()[fi].blocks[bi].instructions[ii],
                    symbol,
                )
                &&& prefix[j] == ProgramLocation {
                    function_index: fi as usize,
                    function_location: FunctionLocation::Instruction(
                        fs.drop_last()[fi].blocks[bi].index,
                        fs.drop_last()[fi].blocks[bi].instructions[ii].index,
                    ),
                }
            };
        assert(fs.drop_last()[fi] == fs[fi]);
        assert(whole[j] == prefix[j]);
    } else {
        let fi = fs.len() - 1;
        let f = fs.last();
        lemma_blocks_calls_only((fi) as usize, f.blocks, symbol, j - prefix.len());
        let (bi, ii) = choose|bi: int, ii: int|
            {
                &&& 0 <= bi < f.blocks.len()
                &&& 0 <= ii < f.blocks[bi].instructions.len()
                &&& calls_symbol(#[trigger] f.blocks[bi].instructions[ii], symbol)
                &&& spec_blocks_calls(fi as usize, f.blocks, symbol)[j - prefix.len()]
                    == ProgramLocation {
                    function_index: fi as usize,
                    function_location: FunctionLocation::Instruction(
                        f.blocks[bi].index,
                        f.blocks[bi].instructions[ii].index,
                    ),
                }
            };
        assert(fs[fi] == f);
        assert(whole[j] == spec_blocks_calls(fi as usize, f.blocks, symbol)[j - prefix.len()]);
    }
}

} // verus!
