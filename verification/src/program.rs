//! Blocks, edges, functions and whole programs, together with the
//! address-independent locations that queries answer with and the
//! cross-reference index derived from a program.

use vstd::prelude::*;
use crate::ir::{Expression, ExpressionV, Instruction, InstructionV, expr_view, opt_string_view};

verus! {

/// An ordered list of instructions with a stable index inside its function.
pub struct Block {
    pub index: usize,
    pub instructions: Vec<Instruction>,
}

/// A control-flow edge between two blocks of one function, with an optional
/// guard expression and an optional comment.
pub struct Edge {
    pub head: usize,
    pub tail: usize,
    pub condition: Option<Expression>,
    pub comment: Option<String>,
}

/// A lifted function: its address, its stable index inside the owning
/// program, its name, and its ordered blocks and edges.
pub struct Function {
    pub address: u64,
    pub index: Option<usize>,
    pub name: String,
    pub blocks: Vec<Block>,
    pub edges: Vec<Edge>,
}

/// An ordered collection of functions; the position of a function is its
/// stable index.
pub struct Program {
    pub functions: Vec<Function>,
}

/// A place inside one function: an instruction, an empty block, or an edge.
pub enum FunctionLocation {
    Instruction(usize, usize),
    EmptyBlock(usize),
    Edge(usize, usize),
}

/// A place inside a program: a function index plus a place inside it.
pub struct ProgramLocation {
    pub function_index: usize,
    pub function_location: FunctionLocation,
}

/// The bidirectional address-to-address reference index of one program,
/// one list of target addresses per source address and the converse.
pub struct XRefs {
    pub from_to: Vec<(u64, Vec<u64>)>,
    pub to_from: Vec<(u64, Vec<u64>)>,
}

pub struct BlockV {
    pub index: usize,
    pub instructions: Seq<InstructionV>,
}

pub struct EdgeV {
    pub head: usize,
    pub tail: usize,
    pub condition: Option<ExpressionV>,
    pub comment: Option<Seq<char>>,
}

pub struct FunctionV {
    pub address: u64,
    pub index: Option<usize>,
    pub name: Seq<char>,
    pub blocks: Seq<BlockV>,
    pub edges: Seq<EdgeV>,
}

pub struct ProgramV {
    pub functions: Seq<FunctionV>,
}

pub struct XRefsV {
    pub from_to: Seq<(u64, Seq<u64>)>,
    pub to_from: Seq<(u64, Seq<u64>)>,
}

impl View for Block {
    type V = BlockV;

    open spec fn view(&self) -> BlockV {
        BlockV {
            index: self.index,
            instructions: self.instructions@.map_values(|i: Instruction| i@),
        }
    }
}

impl View for Edge {
    type V = EdgeV;

    open spec fn view(&self) -> EdgeV {
        EdgeV {
            head: self.head,
            tail: self.tail,
            condition: match self.condition {
                Option::None => Option::None,
                Option::Some(e) => Option::Some(expr_view(e)),
            },
            comment: opt_string_view(self.comment),
        }
    }
}

impl View for Function {
    type V = FunctionV;

    open spec fn view(&self) -> FunctionV {
        FunctionV {
            address: self.address,
            index: self.index,
            name: self.name@,
            blocks: self.blocks@.map_values(|b: Block| b@),
            edges: self.edges@.map_values(|e: Edge| e@),
        }
    }
}

impl View for Program {
    type V = ProgramV;

    open spec fn view(&self) -> ProgramV {
        ProgramV { functions: self.functions@.map_values(|f: Function| f@) }
    }
}

impl View for FunctionLocation {
    type V = FunctionLocation;

    open spec fn view(&self) -> FunctionLocation {
        *self
    }
}

impl View for ProgramLocation {
    type V = ProgramLocation;

    open spec fn view(&self) -> ProgramLocation {
        *self
    }
}

impl Clone for FunctionLocation {
    fn clone(&self) -> (r: Self)
        ensures
            r == *self,
    {
        match self {
            FunctionLocation::Instruction(b, i) => FunctionLocation::Instruction(*b, *i),
            FunctionLocation::EmptyBlock(b) => FunctionLocation::EmptyBlock(*b),
            FunctionLocation::Edge(h, t) => FunctionLocation::Edge(*h, *t),
        }
    }
}

impl Clone for ProgramLocation {
    fn clone(&self) -> (r: Self)
        ensures
            r == *self,
    {
        ProgramLocation {
            function_index: self.function_index,
            function_location: self.function_location.clone(),
        }
    }
}

impl View for XRefs {
    type V = XRefsV;

    open spec fn view(&self) -> XRefsV {
        XRefsV {
            from_to: self.from_to@.map_values(|p: (u64, Vec<u64>)| (p.0, p.1@)),
            to_from: self.to_from@.map_values(|p: (u64, Vec<u64>)| (p.0, p.1@)),
        }
    }
}

impl XRefs {
    /// An index with no references recorded in either direction.
    pub fn new() -> (r: XRefs)
        ensures
            r@.from_to.len() == 0,
            r@.to_from.len() == 0,
    {
        XRefs { from_to: Vec::new(), to_from: Vec::new() }
    }
}

/// A well-formed program assigns each function the index of its position,
/// so that replacing a function preserves every stable index.
pub open spec fn program_wf(p: ProgramV) -> bool {
    forall|i: int|
        0 <= i < p.functions.len() ==> (#[trigger] p.functions[i].index) == Option::Some(
            i as usize,
        )
}

impl Program {
    /// The function at a stable index, if the index is in range.
    pub fn function(&self, index: usize) -> (r: Option<&Function>)
        ensures
            match r {
                Option::Some(f) => index < self@.functions.len() && f@ == self@.functions[
                    index as int
                ],
                Option::None => index >= self@.functions.len(),
            },
    {
        if index < self.functions.len() {
            Some(&self.functions[index])
        } else {
            None
        }
    }

    /// How many functions the program holds.
    pub fn function_count(&self) -> (r: usize)
        ensures
            r == self@.functions.len(),
    {
        self.functions.len()
    }

    /// Replaces the function at a stable index, keeping every other function.
    pub fn replace_function(&mut self, index: usize, function: Function)
        requires
            index < old(self)@.functions.len(),
        ensures
            final(self)@.functions == old(self)@.functions.update(index as int, function@),
    {
        self.functions.set(index, function);
        proof {
            assert(self@.functions =~= old(self)@.functions.update(index as int, function@));
        }
    }
}

} // verus!
