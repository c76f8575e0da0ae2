//! Structural equality over the intermediate representation: two nodes are
//! equal by content and index, never by identity.  The translation pipeline's
//! fixpoint is defined by this relation, so each function carries the proof
//! that it decides equality of the mathematical views.

use vstd::prelude::*;
use crate::ir::{
    Call, CallTarget, Constant, Expression, Instruction, Intrinsic, LValue, Operation, RValue,
    Variable, exprs_view, opt_exprs_view, opt_string_view, vars_view,
};
use crate::program::{Block, Edge, Function};

verus! {

/// Whether two variables are equal.
pub fn variable_eq(a: &Variable, b: &Variable) -> (r: bool)
    ensures
        r == (a@ == b@),
{
    match (a, b) {
        (Variable::Scalar(x), Variable::Scalar(y)) => x.name.eq(&y.name) && x.bits == y.bits,
        (Variable::StackVariable(x), Variable::StackVariable(y)) => x.offset == y.offset && x.bits
            == y.bits,
        _ => false,
    }
}

/// Whether two constants are equal.
pub fn constant_eq(a: &Constant, b: &Constant) -> (r: bool)
    ensures
        r == (a@ == b@),
{
    a.value == b.value && a.bits == b.bits
}

/// Whether two lvalues are equal.
pub fn lvalue_eq(a: &LValue, b: &LValue) -> (r: bool)
    ensures
        r == (a@ == b@),
    decreases *a,
{
    match (a, b) {
        (LValue::Variable(x), LValue::Variable(y)) => variable_eq(x, y),
        (LValue::Dereference(x), LValue::Dereference(y)) => expression_eq(
            &x.expression,
            &y.expression,
        ),
        _ => false,
    }
}

/// Whether two rvalues are equal.
pub fn rvalue_eq(a: &RValue, b: &RValue) -> (r: bool)
    ensures
        r == (a@ == b@),
    decreases *a,
{
    match (a, b) {
        (RValue::Value(x), RValue::Value(y)) => constant_eq(x, y),
        (RValue::Reference(x), RValue::Reference(y)) => expression_eq(
            &x.expression,
            &y.expression,
        ),
        _ => false,
    }
}

/// Whether two expression trees are equal node for node.
#[verifier::rlimit(100)]
pub fn expression_eq(a: &Expression, b: &Expression) -> (r: bool)
    ensures
        r == (a@ == b@),
    decreases *a,
{
    match (a, b) {
        (Expression::LValue(x), Expression::LValue(y)) => lvalue_eq(x, y),
        (Expression::RValue(x), Expression::RValue(y)) => rvalue_eq(x, y),
        (Expression::Add(ax, ay), Expression::Add(bx, by)) => expression_eq(ax, bx)
            && expression_eq(ay, by),
        (Expression::Sub(ax, ay), Expression::Sub(bx, by)) => expression_eq(ax, bx)
            && expression_eq(ay, by),
        (Expression::Mul(ax, ay), Expression::Mul(bx, by)) => expression_eq(ax, bx)
            && expression_eq(ay, by),
        (Expression::Divu(ax, ay), Expression::Divu(bx, by)) => expression_eq(ax, bx)
            && expression_eq(ay, by),
        (Expression::Modu(ax, ay), Expression::Modu(bx, by)) => expression_eq(ax, bx)
            && expression_eq(ay, by),
        (Expression::Divs(ax, ay), Expression::Divs(bx, by)) => expression_eq(ax, bx)
            && expression_eq(ay, by),
        (Expression::Mods(ax, ay), Expression::Mods(bx, by)) => expression_eq(ax, bx)
            && expression_eq(ay, by),
        (Expression::And(ax, ay), Expression::And(bx, by)) => expression_eq(ax, bx)
            && expression_eq(ay, by),
        (Expression::Or(ax, ay), Expression::Or(bx, by)) => expression_eq(ax, bx)
            && expression_eq(ay, by),
        (Expression::Xor(ax, ay), Expression::Xor(bx, by)) => expression_eq(ax, bx)
            && expression_eq(ay, by),
        (Expression::Shl(ax, ay), Expression::Shl(bx, by)) => expression_eq(ax, bx)
            && expression_eq(ay, by),
        (Expression::Shr(ax, ay), Expression::Shr(bx, by)) => expression_eq(ax, bx)
            && expression_eq(ay, by),
        (Expression::Cmpeq(ax, ay), Expression::Cmpeq(bx, by)) => expression_eq(ax, bx)
            && expression_eq(ay, by),
        (Expression::Cmpneq(ax, ay), Expression::Cmpneq(bx, by)) => expression_eq(ax, bx)
            && expression_eq(ay, by),
        (Expression::Cmplts(ax, ay), Expression::Cmplts(bx, by)) => expression_eq(ax, bx)
            && expression_eq(ay, by),
        (Expression::Cmpltu(ax, ay), Expression::Cmpltu(bx, by)) => expression_eq(ax, bx)
            && expression_eq(ay, by),
        (Expression::Trun(abits, ax), Expression::Trun(bbits, bx)) => *abits == *bbits
            && expression_eq(ax, bx),
        (Expression::Sext(abits, ax), Expression::Sext(bbits, bx)) => *abits == *bbits
            && expression_eq(ax, bx),
        (Expression::Zext(abits, ax), Expression::Zext(bbits, bx)) => *abits == *bbits
            && expression_eq(ax, bx),
        (Expression::Ite(ac, at, af), Expression::Ite(bc, bt, bf)) => expression_eq(ac, bc)
            && expression_eq(at, bt) && expression_eq(af, bf),
        _ => false,
    }
}

/// Whether two expression lists are equal element for element.
#[verifier::loop_isolation(false)]
pub fn exprs_eq(a: &Vec<Expression>, b: &Vec<Expression>) -> (r: bool)
    ensures
        r == (exprs_view(a@) == exprs_view(b@)),
{
    let n = a.len();
    if n != b.len() {
        proof {
            assert(exprs_view(a@).len() == a@.len());
            assert(exprs_view(b@).len() == b@.len());
        }
        return false;
    }
    for i in 0..n
        invariant
            forall|k: int| 0 <= k < i ==> exprs_view(a@)[k] == exprs_view(b@)[k],
    {
        proof {
            assert(exprs_view(a@)[i as int] == crate::ir::expr_view(a@[i as int]));
            assert(exprs_view(b@)[i as int] == crate::ir::expr_view(b@[i as int]));
        }
        if !expression_eq(&a[i], &b[i]) {
            return false;
        }
    }
    proof {
        assert(exprs_view(a@) =~= exprs_view(b@));
    }
    true
}

/// Whether two optional expression lists are equal.
pub fn opt_exprs_eq(a: &Option<Vec<Expression>>, b: &Option<Vec<Expression>>) -> (r: bool)
    ensures
        r == (opt_exprs_view(*a) == opt_exprs_view(*b)),
{
    match (a, b) {
        (Option::None, Option::None) => true,
        (Option::Some(x), Option::Some(y)) => exprs_eq(x, y),
        _ => false,
    }
}

/// Whether two variable lists are equal element for element.
#[verifier::loop_isolation(false)]
pub fn vars_eq(a: &Vec<Variable>, b: &Vec<Variable>) -> (r: bool)
    ensures
        r == (vars_view(a@) == vars_view(b@)),
{
    let n = a.len();
    if n != b.len() {
        proof {
            assert(vars_view(a@).len() == a@.len());
            assert(vars_view(b@).len() == b@.len());
        }
        return false;
    }
    for i in 0..n
        invariant
            forall|k: int| 0 <= k < i ==> vars_view(a@)[k] == vars_view(b@)[k],
    {
        proof {
            assert(vars_view(a@)[i as int] == a@[i as int]@);
            assert(vars_view(b@)[i as int] == b@[i as int]@);
        }
        if !variable_eq(&a[i], &b[i]) {
            return false;
        }
    }
    proof {
        assert(vars_view(a@) =~= vars_view(b@));
    }
    true
}

/// Whether two optional comments are equal.
pub fn opt_string_eq(a: &Option<String>, b: &Option<String>) -> (r: bool)
    ensures
        r == (opt_string_view(*a) == opt_string_view(*b)),
{
    match (a, b) {
        (Option::None, Option::None) => true,
        (Option::Some(x), Option::Some(y)) => x.eq(y),
        _ => false,
    }
}

/// Whether two call targets are equal.
pub fn call_target_eq(a: &CallTarget, b: &CallTarget) -> (r: bool)
    ensures
        r == (a@ == b@),
{
    match (a, b) {
        (CallTarget::Expression(x), CallTarget::Expression(y)) => expression_eq(x, y),
        (CallTarget::Symbol(x), CallTarget::Symbol(y)) => x.eq(y),
        (CallTarget::FunctionId(x), CallTarget::FunctionId(y)) => *x == *y,
        _ => false,
    }
}

/// Whether two calls are equal: same target, arguments and written variables.
pub fn call_eq(a: &Call, b: &Call) -> (r: bool)
    ensures
        r == (a@ == b@),
{
    let vw = match (&a.variables_written, &b.variables_written) {
        (Option::None, Option::None) => true,
        (Option::Some(x), Option::Some(y)) => vars_eq(x, y),
        _ => false,
    };
    vw && call_target_eq(&a.target, &b.target) && opt_exprs_eq(&a.arguments, &b.arguments)
}

/// Whether two byte lists are equal.
#[verifier::loop_isolation(false)]
pub fn bytes_eq(a: &Vec<u8>, b: &Vec<u8>) -> (r: bool)
    ensures
        r == (a@ == b@),
{
    let n = a.len();
    if n != b.len() {
        return false;
    }
    for i in 0..n
        invariant
            forall|k: int| 0 <= k < i ==> a@[k] == b@[k],
    {
        if a[i] != b[i] {
            return false;
        }
    }
    proof {
        assert(a@ =~= b@);
    }
    true
}

/// Whether two intrinsics are equal.
pub fn intrinsic_eq(a: &Intrinsic, b: &Intrinsic) -> (r: bool)
    ensures
        r == (a@ == b@),
{
    a.mnemonic.eq(&b.mnemonic) && a.instruction_str.eq(&b.instruction_str) && exprs_eq(
        &a.arguments,
        &b.arguments,
    ) && opt_exprs_eq(&a.written_expressions, &b.written_expressions) && opt_exprs_eq(
        &a.read_expressions,
        &b.read_expressions,
    ) && bytes_eq(&a.bytes, &b.bytes)
}

/// Whether two optional expressions are equal.
pub fn opt_expression_eq(a: &Option<Expression>, b: &Option<Expression>) -> (r: bool)
    ensures
        r == (match (*a, *b) {
            (Option::None, Option::None) => true,
            (Option::Some(x), Option::Some(y)) => crate::ir::expr_view(x) == crate::ir::expr_view(
                y,
            ),
            _ => false,
        }),
{
    match (a, b) {
        (Option::None, Option::None) => true,
        (Option::Some(x), Option::Some(y)) => expression_eq(x, y),
        _ => false,
    }
}

/// Whether two operations are equal.
pub fn operation_eq(a: &Operation, b: &Operation) -> (r: bool)
    ensures
        r == (a@ == b@),
{
    match (a, b) {
        (
            Operation::Assign { dst: adst, src: asrc },
            Operation::Assign { dst: bdst, src: bsrc },
        ) => variable_eq(adst, bdst) && expression_eq(asrc, bsrc),
        (
            Operation::Store { index: aindex, src: asrc },
            Operation::Store { index: bindex, src: bsrc },
        ) => expression_eq(aindex, bindex) && expression_eq(asrc, bsrc),
        (
            Operation::Load { dst: adst, index: aindex },
            Operation::Load { dst: bdst, index: bindex },
        ) => variable_eq(adst, bdst) && expression_eq(aindex, bindex),
        (Operation::Branch { target: atarget }, Operation::Branch { target: btarget }) => {
            expression_eq(atarget, btarget)
        },
        (Operation::Call(x), Operation::Call(y)) => call_eq(x, y),
        (Operation::Intrinsic(x), Operation::Intrinsic(y)) => intrinsic_eq(x, y),
        (Operation::Return(x), Operation::Return(y)) => opt_expression_eq(x, y),
        (Operation::Nop, Operation::Nop) => true,
        _ => false,
    }
}

/// Whether two instructions are equal by content and index.
pub fn instruction_eq(a: &Instruction, b: &Instruction) -> (r: bool)
    ensures
        r == (a@ == b@),
{
    a.index == b.index && a.address == b.address && opt_string_eq(&a.comment, &b.comment)
        && operation_eq(&a.operation, &b.operation)
}

/// Whether two blocks are equal: same index, same instruction list.
#[verifier::loop_isolation(false)]
pub fn block_eq(a: &Block, b: &Block) -> (r: bool)
    ensures
        r == (a@ == b@),
{
    if a.index != b.index {
        return false;
    }
    let n = a.instructions.len();
    if n != b.instructions.len() {
        proof {
            assert(a@.instructions.len() == a.instructions@.len());
            assert(b@.instructions.len() == b.instructions@.len());
        }
        return false;
    }
    for i in 0..n
        invariant
            forall|k: int| 0 <= k < i ==> a@.instructions[k] == b@.instructions[k],
    {
        proof {
            assert(a@.instructions[i as int] == a.instructions@[i as int]@);
            assert(b@.instructions[i as int] == b.instructions@[i as int]@);
        }
        if !instruction_eq(&a.instructions[i], &b.instructions[i]) {
            return false;
        }
    }
    proof {
        assert(a@.instructions =~= b@.instructions);
    }
    true
}

/// Whether two edges are equal: endpoints, guard and comment.
pub fn edge_eq(a: &Edge, b: &Edge) -> (r: bool)
    ensures
        r == (a@ == b@),
{
    let cond = match (&a.condition, &b.condition) {
        (Option::None, Option::None) => true,
        (Option::Some(x), Option::Some(y)) => expression_eq(x, y),
        _ => false,
    };
    a.head == b.head && a.tail == b.tail && cond && opt_string_eq(&a.comment, &b.comment)
}

/// Whether two functions are structurally equal: every block, edge,
/// instruction and operand, by content and index.
#[verifier::loop_isolation(false)]
pub fn function_eq(a: &Function, b: &Function) -> (r: bool)
    ensures
        r == (a@ == b@),
{
    if a.address != b.address || !a.name.eq(&b.name) {
        return false;
    }
    let index_eq = match (a.index, b.index) {
        (Option::None, Option::None) => true,
        (Option::Some(x), Option::Some(y)) => x == y,
        _ => false,
    };
    if !index_eq {
        return false;
    }
    let nb = a.blocks.len();
    if nb != b.blocks.len() {
        proof {
            assert(a@.blocks.len() == a.blocks@.len());
            assert(b@.blocks.len() == b.blocks@.len());
        }
        return false;
    }
    for i in 0..nb
        invariant
            forall|k: int| 0 <= k < i ==> a@.blocks[k] == b@.blocks[k],
    {
        proof {
            assert(a@.blocks[i as int] == a.blocks@[i as int]@);
            assert(b@.blocks[i as int] == b.blocks@[i as int]@);
        }
        if !block_eq(&a.blocks[i], &b.blocks[i]) {
            return false;
        }
    }
    let ne = a.edges.len();
    if ne != b.edges.len() {
        proof {
            assert(a@.edges.len() == a.edges@.len());
            assert(b@.edges.len() == b.edges@.len());
        }
        return false;
    }
    for i in 0..ne
        invariant
            forall|k: int| 0 <= k < i ==> a@.edges[k] == b@.edges[k],
            forall|k: int| 0 <= k < nb ==> a@.blocks[k] == b@.blocks[k],
    {
        proof {
            assert(a@.edges[i as int] == a.edges@[i as int]@);
            assert(b@.edges[i as int] == b.edges@[i as int]@);
        }
        if !edge_eq(&a.edges[i], &b.edges[i]) {
            return false;
        }
    }
    proof {
        assert(a@.blocks =~= b@.blocks);
        assert(a@.edges =~= b@.edges);
    }
    true
}

} // verus!
