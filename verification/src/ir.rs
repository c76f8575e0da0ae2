//! The intermediate representation of a lifted program, from variables and
//! constants up to expressions, calls, intrinsics and operations.
//!
//! Every executable type has a mathematical view (`...V`) that the contracts
//! of the projection, search and pipeline layers speak of.

use vstd::prelude::*;

verus! {

// ---------------------------------------------------------------------------
// Executable types
// ---------------------------------------------------------------------------

/// A named register-like value of a given bit width.
pub struct Scalar {
    pub name: String,
    pub bits: usize,
}

/// A value at a fixed offset in the stack frame.
pub struct StackVariable {
    pub offset: i64,
    pub bits: usize,
}

/// A location a value can be assigned to.
pub enum Variable {
    Scalar(Scalar),
    StackVariable(StackVariable),
}

/// A constant of a given bit width.
pub struct Constant {
    pub value: u64,
    pub bits: usize,
}

/// A memory cell named by the address an expression evaluates to.
pub struct Dereference {
    pub expression: Box<Expression>,
}

/// The address of an expression's value.
pub struct Reference {
    pub expression: Box<Expression>,
}

/// An expression that names a storage location.
pub enum LValue {
    Variable(Variable),
    Dereference(Dereference),
}

/// An expression that yields a plain value.
pub enum RValue {
    Value(Constant),
    Reference(Reference),
}

/// A recursive expression tree over lvalues, rvalues, binary operators,
/// width-changing operators and a three-way conditional.
pub enum Expression {
    LValue(Box<LValue>),
    RValue(Box<RValue>),
    Add(Box<Expression>, Box<Expression>),
    Sub(Box<Expression>, Box<Expression>),
    Mul(Box<Expression>, Box<Expression>),
    Divu(Box<Expression>, Box<Expression>),
    Modu(Box<Expression>, Box<Expression>),
    Divs(Box<Expression>, Box<Expression>),
    Mods(Box<Expression>, Box<Expression>),
    And(Box<Expression>, Box<Expression>),
    Or(Box<Expression>, Box<Expression>),
    Xor(Box<Expression>, Box<Expression>),
    Shl(Box<Expression>, Box<Expression>),
    Shr(Box<Expression>, Box<Expression>),
    Cmpeq(Box<Expression>, Box<Expression>),
    Cmpneq(Box<Expression>, Box<Expression>),
    Cmplts(Box<Expression>, Box<Expression>),
    Cmpltu(Box<Expression>, Box<Expression>),
    Trun(usize, Box<Expression>),
    Sext(usize, Box<Expression>),
    Zext(usize, Box<Expression>),
    Ite(Box<Expression>, Box<Expression>, Box<Expression>),
}

// ---------------------------------------------------------------------------
// Views
// ---------------------------------------------------------------------------

pub struct ScalarV {
    pub name: Seq<char>,
    pub bits: usize,
}

pub struct StackVariableV {
    pub offset: i64,
    pub bits: usize,
}

pub enum VariableV {
    Scalar(ScalarV),
    StackVariable(StackVariableV),
}

pub struct ConstantV {
    pub value: u64,
    pub bits: usize,
}

pub enum LValueV {
    Variable(VariableV),
    Dereference(Box<ExpressionV>),
}

pub enum RValueV {
    Value(ConstantV),
    Reference(Box<ExpressionV>),
}

pub enum ExpressionV {
    LValue(Box<LValueV>),
    RValue(Box<RValueV>),
    Add(Box<ExpressionV>, Box<ExpressionV>),
    Sub(Box<ExpressionV>, Box<ExpressionV>),
    Mul(Box<ExpressionV>, Box<ExpressionV>),
    Divu(Box<ExpressionV>, Box<ExpressionV>),
    Modu(Box<ExpressionV>, Box<ExpressionV>),
    Divs(Box<ExpressionV>, Box<ExpressionV>),
    Mods(Box<ExpressionV>, Box<ExpressionV>),
    And(Box<ExpressionV>, Box<ExpressionV>),
    Or(Box<ExpressionV>, Box<ExpressionV>),
    Xor(Box<ExpressionV>, Box<ExpressionV>),
    Shl(Box<ExpressionV>, Box<ExpressionV>),
    Shr(Box<ExpressionV>, Box<ExpressionV>),
    Cmpeq(Box<ExpressionV>, Box<ExpressionV>),
    Cmpneq(Box<ExpressionV>, Box<ExpressionV>),
    Cmplts(Box<ExpressionV>, Box<ExpressionV>),
    Cmpltu(Box<ExpressionV>, Box<ExpressionV>),
    Trun(usize, Box<ExpressionV>),
    Sext(usize, Box<ExpressionV>),
    Zext(usize, Box<ExpressionV>),
    Ite(Box<ExpressionV>, Box<ExpressionV>, Box<ExpressionV>),
}

impl View for Scalar {
    type V = ScalarV;

    open spec fn view(&self) -> ScalarV {
        ScalarV { name: self.name@, bits: self.bits }
    }
}

impl View for StackVariable {
    type V = StackVariableV;

    open spec fn view(&self) -> StackVariableV {
        StackVariableV { offset: self.offset, bits: self.bits }
    }
}

impl View for Variable {
    type V = VariableV;

    open spec fn view(&self) -> VariableV {
        match self {
            Variable::Scalar(s) => VariableV::Scalar(s@),
            Variable::StackVariable(s) => VariableV::StackVariable(s@),
        }
    }
}

impl View for Constant {
    type V = ConstantV;

    open spec fn view(&self) -> ConstantV {
        ConstantV { value: self.value, bits: self.bits }
    }
}

pub open spec fn lvalue_view(l: LValue) -> LValueV
    decreases l,
{
    match l {
        LValue::Variable(v) => LValueV::Variable(v@),
        LValue::Dereference(d) => LValueV::Dereference(Box::new(expr_view(*d.expression))),
    }
}

pub open spec fn rvalue_view(r: RValue) -> RValueV
    decreases r,
{
    match r {
        RValue::Value(c) => RValueV::Value(c@),
        RValue::Reference(rf) => RValueV::Reference(Box::new(expr_view(*rf.expression))),
    }
}

pub open spec fn expr_view(e: Expression) -> ExpressionV
    decreases e,
{
    match e {
        Expression::LValue(l) => ExpressionV::LValue(Box::new(lvalue_view(*l))),
        Expression::RValue(r) => ExpressionV::RValue(Box::new(rvalue_view(*r))),
        Expression::Add(a, b) => ExpressionV::Add(
            Box::new(expr_view(*a)),
            Box::new(expr_view(*b)),
        ),
        Expression::Sub(a, b) => ExpressionV::Sub(
            Box::new(expr_view(*a)),
            Box::new(expr_view(*b)),
        ),
        Expression::Mul(a, b) => ExpressionV::Mul(
            Box::new(expr_view(*a)),
            Box::new(expr_view(*b)),
        ),
        Expression::Divu(a, b) => ExpressionV::Divu(
            Box::new(expr_view(*a)),
            Box::new(expr_view(*b)),
        ),
        Expression::Modu(a, b) => ExpressionV::Modu(
            Box::new(expr_view(*a)),
            Box::new(expr_view(*b)),
        ),
        Expression::Divs(a, b) => ExpressionV::Divs(
            Box::new(expr_view(*a)),
            Box::new(expr_view(*b)),
        ),
        Expression::Mods(a, b) => ExpressionV::Mods(
            Box::new(expr_view(*a)),
            Box::new(expr_view(*b)),
        ),
        Expression::And(a, b) => ExpressionV::And(
            Box::new(expr_view(*a)),
            Box::new(expr_view(*b)),
        ),
        Expression::Or(a, b) => ExpressionV::Or(
            Box::new(expr_view(*a)),
            Box::new(expr_view(*b)),
        ),
        Expression::Xor(a, b) => ExpressionV::Xor(
            Box::new(expr_view(*a)),
            Box::new(expr_view(*b)),
        ),
        Expression::Shl(a, b) => ExpressionV::Shl(
            Box::new(expr_view(*a)),
            Box::new(expr_view(*b)),
        ),
        Expression::Shr(a, b) => ExpressionV::Shr(
            Box::new(expr_view(*a)),
            Box::new(expr_view(*b)),
        ),
        Expression::Cmpeq(a, b) => ExpressionV::Cmpeq(
            Box::new(expr_view(*a)),
            Box::new(expr_view(*b)),
        ),
        Expression::Cmpneq(a, b) => ExpressionV::Cmpneq(
            Box::new(expr_view(*a)),
            Box::new(expr_view(*b)),
        ),
        Expression::Cmplts(a, b) => ExpressionV::Cmplts(
            Box::new(expr_view(*a)),
            Box::new(expr_view(*b)),
        ),
        Expression::Cmpltu(a, b) => ExpressionV::Cmpltu(
            Box::new(expr_view(*a)),
            Box::new(expr_view(*b)),
        ),
        Expression::Trun(bits, a) => ExpressionV::Trun(bits, Box::new(expr_view(*a))),
        Expression::Sext(bits, a) => ExpressionV::Sext(bits, Box::new(expr_view(*a))),
        Expression::Zext(bits, a) => ExpressionV::Zext(bits, Box::new(expr_view(*a))),
        Expression::Ite(c, t, f) => ExpressionV::Ite(
            Box::new(expr_view(*c)),
            Box::new(expr_view(*t)),
            Box::new(expr_view(*f)),
        ),
    }
}

/// The views of the expressions of a list, in order.
pub open spec fn exprs_view(s: Seq<Expression>) -> Seq<ExpressionV> {
    s.map_values(|e: Expression| expr_view(e))
}

/// The views of the variables of a list, in order.
pub open spec fn vars_view(s: Seq<Variable>) -> Seq<VariableV> {
    s.map_values(|v: Variable| v@)
}

impl View for LValue {
    type V = LValueV;

    open spec fn view(&self) -> LValueV {
        lvalue_view(*self)
    }
}

impl View for RValue {
    type V = RValueV;

    open spec fn view(&self) -> RValueV {
        rvalue_view(*self)
    }
}

impl View for Expression {
    type V = ExpressionV;

    open spec fn view(&self) -> ExpressionV {
        expr_view(*self)
    }
}

// ---------------------------------------------------------------------------
// Calls, intrinsics, operations, instructions
// ---------------------------------------------------------------------------

/// What a call transfers control to: a computed expression, a named symbol,
/// or a function of the same program by stable index.
pub enum CallTarget {
    Expression(Expression),
    Symbol(String),
    FunctionId(usize),
}

/// A call, with optional argument expressions and optional variables the
/// callee writes.
pub struct Call {
    pub target: CallTarget,
    pub arguments: Option<Vec<Expression>>,
    pub variables_written: Option<Vec<Variable>>,
}

/// An instruction of the source architecture kept opaque, with the
/// expressions it reads and writes.
pub struct Intrinsic {
    pub mnemonic: String,
    pub instruction_str: String,
    pub arguments: Vec<Expression>,
    pub written_expressions: Option<Vec<Expression>>,
    pub read_expressions: Option<Vec<Expression>>,
    pub bytes: Vec<u8>,
}

/// One step of computation inside a block.
pub enum Operation {
    Assign { dst: Variable, src: Expression },
    Store { index: Expression, src: Expression },
    Load { dst: Variable, index: Expression },
    Branch { target: Expression },
    Call(Call),
    Intrinsic(Intrinsic),
    Return(Option<Expression>),
    Nop,
}

/// An operation together with its index inside its block, an optional human
/// comment, and the address it was lifted from.  Instructions synthesized
/// during optimization carry no address.
pub struct Instruction {
    pub operation: Operation,
    pub index: usize,
    pub comment: Option<String>,
    pub address: Option<u64>,
}

pub enum CallTargetV {
    Expression(ExpressionV),
    Symbol(Seq<char>),
    FunctionId(usize),
}

pub struct CallV {
    pub target: CallTargetV,
    pub arguments: Option<Seq<ExpressionV>>,
    pub variables_written: Option<Seq<VariableV>>,
}

pub struct IntrinsicV {
    pub mnemonic: Seq<char>,
    pub instruction_str: Seq<char>,
    pub arguments: Seq<ExpressionV>,
    pub written_expressions: Option<Seq<ExpressionV>>,
    pub read_expressions: Option<Seq<ExpressionV>>,
    pub bytes: Seq<u8>,
}

pub enum OperationV {
    Assign { dst: VariableV, src: ExpressionV },
    Store { index: ExpressionV, src: ExpressionV },
    Load { dst: VariableV, index: ExpressionV },
    Branch { target: ExpressionV },
    Call(CallV),
    Intrinsic(IntrinsicV),
    Return(Option<ExpressionV>),
    Nop,
}

pub struct InstructionV {
    pub operation: OperationV,
    pub index: usize,
    pub comment: Option<Seq<char>>,
    pub address: Option<u64>,
}

/// The view of an optional expression list.
pub open spec fn opt_exprs_view(s: Option<Vec<Expression>>) -> Option<Seq<ExpressionV>> {
    match s {
        Option::None => Option::None,
        Option::Some(v) => Option::Some(exprs_view(v@)),
    }
}

/// The view of an optional comment.
pub open spec fn opt_string_view(s: Option<String>) -> Option<Seq<char>> {
    match s {
        Option::None => Option::None,
        Option::Some(v) => Option::Some(v@),
    }
}

impl View for CallTarget {
    type V = CallTargetV;

    open spec fn view(&self) -> CallTargetV {
        match self {
            CallTarget::Expression(e) => CallTargetV::Expression(expr_view(*e)),
            CallTarget::Symbol(s) => CallTargetV::Symbol(s@),
            CallTarget::FunctionId(id) => CallTargetV::FunctionId(*id),
        }
    }
}

impl View for Call {
    type V = CallV;

    open spec fn view(&self) -> CallV {
        CallV {
            target: self.target@,
            arguments: opt_exprs_view(self.arguments),
            variables_written: match self.variables_written {
                Option::None => Option::None,
                Option::Some(v) => Option::Some(vars_view(v@)),
            },
        }
    }
}

impl View for Intrinsic {
    type V = IntrinsicV;

    open spec fn view(&self) -> IntrinsicV {
        IntrinsicV {
            mnemonic: self.mnemonic@,
            instruction_str: self.instruction_str@,
            arguments: exprs_view(self.arguments@),
            written_expressions: opt_exprs_view(self.written_expressions),
            read_expressions: opt_exprs_view(self.read_expressions),
            bytes: self.bytes@,
        }
    }
}

impl View for Operation {
    type V = OperationV;

    open spec fn view(&self) -> OperationV {
        match self {
            Operation::Assign { dst, src } => OperationV::Assign {
                dst: dst@,
                src: expr_view(*src),
            },
            Operation::Store { index, src } => OperationV::Store {
                index: expr_view(*index),
                src: expr_view(*src),
            },
            Operation::Load { dst, index } => OperationV::Load {
                dst: dst@,
                index: expr_view(*index),
            },
            Operation::Branch { target } => OperationV::Branch { target: expr_view(*target) },
            Operation::Call(c) => OperationV::Call(c@),
            Operation::Intrinsic(i) => OperationV::Intrinsic(i@),
            Operation::Return(r) => OperationV::Return(
                match r {
                    Option::None => Option::None,
                    Option::Some(e) => Option::Some(expr_view(*e)),
                },
            ),
            Operation::Nop => OperationV::Nop,
        }
    }
}

impl View for Instruction {
    type V = InstructionV;

    open spec fn view(&self) -> InstructionV {
        InstructionV {
            operation: self.operation@,
            index: self.index,
            comment: opt_string_view(self.comment),
            address: self.address,
        }
    }
}

} // verus!
