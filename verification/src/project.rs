//! The projection layer: pure functions from intermediate-representation
//! nodes to the external tree.  Every node carries a discriminator field
//! (`type`, `operation` or `op`) beside named children; the tag vocabulary
//! and field names are the wire contract clients parse.

use vstd::prelude::*;
use crate::ir::{
    Call, CallTarget, CallTargetV, CallV, Constant, ConstantV, Expression, ExpressionV, Instruction,
    InstructionV, Intrinsic, IntrinsicV, LValue, LValueV, Operation, OperationV, RValue, RValueV,
    Variable, VariableV, exprs_view, vars_view,
};
use crate::json::{
    Json, JsonV, json_fields_view, json_seq_view, json_view, obj1, obj2, obj3, obj4, obj5, obj6,
};
use crate::program::{
    Block, BlockV, Edge, EdgeV, Function, FunctionLocation, FunctionV, ProgramLocation, XRefs,
    XRefsV,
};
use crate::numfmt::{dec_seq, dec_string, hex_seq, hex_string};

verus! {

// ---------------------------------------------------------------------------
// The grammar, as spec functions over the views
// ---------------------------------------------------------------------------

/// What a variable projects to.
pub open spec fn spec_variable_json(v: VariableV) -> JsonV {
    match v {
        VariableV::Scalar(s) => JsonV::Obj(
            seq![
                ("type"@, JsonV::Str("scalar"@)),
                ("name"@, JsonV::Str(s.name)),
                ("bits"@, JsonV::UInt(s.bits as u64)),
            ],
        ),
        VariableV::StackVariable(s) => JsonV::Obj(
            seq![
                ("type"@, JsonV::Str("stack_variable"@)),
                ("offset"@, JsonV::Int(s.offset)),
                ("bits"@, JsonV::UInt(s.bits as u64)),
            ],
        ),
    }
}

/// What a constant projects to: its value as `0x`-prefixed lowercase hex.
pub open spec fn spec_constant_json(c: ConstantV) -> JsonV {
    JsonV::Obj(
        seq![
            ("type"@, JsonV::Str("constant"@)),
            ("value"@, JsonV::Str("0x"@ + hex_seq(c.value as nat))),
            ("bits"@, JsonV::UInt(c.bits as u64)),
        ],
    )
}

/// The shape every binary operator projects to.
pub open spec fn spec_binop_json(tag: Seq<char>, lhs: JsonV, rhs: JsonV) -> JsonV {
    JsonV::Obj(seq![("op"@, JsonV::Str(tag)), ("lhs"@, lhs), ("rhs"@, rhs)])
}

/// The shape every width-changing operator projects to.
pub open spec fn spec_widthop_json(tag: Seq<char>, bits: usize, rhs: JsonV) -> JsonV {
    JsonV::Obj(
        seq![("op"@, JsonV::Str(tag)), ("bits"@, JsonV::UInt(bits as u64)), ("rhs"@, rhs)],
    )
}

/// What an lvalue projects to.
pub open spec fn spec_lvalue_json(l: LValueV) -> JsonV
    decreases l,
{
    match l {
        LValueV::Variable(v) => spec_variable_json(v),
        LValueV::Dereference(e) => JsonV::Obj(
            seq![
                ("type"@, JsonV::Str("dereference"@)),
                ("expression"@, spec_expression_json(*e)),
            ],
        ),
    }
}

/// What an rvalue projects to.
pub open spec fn spec_rvalue_json(r: RValueV) -> JsonV
    decreases r,
{
    match r {
        RValueV::Value(c) => spec_constant_json(c),
        RValueV::Reference(e) => JsonV::Obj(
            seq![
                ("type"@, JsonV::Str("reference"@)),
                ("expression"@, spec_expression_json(*e)),
            ],
        ),
    }
}

/// What an expression projects to.
pub open spec fn spec_expression_json(e: ExpressionV) -> JsonV
    decreases e,
{
    match e {
        ExpressionV::LValue(l) => spec_lvalue_json(*l),
        ExpressionV::RValue(r) => spec_rvalue_json(*r),
        ExpressionV::Add(a, b) => spec_binop_json(
            "add"@,
            spec_expression_json(*a),
            spec_expression_json(*b),
        ),
        ExpressionV::Sub(a, b) => spec_binop_json(
            "sub"@,
            spec_expression_json(*a),
            spec_expression_json(*b),
        ),
        ExpressionV::Mul(a, b) => spec_binop_json(
            "mul"@,
            spec_expression_json(*a),
            spec_expression_json(*b),
        ),
        ExpressionV::Divu(a, b) => spec_binop_json(
            "divu"@,
            spec_expression_json(*a),
            spec_expression_json(*b),
        ),
        ExpressionV::Modu(a, b) => spec_binop_json(
            "modu"@,
            spec_expression_json(*a),
            spec_expression_json(*b),
        ),
        ExpressionV::Divs(a, b) => spec_binop_json(
            "divs"@,
            spec_expression_json(*a),
            spec_expression_json(*b),
        ),
        ExpressionV::Mods(a, b) => spec_binop_json(
            "mods"@,
            spec_expression_json(*a),
            spec_expression_json(*b),
        ),
        ExpressionV::And(a, b) => spec_binop_json(
            "and"@,
            spec_expression_json(*a),
            spec_expression_json(*b),
        ),
        ExpressionV::Or(a, b) => spec_binop_json(
            "or"@,
            spec_expression_json(*a),
            spec_expression_json(*b),
        ),
        ExpressionV::Xor(a, b) => spec_binop_json(
            "xor"@,
            spec_expression_json(*a),
            spec_expression_json(*b),
        ),
        ExpressionV::Shl(a, b) => spec_binop_json(
            "shl"@,
            spec_expression_json(*a),
            spec_expression_json(*b),
        ),
        ExpressionV::Shr(a, b) => spec_binop_json(
            "shr"@,
            spec_expression_json(*a),
            spec_expression_json(*b),
        ),
        ExpressionV::Cmpeq(a, b) => spec_binop_json(
            "cmpeq"@,
            spec_expression_json(*a),
            spec_expression_json(*b),
        ),
        ExpressionV::Cmpneq(a, b) => spec_binop_json(
            "cmpneq"@,
            spec_expression_json(*a),
            spec_expression_json(*b),
        ),
        ExpressionV::Cmplts(a, b) => spec_binop_json(
            "cmplts"@,
            spec_expression_json(*a),
            spec_expression_json(*b),
        ),
        ExpressionV::Cmpltu(a, b) => spec_binop_json(
            "cmpltu"@,
            spec_expression_json(*a),
            spec_expression_json(*b),
        ),
        ExpressionV::Trun(bits, a) => spec_widthop_json("trun"@, bits, spec_expression_json(*a)),
        ExpressionV::Sext(bits, a) => spec_widthop_json("sext"@, bits, spec_expression_json(*a)),
        ExpressionV::Zext(bits, a) => spec_widthop_json("zext"@, bits, spec_expression_json(*a)),
        ExpressionV::Ite(c, t, f) => JsonV::Obj(
            seq![
                ("op"@, JsonV::Str("ite"@)),
                ("cond"@, spec_expression_json(*c)),
                ("then"@, spec_expression_json(*t)),
                ("else"@, spec_expression_json(*f)),
            ],
        ),
    }
}

// ---------------------------------------------------------------------------
// Executable projections
// ---------------------------------------------------------------------------

/// Projects a variable.
pub fn variable_to_json(variable: &Variable) -> (r: Json)
    ensures
        r@ == spec_variable_json(variable@),
{
    match variable {
        Variable::Scalar(s) => obj3(
            "type",
            Json::Str("scalar".to_owned()),
            "name",
            Json::Str(s.name.clone()),
            "bits",
            Json::UInt(s.bits as u64),
        ),
        Variable::StackVariable(s) => obj3(
            "type",
            Json::Str("stack_variable".to_owned()),
            "offset",
            Json::Int(s.offset),
            "bits",
            Json::UInt(s.bits as u64),
        ),
    }
}

/// Projects a constant, rendering its value in hexadecimal.
pub fn constant_to_json(constant: &Constant) -> (r: Json)
    ensures
        r@ == spec_constant_json(constant@),
{
    let value = "0x".to_owned().concat(hex_string(constant.value).as_str());
    obj3(
        "type",
        Json::Str("constant".to_owned()),
        "value",
        Json::Str(value),
        "bits",
        Json::UInt(constant.bits as u64),
    )
}

/// Projects an lvalue.
pub fn lvalue_to_json(lvalue: &LValue) -> (r: Json)
    ensures
        r@ == spec_lvalue_json(lvalue@),
    decreases *lvalue,
{
    match lvalue {
        LValue::Variable(variable) => variable_to_json(variable),
        LValue::Dereference(dereference) => obj2(
            "type",
            Json::Str("dereference".to_owned()),
            "expression",
            expression_to_json(&dereference.expression),
        ),
    }
}

/// Projects an rvalue.
pub fn rvalue_to_json(rvalue: &RValue) -> (r: Json)
    ensures
        r@ == spec_rvalue_json(rvalue@),
    decreases *rvalue,
{
    match rvalue {
        RValue::Value(constant) => constant_to_json(constant),
        RValue::Reference(reference) => obj2(
            "type",
            Json::Str("reference".to_owned()),
            "expression",
            expression_to_json(&reference.expression),
        ),
    }
}

/// Projects a binary operator node.
fn binop_to_json(tag: &str, lhs: Json, rhs: Json) -> (r: Json)
    ensures
        r@ == spec_binop_json(tag@, lhs@, rhs@),
{
    obj3("op", Json::Str(tag.to_owned()), "lhs", lhs, "rhs", rhs)
}

/// Projects a width-changing operator node.
fn widthop_to_json(tag: &str, bits: usize, rhs: Json) -> (r: Json)
    ensures
        r@ == spec_widthop_json(tag@, bits, rhs@),
{
    obj3("op", Json::Str(tag.to_owned()), "bits", Json::UInt(bits as u64), "rhs", rhs)
}

/// Projects an expression tree.
pub fn expression_to_json(expression: &Expression) -> (r: Json)
    ensures
        r@ == spec_expression_json(expression@),
    decreases *expression,
{
    match expression {
        Expression::LValue(lvalue) => lvalue_to_json(lvalue),
        Expression::RValue(rvalue) => rvalue_to_json(rvalue),
        Expression::Add(a, b) => binop_to_json(
            "add",
            expression_to_json(a),
            expression_to_json(b),
        ),
        Expression::Sub(a, b) => binop_to_json(
            "sub",
            expression_to_json(a),
            expression_to_json(b),
        ),
        Expression::Mul(a, b) => binop_to_json(
            "mul",
            expression_to_json(a),
            expression_to_json(b),
        ),
        Expression::Divu(a, b) => binop_to_json(
            "divu",
            expression_to_json(a),
            expression_to_json(b),
        ),
        Expression::Modu(a, b) => binop_to_json(
            "modu",
            expression_to_json(a),
            expression_to_json(b),
        ),
        Expression::Divs(a, b) => binop_to_json(
            "divs",
            expression_to_json(a),
            expression_to_json(b),
        ),
        Expression::Mods(a, b) => binop_to_json(
            "mods",
            expression_to_json(a),
            expression_to_json(b),
        ),
        Expression::And(a, b) => binop_to_json(
            "and",
            expression_to_json(a),
            expression_to_json(b),
        ),
        Expression::Or(a, b) => binop_to_json("or", expression_to_json(a), expression_to_json(b)),
        Expression::Xor(a, b) => binop_to_json(
            "xor",
            expression_to_json(a),
            expression_to_json(b),
        ),
        Expression::Shl(a, b) => binop_to_json(
            "shl",
            expression_to_json(a),
            expression_to_json(b),
        ),
        Expression::Shr(a, b) => binop_to_json(
            "shr",
            expression_to_json(a),
            expression_to_json(b),
        ),
        Expression::Cmpeq(a, b) => binop_to_json(
            "cmpeq",
            expression_to_json(a),
            expression_to_json(b),
        ),
        Expression::Cmpneq(a, b) => binop_to_json(
            "cmpneq",
            expression_to_json(a),
            expression_to_json(b),
        ),
        Expression::Cmplts(a, b) => binop_to_json(
            "cmplts",
            expression_to_json(a),
            expression_to_json(b),
        ),
        Expression::Cmpltu(a, b) => binop_to_json(
            "cmpltu",
            expression_to_json(a),
            expression_to_json(b),
        ),
        Expression::Trun(bits, a) => widthop_to_json("trun", *bits, expression_to_json(a)),
        Expression::Sext(bits, a) => widthop_to_json("sext", *bits, expression_to_json(a)),
        Expression::Zext(bits, a) => widthop_to_json("zext", *bits, expression_to_json(a)),
        Expression::Ite(c, t, f) => obj4(
            "op",
            Json::Str("ite".to_owned()),
            "cond",
            expression_to_json(c),
            "then",
            expression_to_json(t),
            "else",
            expression_to_json(f),
        ),
    }
}

} // verus!

verus! {

/// What a call target projects to.
pub open spec fn spec_call_target_json(t: CallTargetV) -> JsonV {
    match t {
        CallTargetV::Expression(e) => JsonV::Obj(
            seq![
                ("type"@, JsonV::Str("expression"@)),
                ("expression"@, spec_expression_json(e)),
            ],
        ),
        CallTargetV::Symbol(s) => JsonV::Obj(
            seq![("type"@, JsonV::Str("symbol"@)), ("symbol"@, JsonV::Str(s))],
        ),
        CallTargetV::FunctionId(id) => JsonV::Obj(
            seq![
                ("type"@, JsonV::Str("function_id"@)),
                ("function_id"@, JsonV::UInt(id as u64)),
            ],
        ),
    }
}

/// The projections of a list of expressions, in order.
pub open spec fn spec_exprs_json(s: Seq<ExpressionV>) -> Seq<JsonV> {
    s.map_values(|e: ExpressionV| spec_expression_json(e))
}

/// The projections of a list of variables, in order.
pub open spec fn spec_vars_json(s: Seq<VariableV>) -> Seq<JsonV> {
    s.map_values(|v: VariableV| spec_variable_json(v))
}

/// An optional expression list projects to an array, or to null when absent.
pub open spec fn spec_opt_exprs_json(s: Option<Seq<ExpressionV>>) -> JsonV {
    match s {
        Option::None => JsonV::Null,
        Option::Some(v) => JsonV::Arr(spec_exprs_json(v)),
    }
}

/// An optional variable list projects to an array, or to null when absent.
pub open spec fn spec_opt_vars_json(s: Option<Seq<VariableV>>) -> JsonV {
    match s {
        Option::None => JsonV::Null,
        Option::Some(v) => JsonV::Arr(spec_vars_json(v)),
    }
}

/// What a call projects to.
pub open spec fn spec_call_json(c: CallV) -> JsonV {
    JsonV::Obj(
        seq![
            ("target"@, spec_call_target_json(c.target)),
            ("arguments"@, spec_opt_exprs_json(c.arguments)),
            ("variables_written"@, spec_opt_vars_json(c.variables_written)),
        ],
    )
}

/// What an intrinsic projects to.
pub open spec fn spec_intrinsic_json(i: IntrinsicV) -> JsonV {
    JsonV::Obj(
        seq![
            ("mnemonic"@, JsonV::Str(i.mnemonic)),
            ("instruction_str"@, JsonV::Str(i.instruction_str)),
            ("arguments"@, JsonV::Arr(spec_exprs_json(i.arguments))),
            ("written_expressions"@, spec_opt_exprs_json(i.written_expressions)),
            ("read_expressions"@, spec_opt_exprs_json(i.read_expressions)),
            ("bytes"@, JsonV::Arr(i.bytes.map_values(|b: u8| JsonV::UInt(b as u64)))),
        ],
    )
}

/// An optional expression projects to itself, or to null when absent.
pub open spec fn spec_opt_expr_json(e: Option<ExpressionV>) -> JsonV {
    match e {
        Option::None => JsonV::Null,
        Option::Some(e) => spec_expression_json(e),
    }
}

/// The discriminator tag of an operation.
pub open spec fn spec_operation_tag(o: OperationV) -> Seq<char> {
    match o {
        OperationV::Assign { .. } => "assign"@,
        OperationV::Store { .. } => "store"@,
        OperationV::Load { .. } => "load"@,
        OperationV::Branch { .. } => "branch"@,
        OperationV::Call(..) => "call"@,
        OperationV::Intrinsic(..) => "intrinsic"@,
        OperationV::Return(..) => "return"@,
        OperationV::Nop => "nop"@,
    }
}

/// What an operation projects to; the `operation` field always carries the
/// variant's tag.
pub open spec fn spec_operation_json(o: OperationV) -> JsonV {
    match o {
        OperationV::Assign { dst, src } => JsonV::Obj(
            seq![
                ("operation"@, JsonV::Str("assign"@)),
                ("dst"@, spec_variable_json(dst)),
                ("src"@, spec_expression_json(src)),
            ],
        ),
        OperationV::Store { index, src } => JsonV::Obj(
            seq![
                ("operation"@, JsonV::Str("store"@)),
                ("index"@, spec_expression_json(index)),
                ("src"@, spec_expression_json(src)),
            ],
        ),
        OperationV::Load { dst, index } => JsonV::Obj(
            seq![
                ("operation"@, JsonV::Str("load"@)),
                ("dst"@, spec_variable_json(dst)),
                ("index"@, spec_expression_json(index)),
            ],
        ),
        OperationV::Branch { target } => JsonV::Obj(
            seq![
                ("operation"@, JsonV::Str("branch"@)),
                ("target"@, spec_expression_json(target)),
            ],
        ),
        OperationV::Call(c) => JsonV::Obj(
            seq![("operation"@, JsonV::Str("call"@)), ("call"@, spec_call_json(c))],
        ),
        OperationV::Intrinsic(i) => JsonV::Obj(
            seq![
                ("operation"@, JsonV::Str("intrinsic"@)),
                ("intrinsic"@, spec_intrinsic_json(i)),
            ],
        ),
        OperationV::Return(r) => JsonV::Obj(
            seq![
                ("operation"@, JsonV::Str("return"@)),
                ("result"@, spec_opt_expr_json(r)),
            ],
        ),
        OperationV::Nop => JsonV::Obj(seq![("operation"@, JsonV::Str("nop"@))]),
    }
}

/// An optional comment projects to a string, or to null when absent.
pub open spec fn spec_opt_comment_json(c: Option<Seq<char>>) -> JsonV {
    match c {
        Option::None => JsonV::Null,
        Option::Some(c) => JsonV::Str(c),
    }
}

/// An optional address projects to a number, or to null when absent.
pub open spec fn spec_opt_address_json(a: Option<u64>) -> JsonV {
    match a {
        Option::None => JsonV::Null,
        Option::Some(a) => JsonV::UInt(a),
    }
}

/// What an instruction projects to.
pub open spec fn spec_instruction_json(i: InstructionV) -> JsonV {
    JsonV::Obj(
        seq![
            ("operation"@, spec_operation_json(i.operation)),
            ("index"@, JsonV::UInt(i.index as u64)),
            ("comment"@, spec_opt_comment_json(i.comment)),
            ("address"@, spec_opt_address_json(i.address)),
        ],
    )
}

/// Projects a list of expressions to an array.
#[verifier::loop_isolation(false)]
fn exprs_to_json(v: &Vec<Expression>) -> (r: Json)
    ensures
        r@ == JsonV::Arr(spec_exprs_json(exprs_view(v@))),
{
    let ghost target = spec_exprs_json(exprs_view(v@));
    let mut out: Vec<Json> = Vec::new();
    let n = v.len();
    for i in 0..n
        invariant
            out@.len() == i,
            forall|k: int| 0 <= k < i ==> json_view(#[trigger] out@[k]) == target[k],
    {
        out.push(expression_to_json(&v[i]));
        proof {
            assert(exprs_view(v@)[i as int] == crate::ir::expr_view(v@[i as int]));
            assert(target[i as int] == spec_expression_json(exprs_view(v@)[i as int]));
        }
    }
    proof {
        assert(json_seq_view(out@) =~= target);
    }
    Json::Arr(out)
}

/// Projects a list of variables to an array.
#[verifier::loop_isolation(false)]
fn vars_to_json(v: &Vec<Variable>) -> (r: Json)
    ensures
        r@ == JsonV::Arr(spec_vars_json(vars_view(v@))),
{
    let ghost target = spec_vars_json(vars_view(v@));
    let mut out: Vec<Json> = Vec::new();
    let n = v.len();
    for i in 0..n
        invariant
            out@.len() == i,
            forall|k: int| 0 <= k < i ==> json_view(#[trigger] out@[k]) == target[k],
    {
        out.push(variable_to_json(&v[i]));
        proof {
            assert(vars_view(v@)[i as int] == v@[i as int]@);
            assert(target[i as int] == spec_variable_json(vars_view(v@)[i as int]));
        }
    }
    proof {
        assert(json_seq_view(out@) =~= target);
    }
    Json::Arr(out)
}

/// Projects a byte list to an array of numbers.
#[verifier::loop_isolation(false)]
fn bytes_to_json(v: &Vec<u8>) -> (r: Json)
    ensures
        r@ == JsonV::Arr(v@.map_values(|b: u8| JsonV::UInt(b as u64))),
{
    let ghost target = v@.map_values(|b: u8| JsonV::UInt(b as u64));
    let mut out: Vec<Json> = Vec::new();
    let n = v.len();
    for i in 0..n
        invariant
            out@.len() == i,
            forall|k: int| 0 <= k < i ==> json_view(#[trigger] out@[k]) == target[k],
    {
        out.push(Json::UInt(v[i] as u64));
    }
    proof {
        assert(json_seq_view(out@) =~= target);
    }
    Json::Arr(out)
}

/// Projects an optional expression list, null when absent.
fn opt_exprs_to_json(v: &Option<Vec<Expression>>) -> (r: Json)
    ensures
        r@ == spec_opt_exprs_json(
            match *v {
                Option::None => Option::None,
                Option::Some(ve) => Option::Some(exprs_view(ve@)),
            },
        ),
{
    match v {
        Option::Some(ve) => exprs_to_json(ve),
        Option::None => Json::Null,
    }
}

/// Projects a call: its target, arguments and written variables.
#[verifier::rlimit(50)]
pub fn call_to_json(call: &Call) -> (r: Json)
    ensures
        r@ == spec_call_json(call@),
{
    let target = match &call.target {
        CallTarget::Expression(e) => obj2(
            "type",
            Json::Str("expression".to_owned()),
            "expression",
            expression_to_json(e),
        ),
        CallTarget::Symbol(s) => obj2(
            "type",
            Json::Str("symbol".to_owned()),
            "symbol",
            Json::Str(s.clone()),
        ),
        CallTarget::FunctionId(id) => obj2(
            "type",
            Json::Str("function_id".to_owned()),
            "function_id",
            Json::UInt(*id as u64),
        ),
    };
    let arguments = opt_exprs_to_json(&call.arguments);
    let variables_written = match &call.variables_written {
        Option::Some(vw) => vars_to_json(vw),
        Option::None => Json::Null,
    };
    obj3(
        "target",
        target,
        "arguments",
        arguments,
        "variables_written",
        variables_written,
    )
}

/// Projects an intrinsic with everything it reads and writes.
pub fn intrinsic_to_json(intrinsic: &Intrinsic) -> (r: Json)
    ensures
        r@ == spec_intrinsic_json(intrinsic@),
{
    obj6(
        "mnemonic",
        Json::Str(intrinsic.mnemonic.clone()),
        "instruction_str",
        Json::Str(intrinsic.instruction_str.clone()),
        "arguments",
        exprs_to_json(&intrinsic.arguments),
        "written_expressions",
        opt_exprs_to_json(&intrinsic.written_expressions),
        "read_expressions",
        opt_exprs_to_json(&intrinsic.read_expressions),
        "bytes",
        bytes_to_json(&intrinsic.bytes),
    )
}

/// Projects an operation under its discriminator tag.
#[verifier::rlimit(100)]
pub fn operation_to_json(operation: &Operation) -> (r: Json)
    ensures
        r@ == spec_operation_json(operation@),
{
    match operation {
        Operation::Assign { dst, src } => obj3(
            "operation",
            Json::Str("assign".to_owned()),
            "dst",
            variable_to_json(dst),
            "src",
            expression_to_json(src),
        ),
        Operation::Store { index, src } => obj3(
            "operation",
            Json::Str("store".to_owned()),
            "index",
            expression_to_json(index),
            "src",
            expression_to_json(src),
        ),
        Operation::Load { dst, index } => obj3(
            "operation",
            Json::Str("load".to_owned()),
            "dst",
            variable_to_json(dst),
            "index",
            expression_to_json(index),
        ),
        Operation::Branch { target } => obj2(
            "operation",
            Json::Str("branch".to_owned()),
            "target",
            expression_to_json(target),
        ),
        Operation::Call(call) => obj2(
            "operation",
            Json::Str("call".to_owned()),
            "call",
            call_to_json(call),
        ),
        Operation::Intrinsic(intrinsic) => obj2(
            "operation",
            Json::Str("intrinsic".to_owned()),
            "intrinsic",
            intrinsic_to_json(intrinsic),
        ),
        Operation::Return(result) => obj2(
            "operation",
            Json::Str("return".to_owned()),
            "result",
            match result {
                Option::Some(e) => expression_to_json(e),
                Option::None => Json::Null,
            },
        ),
        Operation::Nop => obj1("operation", Json::Str("nop".to_owned())),
    }
}

/// Projects an instruction: its operation, index, comment and address.
#[verifier::rlimit(50)]
pub fn instruction_to_json(instruction: &Instruction) -> (r: Json)
    ensures
        r@ == spec_instruction_json(instruction@),
{
    let operation = operation_to_json(&instruction.operation);
    let comment = match &instruction.comment {
        Option::Some(c) => Json::Str(c.clone()),
        Option::None => Json::Null,
    };
    let address = match instruction.address {
        Option::Some(a) => Json::UInt(a),
        Option::None => Json::Null,
    };
    obj4(
        "operation",
        operation,
        "index",
        Json::UInt(instruction.index as u64),
        "comment",
        comment,
        "address",
        address,
    )
}

} // verus!

verus! {

/// An optional stable index projects to a number, or to null when absent.
pub open spec fn spec_opt_index_json(i: Option<usize>) -> JsonV {
    match i {
        Option::None => JsonV::Null,
        Option::Some(i) => JsonV::UInt(i as u64),
    }
}

/// What a block projects to.
pub open spec fn spec_block_json(b: BlockV) -> JsonV {
    JsonV::Obj(
        seq![
            ("index"@, JsonV::UInt(b.index as u64)),
            (
                "instructions"@,
                JsonV::Arr(b.instructions.map_values(|i: InstructionV| spec_instruction_json(i))),
            ),
        ],
    )
}

/// What an edge projects to.
pub open spec fn spec_edge_json(e: EdgeV) -> JsonV {
    JsonV::Obj(
        seq![
            ("head"@, JsonV::UInt(e.head as u64)),
            ("tail"@, JsonV::UInt(e.tail as u64)),
            ("condition"@, spec_opt_expr_json(e.condition)),
            ("comment"@, spec_opt_comment_json(e.comment)),
        ],
    )
}

/// What a function projects to.
pub open spec fn spec_function_json(f: FunctionV) -> JsonV {
    JsonV::Obj(
        seq![
            ("address"@, JsonV::UInt(f.address)),
            ("index"@, spec_opt_index_json(f.index)),
            ("name"@, JsonV::Str(f.name)),
            ("blocks"@, JsonV::Arr(f.blocks.map_values(|b: BlockV| spec_block_json(b)))),
            ("edges"@, JsonV::Arr(f.edges.map_values(|e: EdgeV| spec_edge_json(e)))),
        ],
    )
}

/// What a place inside a function projects to.
pub open spec fn spec_function_location_json(fl: FunctionLocation) -> JsonV {
    match fl {
        FunctionLocation::Instruction(block_index, instruction_index) => JsonV::Obj(
            seq![
                ("block-index"@, JsonV::UInt(block_index as u64)),
                ("instruction-index"@, JsonV::UInt(instruction_index as u64)),
            ],
        ),
        FunctionLocation::EmptyBlock(block_index) => JsonV::Obj(
            seq![("block-index"@, JsonV::UInt(block_index as u64))],
        ),
        FunctionLocation::Edge(head_index, tail_index) => JsonV::Obj(
            seq![
                ("edge-head"@, JsonV::UInt(head_index as u64)),
                ("edge-tail"@, JsonV::UInt(tail_index as u64)),
            ],
        ),
    }
}

/// What a place inside a program projects to.
pub open spec fn spec_program_location_json(pl: ProgramLocation) -> JsonV {
    JsonV::Obj(
        seq![
            ("function-index"@, JsonV::UInt(pl.function_index as u64)),
            ("function-location"@, spec_function_location_json(pl.function_location)),
        ],
    )
}

/// One direction of a cross-reference index: each address, rendered in
/// decimal, mapped to the addresses it relates to.
pub open spec fn spec_xref_side_json(m: Seq<(u64, Seq<u64>)>) -> Seq<(Seq<char>, JsonV)> {
    m.map_values(
        |p: (u64, Seq<u64>)|
            (dec_seq(p.0 as nat), JsonV::Arr(p.1.map_values(|a: u64| JsonV::UInt(a)))),
    )
}

/// What a cross-reference index projects to.
pub open spec fn spec_xrefs_json(x: XRefsV) -> JsonV {
    JsonV::Obj(
        seq![
            ("from_to"@, JsonV::Obj(spec_xref_side_json(x.from_to))),
            ("to_from"@, JsonV::Obj(spec_xref_side_json(x.to_from))),
        ],
    )
}

/// Projects a list of instructions to an array.
#[verifier::loop_isolation(false)]
fn instructions_to_json(v: &Vec<Instruction>) -> (r: Json)
    ensures
        r@ == JsonV::Arr(
            v@.map_values(|i: Instruction| i@).map_values(
                |i: InstructionV| spec_instruction_json(i),
            ),
        ),
{
    let ghost target = v@.map_values(|i: Instruction| i@).map_values(
        |i: InstructionV| spec_instruction_json(i),
    );
    let mut out: Vec<Json> = Vec::new();
    let n = v.len();
    for i in 0..n
        invariant
            out@.len() == i,
            forall|k: int| 0 <= k < i ==> json_view(#[trigger] out@[k]) == target[k],
    {
        out.push(instruction_to_json(&v[i]));
    }
    proof {
        assert(json_seq_view(out@) =~= target);
    }
    Json::Arr(out)
}

/// Projects a block: its index and its instructions.
pub fn block_to_json(block: &Block) -> (r: Json)
    ensures
        r@ == spec_block_json(block@),
{
    obj2(
        "index",
        Json::UInt(block.index as u64),
        "instructions",
        instructions_to_json(&block.instructions),
    )
}

/// Projects an edge: its endpoints, its guard and its comment.
pub fn edge_to_json(edge: &Edge) -> (r: Json)
    ensures
        r@ == spec_edge_json(edge@),
{
    obj4(
        "head",
        Json::UInt(edge.head as u64),
        "tail",
        Json::UInt(edge.tail as u64),
        "condition",
        match &edge.condition {
            Option::Some(e) => expression_to_json(e),
            Option::None => Json::Null,
        },
        "comment",
        match &edge.comment {
            Option::Some(c) => Json::Str(c.clone()),
            Option::None => Json::Null,
        },
    )
}

/// Projects a list of blocks to an array.
#[verifier::loop_isolation(false)]
fn blocks_to_json(v: &Vec<Block>) -> (r: Json)
    ensures
        r@ == JsonV::Arr(
            v@.map_values(|b: Block| b@).map_values(|b: BlockV| spec_block_json(b)),
        ),
{
    let ghost target = v@.map_values(|b: Block| b@).map_values(|b: BlockV| spec_block_json(b));
    let mut out: Vec<Json> = Vec::new();
    let n = v.len();
    for i in 0..n
        invariant
            out@.len() == i,
            forall|k: int| 0 <= k < i ==> json_view(#[trigger] out@[k]) == target[k],
    {
        out.push(block_to_json(&v[i]));
    }
    proof {
        assert(json_seq_view(out@) =~= target);
    }
    Json::Arr(out)
}

/// Projects a list of edges to an array.
#[verifier::loop_isolation(false)]
fn edges_to_json(v: &Vec<Edge>) -> (r: Json)
    ensures
        r@ == JsonV::Arr(v@.map_values(|e: Edge| e@).map_values(|e: EdgeV| spec_edge_json(e))),
{
    let ghost target = v@.map_values(|e: Edge| e@).map_values(|e: EdgeV| spec_edge_json(e));
    let mut out: Vec<Json> = Vec::new();
    let n = v.len();
    for i in 0..n
        invariant
            out@.len() == i,
            forall|k: int| 0 <= k < i ==> json_view(#[trigger] out@[k]) == target[k],
    {
        out.push(edge_to_json(&v[i]));
    }
    proof {
        assert(json_seq_view(out@) =~= target);
    }
    Json::Arr(out)
}

/// Projects a function: its address, stable index, name, blocks and edges.
pub fn function_to_json(function: &Function) -> (r: Json)
    ensures
        r@ == spec_function_json(function@),
{
    obj5(
        "address",
        Json::UInt(function.address),
        "index",
        match function.index {
            Option::Some(i) => Json::UInt(i as u64),
            Option::None => Json::Null,
        },
        "name",
        Json::Str(function.name.clone()),
        "blocks",
        blocks_to_json(&function.blocks),
        "edges",
        edges_to_json(&function.edges),
    )
}

/// Projects a place inside a function.
pub fn function_location_to_json(fl: &FunctionLocation) -> (r: Json)
    ensures
        r@ == spec_function_location_json(*fl),
{
    match fl {
        FunctionLocation::Instruction(block_index, instruction_index) => obj2(
            "block-index",
            Json::UInt(*block_index as u64),
            "instruction-index",
            Json::UInt(*instruction_index as u64),
        ),
        FunctionLocation::EmptyBlock(block_index) => obj1(
            "block-index",
            Json::UInt(*block_index as u64),
        ),
        FunctionLocation::Edge(head_index, tail_index) => obj2(
            "edge-head",
            Json::UInt(*head_index as u64),
            "edge-tail",
            Json::UInt(*tail_index as u64),
        ),
    }
}

/// Projects a place inside a program.
pub fn program_location_to_json(pl: &ProgramLocation) -> (r: Json)
    ensures
        r@ == spec_program_location_json(*pl),
{
    obj2(
        "function-index",
        Json::UInt(pl.function_index as u64),
        "function-location",
        function_location_to_json(&pl.function_location),
    )
}

/// Projects a list of addresses to an array of numbers.
#[verifier::loop_isolation(false)]
fn addresses_to_json(v: &Vec<u64>) -> (r: Json)
    ensures
        r@ == JsonV::Arr(v@.map_values(|a: u64| JsonV::UInt(a))),
{
    let ghost target = v@.map_values(|a: u64| JsonV::UInt(a));
    let mut out: Vec<Json> = Vec::new();
    let n = v.len();
    for i in 0..n
        invariant
            out@.len() == i,
            forall|k: int| 0 <= k < i ==> json_view(#[trigger] out@[k]) == target[k],
    {
        out.push(Json::UInt(v[i]));
    }
    proof {
        assert(json_seq_view(out@) =~= target);
    }
    Json::Arr(out)
}

/// Projects one direction of a cross-reference index to an object keyed by
/// decimal addresses.
#[verifier::loop_isolation(false)]
fn xref_side_to_json(m: &Vec<(u64, Vec<u64>)>) -> (r: Json)
    ensures
        r@ == JsonV::Obj(
            spec_xref_side_json(m@.map_values(|p: (u64, Vec<u64>)| (p.0, p.1@))),
        ),
{
    let ghost target = spec_xref_side_json(m@.map_values(|p: (u64, Vec<u64>)| (p.0, p.1@)));
    let mut out: Vec<(String, Json)> = Vec::new();
    let n = m.len();
    for i in 0..n
        invariant
            out@.len() == i,
            forall|k: int|
                0 <= k < i ==> ((#[trigger] out@[k]).0@, json_view(out@[k].1)) == target[k],
    {
        let key = dec_string(m[i].0);
        let value = addresses_to_json(&m[i].1);
        out.push((key, value));
        proof {
            assert(m@.map_values(|p: (u64, Vec<u64>)| (p.0, p.1@))[i as int] == (
                m@[i as int].0,
                m@[i as int].1@,
            ));
        }
    }
    proof {
        assert(json_fields_view(out@) =~= target);
    }
    Json::Obj(out)
}

/// Projects a cross-reference index, both directions.
pub fn xrefs_to_json(xrefs: &XRefs) -> (r: Json)
    ensures
        r@ == spec_xrefs_json(xrefs@),
{
    obj2(
        "from_to",
        xref_side_to_json(&xrefs.from_to),
        "to_from",
        xref_side_to_json(&xrefs.to_from),
    )
}

} // verus!

verus! {

/// Which of the operation shapes a value has.
pub open spec fn operation_kind(o: OperationV) -> int {
    match o {
        OperationV::Assign { .. } => 0,
        OperationV::Store { .. } => 1,
        OperationV::Load { .. } => 2,
        OperationV::Branch { .. } => 3,
        OperationV::Call(..) => 4,
        OperationV::Intrinsic(..) => 5,
        OperationV::Return(..) => 6,
        OperationV::Nop => 7,
    }
}

/// The discriminator tag an expression carries: the value of its `type`
/// field for a leaf, of its `op` field for an operator.
pub open spec fn spec_expression_tag(e: ExpressionV) -> Seq<char> {
    match e {
        ExpressionV::LValue(l) => match *l {
            LValueV::Variable(v) => match v {
                VariableV::Scalar(..) => "scalar"@,
                VariableV::StackVariable(..) => "stack_variable"@,
            },
            LValueV::Dereference(..) => "dereference"@,
        },
        ExpressionV::RValue(r) => match *r {
            RValueV::Value(..) => "constant"@,
            RValueV::Reference(..) => "reference"@,
        },
        ExpressionV::Add(..) => "add"@,
        ExpressionV::Sub(..) => "sub"@,
        ExpressionV::Mul(..) => "mul"@,
        ExpressionV::Divu(..) => "divu"@,
        ExpressionV::Modu(..) => "modu"@,
        ExpressionV::Divs(..) => "divs"@,
        ExpressionV::Mods(..) => "mods"@,
        ExpressionV::And(..) => "and"@,
        ExpressionV::Or(..) => "or"@,
        ExpressionV::Xor(..) => "xor"@,
        ExpressionV::Shl(..) => "shl"@,
        ExpressionV::Shr(..) => "shr"@,
        ExpressionV::Cmpeq(..) => "cmpeq"@,
        ExpressionV::Cmpneq(..) => "cmpneq"@,
        ExpressionV::Cmplts(..) => "cmplts"@,
        ExpressionV::Cmpltu(..) => "cmpltu"@,
        ExpressionV::Trun(..) => "trun"@,
        ExpressionV::Sext(..) => "sext"@,
        ExpressionV::Zext(..) => "zext"@,
        ExpressionV::Ite(..) => "ite"@,
    }
}

/// Which of the expression shapes a value has.
pub open spec fn expression_kind(e: ExpressionV) -> int {
    match e {
        ExpressionV::LValue(l) => match *l {
            LValueV::Variable(v) => match v {
                VariableV::Scalar(..) => 0,
                VariableV::StackVariable(..) => 1,
            },
            LValueV::Dereference(..) => 2,
        },
        ExpressionV::RValue(r) => match *r {
            RValueV::Value(..) => 3,
            RValueV::Reference(..) => 4,
        },
        ExpressionV::Add(..) => 5,
        ExpressionV::Sub(..) => 6,
        ExpressionV::Mul(..) => 7,
        ExpressionV::Divu(..) => 8,
        ExpressionV::Modu(..) => 9,
        ExpressionV::Divs(..) => 10,
        ExpressionV::Mods(..) => 11,
        ExpressionV::And(..) => 12,
        ExpressionV::Or(..) => 13,
        ExpressionV::Xor(..) => 14,
        ExpressionV::Shl(..) => 15,
        ExpressionV::Shr(..) => 16,
        ExpressionV::Cmpeq(..) => 17,
        ExpressionV::Cmpneq(..) => 18,
        ExpressionV::Cmplts(..) => 19,
        ExpressionV::Cmpltu(..) => 20,
        ExpressionV::Trun(..) => 21,
        ExpressionV::Sext(..) => 22,
        ExpressionV::Zext(..) => 23,
        ExpressionV::Ite(..) => 24,
    }
}

/// The `operation` field of a projected operation carries the variant's own
/// tag, and no two distinct operation shapes share a tag string.
#[verifier::rlimit(100)]
pub proof fn lemma_operation_tag_identifies(a: OperationV, b: OperationV)
    ensures
        (spec_operation_tag(a) == spec_operation_tag(b)) == (operation_kind(a)
            == operation_kind(b)),
{
    reveal_strlit("assign");
    reveal_strlit("store");
    reveal_strlit("load");
    reveal_strlit("branch");
    reveal_strlit("call");
    reveal_strlit("intrinsic");
    reveal_strlit("return");
    reveal_strlit("nop");
    assert("assign"@.len() == 6);
    assert("store"@.len() == 5);
    assert("load"@.len() == 4);
    assert("branch"@.len() == 6);
    assert("call"@.len() == 4);
    assert("intrinsic"@.len() == 9);
    assert("return"@.len() == 6);
    assert("nop"@.len() == 3);
    assert("assign"@ != "branch"@) by {
        assert("assign"@[0] == 'a' && "branch"@[0] == 'b');
    }
    assert("assign"@ != "return"@) by {
        assert("assign"@[0] == 'a' && "return"@[0] == 'r');
    }
    assert("load"@ != "call"@) by {
        assert("load"@[0] == 'l' && "call"@[0] == 'c');
    }
    assert("branch"@ != "return"@) by {
        assert("branch"@[0] == 'b' && "return"@[0] == 'r');
    }
}

/// No two distinct expression shapes share a discriminator tag string.
#[verifier::rlimit(100)]
pub proof fn lemma_expression_tag_identifies(a: ExpressionV, b: ExpressionV)
    ensures
        (spec_expression_tag(a) == spec_expression_tag(b)) == (expression_kind(a)
            == expression_kind(b)),
{
    reveal_strlit("scalar");
    reveal_strlit("stack_variable");
    reveal_strlit("dereference");
    reveal_strlit("constant");
    reveal_strlit("reference");
    reveal_strlit("add");
    reveal_strlit("sub");
    reveal_strlit("mul");
    reveal_strlit("divu");
    reveal_strlit("modu");
    reveal_strlit("divs");
    reveal_strlit("mods");
    reveal_strlit("and");
    reveal_strlit("or");
    reveal_strlit("xor");
    reveal_strlit("shl");
    reveal_strlit("shr");
    reveal_strlit("cmpeq");
    reveal_strlit("cmpneq");
    reveal_strlit("cmplts");
    reveal_strlit("cmpltu");
    reveal_strlit("trun");
    reveal_strlit("sext");
    reveal_strlit("zext");
    reveal_strlit("ite");
    assert("scalar"@.len() == 6);
    assert("stack_variable"@.len() == 14);
    assert("dereference"@.len() == 11);
    assert("constant"@.len() == 8);
    assert("reference"@.len() == 9);
    assert("add"@.len() == 3);
    assert("sub"@.len() == 3);
    assert("mul"@.len() == 3);
    assert("divu"@.len() == 4);
    assert("modu"@.len() == 4);
    assert("divs"@.len() == 4);
    assert("mods"@.len() == 4);
    assert("and"@.len() == 3);
    assert("or"@.len() == 2);
    assert("xor"@.len() == 3);
    assert("shl"@.len() == 3);
    assert("shr"@.len() == 3);
    assert("cmpeq"@.len() == 5);
    assert("cmpneq"@.len() == 6);
    assert("cmplts"@.len() == 6);
    assert("cmpltu"@.len() == 6);
    assert("trun"@.len() == 4);
    assert("sext"@.len() == 4);
    assert("zext"@.len() == 4);
    assert("ite"@.len() == 3);
    assert("scalar"@ != "cmpneq"@) by {
        assert("scalar"@[0] == 's' && "cmpneq"@[0] == 'c');
    }
    assert("scalar"@ != "cmplts"@) by {
        assert("scalar"@[0] == 's' && "cmplts"@[0] == 'c');
    }
    assert("scalar"@ != "cmpltu"@) by {
        assert("scalar"@[0] == 's' && "cmpltu"@[0] == 'c');
    }
    assert("add"@ != "sub"@) by {
        assert("add"@[0] == 'a' && "sub"@[0] == 's');
    }
    assert("add"@ != "mul"@) by {
        assert("add"@[0] == 'a' && "mul"@[0] == 'm');
    }
    assert("add"@ != "and"@) by {
        assert("add"@[1] == 'd' && "and"@[1] == 'n');
    }
    assert("add"@ != "xor"@) by {
        assert("add"@[0] == 'a' && "xor"@[0] == 'x');
    }
    assert("add"@ != "shl"@) by {
        assert("add"@[0] == 'a' && "shl"@[0] == 's');
    }
    assert("add"@ != "shr"@) by {
        assert("add"@[0] == 'a' && "shr"@[0] == 's');
    }
    assert("add"@ != "ite"@) by {
        assert("add"@[0] == 'a' && "ite"@[0] == 'i');
    }
    assert("sub"@ != "mul"@) by {
        assert("sub"@[0] == 's' && "mul"@[0] == 'm');
    }
    assert("sub"@ != "and"@) by {
        assert("sub"@[0] == 's' && "and"@[0] == 'a');
    }
    assert("sub"@ != "xor"@) by {
        assert("sub"@[0] == 's' && "xor"@[0] == 'x');
    }
    assert("sub"@ != "shl"@) by {
        assert("sub"@[1] == 'u' && "shl"@[1] == 'h');
    }
    assert("sub"@ != "shr"@) by {
        assert("sub"@[1] == 'u' && "shr"@[1] == 'h');
    }
    assert("sub"@ != "ite"@) by {
        assert("sub"@[0] == 's' && "ite"@[0] == 'i');
    }
    assert("mul"@ != "and"@) by {
        assert("mul"@[0] == 'm' && "and"@[0] == 'a');
    }
    assert("mul"@ != "xor"@) by {
        assert("mul"@[0] == 'm' && "xor"@[0] == 'x');
    }
    assert("mul"@ != "shl"@) by {
        assert("mul"@[0] == 'm' && "shl"@[0] == 's');
    }
    assert("mul"@ != "shr"@) by {
        assert("mul"@[0] == 'm' && "shr"@[0] == 's');
    }
    assert("mul"@ != "ite"@) by {
        assert("mul"@[0] == 'm' && "ite"@[0] == 'i');
    }
    assert("divu"@ != "modu"@) by {
        assert("divu"@[0] == 'd' && "modu"@[0] == 'm');
    }
    assert("divu"@ != "divs"@) by {
        assert("divu"@[3] == 'u' && "divs"@[3] == 's');
    }
    assert("divu"@ != "mods"@) by {
        assert("divu"@[0] == 'd' && "mods"@[0] == 'm');
    }
    assert("divu"@ != "trun"@) by {
        assert("divu"@[0] == 'd' && "trun"@[0] == 't');
    }
    assert("divu"@ != "sext"@) by {
        assert("divu"@[0] == 'd' && "sext"@[0] == 's');
    }
    assert("divu"@ != "zext"@) by {
        assert("divu"@[0] == 'd' && "zext"@[0] == 'z');
    }
    assert("modu"@ != "divs"@) by {
        assert("modu"@[0] == 'm' && "divs"@[0] == 'd');
    }
    assert("modu"@ != "mods"@) by {
        assert("modu"@[3] == 'u' && "mods"@[3] == 's');
    }
    assert("modu"@ != "trun"@) by {
        assert("modu"@[0] == 'm' && "trun"@[0] == 't');
    }
    assert("modu"@ != "sext"@) by {
        assert("modu"@[0] == 'm' && "sext"@[0] == 's');
    }
    assert("modu"@ != "zext"@) by {
        assert("modu"@[0] == 'm' && "zext"@[0] == 'z');
    }
    assert("divs"@ != "mods"@) by {
        assert("divs"@[0] == 'd' && "mods"@[0] == 'm');
    }
    assert("divs"@ != "trun"@) by {
        assert("divs"@[0] == 'd' && "trun"@[0] == 't');
    }
    assert("divs"@ != "sext"@) by {
        assert("divs"@[0] == 'd' && "sext"@[0] == 's');
    }
    assert("divs"@ != "zext"@) by {
        assert("divs"@[0] == 'd' && "zext"@[0] == 'z');
    }
    assert("mods"@ != "trun"@) by {
        assert("mods"@[0] == 'm' && "trun"@[0] == 't');
    }
    assert("mods"@ != "sext"@) by {
        assert("mods"@[0] == 'm' && "sext"@[0] == 's');
    }
    assert("mods"@ != "zext"@) by {
        assert("mods"@[0] == 'm' && "zext"@[0] == 'z');
    }
    assert("and"@ != "xor"@) by {
        assert("and"@[0] == 'a' && "xor"@[0] == 'x');
    }
    assert("and"@ != "shl"@) by {
        assert("and"@[0] == 'a' && "shl"@[0] == 's');
    }
    assert("and"@ != "shr"@) by {
        assert("and"@[0] == 'a' && "shr"@[0] == 's');
    }
    assert("and"@ != "ite"@) by {
        assert("and"@[0] == 'a' && "ite"@[0] == 'i');
    }
    assert("xor"@ != "shl"@) by {
        assert("xor"@[0] == 'x' && "shl"@[0] == 's');
    }
    assert("xor"@ != "shr"@) by {
        assert("xor"@[0] == 'x' && "shr"@[0] == 's');
    }
    assert("xor"@ != "ite"@) by {
        assert("xor"@[0] == 'x' && "ite"@[0] == 'i');
    }
    assert("shl"@ != "shr"@) by {
        assert("shl"@[2] == 'l' && "shr"@[2] == 'r');
    }
    assert("shl"@ != "ite"@) by {
        assert("shl"@[0] == 's' && "ite"@[0] == 'i');
    }
    assert("shr"@ != "ite"@) by {
        assert("shr"@[0] == 's' && "ite"@[0] == 'i');
    }
    assert("cmpneq"@ != "cmplts"@) by {
        assert("cmpneq"@[3] == 'n' && "cmplts"@[3] == 'l');
    }
    assert("cmpneq"@ != "cmpltu"@) by {
        assert("cmpneq"@[3] == 'n' && "cmpltu"@[3] == 'l');
    }
    assert("cmplts"@ != "cmpltu"@) by {
        assert("cmplts"@[5] == 's' && "cmpltu"@[5] == 'u');
    }
    assert("trun"@ != "sext"@) by {
        assert("trun"@[0] == 't' && "sext"@[0] == 's');
    }
    assert("trun"@ != "zext"@) by {
        assert("trun"@[0] == 't' && "zext"@[0] == 'z');
    }
    assert("sext"@ != "zext"@) by {
        assert("sext"@[0] == 's' && "zext"@[0] == 'z');
    }
}

/// Every projected operation is an object whose first field is the
/// discriminator, holding exactly the variant's tag.
pub proof fn lemma_operation_json_carries_tag(o: OperationV)
    ensures
        spec_operation_json(o) matches JsonV::Obj(fields) && fields.len() >= 1 && fields[0] == (
            "operation"@,
            JsonV::Str(spec_operation_tag(o)),
        ),
{
}

/// Every projected expression is an object whose first field holds exactly
/// the shape's tag, under `type` for a leaf and `op` for an operator.
#[verifier::rlimit(100)]
pub proof fn lemma_expression_json_carries_tag(e: ExpressionV)
    ensures
        spec_expression_json(e) matches JsonV::Obj(fields) && fields.len() >= 1 && fields[0].1
            == JsonV::Str(spec_expression_tag(e)),
{
    match e {
        ExpressionV::LValue(l) => {
            assert(spec_expression_json(e) == spec_lvalue_json(*l));
            match *l {
                LValueV::Variable(v) => {
                    assert(spec_lvalue_json(*l) == spec_variable_json(v));
                },
                LValueV::Dereference(..) => {},
            }
        },
        ExpressionV::RValue(r) => {
            assert(spec_expression_json(e) == spec_rvalue_json(*r));
            match *r {
                RValueV::Value(c) => {
                    assert(spec_rvalue_json(*r) == spec_constant_json(c));
                },
                RValueV::Reference(..) => {},
            }
        },
        _ => {},
    }
}

} // verus!
