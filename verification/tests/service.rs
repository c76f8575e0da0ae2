use raptor_server::analysis::NopShrinker;
use raptor_server::api::{
    api_calls_to_symbol, api_document_functions, api_documents, api_function_ir,
    api_function_name, api_instruction_at, create_document, get_string_param, get_u64_param,
    parse_document_new_params,
};
use raptor_server::document::Document;
use raptor_server::eq::{expression_eq, function_eq};
use raptor_server::error::{internal_server_error, INTERNAL_ERROR_CODE};
use raptor_server::ir::{
    Call, CallTarget, Constant, Expression, Instruction, Intrinsic, LValue, Operation, RValue,
    Scalar, StackVariable, Variable,
};
use raptor_server::json::{json_eq, Json};
use raptor_server::numfmt::{dec_string, hex_string};
use raptor_server::pipeline::dce_fixpoint;
use raptor_server::program::{Block, Edge, Function, FunctionLocation, Program, XRefs};
use raptor_server::project::{
    call_to_json, constant_to_json, edge_to_json, expression_to_json, function_to_json,
    instruction_to_json, intrinsic_to_json, operation_to_json, program_location_to_json,
    variable_to_json, xrefs_to_json,
};
use raptor_server::resolve::{check_program_wf, find_calls, resolve};
use raptor_server::store::Store;

fn scalar(name: &str, bits: usize) -> Variable {
    Variable::Scalar(Scalar {
        name: name.to_string(),
        bits,
    })
}

fn constant(value: u64, bits: usize) -> Expression {
    Expression::RValue(Box::new(RValue::Value(Constant { value, bits })))
}

fn scalar_expr(name: &str, bits: usize) -> Expression {
    Expression::LValue(Box::new(LValue::Variable(scalar(name, bits))))
}

fn nop_instruction(index: usize, address: Option<u64>) -> Instruction {
    Instruction {
        operation: Operation::Nop,
        index,
        comment: None,
        address,
    }
}

fn call_to(symbol: &str, index: usize, address: Option<u64>) -> Instruction {
    Instruction {
        operation: Operation::Call(Call {
            target: CallTarget::Symbol(symbol.to_string()),
            arguments: None,
            variables_written: None,
        }),
        index,
        comment: None,
        address,
    }
}

fn function_with_blocks(index: usize, name: &str, blocks: Vec<Block>) -> Function {
    Function {
        address: 0x1000 + index as u64,
        index: Some(index),
        name: name.to_string(),
        blocks,
        edges: Vec::new(),
    }
}

fn obj(fields: Vec<(&str, Json)>) -> Json {
    Json::Obj(
        fields
            .into_iter()
            .map(|(k, v)| (k.to_string(), v))
            .collect(),
    )
}

fn s(text: &str) -> Json {
    Json::Str(text.to_string())
}

#[test]
fn hex_renders_lowercase_without_leading_zeros() {
    assert_eq!(hex_string(0).as_str(), "0");
    assert_eq!(hex_string(255).as_str(), "ff");
    assert_eq!(hex_string(0xdeadbeef).as_str(), "deadbeef");
    assert_eq!(hex_string(16).as_str(), "10");
}

#[test]
fn dec_renders_all_digits() {
    assert_eq!(dec_string(0).as_str(), "0");
    assert_eq!(dec_string(10).as_str(), "10");
    assert_eq!(dec_string(1234567890).as_str(), "1234567890");
}

#[test]
fn scalar_variable_projection_is_exact() {
    let v = scalar("rax", 64);
    let expected = obj(vec![
        ("type", s("scalar")),
        ("name", s("rax")),
        ("bits", Json::UInt(64)),
    ]);
    assert!(json_eq(&variable_to_json(&v), &expected));
}

#[test]
fn stack_variable_projection_is_exact() {
    let v = Variable::StackVariable(StackVariable {
        offset: -8,
        bits: 32,
    });
    let expected = obj(vec![
        ("type", s("stack_variable")),
        ("offset", Json::Int(-8)),
        ("bits", Json::UInt(32)),
    ]);
    assert!(json_eq(&variable_to_json(&v), &expected));
}

#[test]
fn constant_projection_renders_hex_with_prefix() {
    let c = Constant {
        value: 0xdeadbeef,
        bits: 32,
    };
    let expected = obj(vec![
        ("type", s("constant")),
        ("value", s("0xdeadbeef")),
        ("bits", Json::UInt(32)),
    ]);
    assert!(json_eq(&constant_to_json(&c), &expected));
}

#[test]
fn add_expression_projection_nests_operands() {
    let e = Expression::Add(
        Box::new(constant(1, 32)),
        Box::new(scalar_expr("eax", 32)),
    );
    let expected = obj(vec![
        ("op", s("add")),
        (
            "lhs",
            obj(vec![
                ("type", s("constant")),
                ("value", s("0x1")),
                ("bits", Json::UInt(32)),
            ]),
        ),
        (
            "rhs",
            obj(vec![
                ("type", s("scalar")),
                ("name", s("eax")),
                ("bits", Json::UInt(32)),
            ]),
        ),
    ]);
    assert!(json_eq(&expression_to_json(&e), &expected));
}

#[test]
fn ite_and_width_ops_carry_their_tags() {
    let t = Expression::Trun(8, Box::new(scalar_expr("eax", 32)));
    let trun = expression_to_json(&t);
    let op = trun.get(&"op".to_string()).unwrap();
    assert!(json_eq(op, &s("trun")));
    let bits = trun.get(&"bits".to_string()).unwrap();
    assert!(json_eq(bits, &Json::UInt(8)));

    let ite = Expression::Ite(
        Box::new(constant(1, 1)),
        Box::new(constant(2, 32)),
        Box::new(constant(3, 32)),
    );
    let j = expression_to_json(&ite);
    assert!(json_eq(j.get(&"op".to_string()).unwrap(), &s("ite")));
    assert!(j.get(&"cond".to_string()).is_some());
    assert!(j.get(&"then".to_string()).is_some());
    assert!(j.get(&"else".to_string()).is_some());
}

#[test]
fn operation_tags_are_pairwise_distinct() {
    let operations = vec![
        Operation::Assign {
            dst: scalar("a", 32),
            src: constant(1, 32),
        },
        Operation::Store {
            index: constant(1, 64),
            src: constant(2, 32),
        },
        Operation::Load {
            dst: scalar("a", 32),
            index: constant(1, 64),
        },
        Operation::Branch {
            target: constant(4, 64),
        },
        Operation::Call(Call {
            target: CallTarget::FunctionId(3),
            arguments: None,
            variables_written: None,
        }),
        Operation::Return(None),
        Operation::Nop,
    ];
    let key = "operation".to_string();
    let jsons: Vec<Json> = operations.iter().map(operation_to_json).collect();
    let tags: Vec<&Json> = jsons.iter().map(|j| j.get(&key).unwrap()).collect();
    for i in 0..tags.len() {
        for j in 0..tags.len() {
            assert_eq!(i == j, json_eq(tags[i], tags[j]));
        }
    }
}

#[test]
fn instruction_projection_keeps_comment_and_address() {
    let i = Instruction {
        operation: Operation::Nop,
        index: 2,
        comment: Some("lifted".to_string()),
        address: Some(0x400),
    };
    let expected = obj(vec![
        ("operation", obj(vec![("operation", s("nop"))])),
        ("index", Json::UInt(2)),
        ("comment", s("lifted")),
        ("address", Json::UInt(0x400)),
    ]);
    assert!(json_eq(&instruction_to_json(&i), &expected));
}

#[test]
fn edge_projection_uses_null_for_missing_guard() {
    let e = Edge {
        head: 0,
        tail: 1,
        condition: None,
        comment: None,
    };
    let expected = obj(vec![
        ("head", Json::UInt(0)),
        ("tail", Json::UInt(1)),
        ("condition", Json::Null),
        ("comment", Json::Null),
    ]);
    assert!(json_eq(&edge_to_json(&e), &expected));
}

#[test]
fn function_projection_carries_blocks_and_edges() {
    let f = Function {
        address: 0x1000,
        index: Some(0),
        name: "main".to_string(),
        blocks: vec![Block {
            index: 0,
            instructions: vec![nop_instruction(0, Some(0x1000))],
        }],
        edges: vec![Edge {
            head: 0,
            tail: 0,
            condition: None,
            comment: Some("loop".to_string()),
        }],
    };
    let j = function_to_json(&f);
    assert!(json_eq(j.get(&"address".to_string()).unwrap(), &Json::UInt(0x1000)));
    assert!(json_eq(j.get(&"index".to_string()).unwrap(), &Json::UInt(0)));
    assert!(json_eq(j.get(&"name".to_string()).unwrap(), &s("main")));
    let blocks = j.get(&"blocks".to_string()).unwrap();
    match blocks {
        Json::Arr(items) => assert_eq!(items.len(), 1),
        _ => panic!("blocks was not an array"),
    }
    let edges = j.get(&"edges".to_string()).unwrap();
    match edges {
        Json::Arr(items) => assert_eq!(items.len(), 1),
        _ => panic!("edges was not an array"),
    }
}

#[test]
fn xrefs_projection_keys_are_decimal() {
    let x = XRefs {
        from_to: vec![(4096, vec![8192, 8200])],
        to_from: vec![(8192, vec![4096])],
    };
    let expected = obj(vec![
        (
            "from_to",
            obj(vec![(
                "4096",
                Json::Arr(vec![Json::UInt(8192), Json::UInt(8200)]),
            )]),
        ),
        (
            "to_from",
            obj(vec![("8192", Json::Arr(vec![Json::UInt(4096)]))]),
        ),
    ]);
    assert!(json_eq(&xrefs_to_json(&x), &expected));
}

#[test]
fn structural_equality_is_content_not_identity() {
    let a = Expression::Xor(
        Box::new(scalar_expr("a", 32)),
        Box::new(constant(7, 32)),
    );
    let b = Expression::Xor(
        Box::new(scalar_expr("a", 32)),
        Box::new(constant(7, 32)),
    );
    let c = Expression::Xor(
        Box::new(scalar_expr("a", 32)),
        Box::new(constant(8, 32)),
    );
    assert!(expression_eq(&a, &b));
    assert!(!expression_eq(&a, &c));
}

fn two_nop_program() -> Program {
    Program {
        functions: vec![function_with_blocks(
            0,
            "main",
            vec![Block {
                index: 0,
                instructions: vec![nop_instruction(0, Some(0x10)), nop_instruction(1, None)],
            }],
        )],
    }
}

#[test]
fn fixpoint_converges_for_a_shrinking_transform() {
    let f = function_with_blocks(
        0,
        "main",
        vec![Block {
            index: 0,
            instructions: vec![
                nop_instruction(0, None),
                nop_instruction(1, None),
                nop_instruction(2, None),
            ],
        }],
    );
    let outcome = dce_fixpoint(&NopShrinker, f, 64);
    assert!(outcome.converged);
    // three strips plus the round that observes the fixpoint
    assert!(outcome.iterations <= 5);
    assert_eq!(outcome.function.blocks.len(), 1);
    assert_eq!(outcome.function.blocks[0].instructions.len(), 0);
}

#[test]
fn fixpoint_aborts_at_the_cap() {
    let f = function_with_blocks(
        0,
        "main",
        vec![Block {
            index: 0,
            instructions: (0..10).map(|i| nop_instruction(i, None)).collect(),
        }],
    );
    let outcome = dce_fixpoint(&NopShrinker, f, 3);
    assert!(!outcome.converged);
    assert_eq!(outcome.iterations, 3);
}

#[test]
fn translate_twice_changes_no_function() {
    let mut document = Document::new(two_nop_program());
    document.translate(&NopShrinker, 64);
    let after_first: Vec<Function> = document
        .program()
        .functions
        .iter()
        .map(|f| {
            // snapshot by rebuilding through the pipeline's own normal form
            Function {
                address: f.address,
                index: f.index,
                name: f.name.clone(),
                blocks: f
                    .blocks
                    .iter()
                    .map(|b| Block {
                        index: b.index,
                        instructions: b
                            .instructions
                            .iter()
                            .map(|i| nop_instruction(i.index, i.address))
                            .collect(),
                    })
                    .collect(),
                edges: Vec::new(),
            }
        })
        .collect();
    document.translate(&NopShrinker, 64);
    let program = document.program();
    assert_eq!(program.functions.len(), after_first.len());
    for (f, g) in program.functions.iter().zip(after_first.iter()) {
        assert!(function_eq(f, g));
    }
}

#[test]
fn translate_summary_counts_functions() {
    let mut document = Document::new(two_nop_program());
    let summary = document.translate(&NopShrinker, 64);
    assert_eq!(summary.optimized, 1);
    assert_eq!(summary.skipped, 0);
    assert_eq!(summary.capped, 0);
}

#[test]
fn store_add_under_same_name_replaces() {
    let mut store = Store::new();
    let d1 = Document::new(Program {
        functions: vec![function_with_blocks(0, "first", vec![])],
    });
    let d2 = Document::new(Program {
        functions: vec![function_with_blocks(0, "second", vec![])],
    });
    store.add_document("x".to_string(), d1);
    store.add_document("x".to_string(), d2);
    let got = store.get(&"x".to_string()).unwrap();
    assert_eq!(got.program().functions[0].name.as_str(), "second");
    assert_eq!(store.documents().len(), 1);
}

#[test]
fn store_get_misses_unknown_names() {
    let mut store = Store::new();
    store.add_document(
        "x".to_string(),
        Document::new(Program { functions: vec![] }),
    );
    assert!(store.get(&"X".to_string()).is_none());
    assert!(store.get(&"y".to_string()).is_none());
    assert!(store.get(&"x".to_string()).is_some());
}

fn addressed_program() -> Program {
    Program {
        functions: vec![
            function_with_blocks(
                0,
                "first",
                vec![Block {
                    index: 0,
                    instructions: vec![nop_instruction(0, Some(0x100)), nop_instruction(1, None)],
                }],
            ),
            function_with_blocks(
                1,
                "second",
                vec![Block {
                    index: 0,
                    instructions: vec![call_to("memcpy", 0, Some(0x200))],
                }],
            ),
        ],
    }
}

#[test]
fn resolve_misses_absent_addresses() {
    let p = addressed_program();
    assert!(check_program_wf(&p));
    assert!(resolve(&p, 0x999).is_none());
    // an instruction without an address never matches, whatever the query
    assert!(resolve(&p, u64::MAX).is_none());
}

#[test]
fn resolve_finds_a_uniquely_addressed_instruction() {
    let p = addressed_program();
    let found = resolve(&p, 0x200).unwrap();
    assert_eq!(found.function_index, 1);
    assert_eq!(found.function_name.as_str(), "second");
    assert_eq!(found.block_index, 0);
    assert_eq!(found.instruction.index, 0);
    let first = resolve(&p, 0x100).unwrap();
    assert_eq!(first.function_index, 0);
    assert_eq!(first.function_name.as_str(), "first");
}

#[test]
fn find_calls_matches_exactly_and_in_order() {
    let p = Program {
        functions: vec![
            function_with_blocks(
                0,
                "a",
                vec![Block {
                    index: 0,
                    instructions: vec![
                        call_to("memcpy", 0, Some(0x10)),
                        call_to("memcpy2", 1, Some(0x18)),
                        nop_instruction(2, None),
                    ],
                }],
            ),
            function_with_blocks(
                1,
                "b",
                vec![Block {
                    index: 7,
                    instructions: vec![call_to("Memcpy", 0, None), call_to("memcpy", 1, None)],
                }],
            ),
        ],
    };
    let locations = find_calls(&p, &"memcpy".to_string());
    assert_eq!(locations.len(), 2);
    assert_eq!(locations[0].function_index, 0);
    match locations[0].function_location {
        FunctionLocation::Instruction(b, i) => {
            assert_eq!(b, 0);
            assert_eq!(i, 0);
        }
        _ => panic!("expected an instruction location"),
    }
    assert_eq!(locations[1].function_index, 1);
    match locations[1].function_location {
        FunctionLocation::Instruction(b, i) => {
            assert_eq!(b, 7);
            assert_eq!(i, 1);
        }
        _ => panic!("expected an instruction location"),
    }
    let none = find_calls(&p, &"memmove".to_string());
    assert!(none.is_empty());
}

#[test]
fn program_location_projection_is_exact() {
    let pl = raptor_server::program::ProgramLocation {
        function_index: 3,
        function_location: FunctionLocation::Instruction(1, 4),
    };
    let expected = obj(vec![
        ("function-index", Json::UInt(3)),
        (
            "function-location",
            obj(vec![
                ("block-index", Json::UInt(1)),
                ("instruction-index", Json::UInt(4)),
            ]),
        ),
    ]);
    assert!(json_eq(&program_location_to_json(&pl), &expected));
}

fn store_with_document(name: &str) -> Store {
    let mut store = Store::new();
    let mut document = Document::new(addressed_program());
    document.translate(&NopShrinker, 64);
    store.add_document(name.to_string(), document);
    store
}

#[test]
fn api_documents_lists_names() {
    let mut store = Store::new();
    store.add_document(
        "alpha".to_string(),
        Document::new(Program { functions: vec![] }),
    );
    store.add_document(
        "beta".to_string(),
        Document::new(Program { functions: vec![] }),
    );
    let expected = Json::Arr(vec![s("alpha"), s("beta")]);
    assert!(json_eq(&api_documents(&store), &expected));
}

#[test]
fn api_document_functions_reports_index_and_name() {
    let mut store = Store::new();
    store.add_document(
        "doc".to_string(),
        Document::new(addressed_program()),
    );
    let params = obj(vec![("document-name", s("doc"))]);
    let j = api_document_functions(&store, &params).unwrap();
    let expected = Json::Arr(vec![
        obj(vec![("index", Json::UInt(0)), ("name", s("first"))]),
        obj(vec![("index", Json::UInt(1)), ("name", s("second"))]),
    ]);
    assert!(json_eq(&j, &expected));
}

#[test]
fn api_function_name_answers_and_rejects_bad_indices() {
    let mut store = Store::new();
    store.add_document("doc".to_string(), Document::new(addressed_program()));
    let good = obj(vec![
        ("document-name", s("doc")),
        ("function-index", Json::UInt(1)),
    ]);
    assert!(json_eq(&api_function_name(&store, &good).unwrap(), &s("second")));
    let bad = obj(vec![
        ("document-name", s("doc")),
        ("function-index", Json::UInt(9)),
    ]);
    let e = api_function_name(&store, &bad).unwrap_err();
    assert_eq!(e.code, INTERNAL_ERROR_CODE);
    assert_eq!(e.message.as_str(), "Could not find function-index: 9");
}

#[test]
fn api_errors_name_the_missing_pieces() {
    let store = Store::new();
    let not_a_map = Json::UInt(4);
    let e = api_document_functions(&store, &not_a_map).unwrap_err();
    assert_eq!(e.message.as_str(), "params must be a map");
    let empty = obj(vec![]);
    let e = api_document_functions(&store, &empty).unwrap_err();
    assert_eq!(e.message.as_str(), "missing document-name field");
    let wrong = obj(vec![("document-name", Json::UInt(4))]);
    let e = api_document_functions(&store, &wrong).unwrap_err();
    assert_eq!(e.message.as_str(), "name was not a string");
    let missing = obj(vec![("document-name", s("ghost"))]);
    let e = api_document_functions(&store, &missing).unwrap_err();
    assert_eq!(e.message.as_str(), "Could not find document ghost");
}

#[test]
fn api_instruction_at_answers_null_when_unresolved() {
    let store = store_with_document("doc");
    let params = obj(vec![
        ("document-name", s("doc")),
        ("address", Json::UInt(0xdead)),
    ]);
    let j = api_instruction_at(&store, &params).unwrap();
    assert!(json_eq(&j, &Json::Null));
}

#[test]
fn api_instruction_at_enriches_the_location() {
    let mut store = Store::new();
    store.add_document("doc".to_string(), Document::new(addressed_program()));
    let params = obj(vec![
        ("document-name", s("doc")),
        ("address", Json::UInt(0x200)),
    ]);
    let j = api_instruction_at(&store, &params).unwrap();
    assert!(json_eq(
        j.get(&"function-index".to_string()).unwrap(),
        &Json::UInt(1)
    ));
    assert!(json_eq(
        j.get(&"function-name".to_string()).unwrap(),
        &s("second")
    ));
    assert!(json_eq(
        j.get(&"block-index".to_string()).unwrap(),
        &Json::UInt(0)
    ));
    assert!(j.get(&"instruction".to_string()).is_some());
}

#[test]
fn api_calls_to_symbol_projects_each_location() {
    let mut store = Store::new();
    store.add_document("doc".to_string(), Document::new(addressed_program()));
    let params = obj(vec![
        ("document-name", s("doc")),
        ("symbol", s("memcpy")),
    ]);
    let j = api_calls_to_symbol(&store, &params).unwrap();
    let expected = Json::Arr(vec![obj(vec![
        ("function-index", Json::UInt(1)),
        (
            "function-location",
            obj(vec![
                ("block-index", Json::UInt(0)),
                ("instruction-index", Json::UInt(0)),
            ]),
        ),
    ])]);
    assert!(json_eq(&j, &expected));
}

#[test]
fn api_function_ir_projects_the_whole_function() {
    let mut store = Store::new();
    store.add_document("doc".to_string(), Document::new(addressed_program()));
    let params = obj(vec![
        ("document-name", s("doc")),
        ("function-index", Json::UInt(0)),
    ]);
    let j = api_function_ir(&store, &params).unwrap();
    assert!(json_eq(j.get(&"name".to_string()).unwrap(), &s("first")));
    assert!(json_eq(j.get(&"address".to_string()).unwrap(), &Json::UInt(0x1000)));
}

#[test]
fn parse_document_new_params_reads_name_and_bytes() {
    let params = obj(vec![
        ("name", s("doc")),
        (
            "bytes",
            Json::Arr(vec![Json::UInt(0), Json::UInt(255), Json::UInt(321)]),
        ),
    ]);
    let (name, bytes) = parse_document_new_params(&params).unwrap();
    assert_eq!(name.as_str(), "doc");
    // a number wider than a byte has always been taken modulo 256
    assert_eq!(bytes, vec![0u8, 255u8, 65u8]);
    let no_bytes = obj(vec![("name", s("doc"))]);
    let e = parse_document_new_params(&no_bytes).unwrap_err();
    assert_eq!(e.message.as_str(), "missing bytes");
    let bad_byte = obj(vec![
        ("name", s("doc")),
        ("bytes", Json::Arr(vec![s("zero")])),
    ]);
    let e = parse_document_new_params(&bad_byte).unwrap_err();
    assert_eq!(e.message.as_str(), "byte was not a valid number");
}

#[test]
fn create_document_translates_and_registers() {
    let mut store = Store::new();
    let summary = create_document(
        &mut store,
        "doc".to_string(),
        addressed_program(),
        &NopShrinker,
        64,
    );
    assert_eq!(summary.optimized, 2);
    assert_eq!(summary.skipped, 0);
    let document = store.get(&"doc".to_string()).unwrap();
    assert_eq!(document.program().functions.len(), 2);
    // the synthetic eliminator empties every function
    assert_eq!(document.program().functions[0].blocks[0].instructions.len(), 0);
    assert!(document.xrefs().from_to.is_empty());
}

#[test]
fn json_get_returns_the_first_binding() {
    let j = Json::Obj(vec![
        ("k".to_string(), Json::UInt(1)),
        ("k".to_string(), Json::UInt(2)),
    ]);
    assert!(json_eq(j.get(&"k".to_string()).unwrap(), &Json::UInt(1)));
    assert!(j.get(&"missing".to_string()).is_none());
    assert!(Json::Null.get(&"k".to_string()).is_none());
}

#[test]
fn param_readers_report_each_failure() {
    let params = obj(vec![("n", Json::UInt(3)), ("s", s("x"))]);
    assert_eq!(
        get_u64_param(&params, &"n".to_string(), "missing", "wrong").unwrap(),
        3
    );
    let e = get_u64_param(&params, &"s".to_string(), "missing", "wrong").unwrap_err();
    assert_eq!(e.message.as_str(), "wrong");
    let e = get_string_param(&params, &"absent".to_string(), "missing", "wrong").unwrap_err();
    assert_eq!(e.message.as_str(), "missing");
    let e = internal_server_error("boom".to_string());
    assert_eq!(e.code, INTERNAL_ERROR_CODE);
}

#[test]
fn dereference_and_reference_projections_nest_expressions() {
    let deref = Expression::LValue(Box::new(LValue::Dereference(
        raptor_server::ir::Dereference {
            expression: Box::new(constant(0x40, 64)),
        },
    )));
    let j = expression_to_json(&deref);
    assert!(json_eq(j.get(&"type".to_string()).unwrap(), &s("dereference")));
    assert!(j.get(&"expression".to_string()).is_some());

    let reference = Expression::RValue(Box::new(RValue::Reference(
        raptor_server::ir::Reference {
            expression: Box::new(scalar_expr("rsp", 64)),
        },
    )));
    let j = expression_to_json(&reference);
    assert!(json_eq(j.get(&"type".to_string()).unwrap(), &s("reference")));
    assert!(j.get(&"expression".to_string()).is_some());
}

#[test]
fn call_projection_carries_target_arguments_and_written_variables() {
    let call = Call {
        target: CallTarget::Symbol("memcpy".to_string()),
        arguments: Some(vec![constant(1, 64), constant(2, 64)]),
        variables_written: Some(vec![scalar("rax", 64)]),
    };
    let j = call_to_json(&call);
    let target = j.get(&"target".to_string()).unwrap();
    let expected_target = obj(vec![("type", s("symbol")), ("symbol", s("memcpy"))]);
    assert!(json_eq(target, &expected_target));
    match j.get(&"arguments".to_string()).unwrap() {
        Json::Arr(items) => assert_eq!(items.len(), 2),
        _ => panic!("arguments was not an array"),
    }
    match j.get(&"variables_written".to_string()).unwrap() {
        Json::Arr(items) => assert_eq!(items.len(), 1),
        _ => panic!("variables_written was not an array"),
    }

    let bare = Call {
        target: CallTarget::FunctionId(5),
        arguments: None,
        variables_written: None,
    };
    let j = call_to_json(&bare);
    let expected_target = obj(vec![("type", s("function_id")), ("function_id", Json::UInt(5))]);
    assert!(json_eq(j.get(&"target".to_string()).unwrap(), &expected_target));
    assert!(json_eq(j.get(&"arguments".to_string()).unwrap(), &Json::Null));
    assert!(json_eq(j.get(&"variables_written".to_string()).unwrap(), &Json::Null));
}

#[test]
fn intrinsic_projection_is_exact() {
    let intrinsic = Intrinsic {
        mnemonic: "cpuid".to_string(),
        instruction_str: "cpuid".to_string(),
        arguments: vec![],
        written_expressions: None,
        read_expressions: Some(vec![scalar_expr("eax", 32)]),
        bytes: vec![0x0f, 0xa2],
    };
    let j = intrinsic_to_json(&intrinsic);
    assert!(json_eq(j.get(&"mnemonic".to_string()).unwrap(), &s("cpuid")));
    assert!(json_eq(j.get(&"instruction_str".to_string()).unwrap(), &s("cpuid")));
    assert!(json_eq(j.get(&"arguments".to_string()).unwrap(), &Json::Arr(vec![])));
    assert!(json_eq(j.get(&"written_expressions".to_string()).unwrap(), &Json::Null));
    match j.get(&"read_expressions".to_string()).unwrap() {
        Json::Arr(items) => assert_eq!(items.len(), 1),
        _ => panic!("read_expressions was not an array"),
    }
    let expected_bytes = Json::Arr(vec![Json::UInt(0x0f), Json::UInt(0xa2)]);
    assert!(json_eq(j.get(&"bytes".to_string()).unwrap(), &expected_bytes));
}

#[test]
fn assign_store_load_projections_carry_operands() {
    let assign = Operation::Assign {
        dst: scalar("rax", 64),
        src: constant(7, 64),
    };
    let j = operation_to_json(&assign);
    assert!(json_eq(j.get(&"operation".to_string()).unwrap(), &s("assign")));
    assert!(j.get(&"dst".to_string()).is_some());
    assert!(j.get(&"src".to_string()).is_some());

    let store = Operation::Store {
        index: constant(0x100, 64),
        src: scalar_expr("rbx", 64),
    };
    let j = operation_to_json(&store);
    assert!(json_eq(j.get(&"operation".to_string()).unwrap(), &s("store")));
    assert!(j.get(&"index".to_string()).is_some());

    let ret = Operation::Return(Some(scalar_expr("rax", 64)));
    let j = operation_to_json(&ret);
    assert!(json_eq(j.get(&"operation".to_string()).unwrap(), &s("return")));
    assert!(j.get(&"result".to_string()).is_some());
    let ret_none = Operation::Return(None);
    let j = operation_to_json(&ret_none);
    assert!(json_eq(j.get(&"result".to_string()).unwrap(), &Json::Null));
}
