//! The query service: stateless handlers composing the store, the documents
//! and the projection layer.  Each handler takes its request parameters as a
//! tree of the external grammar and answers with one, or with the uniform
//! internal-error result.

use vstd::prelude::*;
use crate::document::Document;
use crate::error::{INTERNAL_ERROR_CODE, RpcError, internal_server_error};
use crate::json::{Json, JsonV, json_lookup, json_seq_view, json_view, obj4};
use crate::numfmt::dec_string;
use crate::pipeline::{Analysis, TranslationSummary, count_capped, count_skipped,
    spec_translate_function};
use crate::program::{FunctionV, Program, program_wf};
use crate::project::{
    function_to_json, instruction_to_json, program_location_to_json, spec_function_json,
    spec_instruction_json, spec_opt_index_json, spec_program_location_json, spec_xrefs_json,
    xrefs_to_json,
};
use crate::resolve::{find_calls, is_first_match, program_has_addr, resolve, spec_program_calls};
use crate::store::Store;

verus! {

/// The value a request carries under a key, when the parameters are an
/// object at all.
pub open spec fn lookup_param(params: JsonV, key: Seq<char>) -> Option<JsonV> {
    match params {
        JsonV::Obj(fields) => json_lookup(fields, key),
        _ => Option::None,
    }
}

/// The string a request carries under a key, if there is one.
pub open spec fn param_string(params: JsonV, key: Seq<char>) -> Option<Seq<char>> {
    match lookup_param(params, key) {
        Option::Some(JsonV::Str(s)) => Option::Some(s),
        _ => Option::None,
    }
}

/// The number a request carries under a key, if there is one.
pub open spec fn param_u64(params: JsonV, key: Seq<char>) -> Option<u64> {
    match lookup_param(params, key) {
        Option::Some(JsonV::UInt(n)) => Option::Some(n),
        _ => Option::None,
    }
}

/// Reads a string parameter; a missing map, a missing field and a value of
/// the wrong kind each surface their own description.
pub fn get_string_param(params: &Json, key: &String, missing: &str, wrong: &str) -> (r: Result<
    String,
    RpcError,
>)
    ensures
        match r {
            Result::Ok(s) => param_string(params@, key@) == Option::Some(s@),
            Result::Err(e) => e.code == INTERNAL_ERROR_CODE && param_string(params@, key@) is None
                && match lookup_param(params@, key@) {
                Option::None => (params@ is Obj && e.message@ == missing@) || (!(params@ is Obj)
                    && e.message@ == "params must be a map"@),
                Option::Some(v) => !(v is Str) && e.message@ == wrong@,
            },
        },
{
    match params {
        Json::Obj(_) => {},
        _ => {
            return Err(internal_server_error("params must be a map".to_owned()));
        },
    }
    match params.get(key) {
        Option::None => Err(internal_server_error(missing.to_owned())),
        Option::Some(v) => match v.as_str() {
            Option::None => Err(internal_server_error(wrong.to_owned())),
            Option::Some(s) => Ok(s.clone()),
        },
    }
}

/// Reads a number parameter, with the same failure shapes.
pub fn get_u64_param(params: &Json, key: &String, missing: &str, wrong: &str) -> (r: Result<
    u64,
    RpcError,
>)
    ensures
        match r {
            Result::Ok(n) => param_u64(params@, key@) == Option::Some(n),
            Result::Err(e) => e.code == INTERNAL_ERROR_CODE && param_u64(params@, key@) is None
                && match lookup_param(params@, key@) {
                Option::None => (params@ is Obj && e.message@ == missing@) || (!(params@ is Obj)
                    && e.message@ == "params must be a map"@),
                Option::Some(v) => !(v is UInt) && e.message@ == wrong@,
            },
        },
{
    match params {
        Json::Obj(_) => {},
        _ => {
            return Err(internal_server_error("params must be a map".to_owned()));
        },
    }
    match params.get(key) {
        Option::None => Err(internal_server_error(missing.to_owned())),
        Option::Some(v) => match v.as_u64() {
            Option::None => Err(internal_server_error(wrong.to_owned())),
            Option::Some(n) => Ok(n),
        },
    }
}

/// Whether every document of a registry carries its functions under their
/// stable indices.
pub open spec fn store_documents_wf(s: Store) -> bool {
    forall|name: Seq<char>|
        s@.contains_key(name) ==> program_wf((#[trigger] s@[name])@.program)
}

/// Looks a document up by the request's `document-name` parameter.
fn get_document<'a>(store: &'a Store, params: &Json) -> (r: Result<&'a Document, RpcError>)
    requires
        store.wf(),
    ensures
        match r {
            Result::Ok(d) => param_string(params@, "document-name"@) matches Option::Some(name)
                && store@.contains_key(name) && *d == store@[name],
            Result::Err(e) => e.code == INTERNAL_ERROR_CODE && match param_string(
                params@,
                "document-name"@,
            ) {
                Option::None => true,
                Option::Some(name) => !store@.contains_key(name) && e.message@
                    == "Could not find document "@ + name,
            },
        },
{
    let key = "document-name".to_owned();
    let name = match get_string_param(
        params,
        &key,
        "missing document-name field",
        "name was not a string",
    ) {
        Result::Ok(s) => s,
        Result::Err(e) => {
            return Err(e);
        },
    };
    match store.get(&name) {
        Option::Some(d) => Ok(d),
        Option::None => Err(
            internal_server_error("Could not find document ".to_owned().concat(name.as_str())),
        ),
    }
}

/// Lists the names of every registered document.
#[verifier::loop_isolation(false)]
pub fn api_documents(store: &Store) -> (r: Json)
    requires
        store.wf(),
    ensures
        r@ == JsonV::Arr(store.entries().map_values(|p: (String, Document)| JsonV::Str(p.0@))),
{
    let ghost target = store.entries().map_values(|p: (String, Document)| JsonV::Str(p.0@));
    let entries = store.documents();
    let mut out: Vec<Json> = Vec::new();
    let n = entries.len();
    for i in 0..n
        invariant
            out@.len() == i,
            n == entries@.len(),
            forall|k: int| 0 <= k < i ==> json_view(#[trigger] out@[k]) == target[k],
    {
        out.push(Json::Str(entries[i].0.clone()));
    }
    proof {
        assert(json_seq_view(out@) =~= target);
    }
    Json::Arr(out)
}

/// What one entry of the function list carries: the stable index and name.
pub open spec fn spec_function_entry_json(f: FunctionV) -> JsonV {
    JsonV::Obj(seq![("index"@, spec_opt_index_json(f.index)), ("name"@, JsonV::Str(f.name))])
}

/// Lists a document's functions as {index, name} pairs.
#[verifier::loop_isolation(false)]
pub fn api_document_functions(store: &Store, params: &Json) -> (r: Result<Json, RpcError>)
    requires
        store.wf(),
    ensures
        match r {
            Result::Ok(j) => param_string(params@, "document-name"@) matches Option::Some(name)
                && store@.contains_key(name) && j@ == JsonV::Arr(
                store@[name]@.program.functions.map_values(
                    |f: FunctionV| spec_function_entry_json(f),
                ),
            ),
            Result::Err(e) => e.code == INTERNAL_ERROR_CODE && match param_string(
                params@,
                "document-name"@,
            ) {
                Option::None => true,
                Option::Some(name) => !store@.contains_key(name),
            },
        },
{
    let document = match get_document(store, params) {
        Result::Ok(d) => d,
        Result::Err(e) => {
            return Err(e);
        },
    };
    let ghost target = document@.program.functions.map_values(
        |f: FunctionV| spec_function_entry_json(f),
    );
    let functions = &document.program().functions;
    let mut out: Vec<Json> = Vec::new();
    let n = functions.len();
    for i in 0..n
        invariant
            out@.len() == i,
            n == functions@.len(),
            forall|k: int| 0 <= k < i ==> json_view(#[trigger] out@[k]) == target[k],
    {
        let f = &functions[i];
        proof {
            assert(f@ == document@.program.functions[i as int]);
        }
        let index_json = match f.index {
            Option::Some(idx) => Json::UInt(idx as u64),
            Option::None => Json::Null,
        };
        out.push(crate::json::obj2("index", index_json, "name", Json::Str(f.name.clone())));
    }
    proof {
        assert(json_seq_view(out@) =~= target);
    }
    Ok(Json::Arr(out))
}

/// Answers with a document's cross-reference index.
pub fn api_document_xrefs(store: &Store, params: &Json) -> (r: Result<Json, RpcError>)
    requires
        store.wf(),
    ensures
        match r {
            Result::Ok(j) => param_string(params@, "document-name"@) matches Option::Some(name)
                && store@.contains_key(name) && j@ == spec_xrefs_json(store@[name]@.xrefs),
            Result::Err(e) => e.code == INTERNAL_ERROR_CODE && match param_string(
                params@,
                "document-name"@,
            ) {
                Option::None => true,
                Option::Some(name) => !store@.contains_key(name),
            },
        },
{
    let document = match get_document(store, params) {
        Result::Ok(d) => d,
        Result::Err(e) => {
            return Err(e);
        },
    };
    Ok(xrefs_to_json(document.xrefs()))
}

/// Looks a function up by the request's `function-index` parameter.
fn get_function_index(params: &Json) -> (r: Result<u64, RpcError>)
    ensures
        match r {
            Result::Ok(n) => param_u64(params@, "function-index"@) == Option::Some(n),
            Result::Err(e) => e.code == INTERNAL_ERROR_CODE && param_u64(
                params@,
                "function-index"@,
            ) is None,
        },
{
    let key = "function-index".to_owned();
    get_u64_param(params, &key, "missing function-index field", "index was not a valid number")
}

/// Answers with a function's name, by stable index.
pub fn api_function_name(store: &Store, params: &Json) -> (r: Result<Json, RpcError>)
    requires
        store.wf(),
    ensures
        match r {
            Result::Ok(j) => match (
                param_string(params@, "document-name"@),
                param_u64(params@, "function-index"@),
            ) {
                (Option::Some(name), Option::Some(idx)) => store@.contains_key(name) && idx
                    < store@[name]@.program.functions.len() && j@ == JsonV::Str(
                    store@[name]@.program.functions[idx as int].name,
                ),
                _ => false,
            },
            Result::Err(e) => e.code == INTERNAL_ERROR_CODE && match param_string(
                params@,
                "document-name"@,
            ) {
                Option::None => true,
                Option::Some(name) => !store@.contains_key(name) || match param_u64(
                    params@,
                    "function-index"@,
                ) {
                    Option::None => true,
                    Option::Some(idx) => idx >= store@[name]@.program.functions.len(),
                },
            },
        },
{
    let document = match get_document(store, params) {
        Result::Ok(d) => d,
        Result::Err(e) => {
            return Err(e);
        },
    };
    let index = match get_function_index(params) {
        Result::Ok(n) => n,
        Result::Err(e) => {
            return Err(e);
        },
    };
    let nfuncs = document.program().function_count();
    if index >= nfuncs as u64 {
        return Err(
            internal_server_error(
                "Could not find function-index: ".to_owned().concat(dec_string(index).as_str()),
            ),
        );
    }
    match document.program().function(index as usize) {
        Option::Some(f) => Ok(Json::Str(f.name.clone())),
        Option::None => Err(
            internal_server_error(
                "Could not find function-index: ".to_owned().concat(dec_string(index).as_str()),
            ),
        ),
    }
}

/// Answers with a function's whole projection, by stable index.
pub fn api_function_ir(store: &Store, params: &Json) -> (r: Result<Json, RpcError>)
    requires
        store.wf(),
    ensures
        match r {
            Result::Ok(j) => match (
                param_string(params@, "document-name"@),
                param_u64(params@, "function-index"@),
            ) {
                (Option::Some(name), Option::Some(idx)) => store@.contains_key(name) && idx
                    < store@[name]@.program.functions.len() && j@ == spec_function_json(
                    store@[name]@.program.functions[idx as int],
                ),
                _ => false,
            },
            Result::Err(e) => e.code == INTERNAL_ERROR_CODE && match param_string(
                params@,
                "document-name"@,
            ) {
                Option::None => true,
                Option::Some(name) => !store@.contains_key(name) || match param_u64(
                    params@,
                    "function-index"@,
                ) {
                    Option::None => true,
                    Option::Some(idx) => idx >= store@[name]@.program.functions.len(),
                },
            },
        },
{
    let document = match get_document(store, params) {
        Result::Ok(d) => d,
        Result::Err(e) => {
            return Err(e);
        },
    };
    let index = match get_function_index(params) {
        Result::Ok(n) => n,
        Result::Err(e) => {
            return Err(e);
        },
    };
    let nfuncs = document.program().function_count();
    if index >= nfuncs as u64 {
        return Err(
            internal_server_error(
                "Could not find function-index: ".to_owned().concat(dec_string(index).as_str()),
            ),
        );
    }
    match document.program().function(index as usize) {
        Option::Some(f) => Ok(function_to_json(f)),
        Option::None => Err(
            internal_server_error(
                "Could not find function-index: ".to_owned().concat(dec_string(index).as_str()),
            ),
        ),
    }
}

/// Resolves an address inside a document: the enriched location of the first
/// instruction recorded at it, or null when no instruction carries it.
pub fn api_instruction_at(store: &Store, params: &Json) -> (r: Result<Json, RpcError>)
    requires
        store.wf(),
        store_documents_wf(*store),
    ensures
        match r {
            Result::Ok(j) => match (
                param_string(params@, "document-name"@),
                param_u64(params@, "address"@),
            ) {
                (Option::Some(name), Option::Some(address)) => store@.contains_key(name) && {
                let p = store@[name]@.program;
                if program_has_addr(p, address) {
                    exists|fi: int, bi: int, ii: int|
                        {
                            &&& #[trigger] is_first_match(p, address, fi, bi, ii)
                            &&& j@ == JsonV::Obj(
                                seq![
                                    ("function-index"@, JsonV::UInt(fi as u64)),
                                    ("function-name"@, JsonV::Str(p.functions[fi].name)),
                                    (
                                        "block-index"@,
                                        JsonV::UInt(p.functions[fi].blocks[bi].index as u64),
                                    ),
                                    (
                                        "instruction"@,
                                        spec_instruction_json(
                                            p.functions[fi].blocks[bi].instructions[ii],
                                        ),
                                    ),
                                ],
                            )
                        }
                } else {
                    j@ == JsonV::Null
                }
                },
                _ => false,
            },
            Result::Err(e) => e.code == INTERNAL_ERROR_CODE && match param_string(
                params@,
                "document-name"@,
            ) {
                Option::None => true,
                Option::Some(name) => !store@.contains_key(name) || param_u64(
                    params@,
                    "address"@,
                ) is None,
            },
        },
{
    let document = match get_document(store, params) {
        Result::Ok(d) => d,
        Result::Err(e) => {
            return Err(e);
        },
    };
    let key = "address".to_owned();
    let address = match get_u64_param(
        params,
        &key,
        "missing address field",
        "address was not a valid number",
    ) {
        Result::Ok(n) => n,
        Result::Err(e) => {
            return Err(e);
        },
    };
    match resolve(document.program(), address) {
        Option::Some(found) => {
            let j = obj4(
                "function-index",
                Json::UInt(found.function_index as u64),
                "function-name",
                Json::Str(found.function_name.clone()),
                "block-index",
                Json::UInt(found.block_index as u64),
                "instruction",
                instruction_to_json(found.instruction),
            );
            Ok(j)
        },
        Option::None => Ok(Json::Null),
    }
}

/// Lists the locations of every call to a symbol inside a document.
#[verifier::loop_isolation(false)]
pub fn api_calls_to_symbol(store: &Store, params: &Json) -> (r: Result<Json, RpcError>)
    requires
        store.wf(),
    ensures
        match r {
            Result::Ok(j) => match (
                param_string(params@, "document-name"@),
                param_string(params@, "symbol"@),
            ) {
                (Option::Some(name), Option::Some(symbol)) => store@.contains_key(name) && j@
                    == JsonV::Arr(
                    spec_program_calls(store@[name]@.program.functions, symbol).map_values(
                        |l: crate::program::ProgramLocation| spec_program_location_json(l),
                    ),
                ),
                _ => false,
            },
            Result::Err(e) => e.code == INTERNAL_ERROR_CODE && match param_string(
                params@,
                "document-name"@,
            ) {
                Option::None => true,
                Option::Some(name) => !store@.contains_key(name) || param_string(
                    params@,
                    "symbol"@,
                ) is None,
            },
        },
{
    let document = match get_document(store, params) {
        Result::Ok(d) => d,
        Result::Err(e) => {
            return Err(e);
        },
    };
    let key = "symbol".to_owned();
    let symbol = match get_string_param(
        params,
        &key,
        "missing symbol field",
        "symbol was not a valid string",
    ) {
        Result::Ok(s) => s,
        Result::Err(e) => {
            return Err(e);
        },
    };
    let locations = find_calls(document.program(), &symbol);
    let ghost target = spec_program_calls(document@.program.functions, symbol@).map_values(
        |l: crate::program::ProgramLocation| spec_program_location_json(l),
    );
    let mut out: Vec<Json> = Vec::new();
    let n = locations.len();
    for i in 0..n
        invariant
            out@.len() == i,
            n == locations@.len(),
            forall|k: int| 0 <= k < i ==> json_view(#[trigger] out@[k]) == target[k],
    {
        out.push(program_location_to_json(&locations[i]));
    }
    proof {
        assert(json_seq_view(out@) =~= target);
    }
    Ok(Json::Arr(out))
}

} // verus!

verus! {

/// Whether every element of an array is an unsigned number.
pub open spec fn all_uints(items: Seq<JsonV>) -> bool {
    forall|k: int| 0 <= k < items.len() ==> (#[trigger] items[k]) is UInt
}

/// The bytes an array of numbers denotes; each number is taken modulo 256,
/// the way a byte parameter has always been read.
pub open spec fn uints_bytes(items: Seq<JsonV>) -> Seq<u8> {
    items.map_values(
        |v: JsonV|
            match v {
                JsonV::UInt(n) => (n % 256) as u8,
                _ => 0u8,
            },
    )
}

/// Reads the name and raw bytes of a document-creation request.
#[verifier::loop_isolation(false)]
pub fn parse_document_new_params(params: &Json) -> (r: Result<(String, Vec<u8>), RpcError>)
    ensures
        match r {
            Result::Ok(p) => param_string(params@, "name"@) == Option::Some(p.0@) && match
                lookup_param(params@, "bytes"@) {
                Option::Some(JsonV::Arr(items)) => all_uints(items) && p.1@ == uints_bytes(items),
                _ => false,
            },
            Result::Err(e) => e.code == INTERNAL_ERROR_CODE && (param_string(params@, "name"@)
                is None || match lookup_param(params@, "bytes"@) {
                Option::None => true,
                Option::Some(v) => match v {
                    JsonV::Arr(items) => !all_uints(items),
                    _ => true,
                },
            }),
        },
{
    let name_key = "name".to_owned();
    let name = match get_string_param(
        params,
        &name_key,
        "missing name field",
        "name was not a string",
    ) {
        Result::Ok(s) => s,
        Result::Err(e) => {
            return Err(e);
        },
    };
    let bytes_key = "bytes".to_owned();
    let bytes_value = match params.get(&bytes_key) {
        Option::Some(v) => v,
        Option::None => {
            return Err(internal_server_error("missing bytes".to_owned()));
        },
    };
    let items = match bytes_value.as_array() {
        Option::Some(items) => items,
        Option::None => {
            return Err(internal_server_error("bytes was not an array".to_owned()));
        },
    };
    let ghost gitems = match lookup_param(params@, "bytes"@) {
        Option::Some(JsonV::Arr(it)) => it,
        _ => Seq::empty(),
    };
    let mut bytes: Vec<u8> = Vec::new();
    let n = items.len();
    for i in 0..n
        invariant
            bytes@.len() == i,
            n == items@.len(),
            json_seq_view(items@) == gitems,
            forall|k: int| 0 <= k < i ==> (#[trigger] gitems[k]) is UInt,
            forall|k: int| 0 <= k < i ==> bytes@[k] == uints_bytes(gitems)[k],
    {
        proof {
            assert(gitems[i as int] == json_view(items@[i as int]));
        }
        let byte = match items[i].as_u64() {
            Option::Some(v) => v % 256,
            Option::None => {
                return Err(internal_server_error("byte was not a valid number".to_owned()));
            },
        };
        bytes.push(byte as u8);
    }
    proof {
        assert(bytes@ =~= uints_bytes(gitems));
    }
    Ok((name, bytes))
}

/// Builds a document from a freshly loaded program, runs the translation
/// pipeline once, and registers the result under the name, replacing any
/// prior document held there.
pub fn create_document<A: Analysis>(
    store: &mut Store,
    name: String,
    program: Program,
    analysis: &A,
    cap: u64,
) -> (summary: TranslationSummary)
    requires
        old(store).wf(),
        cap >= 1,
    ensures
        final(store).wf(),
        final(store)@.contains_key(name@),
        final(store)@ =~= old(store)@.insert(name@, final(store)@[name@]),
        final(store)@[name@]@.program.functions.len() == program@.functions.len(),
        forall|k: int|
            0 <= k < program@.functions.len()
                ==> #[trigger] final(store)@[name@]@.program.functions[k]
                == spec_translate_function(
                *analysis,
                program@.functions[k],
                cap as nat,
            ),
        final(store)@[name@]@.xrefs == analysis.xrefs_spec(final(store)@[name@]@.program),
        program_wf(program@) ==> program_wf(final(store)@[name@]@.program),
        summary.optimized + summary.skipped == program@.functions.len(),
        summary.skipped == count_skipped(*analysis, program@.functions),
        summary.capped == count_capped(*analysis, program@.functions, cap as nat),
{
    let mut document = Document::new(program);
    let summary = document.translate(analysis, cap);
    store.add_document(name, document);
    summary
}

} // verus!
