//! The external tree every query answers with: null, numbers, strings,
//! arrays, and objects whose fields keep their insertion order.
//!
//! Remote clients re-parse this tree structurally, so its mathematical view
//! (`JsonV`) is the value the projection grammar is specified over.

use vstd::prelude::*;

verus! {

/// A node of the external tree.
#[derive(Debug)]
pub enum Json {
    Null,
    UInt(u64),
    Int(i64),
    Str(String),
    Arr(Vec<Json>),
    Obj(Vec<(String, Json)>),
}

/// The mathematical value of a `Json` node.
#[verifier::ext_equal]
pub enum JsonV {
    Null,
    UInt(u64),
    Int(i64),
    Str(Seq<char>),
    Arr(Seq<JsonV>),
    Obj(Seq<(Seq<char>, JsonV)>),
}

/// The views of the elements of an array.
pub open spec fn json_seq_view(items: Seq<Json>) -> Seq<JsonV>
    decreases items,
{
    Seq::new(
        items.len(),
        |i: int|
            if 0 <= i < items.len() {
                json_view(items[i])
            } else {
                JsonV::Null
            },
    )
}

/// The views of the fields of an object, keys and values, in order.
pub open spec fn json_fields_view(fields: Seq<(String, Json)>) -> Seq<(Seq<char>, JsonV)>
    decreases fields,
{
    Seq::new(
        fields.len(),
        |i: int|
            if 0 <= i < fields.len() {
                (fields[i].0@, json_view(fields[i].1))
            } else {
                (Seq::<char>::empty(), JsonV::Null)
            },
    )
}

/// The mathematical value of a node.
pub open spec fn json_view(j: Json) -> JsonV
    decreases j,
{
    match j {
        Json::Null => JsonV::Null,
        Json::UInt(n) => JsonV::UInt(n),
        Json::Int(n) => JsonV::Int(n),
        Json::Str(s) => JsonV::Str(s@),
        Json::Arr(items) => JsonV::Arr(json_seq_view(items@)),
        Json::Obj(fields) => JsonV::Obj(json_fields_view(fields@)),
    }
}

impl View for Json {
    type V = JsonV;

    open spec fn view(&self) -> JsonV {
        json_view(*self)
    }
}

/// The value of the first field under a key, the way an object is read.
pub open spec fn json_lookup(fields: Seq<(Seq<char>, JsonV)>, key: Seq<char>) -> Option<JsonV>
    decreases fields.len(),
{
    if fields.len() == 0 {
        Option::None
    } else if fields[0].0 == key {
        Option::Some(fields[0].1)
    } else {
        json_lookup(fields.drop_first(), key)
    }
}

impl Json {
    /// The value of the first field of an object under a key; nothing on any
    /// other kind of node.
    pub fn get<'a>(&'a self, key: &String) -> (r: Option<&'a Json>)
        ensures
            match self@ {
                JsonV::Obj(fields) => match r {
                    Option::Some(v) => json_lookup(fields, key@) == Option::Some(v@),
                    Option::None => json_lookup(fields, key@) is None,
                },
                _ => r is None,
            },
    {
        match self {
            Json::Obj(fields) => {
                let ghost fv = json_fields_view(fields@);
                let n = fields.len();
                proof {
                    assert(fv.skip(0) =~= fv);
                }
                for i in 0..n
                    invariant
                        n == fields.len(),
                        fv == json_fields_view(fields@),
                        self@ == JsonV::Obj(fv),
                        json_lookup(fv, key@) == json_lookup(fv.skip(i as int), key@),
                {
                    proof {
                        assert(fv[i as int] == (fields@[i as int].0@, json_view(
                            fields@[i as int].1,
                        )));
                        lemma_json_lookup_step(fv, key@, i as int);
                    }
                    if fields[i].0.eq(key) {
                        return Some(&fields[i].1);
                    }
                }
                proof {
                    assert(fv.skip(n as int).len() == 0);
                }
                None
            },
            _ => None,
        }
    }
}

impl Json {
    /// The string under a node, if the node is a string.
    pub fn as_str(&self) -> (r: Option<&String>)
        ensures
            match self@ {
                JsonV::Str(s) => r matches Option::Some(v) && v@ == s,
                _ => r is None,
            },
    {
        match self {
            Json::Str(s) => Some(s),
            _ => None,
        }
    }

    /// The number under a node, if the node is an unsigned number.
    pub fn as_u64(&self) -> (r: Option<u64>)
        ensures
            match self@ {
                JsonV::UInt(n) => r == Option::Some(n),
                _ => r is None,
            },
    {
        match self {
            Json::UInt(n) => Some(*n),
            _ => None,
        }
    }

    /// The elements under a node, if the node is an array.
    pub fn as_array(&self) -> (r: Option<&Vec<Json>>)
        ensures
            match self@ {
                JsonV::Arr(items) => r matches Option::Some(v) && json_seq_view(v@) == items,
                _ => r is None,
            },
    {
        match self {
            Json::Arr(items) => Some(items),
            _ => None,
        }
    }
}

/// Whether two nodes are structurally equal: same shape, same numbers and
/// strings, same field keys in the same order.
pub fn json_eq(a: &Json, b: &Json) -> (r: bool)
    ensures
        r == (a@ == b@),
    decreases *a,
{
    match (a, b) {
        (Json::Null, Json::Null) => true,
        (Json::UInt(x), Json::UInt(y)) => *x == *y,
        (Json::Int(x), Json::Int(y)) => *x == *y,
        (Json::Str(x), Json::Str(y)) => x.eq(y),
        (Json::Arr(x), Json::Arr(y)) => json_arr_eq(x, y),
        (Json::Obj(x), Json::Obj(y)) => json_obj_eq(x, y),
        _ => false,
    }
}

/// Whether two arrays hold structurally equal elements in the same order.
#[verifier::loop_isolation(false)]
pub fn json_arr_eq(x: &Vec<Json>, y: &Vec<Json>) -> (r: bool)
    ensures
        r == (json_seq_view(x@) == json_seq_view(y@)),
    decreases x,
{
    let n = x.len();
    if n != y.len() {
        proof {
            assert(json_seq_view(x@).len() == x@.len());
            assert(json_seq_view(y@).len() == y@.len());
        }
        return false;
    }
    for i in 0..n
        invariant
            forall|k: int| 0 <= k < i ==> json_seq_view(x@)[k] == json_seq_view(y@)[k],
    {
        proof {
            assert(json_seq_view(x@)[i as int] == json_view(x@[i as int]));
            assert(json_seq_view(y@)[i as int] == json_view(y@[i as int]));
        }
        if !json_eq(&x[i], &y[i]) {
            return false;
        }
    }
    proof {
        assert(json_seq_view(x@) =~= json_seq_view(y@));
    }
    true
}

/// Whether two objects hold the same keys in the same order with
/// structurally equal values.
#[verifier::loop_isolation(false)]
pub fn json_obj_eq(x: &Vec<(String, Json)>, y: &Vec<(String, Json)>) -> (r: bool)
    ensures
        r == (json_fields_view(x@) == json_fields_view(y@)),
    decreases x,
{
    let n = x.len();
    if n != y.len() {
        proof {
            assert(json_fields_view(x@).len() == x@.len());
            assert(json_fields_view(y@).len() == y@.len());
        }
        return false;
    }
    for i in 0..n
        invariant
            forall|k: int| 0 <= k < i ==> json_fields_view(x@)[k] == json_fields_view(y@)[k],
    {
        proof {
            assert(json_fields_view(x@)[i as int] == (x@[i as int].0@, json_view(
                x@[i as int].1,
            )));
            assert(json_fields_view(y@)[i as int] == (y@[i as int].0@, json_view(
                y@[i as int].1,
            )));
        }
        if !x[i].0.eq(&y[i].0) {
            return false;
        }
        if !json_eq(&x[i].1, &y[i].1) {
            return false;
        }
    }
    proof {
        assert(json_fields_view(x@) =~= json_fields_view(y@));
    }
    true
}

} // verus!

verus! {

/// Reading an object past a prefix that misses the key reads the rest.
proof fn lemma_json_lookup_step(fields: Seq<(Seq<char>, JsonV)>, key: Seq<char>, i: int)
    requires
        0 <= i < fields.len(),
    ensures
        fields[i].0 == key ==> json_lookup(fields.skip(i), key) == Option::Some(fields[i].1),
        fields[i].0 != key ==> json_lookup(fields.skip(i), key) == json_lookup(
            fields.skip(i + 1),
            key,
        ),
{
    assert(fields.skip(i).len() == fields.len() - i);
    assert(fields.skip(i)[0] == fields[i]);
    assert(fields.skip(i).drop_first() =~= fields.skip(i + 1));
}

} // verus!

verus! {

/// An object of one field.
pub fn obj1(k1: &str, v1: Json) -> (r: Json)
    ensures
        r@ == JsonV::Obj(seq![(k1@, v1@)]),
{
    let ghost g1 = v1@;
    let mut m: Vec<(String, Json)> = Vec::new();
    m.push((k1.to_owned(), v1));
    let r = Json::Obj(m);
    proof {
        assert(json_fields_view(m@) =~= seq![(k1@, g1)]);
    }
    r
}

/// An object of two fields, in order.
pub fn obj2(k1: &str, v1: Json, k2: &str, v2: Json) -> (r: Json)
    ensures
        r@ == JsonV::Obj(seq![(k1@, v1@), (k2@, v2@)]),
{
    let ghost g = (v1@, v2@);
    let mut m: Vec<(String, Json)> = Vec::new();
    m.push((k1.to_owned(), v1));
    m.push((k2.to_owned(), v2));
    let r = Json::Obj(m);
    proof {
        assert(json_fields_view(m@) =~= seq![(k1@, g.0), (k2@, g.1)]);
    }
    r
}

/// An object of three fields, in order.
pub fn obj3(k1: &str, v1: Json, k2: &str, v2: Json, k3: &str, v3: Json) -> (r: Json)
    ensures
        r@ == JsonV::Obj(seq![(k1@, v1@), (k2@, v2@), (k3@, v3@)]),
{
    let ghost g = (v1@, v2@, v3@);
    let mut m: Vec<(String, Json)> = Vec::new();
    m.push((k1.to_owned(), v1));
    m.push((k2.to_owned(), v2));
    m.push((k3.to_owned(), v3));
    let r = Json::Obj(m);
    proof {
        assert(json_fields_view(m@) =~= seq![(k1@, g.0), (k2@, g.1), (k3@, g.2)]);
    }
    r
}

/// An object of four fields, in order.
pub fn obj4(k1: &str, v1: Json, k2: &str, v2: Json, k3: &str, v3: Json, k4: &str, v4: Json) -> (r:
    Json)
    ensures
        r@ == JsonV::Obj(seq![(k1@, v1@), (k2@, v2@), (k3@, v3@), (k4@, v4@)]),
{
    let ghost g = (v1@, v2@, v3@, v4@);
    let mut m: Vec<(String, Json)> = Vec::new();
    m.push((k1.to_owned(), v1));
    m.push((k2.to_owned(), v2));
    m.push((k3.to_owned(), v3));
    m.push((k4.to_owned(), v4));
    let r = Json::Obj(m);
    proof {
        assert(json_fields_view(m@) =~= seq![(k1@, g.0), (k2@, g.1), (k3@, g.2), (k4@, g.3)]);
    }
    r
}

/// An object of five fields, in order.
pub fn obj5(
    k1: &str,
    v1: Json,
    k2: &str,
    v2: Json,
    k3: &str,
    v3: Json,
    k4: &str,
    v4: Json,
    k5: &str,
    v5: Json,
) -> (r: Json)
    ensures
        r@ == JsonV::Obj(seq![(k1@, v1@), (k2@, v2@), (k3@, v3@), (k4@, v4@), (k5@, v5@)]),
{
    let ghost g = (v1@, v2@, v3@, v4@, v5@);
    let mut m: Vec<(String, Json)> = Vec::new();
    m.push((k1.to_owned(), v1));
    m.push((k2.to_owned(), v2));
    m.push((k3.to_owned(), v3));
    m.push((k4.to_owned(), v4));
    m.push((k5.to_owned(), v5));
    let r = Json::Obj(m);
    proof {
        assert(json_fields_view(m@) =~= seq![
            (k1@, g.0),
            (k2@, g.1),
            (k3@, g.2),
            (k4@, g.3),
            (k5@, g.4),
        ]);
    }
    r
}

/// An object of six fields, in order.
pub fn obj6(
    k1: &str,
    v1: Json,
    k2: &str,
    v2: Json,
    k3: &str,
    v3: Json,
    k4: &str,
    v4: Json,
    k5: &str,
    v5: Json,
    k6: &str,
    v6: Json,
) -> (r: Json)
    ensures
        r@ == JsonV::Obj(
            seq![(k1@, v1@), (k2@, v2@), (k3@, v3@), (k4@, v4@), (k5@, v5@), (k6@, v6@)],
        ),
{
    let ghost g = (v1@, v2@, v3@, v4@, v5@, v6@);
    let mut m: Vec<(String, Json)> = Vec::new();
    m.push((k1.to_owned(), v1));
    m.push((k2.to_owned(), v2));
    m.push((k3.to_owned(), v3));
    m.push((k4.to_owned(), v4));
    m.push((k5.to_owned(), v5));
    m.push((k6.to_owned(), v6));
    let r = Json::Obj(m);
    proof {
        assert(json_fields_view(m@) =~= seq![
            (k1@, g.0),
            (k2@, g.1),
            (k3@, g.2),
            (k4@, g.3),
            (k5@, g.4),
            (k6@, g.5),
        ]);
    }
    r
}

} // verus!
