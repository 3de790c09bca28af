use vstd::prelude::*;

verus! {

/// An owned JSON document as plain data: the shape the library's logic
/// reads and builds. Numbers are kept as signed 64-bit integers; a
/// document with a number outside that range has no representation here.
#[derive(Debug, PartialEq)]
pub enum JsonValue {
    Null,
    Bool(bool),
    Int(i64),
    Str(String),
    Arr(Vec<JsonValue>),
    Obj(Vec<(String, JsonValue)>),
}

/// The mathematical model of a JSON document: every string a sequence of
/// characters, every composite a sequence of member models.
pub enum JsonModel {
    Null,
    Bool(bool),
    Int(int),
    Str(Seq<char>),
    Arr(Seq<JsonModel>),
    Obj(Seq<(Seq<char>, JsonModel)>),
}

impl JsonValue {
    /// The model of this document.
    pub open spec fn model(self) -> JsonModel
        decreases self, 1int, 0int,
    {
        match self {
            JsonValue::Null => JsonModel::Null,
            JsonValue::Bool(b) => JsonModel::Bool(b),
            JsonValue::Int(n) => JsonModel::Int(n as int),
            JsonValue::Str(s) => JsonModel::Str(s@),
            JsonValue::Arr(items) => JsonModel::Arr(
                model_items_upto(items@, items@.len() as int),
            ),
            JsonValue::Obj(pairs) => JsonModel::Obj(
                model_pairs_upto(pairs@, pairs@.len() as int),
            ),
        }
    }
}

/// The models of the first `n` elements of an array's items.
pub open spec fn model_items_upto(s: Seq<JsonValue>, n: int) -> Seq<JsonModel>
    decreases s, 0int, n,
{
    if n <= 0 || n > s.len() {
        Seq::empty()
    } else {
        model_items_upto(s, n - 1).push(s[n - 1].model())
    }
}

/// The models of the first `n` members of an object's pairs.
pub open spec fn model_pairs_upto(s: Seq<(String, JsonValue)>, n: int) -> Seq<
    (Seq<char>, JsonModel),
>
    decreases s, 0int, n,
{
    if n <= 0 || n > s.len() {
        Seq::empty()
    } else {
        model_pairs_upto(s, n - 1).push((s[n - 1].0@, s[n - 1].1.model()))
    }
}

/// The models of all elements of an array's items.
pub open spec fn model_items(s: Seq<JsonValue>) -> Seq<JsonModel> {
    model_items_upto(s, s.len() as int)
}

/// The models of all members of an object's pairs.
pub open spec fn model_pairs(s: Seq<(String, JsonValue)>) -> Seq<(Seq<char>, JsonModel)> {
    model_pairs_upto(s, s.len() as int)
}

pub proof fn lemma_model_items_upto(s: Seq<JsonValue>, n: int)
    requires
        0 <= n <= s.len(),
    ensures
        model_items_upto(s, n).len() == n,
        forall|i: int| 0 <= i < n ==> model_items_upto(s, n)[i] == s[i].model(),
    decreases n,
{
    if n > 0 {
        lemma_model_items_upto(s, n - 1);
    }
}

pub proof fn lemma_model_pairs_upto(s: Seq<(String, JsonValue)>, n: int)
    requires
        0 <= n <= s.len(),
    ensures
        model_pairs_upto(s, n).len() == n,
        forall|i: int|
            0 <= i < n ==> model_pairs_upto(s, n)[i] == (s[i].0@, s[i].1.model()),
    decreases n,
{
    if n > 0 {
        lemma_model_pairs_upto(s, n - 1);
    }
}

/// The character sequences of a vector of strings.
pub open spec fn strs_view(v: Seq<String>) -> Seq<Seq<char>> {
    Seq::new(v.len(), |i: int| v[i]@)
}

/// The value at `key` in an object's members: the first member with that
/// name, or `None` where no member has it.
pub open spec fn obj_get(pairs: Seq<(Seq<char>, JsonModel)>, key: Seq<char>) -> Option<JsonModel>
    decreases pairs.len(),
{
    if pairs.len() == 0 {
        None
    } else if pairs[0].0 == key {
        Some(pairs[0].1)
    } else {
        obj_get(pairs.drop_first(), key)
    }
}

/// Whether an object has a member named `key`.
pub open spec fn obj_has_key(pairs: Seq<(Seq<char>, JsonModel)>, key: Seq<char>) -> bool {
    obj_get(pairs, key) is Some
}

/// Looking a key up ignores members before the first match.
pub proof fn lemma_obj_get_skip(pairs: Seq<(Seq<char>, JsonModel)>, key: Seq<char>, i: int)
    requires
        0 <= i <= pairs.len(),
        forall|j: int| 0 <= j < i ==> pairs[j].0 != key,
    ensures
        obj_get(pairs, key) == obj_get(pairs.skip(i), key),
    decreases i,
{
    if i > 0 {
        assert(pairs[0].0 != key);
        lemma_obj_get_skip(pairs.drop_first(), key, i - 1);
        assert(pairs.drop_first().skip(i - 1) =~= pairs.skip(i));
    } else {
        assert(pairs.skip(0) =~= pairs);
    }
}

/// Find the first member named `key` in an object's pairs and return
/// its position, or `None` where no member has that name.
pub fn obj_index(pairs: &Vec<(String, JsonValue)>, key: &str) -> (r: Option<usize>)
    ensures
        match r {
            Some(i) => i < pairs@.len() && pairs@[i as int].0@ == key@ && obj_get(
                model_pairs(pairs@),
                key@,
            ) == Some(pairs@[i as int].1.model()),
            None => obj_get(model_pairs(pairs@), key@) is None,
        },
{
    proof {
        lemma_model_pairs_upto(pairs@, pairs@.len() as int);
    }
    let ghost m = model_pairs(pairs@);
    let n = pairs.len();
    for i in 0..n
        invariant
            n == pairs@.len(),
            m == model_pairs(pairs@),
            m.len() == n,
            forall|k: int| 0 <= k < n ==> m[k] == (pairs@[k].0@, pairs@[k].1.model()),
            forall|j: int| 0 <= j < i ==> m[j].0 != key@,
    {
        if str_eq(pairs[i].0.as_str(), key) {
            proof {
                lemma_obj_get_skip(m, key@, i as int);
                assert(m.skip(i as int)[0] == m[i as int]);
            }
            return Some(i);
        }
    }
    proof {
        lemma_obj_get_skip(m, key@, n as int);
        assert(m.skip(n as int).len() == 0);
    }
    None
}

/// Borrow the value of the first member named `key`, if the object has one.
pub fn obj_lookup<'a>(pairs: &'a Vec<(String, JsonValue)>, key: &str) -> (r: Option<
    &'a JsonValue,
>)
    ensures
        match r {
            Some(v) => obj_get(model_pairs(pairs@), key@) == Some(v.model()),
            None => obj_get(model_pairs(pairs@), key@) is None,
        },
{
    match obj_index(pairs, key) {
        Some(i) => Some(&pairs[i].1),
        None => None,
    }
}

/// Copy a document: the copy has the same model.
pub fn clone_value(v: &JsonValue) -> (r: JsonValue)
    ensures
        r.model() == v.model(),
    decreases *v, 1int, 0int,
{
    match v {
        JsonValue::Null => JsonValue::Null,
        JsonValue::Bool(b) => JsonValue::Bool(*b),
        JsonValue::Int(n) => JsonValue::Int(*n),
        JsonValue::Str(s) => JsonValue::Str(s.clone()),
        JsonValue::Arr(items) => {
            let mut out: Vec<JsonValue> = Vec::new();
            let n = items.len();
            for i in 0..n
                invariant
                    *v == JsonValue::Arr(*items),
                    n == items@.len(),
                    out@.len() == i,
                    forall|j: int| 0 <= j < i ==> out@[j].model() == items@[j].model(),
                decreases n - i,
            {
                proof {
                    assert(decreases_to!(*v => v->Arr_0));
                    assert(decreases_to!(*items => items@));
                    assert(decreases_to!(items@ => items@[i as int]));
                }
                out.push(clone_value(&items[i]));
            }
            proof {
                lemma_model_items_upto(items@, items@.len() as int);
                lemma_model_items_upto(out@, out@.len() as int);
                assert(model_items(out@) =~= model_items(items@));
            }
            JsonValue::Arr(out)
        },
        JsonValue::Obj(pairs) => {
            let mut out: Vec<(String, JsonValue)> = Vec::new();
            let n = pairs.len();
            for i in 0..n
                invariant
                    *v == JsonValue::Obj(*pairs),
                    n == pairs@.len(),
                    out@.len() == i,
                    forall|j: int|
                        0 <= j < i ==> out@[j].0@ == pairs@[j].0@ && out@[j].1.model()
                            == pairs@[j].1.model(),
                decreases n - i,
            {
                proof {
                    assert(decreases_to!(*v => v->Obj_0));
                    assert(decreases_to!(*pairs => pairs@));
                    assert(decreases_to!(pairs@ => pairs@[i as int]));
                    assert(decreases_to!(pairs@[i as int] => pairs@[i as int].1));
                }
                let name = pairs[i].0.clone();
                let member = clone_value(&pairs[i].1);
                out.push((name, member));
            }
            proof {
                lemma_model_pairs_upto(pairs@, pairs@.len() as int);
                lemma_model_pairs_upto(out@, out@.len() as int);
                assert(model_pairs(out@) =~= model_pairs(pairs@));
            }
            JsonValue::Obj(out)
        },
    }
}

/// What a byte sequence parses to as JSON, within this library's model:
/// `None` where the bytes are not a JSON document with all numbers in
/// the signed 64-bit range.
pub uninterp spec fn parsed_json(bytes: Seq<u8>) -> Option<JsonModel>;

/// The byte sequence a JSON document serializes to.
pub uninterp spec fn rendered_json(doc: JsonModel) -> Seq<u8>;

#[verifier::external_type_specification]
#[verifier::external_body]
pub struct ExSerdeJsonValue(serde_json::Value);

/// Relies on str's PartialEq: two string slices are equal exactly when
/// their character sequences are equal.
#[verifier::external_body]
pub(crate) fn str_eq(a: &str, b: &str) -> (r: bool)
    ensures
        r == (a@ == b@),
{
    a == b
}

/// Relies on serde_json::Value's constructors: rebuilds this library's
/// document node by node, one arm per variant, copying the leaves.
#[verifier::external_body]
fn to_serde_value(v: &JsonValue) -> serde_json::Value {
    match v {
        JsonValue::Null => serde_json::Value::Null,
        JsonValue::Bool(b) => serde_json::Value::Bool(*b),
        JsonValue::Int(n) => serde_json::Value::Number((*n).into()),
        JsonValue::Str(s) => serde_json::Value::String(s.clone()),
        JsonValue::Arr(items) => serde_json::Value::Array(
            items.iter().map(to_serde_value).collect(),
        ),
        JsonValue::Obj(pairs) => serde_json::Value::Object(
            pairs.iter().map(|(k, x)| (k.clone(), to_serde_value(x))).collect(),
        ),
    }
}

/// Relies on serde_json::Value's accessors: reads a parsed document one
/// arm per variant; a number outside the signed 64-bit range has no
/// counterpart here, so such a document converts to `None`.
#[verifier::external_body]
fn from_serde_value(v: &serde_json::Value) -> Option<JsonValue> {
    match v {
        serde_json::Value::Null => Some(JsonValue::Null),
        serde_json::Value::Bool(b) => Some(JsonValue::Bool(*b)),
        serde_json::Value::Number(n) => n.as_i64().map(JsonValue::Int),
        serde_json::Value::String(s) => Some(JsonValue::Str(s.clone())),
        serde_json::Value::Array(a) => a.iter().map(from_serde_value).collect::<Option<
            Vec<JsonValue>,
        >>().map(JsonValue::Arr),
        serde_json::Value::Object(m) => m.iter().map(
            |(k, x)| from_serde_value(x).map(|y| (k.clone(), y)),
        ).collect::<Option<Vec<(String, JsonValue)>>>().map(JsonValue::Obj),
    }
}

/// Relies on serde_json::to_vec: serializing a serde_json::Value cannot
/// fail (its Serialize implementation is total and every object key is a
/// string), and the bytes depend on the document alone.
#[verifier::external_body]
fn render_json_value(v: &JsonValue) -> (r: Option<Vec<u8>>)
    ensures
        r is Some,
        r is Some ==> r->0@ == rendered_json(v.model()),
{
    serde_json::to_vec(&to_serde_value(v)).ok()
}

/// Relies on serde_json::from_slice: whether bytes parse as JSON, and
/// the document they parse to, depend on the bytes alone.
#[verifier::external_body]
fn parse_json_value(bytes: &[u8]) -> (r: Option<JsonValue>)
    ensures
        r is Some <==> parsed_json(bytes@) is Some,
        r is Some ==> r->0.model() == parsed_json(bytes@)->0,
{
    serde_json::from_slice::<serde_json::Value>(bytes).ok().and_then(
        |v| from_serde_value(&v),
    )
}

/// Serialize a document to JSON bytes.
pub fn to_json_bytes(v: &JsonValue) -> (r: Vec<u8>)
    ensures
        r@ == rendered_json(v.model()),
{
    match render_json_value(v) {
        Some(b) => b,
        None => {
            proof {
                assert(false);
            }
            Vec::new()
        },
    }
}

/// Parse JSON bytes into a document of this library's model.
pub fn parse_json_bytes(bytes: &[u8]) -> (r: Option<JsonValue>)
    ensures
        r is Some <==> parsed_json(bytes@) is Some,
        r is Some ==> r->0.model() == parsed_json(bytes@)->0,
{
    parse_json_value(bytes)
}

} // verus!
