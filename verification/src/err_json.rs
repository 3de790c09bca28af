use vstd::prelude::*;

use crate::json::{obj_get, obj_lookup, strs_view, JsonModel, JsonValue};

verus! {

/// The error body the service returns on outright rejection: a list of
/// human-readable error strings.
#[derive(Debug)]
pub struct ErrJson {
    pub errors: Vec<String>,
}

/// The strings of a JSON array, or `None` where some element is not a
/// string.
pub open spec fn spec_str_items(items: Seq<JsonModel>) -> Option<Seq<Seq<char>>>
    decreases items.len(),
{
    if items.len() == 0 {
        Some(Seq::empty())
    } else {
        match (spec_str_items(items.drop_last()), items.last()) {
            (Some(ss), JsonModel::Str(s)) => Some(ss.push(s)),
            _ => None,
        }
    }
}

/// What an error body parses to: the member `errors` of the top-level
/// object, as a list of strings; `None` where the document has no such
/// shape.
pub open spec fn spec_err_parse(m: JsonModel) -> Option<Seq<Seq<char>>> {
    match m {
        JsonModel::Obj(pairs) => match obj_get(pairs, "errors"@) {
            Some(JsonModel::Arr(items)) => spec_str_items(items),
            _ => None,
        },
        _ => None,
    }
}

/// A JSON array with a non-string element holds no list of strings.
proof fn lemma_spec_str_items_none(items: Seq<JsonModel>, j: int)
    requires
        0 <= j < items.len(),
        !(items[j] is Str),
    ensures
        spec_str_items(items) is None,
    decreases items.len(),
{
    if j < items.len() - 1 {
        lemma_spec_str_items_none(items.drop_last(), j);
    }
}

/// Read a structured error body out of a parsed JSON document.
pub fn err_json_of_json(v: &JsonValue) -> (r: Option<ErrJson>)
    ensures
        r is Some <==> spec_err_parse(v.model()) is Some,
        r is Some ==> strs_view(r->0.errors@) == spec_err_parse(v.model())->0,
{
    let pairs = match v {
        JsonValue::Obj(pairs) => pairs,
        _ => {
            return None;
        },
    };
    let items = match obj_lookup(pairs, "errors") {
        Some(JsonValue::Arr(items)) => items,
        _ => {
            return None;
        },
    };
    proof {
        crate::json::lemma_model_items_upto(items@, items@.len() as int);
    }
    let ghost m_items = crate::json::model_items(items@);
    let mut out: Vec<String> = Vec::new();
    let n = items.len();
    for i in 0..n
        invariant
            n == items@.len(),
            m_items == crate::json::model_items(items@),
            m_items.len() == n,
            forall|k: int| 0 <= k < n ==> m_items[k] == items@[k].model(),
            out@.len() == i,
            forall|j: int| 0 <= j < i ==> m_items[j] is Str,
            spec_str_items(m_items.take(i as int)) == Some(strs_view(out@)),
            spec_err_parse(v.model()) == spec_str_items(m_items),
    {
        match &items[i] {
            JsonValue::Str(s) => {
                out.push(s.clone());
                proof {
                    assert(m_items.take(i + 1 as int).drop_last() =~= m_items.take(i as int));
                    assert(m_items.take(i + 1 as int).last() == m_items[i as int]);
                    assert(strs_view(out@) =~= strs_view(out@.drop_last()).push(out@.last()@));
                }
            },
            _ => {
                proof {
                    lemma_spec_str_items_none(m_items, i as int);
                }
                return None;
            },
        }
    }
    proof {
        assert(m_items.take(n as int) =~= m_items);
    }
    Some(ErrJson { errors: out })
}

} // verus!
