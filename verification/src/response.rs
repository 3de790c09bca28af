use vstd::prelude::*;

use crate::json::{obj_get, obj_has_key, obj_index, obj_lookup, JsonModel, JsonValue};

verus! {

/// The semi-structured `errors` member of a success body. The service
/// returns different key sets for different partial-failure conditions,
/// so the value is kept as a generic document, with named predicates for
/// the recognized conditions and raw retrieval by key for the rest.
#[derive(Debug)]
pub struct CreateNotificationResponseBodyOkJsonErrors(pub JsonValue);

impl CreateNotificationResponseBodyOkJsonErrors {
    /// Whether the top-level object of the value has a member `key`;
    /// false where the value is not an object.
    pub open spec fn spec_has(self, key: Seq<char>) -> bool {
        match self.0.model() {
            JsonModel::Obj(pairs) => obj_has_key(pairs, key),
            _ => false,
        }
    }

    /// The member `key` of the top-level object, if any.
    pub open spec fn spec_get(self, key: Seq<char>) -> Option<JsonModel> {
        match self.0.model() {
            JsonModel::Obj(pairs) => obj_get(pairs, key),
            _ => None,
        }
    }

    /// Whether the top-level object has a member named `key`.
    pub fn has_key(&self, key: &str) -> (r: bool)
        ensures
            r == self.spec_has(key@),
    {
        match &self.0 {
            JsonValue::Obj(pairs) => obj_lookup(pairs, key).is_some(),
            _ => false,
        }
    }

    /// Borrow the member named `key` of the top-level object, if any.
    pub fn get<'a>(&'a self, key: &str) -> (r: Option<&'a JsonValue>)
        ensures
            match r {
                Some(v) => self.spec_get(key@) == Some(v.model()),
                None => self.spec_get(key@) is None,
            },
    {
        match &self.0 {
            JsonValue::Obj(pairs) => obj_lookup(pairs, key),
            _ => None,
        }
    }

    /// Some recipients were rejected as invalid player ids.
    pub fn is_invalid_player_ids(&self) -> (r: bool)
        ensures
            r == self.spec_has("invalid_player_ids"@),
    {
        self.has_key("invalid_player_ids")
    }

    /// Some recipients were rejected as invalid external user ids.
    pub fn is_invalid_external_user_ids(&self) -> (r: bool)
        ensures
            r == self.spec_has("invalid_external_user_ids"@),
    {
        self.has_key("invalid_external_user_ids")
    }

    /// Some recipients were rejected as invalid phone numbers.
    pub fn is_invalid_phone_numbers(&self) -> (r: bool)
        ensures
            r == self.spec_has("invalid_phone_numbers"@),
    {
        self.has_key("invalid_phone_numbers")
    }
}

/// The success body: an opaque notification id, a recipient count, and
/// an optional semi-structured `errors` value.
#[derive(Debug)]
pub struct CreateNotificationResponseBodyOkJson {
    pub id: String,
    pub recipients: usize,
    pub errors: Option<CreateNotificationResponseBodyOkJsonErrors>,
}

/// What a success body parses to: the members `id` (a string) and
/// `recipients` (a count that fits the machine's word) of the top-level
/// object, and the member `errors` where present and not null; `None`
/// where the document has no such shape.
pub open spec fn spec_ok_parse(m: JsonModel) -> Option<(Seq<char>, int, Option<JsonModel>)> {
    match m {
        JsonModel::Obj(pairs) => match (obj_get(pairs, "id"@), obj_get(pairs, "recipients"@)) {
            (Some(JsonModel::Str(id)), Some(JsonModel::Int(n))) => if 0 <= n <= usize::MAX {
                Some(
                    (
                        id,
                        n,
                        match obj_get(pairs, "errors"@) {
                            Some(JsonModel::Null) => None,
                            other => other,
                        },
                    ),
                )
            } else {
                None
            },
            _ => None,
        },
        _ => None,
    }
}

/// Whether an extracted optional `errors` value carries exactly the
/// model an optional member parses to.
pub open spec fn errors_match(
    x: Option<CreateNotificationResponseBodyOkJsonErrors>,
    e: Option<JsonModel>,
) -> bool {
    match (x, e) {
        (None, None) => true,
        (Some(er), Some(m)) => er.0.model() == m,
        _ => false,
    }
}

/// Read a success body out of a parsed JSON document.
pub fn response_ok_of_json(v: JsonValue) -> (r: Option<CreateNotificationResponseBodyOkJson>)
    ensures
        r is Some <==> spec_ok_parse(v.model()) is Some,
        r is Some ==> r->0.id@ == (spec_ok_parse(v.model())->0).0,
        r is Some ==> r->0.recipients == (spec_ok_parse(v.model())->0).1,
        r is Some ==> errors_match(r->0.errors, (spec_ok_parse(v.model())->0).2),
{
    let mut pairs = match v {
        JsonValue::Obj(pairs) => pairs,
        _ => {
            return None;
        },
    };
    let id = match obj_lookup(&pairs, "id") {
        Some(JsonValue::Str(s)) => s.clone(),
        _ => {
            return None;
        },
    };
    let recipients = match obj_lookup(&pairs, "recipients") {
        Some(JsonValue::Int(n)) => {
            if *n >= 0 && (*n as u64) <= (usize::MAX as u64) {
                *n as usize
            } else {
                return None;
            }
        },
        _ => {
            return None;
        },
    };
    let errors = match obj_index(&pairs, "errors") {
        Some(i) => {
            if matches!(&pairs[i].1, JsonValue::Null) {
                None
            } else {
                let member = pairs.remove(i);
                Some(CreateNotificationResponseBodyOkJsonErrors(member.1))
            }
        },
        None => None,
    };
    Some(CreateNotificationResponseBodyOkJson { id, recipients, errors })
}

} // verus!
