use vstd::prelude::*;
use vstd::string::StringExecFns;

use crate::json::{
    clone_value, lemma_model_items_upto, lemma_model_pairs_upto, model_items, model_pairs,
    obj_get, obj_has_key, strs_view, JsonModel, JsonValue,
};
use crate::language::Language;

verus! {

/// The localized message texts of a notification, keyed by locale. The
/// key type enforces that no two entries share a wire string, so the
/// serialized `contents` object never has a duplicate member.
#[derive(Debug)]
pub struct LocalizedContents {
    entries: Vec<(Language, String)>,
}

impl View for LocalizedContents {
    type V = Seq<(Seq<char>, Seq<char>)>;

    /// The mapping as a sequence of (wire string, message text) pairs,
    /// in insertion order.
    closed spec fn view(&self) -> Seq<(Seq<char>, Seq<char>)> {
        Seq::new(self.entries@.len(), |i: int| (self.entries@[i].0.wire(), self.entries@[i].1@))
    }
}

impl LocalizedContents {
    /// Every tag well formed, and no two entries with the same wire
    /// string.
    pub closed spec fn wf(&self) -> bool {
        &&& forall|i: int| 0 <= i < self.entries@.len() ==> self.entries@[i].0.wf()
        &&& forall|i: int, j: int|
            0 <= i < j < self.entries@.len() ==> self.entries@[i].0.wire()
                != self.entries@[j].0.wire()
    }

    /// An empty mapping.
    pub fn new() -> (r: Self)
        ensures
            r@ == Seq::<(Seq<char>, Seq<char>)>::empty(),
            r.wf(),
    {
        let r = LocalizedContents { entries: Vec::new() };
        proof {
            assert(r@ =~= Seq::<(Seq<char>, Seq<char>)>::empty());
        }
        r
    }

    /// Set the message text for a locale: an entry with the same wire
    /// string is replaced in place, any other locale is appended.
    pub fn insert(&mut self, lang: Language, text: String)
        requires
            old(self).wf(),
            lang.wf(),
        ensures
            final(self).wf(),
            (forall|j: int|
                0 <= j < old(self)@.len() ==> old(self)@[j].0 != lang.wire()) ==> final(self)@
                == old(self)@.push((lang.wire(), text@)),
            forall|i: int|
                0 <= i < old(self)@.len() && old(self)@[i].0 == lang.wire() ==> final(self)@
                    == old(self)@.update(i, (lang.wire(), text@)),
    {
        let n = self.entries.len();
        for i in 0..n
            invariant
                n == self.entries@.len(),
                *self == *old(self),
                old(self).wf(),
                lang.wf(),
                forall|j: int| 0 <= j < i ==> self.entries@[j].0.wire() != lang.wire(),
        {
            if self.entries[i].0.wire_eq(&lang) {
                let _replaced = self.entries.remove(i);
                self.entries.insert(i, (lang, text));
                proof {
                    assert(old(self)@[i as int].0 == lang.wire());
                    assert(self.entries@ =~= old(self).entries@.update(i as int, (lang, text)));
                    assert(self@ =~= old(self)@.update(i as int, (lang.wire(), text@)));
                }
                return ;
            }
        }
        self.entries.push((lang, text));
        proof {
            assert(self@ =~= old(self)@.push((lang.wire(), text@)));
        }
    }

    /// Render the mapping as a JSON object document.
    pub fn to_document(&self) -> (r: JsonValue)
        ensures
            r.model() == JsonModel::Obj(contents_doc(self@)),
    {
        let mut pairs: Vec<(String, JsonValue)> = Vec::new();
        let n = self.entries.len();
        for i in 0..n
            invariant
                n == self.entries@.len(),
                pairs@.len() == i,
                forall|j: int|
                    0 <= j < i ==> pairs@[j].0@ == self.entries@[j].0.wire() && pairs@[j].1
                        == JsonValue::Str(self.entries@[j].1),
        {
            pairs.push((self.entries[i].0.to_wire(), JsonValue::Str(self.entries[i].1.clone())));
        }
        proof {
            lemma_model_pairs_upto(pairs@, pairs@.len() as int);
            assert(model_pairs(pairs@) =~= contents_doc(self@));
        }
        JsonValue::Obj(pairs)
    }
}

/// The JSON object document of a contents mapping: each member named by
/// the wire string, its value the message text.
pub open spec fn contents_doc(m: Seq<(Seq<char>, Seq<char>)>) -> Seq<(Seq<char>, JsonModel)> {
    Seq::new(m.len(), |i: int| (m[i].0, JsonModel::Str(m[i].1)))
}

/// The JSON array models of a list of strings.
pub open spec fn str_models(ss: Seq<Seq<char>>) -> Seq<JsonModel> {
    Seq::new(ss.len(), |i: int| JsonModel::Str(ss[i]))
}

/// The notification-creation payload: a required app id, independent
/// optional recipient-targeting lists, the localized message texts, and
/// an optional free-form data payload. A field left unset is omitted
/// entirely from the serialized object.
#[derive(Debug)]
pub struct CreateNotificationRequestBodyJson {
    pub app_id: String,
    pub include_player_ids: Option<Vec<String>>,
    pub include_external_user_ids: Option<Vec<String>>,
    pub include_email_tokens: Option<Vec<String>>,
    pub include_phone_numbers: Option<Vec<String>>,
    pub contents: LocalizedContents,
    pub data: Option<Vec<(String, JsonValue)>>,
}

impl CreateNotificationRequestBodyJson {
    /// A payload with the two required fields and everything else unset.
    pub fn new(app_id: String, contents: LocalizedContents) -> (r: Self)
        ensures
            r.app_id == app_id,
            r.contents == contents,
            r.include_player_ids is None,
            r.include_external_user_ids is None,
            r.include_email_tokens is None,
            r.include_phone_numbers is None,
            r.data is None,
    {
        CreateNotificationRequestBodyJson {
            app_id,
            include_player_ids: None,
            include_external_user_ids: None,
            include_email_tokens: None,
            include_phone_numbers: None,
            contents,
            data: None,
        }
    }

    /// The members of the serialized JSON object, in order: the app id,
    /// then each targeting list that is set, then the contents, then the
    /// data payload if set. An unset field contributes no member at all.
    pub open spec fn doc(self) -> Seq<(Seq<char>, JsonModel)> {
        let s0 = seq![("app_id"@, JsonModel::Str(self.app_id@))];
        let s1 = match self.include_player_ids {
            Some(v) => s0.push(("include_player_ids"@, JsonModel::Arr(str_models(strs_view(v@))))),
            None => s0,
        };
        let s2 = match self.include_external_user_ids {
            Some(v) => s1.push(
                ("include_external_user_ids"@, JsonModel::Arr(str_models(strs_view(v@)))),
            ),
            None => s1,
        };
        let s3 = match self.include_email_tokens {
            Some(v) => s2.push(("include_email_tokens"@, JsonModel::Arr(str_models(strs_view(v@))))),
            None => s2,
        };
        let s4 = match self.include_phone_numbers {
            Some(v) => s3.push(("include_phone_numbers"@, JsonModel::Arr(str_models(strs_view(v@))))),
            None => s3,
        };
        let s5 = s4.push(("contents"@, JsonModel::Obj(contents_doc(self.contents@))));
        match self.data {
            Some(d) => s5.push(("data"@, JsonModel::Obj(model_pairs(d@)))),
            None => s5,
        }
    }

    /// Render the payload as a JSON object document.
    pub fn to_document(&self) -> (r: JsonValue)
        ensures
            r.model() == JsonModel::Obj(self.doc()),
    {
        let mut pairs: Vec<(String, JsonValue)> = Vec::new();
        pairs.push((String::from_str("app_id"), JsonValue::Str(self.app_id.clone())));
        if let Some(v) = &self.include_player_ids {
            pairs.push((String::from_str("include_player_ids"), JsonValue::Arr(strings_to_values(v))));
        }
        if let Some(v) = &self.include_external_user_ids {
            pairs.push(
                (String::from_str("include_external_user_ids"), JsonValue::Arr(strings_to_values(v))),
            );
        }
        if let Some(v) = &self.include_email_tokens {
            pairs.push((String::from_str("include_email_tokens"), JsonValue::Arr(strings_to_values(v))));
        }
        if let Some(v) = &self.include_phone_numbers {
            pairs.push((String::from_str("include_phone_numbers"), JsonValue::Arr(strings_to_values(v))));
        }
        pairs.push((String::from_str("contents"), self.contents.to_document()));
        if let Some(d) = &self.data {
            pairs.push((String::from_str("data"), JsonValue::Obj(clone_pairs(d))));
        }
        proof {
            lemma_model_pairs_upto(pairs@, pairs@.len() as int);
            assert(model_pairs(pairs@) =~= self.doc());
        }
        JsonValue::Obj(pairs)
    }
}

/// Appending a member does not shadow an earlier one: a key is looked up
/// in the earlier members first.
proof fn lemma_obj_get_push(
    s: Seq<(Seq<char>, JsonModel)>,
    p: (Seq<char>, JsonModel),
    key: Seq<char>,
)
    ensures
        obj_get(s.push(p), key) == (if obj_get(s, key) is Some {
            obj_get(s, key)
        } else if p.0 == key {
            Some(p.1)
        } else {
            None
        }),
    decreases s.len(),
{
    if s.len() == 0 {
        assert(s.push(p)[0] == p);
        assert(s.push(p).drop_first().len() == 0);
    } else {
        assert(s.push(p)[0] == s[0]);
        assert(s.push(p).drop_first() =~= s.drop_first().push(p));
        lemma_obj_get_push(s.drop_first(), p, key);
    }
}

/// `lemma_obj_get_push`, for every key at once.
proof fn lemma_obj_get_push_all(s: Seq<(Seq<char>, JsonModel)>, p: (Seq<char>, JsonModel))
    ensures
        forall|key: Seq<char>| #[trigger]
            obj_get(s.push(p), key) == (if obj_get(s, key) is Some {
                obj_get(s, key)
            } else if p.0 == key {
                Some(p.1)
            } else {
                None
            }),
{
    assert forall|key: Seq<char>| #[trigger]
        obj_get(s.push(p), key) == (if obj_get(s, key) is Some {
            obj_get(s, key)
        } else if p.0 == key {
            Some(p.1)
        } else {
            None
        }) by {
        lemma_obj_get_push(s, p, key);
    }
}

/// The serialized object always has the two required members; each
/// optional member is present exactly when its field is set, so a
/// payload with no optional field set serializes without any of those
/// keys, and setting one field adds that key and no other.
pub proof fn lemma_doc_key_presence(r: CreateNotificationRequestBodyJson)
    ensures
        obj_has_key(r.doc(), "app_id"@),
        obj_has_key(r.doc(), "contents"@),
        obj_has_key(r.doc(), "include_player_ids"@) <==> r.include_player_ids is Some,
        obj_has_key(r.doc(), "include_external_user_ids"@) <==> r.include_external_user_ids
            is Some,
        obj_has_key(r.doc(), "include_email_tokens"@) <==> r.include_email_tokens is Some,
        obj_has_key(r.doc(), "include_phone_numbers"@) <==> r.include_phone_numbers is Some,
        obj_has_key(r.doc(), "data"@) <==> r.data is Some,
{
    reveal_strlit("app_id");
    reveal_strlit("include_player_ids");
    reveal_strlit("include_external_user_ids");
    reveal_strlit("include_email_tokens");
    reveal_strlit("include_phone_numbers");
    reveal_strlit("contents");
    reveal_strlit("data");
    assert("app_id"@.len() == 6);
    assert("include_player_ids"@.len() == 18);
    assert("include_external_user_ids"@.len() == 25);
    assert("include_email_tokens"@.len() == 20);
    assert("include_phone_numbers"@.len() == 21);
    assert("contents"@.len() == 8);
    assert("data"@.len() == 4);
    let s0 = seq![("app_id"@, JsonModel::Str(r.app_id@))];
    let empty = Seq::<(Seq<char>, JsonModel)>::empty();
    assert(s0.drop_first() =~= empty);
    assert forall|key: Seq<char>| key != "app_id"@ implies #[trigger] obj_get(s0, key) is None by {
        assert(obj_get(empty, key) is None);
    }
    let s1 = match r.include_player_ids {
        Some(v) => s0.push(("include_player_ids"@, JsonModel::Arr(str_models(strs_view(v@))))),
        None => s0,
    };
    let s2 = match r.include_external_user_ids {
        Some(v) => s1.push(
            ("include_external_user_ids"@, JsonModel::Arr(str_models(strs_view(v@)))),
        ),
        None => s1,
    };
    let s3 = match r.include_email_tokens {
        Some(v) => s2.push(("include_email_tokens"@, JsonModel::Arr(str_models(strs_view(v@))))),
        None => s2,
    };
    let s4 = match r.include_phone_numbers {
        Some(v) => s3.push(("include_phone_numbers"@, JsonModel::Arr(str_models(strs_view(v@))))),
        None => s3,
    };
    let s5 = s4.push(("contents"@, JsonModel::Obj(contents_doc(r.contents@))));
    if let Some(v) = r.include_player_ids {
        lemma_obj_get_push_all(s0, ("include_player_ids"@, JsonModel::Arr(str_models(strs_view(v@)))));
    }
    if let Some(v) = r.include_external_user_ids {
        lemma_obj_get_push_all(
            s1,
            ("include_external_user_ids"@, JsonModel::Arr(str_models(strs_view(v@)))),
        );
    }
    if let Some(v) = r.include_email_tokens {
        lemma_obj_get_push_all(
            s2,
            ("include_email_tokens"@, JsonModel::Arr(str_models(strs_view(v@)))),
        );
    }
    if let Some(v) = r.include_phone_numbers {
        lemma_obj_get_push_all(
            s3,
            ("include_phone_numbers"@, JsonModel::Arr(str_models(strs_view(v@)))),
        );
    }
    lemma_obj_get_push_all(s4, ("contents"@, JsonModel::Obj(contents_doc(r.contents@))));
    if let Some(d) = r.data {
        lemma_obj_get_push_all(s5, ("data"@, JsonModel::Obj(model_pairs(d@))));
    }
}

/// The JSON string values of a list of plain strings.
fn strings_to_values(v: &Vec<String>) -> (r: Vec<JsonValue>)
    ensures
        model_items(r@) == str_models(strs_view(v@)),
{
    let mut out: Vec<JsonValue> = Vec::new();
    let n = v.len();
    for i in 0..n
        invariant
            n == v@.len(),
            out@.len() == i,
            forall|j: int| 0 <= j < i ==> out@[j] == JsonValue::Str(v@[j]),
    {
        out.push(JsonValue::Str(v[i].clone()));
    }
    proof {
        lemma_model_items_upto(out@, out@.len() as int);
        assert(model_items(out@) =~= str_models(strs_view(v@)));
    }
    out
}

/// A copy of an object's members with the same models.
fn clone_pairs(d: &Vec<(String, JsonValue)>) -> (r: Vec<(String, JsonValue)>)
    ensures
        model_pairs(r@) == model_pairs(d@),
{
    let mut out: Vec<(String, JsonValue)> = Vec::new();
    let n = d.len();
    for i in 0..n
        invariant
            n == d@.len(),
            out@.len() == i,
            forall|j: int|
                0 <= j < i ==> out@[j].0@ == d@[j].0@ && out@[j].1.model() == d@[j].1.model(),
    {
        let name = d[i].0.clone();
        let member = clone_value(&d[i].1);
        out.push((name, member));
    }
    proof {
        lemma_model_pairs_upto(out@, out@.len() as int);
        lemma_model_pairs_upto(d@, d@.len() as int);
        assert(model_pairs(out@) =~= model_pairs(d@));
    }
    out
}

} // verus!
