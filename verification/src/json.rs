use crate::error::ClientError;
use vstd::prelude::*;
use vstd::string::StringExecFns;

verus! {

broadcast use {
    vstd::std_specs::vec::axiom_vec_decreases_to_view,
    vstd::seq::axiom_seq_index_decreases,
    vstd::seq::axiom_seq_subrange_decreases,
};

#[verifier::external_type_specification]
#[verifier::external_body]
pub struct ExNumber(serde_json::Number);

#[verifier::external_type_specification]
#[verifier::external_body]
pub struct ExValue(serde_json::Value);

/// A JSON document. An object keeps its members in the order of the text.
/// A number is carried as the parser produced it and is never inspected.
#[derive(Debug, PartialEq)]
pub enum Json {
    Null,
    Bool(bool),
    Number(serde_json::Number),
    Text(String),
    List(Vec<Json>),
    Object(Vec<(String, Json)>),
}

/// What a `Json` holds, with strings and vectors as sequences.
pub enum JsonModel {
    Null,
    Bool(bool),
    Number(serde_json::Number),
    Text(Seq<char>),
    List(Seq<JsonModel>),
    Object(Seq<(Seq<char>, JsonModel)>),
}

impl View for Json {
    type V = JsonModel;

    open spec fn view(&self) -> JsonModel
        decreases self,
    {
        match self {
            Json::Null => JsonModel::Null,
            Json::Bool(b) => JsonModel::Bool(*b),
            Json::Number(n) => JsonModel::Number(*n),
            Json::Text(s) => JsonModel::Text(s@),
            Json::List(items) => JsonModel::List(list_model(items@)),
            Json::Object(members) => JsonModel::Object(members_model(members@)),
        }
    }
}

/// The items of a list as models, in order.
pub open spec fn list_model(items: Seq<Json>) -> Seq<JsonModel>
    decreases items,
{
    if items.len() == 0 {
        Seq::empty()
    } else {
        list_model(items.drop_last()).push(items.last()@)
    }
}

/// The members of an object, each with its name and value as models, in order.
pub open spec fn members_model(members: Seq<(String, Json)>) -> Seq<(Seq<char>, JsonModel)>
    decreases members,
{
    if members.len() == 0 {
        Seq::empty()
    } else {
        members_model(members.drop_last()).push((members.last().0@, members.last().1@))
    }
}

/// `members_model` goes member by member.
pub proof fn lemma_members_model(members: Seq<(String, Json)>)
    ensures
        members_model(members).len() == members.len(),
        forall|i: int|
            0 <= i < members.len() ==> #[trigger] members_model(members)[i] == (
                members[i].0@,
                members[i].1@,
            ),
    decreases members.len(),
{
    if members.len() > 0 {
        let front = members.drop_last();
        lemma_members_model(front);
        assert(members_model(members) == members_model(front).push(
            (members.last().0@, members.last().1@),
        ));
        assert forall|i: int| 0 <= i < members.len() implies #[trigger] members_model(members)[i]
            == (members[i].0@, members[i].1@) by {
            if i < front.len() {
                assert(front[i] == members[i]);
                assert(members_model(front)[i] == (front[i].0@, front[i].1@));
            }
        }
    }
}

/// The value of the last member named `key`, if there is one. Where a name
/// is repeated the last member counts, as in the written text.
pub open spec fn member(members: Seq<(Seq<char>, JsonModel)>, key: Seq<char>) -> Option<JsonModel>
    decreases members.len(),
{
    if members.len() == 0 {
        None
    } else if members.last().0 == key {
        Some(members.last().1)
    } else {
        member(members.drop_last(), key)
    }
}

/// The message for a document that lacks the member `key`.
pub open spec fn missing_field(key: Seq<char>) -> Seq<char> {
    "missing field `"@ + key + "`"@
}

/// The message for a document whose member `key` holds another kind of value
/// than the one expected.
pub open spec fn invalid_field(key: Seq<char>) -> Seq<char> {
    "invalid type for field `"@ + key + "`"@
}

/// The message for a document that is no object.
pub open spec fn not_an_object() -> Seq<char> {
    "expected a JSON object"@
}

/// The text that the member named `key` of an object holds, or the
/// message that says why there is none.
pub open spec fn text_member(doc: JsonModel, key: Seq<char>) -> Result<Seq<char>, Seq<char>> {
    match doc {
        JsonModel::Object(members) => match member(members, key) {
            None => Err(missing_field(key)),
            Some(JsonModel::Text(text)) => Ok(text),
            Some(_) => Err(invalid_field(key)),
        },
        _ => Err(not_an_object()),
    }
}

/// The truth value that the member named `key` of an object holds, or
/// the message that says why there is none.
pub open spec fn bool_member(doc: JsonModel, key: Seq<char>) -> Result<bool, Seq<char>> {
    match doc {
        JsonModel::Object(members) => match member(members, key) {
            None => Err(missing_field(key)),
            Some(JsonModel::Bool(b)) => Ok(b),
            Some(_) => Err(invalid_field(key)),
        },
        _ => Err(not_an_object()),
    }
}

/// The value of the member named `key` of an object, or the message
/// that says why there is none.
pub open spec fn any_member(doc: JsonModel, key: Seq<char>) -> Result<JsonModel, Seq<char>> {
    match doc {
        JsonModel::Object(members) => match member(members, key) {
            None => Err(missing_field(key)),
            Some(value) => Ok(value),
        },
        _ => Err(not_an_object()),
    }
}

/// An error that says that the member `key` is missing.
fn missing_field_error(key: &str) -> (e: ClientError)
    ensures
        e.msg_view() == missing_field(key@),
{
    ClientError::Generic { msg: String::from_str("missing field `").concat(key).concat("`") }
}

/// An error that says that the member `key` holds the wrong kind of value.
fn invalid_field_error(key: &str) -> (e: ClientError)
    ensures
        e.msg_view() == invalid_field(key@),
{
    ClientError::Generic {
        msg: String::from_str("invalid type for field `").concat(key).concat("`"),
    }
}

/// Reads the text of the member `key` of an object.
pub fn read_text_member(doc: &Json, key: &str) -> (r: Result<String, ClientError>)
    ensures
        match text_member(doc@, key@) {
            Ok(text) => r matches Ok(found) && found@ == text,
            Err(msg) => r matches Err(e) && e.msg_view() == msg,
        },
{
    match read_member(doc, key) {
        Ok(Json::Text(text)) => Ok(text.clone()),
        Ok(_) => Err(invalid_field_error(key)),
        Err(e) => Err(e),
    }
}

/// Reads the truth value of the member `key` of an object.
pub fn read_bool_member(doc: &Json, key: &str) -> (r: Result<bool, ClientError>)
    ensures
        match bool_member(doc@, key@) {
            Ok(b) => r == Ok::<bool, ClientError>(b),
            Err(msg) => r matches Err(e) && e.msg_view() == msg,
        },
{
    match read_member(doc, key) {
        Ok(Json::Bool(b)) => Ok(*b),
        Ok(_) => Err(invalid_field_error(key)),
        Err(e) => Err(e),
    }
}

/// Reads the member `key` of an object, whatever it holds.
pub fn read_member<'a>(doc: &'a Json, key: &str) -> (r: Result<&'a Json, ClientError>)
    ensures
        match any_member(doc@, key@) {
            Ok(value) => r matches Ok(found) && found@ == value,
            Err(msg) => r matches Err(e) && e.msg_view() == msg,
        },
{
    match doc {
        Json::Object(_) => {
            let name = String::from_str(key);
            match doc.get(&name) {
                Some(value) => Ok(value),
                None => Err(missing_field_error(key)),
            }
        },
        _ => Err(ClientError::generic("expected a JSON object")),
    }
}

/// In an object of three members with three different names, each name finds
/// its own value.
pub proof fn lemma_member_of_three(
    a: (Seq<char>, JsonModel),
    b: (Seq<char>, JsonModel),
    c: (Seq<char>, JsonModel),
)
    requires
        a.0 != b.0,
        a.0 != c.0,
        b.0 != c.0,
    ensures
        member(seq![a, b, c], a.0) == Some(a.1),
        member(seq![a, b, c], b.0) == Some(b.1),
        member(seq![a, b, c], c.0) == Some(c.1),
{
    let all = seq![a, b, c];
    assert(all.drop_last() =~= seq![a, b]);
    assert(seq![a, b].drop_last() =~= seq![a]);
    assert(member(seq![a], a.0) == Some(a.1));
    assert(member(seq![a, b], a.0) == Some(a.1));
    assert(member(seq![a, b], b.0) == Some(b.1));
}

/// What parsing a text as JSON gives: the document, or the parser's message.
pub uninterp spec fn json_parse(text: Seq<char>) -> Result<JsonModel, Seq<char>>;

/// The document written as compact JSON.
pub uninterp spec fn json_text(doc: JsonModel) -> Seq<char>;

/// Moves a `serde_json::Value` into a `Json`, variant by variant. Unverified:
/// it only changes the representation.
#[verifier::external_body]
fn json_of_value(value: serde_json::Value) -> Json {
    match value {
        serde_json::Value::Null => Json::Null,
        serde_json::Value::Bool(b) => Json::Bool(b),
        serde_json::Value::Number(n) => Json::Number(n),
        serde_json::Value::String(s) => Json::Text(s),
        serde_json::Value::Array(a) => Json::List(a.into_iter().map(json_of_value).collect()),
        serde_json::Value::Object(m) => Json::Object(
            m.into_iter().map(|(k, v)| (k, json_of_value(v))).collect(),
        ),
    }
}

/// Copies a `Json` into a `serde_json::Value`, variant by variant; members are
/// inserted in order. Unverified: it only changes the representation.
#[verifier::external_body]
fn value_of_json(doc: &Json) -> serde_json::Value {
    match doc {
        Json::Null => serde_json::Value::Null,
        Json::Bool(b) => serde_json::Value::Bool(*b),
        Json::Number(n) => serde_json::Value::Number(n.clone()),
        Json::Text(s) => serde_json::Value::String(s.clone()),
        Json::List(a) => serde_json::Value::Array(a.iter().map(value_of_json).collect()),
        Json::Object(m) => serde_json::Value::Object(
            m.iter().map(|(k, v)| (k.clone(), value_of_json(v))).collect(),
        ),
    }
}

/// Calls `serde_json::from_str` for a `serde_json::Value`. Trusted: the
/// outcome is the one that `json_parse` names for this text, the error as the
/// message that the parser's error displays.
#[verifier::external_body]
pub(crate) fn parse_json(text: &str) -> (r: Result<Json, String>)
    ensures
        match r {
            Ok(doc) => json_parse(text@) == Ok::<JsonModel, Seq<char>>(doc@),
            Err(msg) => json_parse(text@) == Err::<JsonModel, Seq<char>>(msg@),
        },
{
    serde_json::from_str::<serde_json::Value>(text).map(json_of_value).map_err(|e| e.to_string())
}

/// Calls `serde_json::to_string` on the document as a `serde_json::Value`.
/// Trusted: the call succeeds, and the text is the one that `json_text` names
/// for this document. The writer has nothing to refuse in such a value: every
/// name is a string, a number that is not finite is written as `null`, and
/// the text goes to memory.
#[verifier::external_body]
pub(crate) fn write_json(doc: &Json) -> (r: Result<String, String>)
    ensures
        match r {
            Ok(text) => text@ == json_text(doc@),
            Err(_) => false,
        },
{
    serde_json::to_string(&value_of_json(doc)).map_err(|e| e.to_string())
}

impl Json {
    /// The value of the last member named `key`, where this is an object
    /// that has one.
    pub fn get<'a>(&'a self, key: &String) -> (found: Option<&'a Json>)
        ensures
            match found {
                Some(value) => self@ is Object && member(self@->Object_0, key@) == Some(value@),
                None => !(self@ is Object) || member(self@->Object_0, key@) is None,
            },
    {
        match self {
            Json::Object(members) => {
                let ghost all = members_model(members@);
                proof {
                    lemma_members_model(members@);
                    assert(all.take(all.len() as int) =~= all);
                }
                let mut i: usize = members.len();
                while i > 0
                    invariant
                        0 <= i <= members.len(),
                        all.len() == members.len(),
                        self@ == JsonModel::Object(all),
                        forall|k: int|
                            0 <= k < all.len() ==> #[trigger] all[k] == (
                                members@[k].0@,
                                members@[k].1@,
                            ),
                        member(all, key@) == member(all.take(i as int), key@),
                    decreases i,
                {
                    i = i - 1;
                    proof {
                        let upto = all.take(i + 1);
                        assert(upto.last() == all[i as int]);
                        assert(upto.drop_last() =~= all.take(i as int));
                    }
                    if members[i].0 == *key {
                        return Some(&members[i].1);
                    }
                }
                None
            },
            _ => None,
        }
    }
}

} // verus!
