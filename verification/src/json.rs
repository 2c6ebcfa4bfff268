use vstd::prelude::*;
use vstd::string::*;

verus! {

/// A JSON value. A number is held in decimal, as it is written.
#[derive(Debug)]
pub enum Json {
    Null,
    Bool(bool),
    Number(String),
    Text(String),
    Array(Vec<Json>),
    Object(Vec<(String, Json)>),
}

/// The value that a text denotes in JSON, where it denotes one.
pub uninterp spec fn json_value(text: Seq<char>) -> Option<Json>;

/// Rewrites a value of `serde_json` as a `Json`, variant by variant: a number
/// by its `Display`, the members of an object in the order in which
/// `serde_json` hands them out. It is the second half of `parse_json`.
#[verifier::external_body]
fn json_of(value: &serde_json::Value) -> (j: Json)
{
    match value {
        serde_json::Value::Null => Json::Null,
        serde_json::Value::Bool(b) => Json::Bool(*b),
        serde_json::Value::Number(n) => Json::Number(n.to_string()),
        serde_json::Value::String(s) => Json::Text(s.clone()),
        serde_json::Value::Array(a) => Json::Array(a.iter().map(json_of).collect()),
        serde_json::Value::Object(o) => Json::Object(
            o.iter().map(|(k, v)| (k.clone(), json_of(v))).collect(),
        ),
    }
}

/// `serde_json::from_str` to a `serde_json::Value`, rewritten as a `Json`.
/// `None` where the text is not JSON. The contract names the value.
#[verifier::external_body]
fn parse_json(text: &str) -> (r: Option<Json>)
    ensures
        r == json_value(text@),
{
    match serde_json::from_str::<serde_json::Value>(text) {
        Ok(value) => Some(json_of(&value)),
        Err(_) => None,
    }
}

#[verifier::external_type_specification]
#[verifier::external_body]
pub struct ExJsonValue(serde_json::Value);

/// The member of an object that a key names: the first with that key.
pub open spec fn member_in(members: Seq<(String, Json)>, key: Seq<char>) -> Option<Json>
    decreases members.len(),
{
    if members.len() == 0 {
        None
    } else if members[0].0@ == key {
        Some(members[0].1)
    } else {
        member_in(members.subrange(1, members.len() as int), key)
    }
}

/// The member of a value that a key names, where the value is an object that
/// has one.
pub open spec fn member(j: Json, key: Seq<char>) -> Option<Json> {
    match j {
        Json::Object(members) => member_in(members@, key),
        _ => None,
    }
}

/// The text of a value that is a text.
pub open spec fn text_of(j: Option<Json>) -> Option<Seq<char>> {
    match j {
        Some(Json::Text(t)) => Some(t@),
        _ => None,
    }
}

/// The text of a value that is a text, and the empty text otherwise.
pub open spec fn text_or_empty(j: Option<Json>) -> Seq<char> {
    match text_of(j) {
        Some(t) => t,
        None => Seq::empty(),
    }
}

/// The decimal text of a value that is a number.
pub open spec fn number_of(j: Option<Json>) -> Option<Seq<char>> {
    match j {
        Some(Json::Number(t)) => Some(t@),
        _ => None,
    }
}

impl Json {
    /// Reads a JSON text.
    pub fn parse(text: &str) -> (r: Option<Json>)
        ensures
            r == json_value(text@),
    {
        parse_json(text)
    }

    /// The member that `key` names.
    pub fn get<'a>(&'a self, key: &str) -> (r: Option<&'a Json>)
        ensures
            match r {
                Some(j) => member(*self, key@) == Some(*j),
                None => member(*self, key@) is None,
            },
    {
        match self {
            Json::Object(members) => {
                let mut i: usize = 0;
                assert(members@.subrange(0, members@.len() as int) =~= members@);
                while i < members.len()
                    invariant
                        i <= members@.len(),
                        member(*self, key@) == member_in(members@, key@),
                        member_in(members@, key@) == member_in(
                            members@.subrange(i as int, members@.len() as int),
                            key@,
                        ),
                    decreases members@.len() - i,
                {
                    let ghost rest = members@.subrange(i as int, members@.len() as int);
                    assert(rest[0] == members@[i as int]);
                    assert(rest.subrange(1, rest.len() as int) =~= members@.subrange(
                        i + 1,
                        members@.len() as int,
                    ));
                    if crate::text::same_text(members[i].0.as_str(), key) {
                        return Some(&members[i].1);
                    }
                    i += 1;
                }
                None
            },
            _ => None,
        }
    }

    /// The text of the member that `key` names, where it is a text.
    pub fn text<'a>(&'a self, key: &str) -> (r: Option<&'a str>)
        ensures
            match r {
                Some(t) => text_of(member(*self, key@)) == Some(t@),
                None => text_of(member(*self, key@)) is None,
            },
    {
        match self.get(key) {
            Some(Json::Text(t)) => Some(t.as_str()),
            _ => None,
        }
    }

    /// The text of the member that `key` names, empty where there is none.
    pub fn text_or_empty(&self, key: &str) -> (r: String)
        ensures
            r@ == text_or_empty(member(*self, key@)),
    {
        match self.text(key) {
            Some(t) => String::from_str(t),
            None => String::new(),
        }
    }

    /// The decimal text of the member that `key` names, where it is a number.
    pub fn number<'a>(&'a self, key: &str) -> (r: Option<&'a str>)
        ensures
            match r {
                Some(t) => number_of(member(*self, key@)) == Some(t@),
                None => number_of(member(*self, key@)) is None,
            },
    {
        match self.get(key) {
            Some(Json::Number(t)) => Some(t.as_str()),
            _ => None,
        }
    }
}

} // verus!
