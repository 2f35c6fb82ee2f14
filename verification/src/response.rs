//! Reading the model's answer for one window: a JSON object with an
//! `action` and, if the model gave one, a `rationale`.

use vstd::prelude::*;
use vstd::string::*;
use crate::labeler::Action;
use crate::text::{chars_of, push_chars, remove_all, same_text, without};

verus! {

/// A JSON document as `serde_json` holds it.
#[verifier::external_type_specification]
#[verifier::external_body]
pub struct ExValue(serde_json::Value);

/// Why `serde_json` refused a text.
#[verifier::external_type_specification]
#[verifier::external_body]
pub struct ExJsonError(serde_json::Error);

/// The members of a document that are strings, by key: those of the object
/// where the document is an object, none otherwise.
pub uninterp spec fn string_members(doc: serde_json::Value) -> Map<Seq<char>, Seq<char>>;

/// The string members of the document that a text is the JSON of, or `None`
/// where the text is not the JSON of any.
pub uninterp spec fn json_string_members(text: Seq<char>) -> Option<Map<Seq<char>, Seq<char>>>;

/// What the model predicted for a window, and why.
#[derive(Debug, Clone, PartialEq, Eq)]
pub struct Prediction {
    pub action: Action,
    pub rationale: String,
}

impl View for Prediction {
    type V = (Action, Seq<char>);

    open spec fn view(&self) -> (Action, Seq<char>) {
        (self.action, self.rationale@)
    }
}

/// Why an answer could not be read.
#[derive(Debug, Clone, Copy, PartialEq, Eq, Structural)]
pub enum ResponseFault {
    /// What is left of the answer without its code fences is not JSON.
    InvalidJson,
    /// The answer is JSON, but no object with a string under `action`.
    MissingAction,
}

/// The answer without its code fences: first every "```json" goes, then
/// every "```" that is left.
pub open spec fn cleaned(response: Seq<char>) -> Seq<char> {
    remove_all(remove_all(response, "```json"@), "```"@)
}

/// The action that a name stands for. A name that is none of the three
/// stands for `NoTrade`.
pub open spec fn action_named(name: Seq<char>) -> Action {
    if name == "long"@ {
        Action::Long
    } else if name == "short"@ {
        Action::Short
    } else {
        Action::NoTrade
    }
}

/// The member under `key`, where there is one.
pub open spec fn member(members: Map<Seq<char>, Seq<char>>, key: Seq<char>) -> Option<Seq<char>> {
    if members.contains_key(key) {
        Some(members[key])
    } else {
        None
    }
}

/// What two members say: without an action nothing, without a rationale an
/// empty one.
pub open spec fn read_members(action: Option<Seq<char>>, rationale: Option<Seq<char>>) -> Result<
    (Action, Seq<char>),
    ResponseFault,
> {
    match action {
        None => Err(ResponseFault::MissingAction),
        Some(name) => Ok(
            (
                action_named(name),
                match rationale {
                    Some(text) => text,
                    None => Seq::<char>::empty(),
                },
            ),
        ),
    }
}

/// What an answer says, given the string members of its JSON.
pub open spec fn read_answer(members: Option<Map<Seq<char>, Seq<char>>>) -> Result<
    (Action, Seq<char>),
    ResponseFault,
> {
    match members {
        None => Err(ResponseFault::InvalidJson),
        Some(m) => read_members(member(m, "action"@), member(m, "rationale"@)),
    }
}

/// A result of reading, with the prediction taken by its view.
pub open spec fn viewed(r: Result<Prediction, ResponseFault>) -> Result<
    (Action, Seq<char>),
    ResponseFault,
> {
    match r {
        Ok(p) => Ok(p@),
        Err(fault) => Err(fault),
    }
}

/// Parses a text as JSON. Trusted: `serde_json::from_str` at the type
/// `Value` returns `Ok` exactly for the texts that are the JSON of a
/// document, and the document it returns is a function of the text.
#[verifier::external_body]
fn parse_json(text: &str) -> (r: Result<serde_json::Value, serde_json::Error>)
    ensures
        r is Ok <==> json_string_members(text@) is Some,
        r matches Ok(doc) ==> json_string_members(text@) == Some(string_members(doc)),
{
    serde_json::from_str(text)
}

/// The string under `key` in a document. Trusted: `Value::get` with a
/// string key finds a member only in an object and only under that key, and
/// `Value::as_str` gives the text of a member that is a string and of no
/// other.
#[verifier::external_body]
fn string_member(doc: &serde_json::Value, key: &str) -> (r: Option<String>)
    ensures
        r is Some <==> string_members(*doc).contains_key(key@),
        r matches Some(s) ==> s@ == string_members(*doc)[key@],
{
    Some(doc.get(key)?.as_str()?.to_string())
}

/// The answer without its code fences.
pub fn strip_code_fences(response: &str) -> (clean: String)
    ensures
        clean@ == cleaned(response@),
{
    let text = chars_of(response);
    let opening = chars_of("```json");
    let fence = chars_of("```");
    let unopened = without(&text, &opening);
    let bare = without(&unopened, &fence);
    let mut clean = String::new();
    push_chars(&mut clean, &bare);
    assert(clean@ =~= cleaned(response@));
    clean
}

/// The action that a name stands for.
pub fn action_from_name(name: &str) -> (a: Action)
    ensures
        a == action_named(name@),
{
    if same_text(name, "long") {
        Action::Long
    } else if same_text(name, "short") {
        Action::Short
    } else {
        Action::NoTrade
    }
}

/// The prediction that two members of an answer make.
pub fn prediction_from_members(action: Option<String>, rationale: Option<String>) -> (r: Result<
    Prediction,
    ResponseFault,
>)
    ensures
        viewed(r) == read_members(
            match action {
                Some(a) => Some(a@),
                None => None,
            },
            match rationale {
                Some(t) => Some(t@),
                None => None,
            },
        ),
{
    match action {
        None => Err(ResponseFault::MissingAction),
        Some(name) => {
            let rationale = match rationale {
                Some(text) => text,
                None => String::new(),
            };
            Ok(Prediction { action: action_from_name(name.as_str()), rationale })
        },
    }
}

/// Reads the model's answer for one window.
///
/// The answer is malformed where it is no JSON once its code fences are
/// gone, or holds no string under `action`. A name under `action` that is
/// neither "long" nor "short" reads as `NoTrade`; a missing rationale reads
/// as the empty text.
pub fn parse_prediction(response: &str) -> (r: Result<Prediction, ResponseFault>)
    ensures
        viewed(r) == read_answer(json_string_members(cleaned(response@))),
{
    let clean = strip_code_fences(response);
    match parse_json(clean.as_str()) {
        Err(_) => Err(ResponseFault::InvalidJson),
        Ok(doc) => {
            let action = string_member(&doc, "action");
            let rationale = string_member(&doc, "rationale");
            prediction_from_members(action, rationale)
        },
    }
}

} // verus!
