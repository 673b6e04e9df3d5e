use vstd::prelude::*;

verus! {

/// The text held under `key` in the JSON object that `text` holds, where
/// `text` parses as JSON, is an object, and that member is a string.
pub uninterp spec fn json_text_member(text: Seq<char>, key: Seq<char>) -> Option<Seq<char>>;

/// The integer held under `key` in the JSON object that `text` holds, where
/// `text` parses as JSON, is an object, and that member is an integer that
/// fits in `u64`.
pub uninterp spec fn json_count_member(text: Seq<char>, key: Seq<char>) -> Option<u64>;

/// The strings held under `key` in the JSON object that `text` holds, where
/// `text` parses as JSON, is an object, and that member is an array of
/// strings only.
pub uninterp spec fn json_text_list_member(text: Seq<char>, key: Seq<char>) -> Option<Seq<Seq<char>>>;

/// Relies on serde_json::from_str (into a `serde_json::Value`) and on
/// `Value::get` / `Value::as_str`: the string member `key` of the object
/// that `text` holds, if there is one.
#[verifier::external_body]
fn read_text_member(text: &str, key: &str) -> (r: Option<String>)
    ensures
        match r {
            Some(s) => json_text_member(text@, key@) == Some(s@),
            None => json_text_member(text@, key@) is None,
        },
{
    let value: serde_json::Value = serde_json::from_str(text).ok()?;
    value.get(key)?.as_str().map(|s| s.to_string())
}

/// Relies on serde_json::from_str (into a `serde_json::Value`) and on
/// `Value::get` / `Value::as_u64`: the unsigned integer member `key` of the
/// object that `text` holds, if there is one.
#[verifier::external_body]
fn read_count_member(text: &str, key: &str) -> (r: Option<u64>)
    ensures
        r == json_count_member(text@, key@),
{
    let value: serde_json::Value = serde_json::from_str(text).ok()?;
    value.get(key)?.as_u64()
}

/// Relies on serde_json::from_str (into a `serde_json::Value`) and on
/// `Value::get` / `Value::as_array` / `Value::as_str`: the member `key` of
/// the object that `text` holds, if it is an array of strings.
#[verifier::external_body]
fn read_text_list_member(text: &str, key: &str) -> (r: Option<Vec<String>>)
    ensures
        match r {
            Some(v) => json_text_list_member(text@, key@) == Some(strings_view(v@)),
            None => json_text_list_member(text@, key@) is None,
        },
{
    let value: serde_json::Value = serde_json::from_str(text).ok()?;
    let items = value.get(key)?.as_array()?;
    items.iter().map(|item| item.as_str().map(|s| s.to_string())).collect()
}

/// The text of each string in `v`.
pub open spec fn strings_view(v: Seq<String>) -> Seq<Seq<char>> {
    v.map_values(|s: String| s@)
}

/// What a generation request produced: a story segment with the character's
/// health (absolute, as the service reports it) and the options to choose
/// from, or a failure with its reason.
pub enum GenerationResult {
    Success { story: String, health: u64, options: Vec<String> },
    Failure { reason: String },
}

/// A successful result as (story, health, options); `None` for a failure.
pub open spec fn outcome(r: GenerationResult) -> Option<(Seq<char>, u64, Seq<Seq<char>>)> {
    match r {
        GenerationResult::Success { story, health, options } => Some((story@, health, strings_view(options@))),
        GenerationResult::Failure { .. } => None,
    }
}

pub open spec fn story_key() -> Seq<char> {
    seq!['s', 't', 'o', 'r', 'y']
}

pub open spec fn health_key() -> Seq<char> {
    seq!['h', 'e', 'a', 'l', 't', 'h']
}

pub open spec fn options_key() -> Seq<char> {
    seq!['o', 'p', 't', 'i', 'o', 'n', 's']
}

/// A response body decoded against the schema
/// `{ "story": string, "health": integer, "options": [string, ...] }`:
/// `Some` exactly when every member is present with its type.
pub open spec fn decoded(text: Seq<char>) -> Option<(Seq<char>, u64, Seq<Seq<char>>)> {
    match (
        json_text_member(text, story_key()),
        json_count_member(text, health_key()),
        json_text_list_member(text, options_key()),
    ) {
        (Some(s), Some(h), Some(o)) => Some((s, h, o)),
        _ => None,
    }
}

/// Decodes a response body; a body that breaks the schema is a failure.
pub fn decode_response(text: &str) -> (r: GenerationResult)
    ensures
        outcome(r) == decoded(text@),
{
    proof {
        reveal_strlit("story");
        reveal_strlit("health");
        reveal_strlit("options");
    }
    assert("story"@ =~= story_key());
    assert("health"@ =~= health_key());
    assert("options"@ =~= options_key());
    let story = read_text_member(text, "story");
    let health = read_count_member(text, "health");
    let options = read_text_list_member(text, "options");
    match (story, health, options) {
        (Some(story), Some(health), Some(options)) => GenerationResult::Success { story, health, options },
        _ => GenerationResult::Failure { reason: "response does not match the schema".to_string() },
    }
}

/// The result of one generation request: the service's reply body, or the
/// transport error that kept it from replying.
pub fn result_from_reply(reply: Result<String, String>) -> (r: GenerationResult)
    ensures
        match reply {
            Ok(body) => outcome(r) == decoded(body@),
            Err(reason) => r == (GenerationResult::Failure { reason }),
        },
{
    match reply {
        Ok(body) => decode_response(body.as_str()),
        Err(reason) => GenerationResult::Failure { reason },
    }
}

/// A body that carries every member of the schema with its type decodes to
/// a success holding exactly those members.
pub proof fn lemma_schema_round_trip(text: Seq<char>, story: Seq<char>, health: u64, options: Seq<Seq<char>>)
    requires
        json_text_member(text, story_key()) == Some(story),
        json_count_member(text, health_key()) == Some(health),
        json_text_list_member(text, options_key()) == Some(options),
    ensures
        decoded(text) == Some((story, health, options)),
{
}

/// A body that lacks a member of the schema, or holds one with another type,
/// decodes to a failure.
pub proof fn lemma_schema_violation_fails(text: Seq<char>)
    requires
        json_text_member(text, story_key()) is None
            || json_count_member(text, health_key()) is None
            || json_text_list_member(text, options_key()) is None,
    ensures
        decoded(text) is None,
{
}

} // verus!
