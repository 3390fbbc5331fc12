//! The declared engine requirement of a project manifest.
use vstd::prelude::*;
use crate::constraint::view_opt;

verus! {

#[verifier::external_type_specification]
#[verifier::external_body]
pub struct ExJsonValue(serde_json::Value);

#[verifier::external_type_specification]
#[verifier::external_body]
pub struct ExJsonError(serde_json::Error);

/// What the lookup reads of a JSON document: strings, objects as their
/// members (keys unique, as the parser keeps them), and everything else.
#[derive(Debug)]
pub enum Json {
    Str(String),
    Object(Vec<(String, Json)>),
    Other,
}

/// The document that `serde_json` parses from the text, seen as a `Json`;
/// `None` where the text is not valid JSON.
pub uninterp spec fn json_document(text: Seq<char>) -> Option<Json>;

/// The value of the first member named `key`.
pub open spec fn member(entries: Seq<(String, Json)>, key: Seq<char>) -> Option<Json>
    decreases entries.len(),
{
    if entries.len() == 0 {
        None
    } else if entries[0].0@ == key {
        Some(entries[0].1)
    } else {
        member(entries.drop_first(), key)
    }
}

/// The string at `engines.node` of a document, if there is one.
pub open spec fn engines_node_of(doc: Json) -> Option<Seq<char>> {
    match doc {
        Json::Object(top) => match member(top@, seq!['e', 'n', 'g', 'i', 'n', 'e', 's']) {
            Some(Json::Object(inner)) => match member(inner@, seq!['n', 'o', 'd', 'e']) {
                Some(Json::Str(s)) => Some(s@),
                _ => None,
            },
            _ => None,
        },
        _ => None,
    }
}

/// The declared requirement of a manifest text: absent when the text is not
/// valid JSON or has no string at `engines.node`.
pub open spec fn declared_constraint(manifest: Seq<char>) -> Option<Seq<char>> {
    match json_document(manifest) {
        Some(doc) => engines_node_of(doc),
        None => None,
    }
}

/// Copies a parsed `serde_json::Value` into the library's model, variant for
/// variant; it converts the result of `parse_json`.
#[verifier::external_body]
fn json_of_value(v: &serde_json::Value) -> Json {
    match v {
        serde_json::Value::String(s) => Json::Str(s.clone()),
        serde_json::Value::Object(m) => Json::Object(
            m.iter().map(|(k, x)| (k.clone(), json_of_value(x))).collect(),
        ),
        _ => Json::Other,
    }
}

/// Relies on serde_json::from_str::<serde_json::Value>, whose result depends
/// on the text alone.
#[verifier::external_body]
fn parse_json(text: &str) -> (r: Result<Json, serde_json::Error>)
    ensures
        r matches Ok(doc) ==> json_document(text@) == Some(doc),
        r is Err ==> json_document(text@) is None,
{
    serde_json::from_str::<serde_json::Value>(text).map(|v| json_of_value(&v))
}

/// The value of the first member of `entries` named `key`.
pub fn find_member<'a>(entries: &'a Vec<(String, Json)>, key: &str) -> (r: Option<&'a Json>)
    ensures
        match r {
            Some(v) => member(entries@, key@) == Some(*v),
            None => member(entries@, key@) is None,
        },
{
    let wanted = String::from_str(key);
    let mut i: usize = 0;
    assert(entries@.subrange(0, entries@.len() as int) =~= entries@);
    while i < entries.len()
        invariant
            i <= entries@.len(),
            wanted@ == key@,
            member(entries@, key@) == member(entries@.subrange(i as int, entries@.len() as int), key@),
        decreases entries.len() - i,
    {
        let ghost rest = entries@.subrange(i as int, entries@.len() as int);
        assert(rest.drop_first() =~= entries@.subrange(i + 1, entries@.len() as int));
        assert(rest[0] == entries@[i as int]);
        if entries[i].0 == wanted {
            return Some(&entries[i].1);
        }
        i += 1;
    }
    assert(entries@.subrange(i as int, entries@.len() as int).len() == 0);
    None
}

/// The string at `engines.node` of a parsed manifest.
pub fn engines_node(doc: &Json) -> (r: Option<String>)
    ensures
        view_opt(r) == engines_node_of(*doc),
{
    proof {
        reveal_strlit("engines");
        reveal_strlit("node");
    }
    match doc {
        Json::Object(top) => match find_member(top, "engines") {
            Some(Json::Object(inner)) => match find_member(inner, "node") {
                Some(Json::Str(s)) => {
                    assert("node"@ =~= seq!['n', 'o', 'd', 'e']);
                    assert("engines"@ =~= seq!['e', 'n', 'g', 'i', 'n', 'e', 's']);
                    Some(s.clone())
                },
                _ => {
                    assert("node"@ =~= seq!['n', 'o', 'd', 'e']);
                    assert("engines"@ =~= seq!['e', 'n', 'g', 'i', 'n', 'e', 's']);
                    None
                },
            },
            _ => {
                assert("engines"@ =~= seq!['e', 'n', 'g', 'i', 'n', 'e', 's']);
                None
            },
        },
        _ => None,
    }
}

/// The declared engine requirement of a manifest's text; absent when the text
/// is not valid JSON or has no string at `engines.node`.
pub fn engines_constraint(manifest: &str) -> (r: Option<String>)
    ensures
        view_opt(r) == declared_constraint(manifest@),
{
    match parse_json(manifest) {
        Ok(doc) => engines_node(&doc),
        Err(_) => None,
    }
}

} // verus!
