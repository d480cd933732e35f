use vstd::prelude::*;

verus! {

/// What talking to the registry can fail with once the response body is in
/// hand: the body does not carry the expected field as an array.
#[derive(Debug, Clone, Copy, PartialEq, Eq, Structural)]
pub enum RegistryError {
    MissingField,
}

/// The elements of the array stored under `field` in the JSON document
/// `body`, each taken as its string content (the empty string for an element
/// that is not a JSON string); nothing when the document does not parse, the
/// field is absent, or its value is not an array.
pub uninterp spec fn string_items_of(body: Seq<char>, field: Seq<char>) -> Option<Seq<Seq<char>>>;

/// The elements of the array stored under `field` in the JSON document
/// `body`, each as the identifier it spells: a JSON string's content,
/// verbatim and without quotes, and any other element's compact JSON text (a
/// number as its digits); nothing under the same conditions as
/// `string_items_of`.
pub uninterp spec fn identifier_items_of(body: Seq<char>, field: Seq<char>) -> Option<Seq<Seq<char>>>;

/// Relies on serde_json::from_str and serde_json::Value::{get, as_array,
/// as_str}: parses `body` as one JSON document and reads the array stored
/// under `field`, each element as its string content (as_str, with the empty
/// string for a non-string element).  Yields None exactly when the document
/// does not parse, the field is absent, or its value is not an array.
#[verifier::external_body]
fn string_array_field(body: &str, field: &str) -> (r: Option<Vec<String>>)
    ensures
        (r is Some) == (string_items_of(body@, field@) is Some),
        r matches Some(items) ==> items.deep_view() == string_items_of(body@, field@).unwrap(),
{
    let doc: serde_json::Value = match serde_json::from_str(body) {
        Ok(v) => v,
        Err(_) => return None,
    };
    let items = doc.get(field)?.as_array()?;
    Some(items.iter().map(|v| v.as_str().unwrap_or("").to_owned()).collect())
}

/// Relies on serde_json::from_str, serde_json::Value::{get, as_array,
/// as_str} and the Display impl of serde_json::Value: parses `body` as one
/// JSON document and reads the array stored under `field`, each element as
/// its string content when it is a JSON string and as its compact JSON text
/// otherwise.  Yields None exactly when the document does not parse, the
/// field is absent, or its value is not an array.
#[verifier::external_body]
fn identifier_array_field(body: &str, field: &str) -> (r: Option<Vec<String>>)
    ensures
        (r is Some) == (identifier_items_of(body@, field@) is Some),
        r matches Some(items) ==> items.deep_view() == identifier_items_of(body@, field@).unwrap(),
{
    let doc: serde_json::Value = match serde_json::from_str(body) {
        Ok(v) => v,
        Err(_) => return None,
    };
    let items = doc.get(field)?.as_array()?;
    Some(items.iter().map(|v| match v.as_str() {
        Some(s) => s.to_owned(),
        None => v.to_string(),
    }).collect())
}

/// Reads a registry "list the versions of a project" response: the strings of
/// its `versions` array, in the response's order; fails when the response
/// carries no such array.
pub fn parse_versions(body: &str) -> (r: Result<Vec<String>, RegistryError>)
    ensures
        string_items_of(body@, "versions"@) matches Some(items) ==> (r matches Ok(v)
            && v.deep_view() == items),
        string_items_of(body@, "versions"@) is None ==> (r matches Err(e) && e
            == RegistryError::MissingField),
{
    match string_array_field(body, "versions") {
        Some(v) => Ok(v),
        None => Err(RegistryError::MissingField),
    }
}

/// Reads a registry "list the builds of a version" response: its `builds`
/// array, each entry as the identifier it spells, in the response's order;
/// fails when the response carries no such array.
pub fn parse_builds(body: &str) -> (r: Result<Vec<String>, RegistryError>)
    ensures
        identifier_items_of(body@, "builds"@) matches Some(items) ==> (r matches Ok(v)
            && v.deep_view() == items),
        identifier_items_of(body@, "builds"@) is None ==> (r matches Err(e) && e
            == RegistryError::MissingField),
{
    match identifier_array_field(body, "builds") {
        Some(v) => Ok(v),
        None => Err(RegistryError::MissingField),
    }
}

} // verus!
