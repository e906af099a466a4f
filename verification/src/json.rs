//! What the library has from `serde_json`: reading, changing and writing
//! JSON documents.
//!
//! Nothing in this module is proved. Each function hands one call on to
//! `serde_json` and says of it what the crate's source shows. A value is
//! spoken of by the document it holds, as compact text; what a call gives
//! for a document has a name of its own. Writing a document into text does
//! not fail.

use vstd::prelude::*;
use vstd::string::*;
use crate::upload::form::asset_pairs;
use crate::upload::form::AssetEntry;

verus! {

#[verifier::external_type_specification]
#[verifier::external_body]
pub struct ExJsonError(serde_json::Error);

#[verifier::external_type_specification]
#[verifier::external_body]
pub struct ExJsonValue(serde_json::Value);

/// The JSON document that a value holds, as its compact text.
pub uninterp spec fn json_document(value: serde_json::Value) -> Seq<char>;

/// The document that is read from a text, as its compact text; `None`
/// where the text is not read as JSON.
pub uninterp spec fn parsed_json(text: Seq<char>) -> Option<Seq<char>>;

/// The document that comes of an object or of `null` when its member
/// `name` is set to a string. Of `null` comes an object with that member
/// alone.
pub uninterp spec fn renamed_json(document: Seq<char>, name: Seq<char>) -> Seq<char>;

/// The text of a document laid out for reading, with indentation.
pub uninterp spec fn pretty_json(document: Seq<char>) -> Seq<char>;

/// The compact JSON text of the object that is made of these entries, each
/// path a member with its key. Of two entries with one path the later
/// would count; a manifest holds no two such.
pub uninterp spec fn manifest_json(entries: Seq<(Seq<char>, Seq<char>)>) -> Seq<char>;

/// Whether a document is an object: its compact text starts with a brace.
pub open spec fn is_object_document(document: Seq<char>) -> bool {
    document.len() > 0 && document[0] == '{'
}

/// Whether a document is `null`.
pub open spec fn is_null_document(document: Seq<char>) -> bool {
    document == seq!['n', 'u', 'l', 'l']
}

/// `serde_json::from_str` for a `Value`: whether a text is read, and as
/// which document, depends on the text alone.
#[verifier::external_body]
pub(crate) fn parse_json(text: &str) -> (res: Result<serde_json::Value, serde_json::Error>)
    ensures
        match res {
            Ok(value) => parsed_json(text@) == Some(json_document(value)),
            Err(_) => parsed_json(text@) is None,
        },
{
    serde_json::from_str::<serde_json::Value>(text)
}

/// `Value::is_object` of `serde_json`.
#[verifier::external_body]
pub(crate) fn value_is_object(value: &serde_json::Value) -> (yes: bool)
    ensures
        yes == is_object_document(json_document(*value)),
{
    value.is_object()
}

/// `Value::is_null` of `serde_json`.
#[verifier::external_body]
pub(crate) fn value_is_null(value: &serde_json::Value) -> (yes: bool)
    ensures
        yes == is_null_document(json_document(*value)),
{
    value.is_null()
}

/// Assignment to the member `name` of a `serde_json` value through its
/// index operator. The operator panics on a value that is neither an
/// object nor `null`, so such a value is not admitted.
#[verifier::external_body]
pub(crate) fn set_name(value: &mut serde_json::Value, name: &str)
    requires
        is_object_document(json_document(*old(value))) || is_null_document(
            json_document(*old(value)),
        ),
    ensures
        json_document(*final(value)) == renamed_json(json_document(*old(value)), name@),
{
    value["name"] = serde_json::Value::from(name);
}

/// `serde_json::to_string_pretty` on a value. A value is always put into
/// text: it is written into memory, and holds nothing that the encoder
/// refuses. The text depends on the document alone.
#[verifier::external_body]
pub(crate) fn to_pretty_text(value: &serde_json::Value) -> (res: Result<
    String,
    serde_json::Error,
>)
    ensures
        res is Ok,
        res matches Ok(text) ==> text@ == pretty_json(json_document(*value)),
{
    serde_json::to_string_pretty(value)
}

/// `serde_json::to_string` on the entries of a manifest as one JSON
/// object, with a string member for each entry. Such an object is always
/// put into text: it is written into memory, and its keys and values are
/// strings. The text depends on the entries alone.
#[verifier::external_body]
pub(crate) fn manifest_to_json(entries: &Vec<AssetEntry>) -> (res: Result<
    String,
    serde_json::Error,
>)
    ensures
        res is Ok,
        res matches Ok(text) ==> text@ == manifest_json(asset_pairs(entries@)),
{
    let object: serde_json::Map<String, serde_json::Value> = entries.iter().map(
        |e| (e.path.clone(), serde_json::Value::String(e.key.clone())),
    ).collect();
    serde_json::to_string(&object)
}

} // verus!
