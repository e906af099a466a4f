//! Giving a freshly cloned project its own name in `package.json`.
//!
//! This is a convenience: a project works without it. So the operation
//! says what went wrong, and the caller is free not to care. The JSON is
//! read, changed and written by `serde_json`; reading the file and writing
//! it back is the caller's part.

use vstd::prelude::*;
use vstd::string::*;
use crate::json::is_null_document;
use crate::json::is_object_document;
use crate::json::parse_json;
use crate::json::parsed_json;
use crate::json::pretty_json;
use crate::json::renamed_json;
use crate::json::set_name;
use crate::json::to_pretty_text;
use crate::json::value_is_null;
use crate::json::value_is_object;

verus! {

/// Why a `package.json` did not get a new name.
#[derive(Clone, Copy, Debug, PartialEq, Eq, Structural)]
pub enum RenameError {
    /// The file does not hold JSON.
    NotJson,
    /// The file holds JSON that has no members: an array, a string, a
    /// number or a truth value.
    NotAnObject,
    /// The changed document could not be put into text. The encoder does
    /// not fail on a document, so a renaming does not end like this.
    NotWritten,
}

/// What a renaming returns, given the text that the encoder made of the
/// changed document.
pub fn renamed_text(written: Result<String, serde_json::Error>) -> (res: Result<
    String,
    RenameError,
>)
    ensures
        match written {
            Ok(text) => res == Ok::<String, RenameError>(text),
            Err(_) => res == Err::<String, RenameError>(RenameError::NotWritten),
        },
{
    match written {
        Ok(text) => Ok(text),
        Err(_) => Err(RenameError::NotWritten),
    }
}

/// The new contents of a `package.json` whose project is called `name`
/// from now on: the document of `contents` with its member `name` set,
/// laid out for reading.
///
/// Fails where `contents` is not JSON, and where it is JSON without
/// members. Else the text that comes back is that of the changed document.
pub fn update_package_json_name(contents: &str, name: &str) -> (res: Result<String, RenameError>)
    ensures
        match parsed_json(contents@) {
            None => res == Err::<String, RenameError>(RenameError::NotJson),
            Some(document) => if is_object_document(document) || is_null_document(document) {
                res matches Ok(text) && text@ == pretty_json(renamed_json(document, name@))
            } else {
                res == Err::<String, RenameError>(RenameError::NotAnObject)
            },
        },
{
    let mut value = match parse_json(contents) {
        Ok(value) => value,
        Err(_) => {
            return Err(RenameError::NotJson);
        },
    };
    if !value_is_object(&value) && !value_is_null(&value) {
        return Err(RenameError::NotAnObject);
    }
    set_name(&mut value, name);
    renamed_text(to_pretty_text(&value))
}

} // verus!
