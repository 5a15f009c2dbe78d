//! Rendering a secret's value, and a described secret, for display.
use vstd::prelude::*;

use crate::error::AsmError;
use crate::secret::{string_or_empty, text_or_empty, Secret};

verus! {

#[verifier::external_type_specification]
#[verifier::external_body]
pub struct ExJsonError(serde_json::Error);

/// `serde_json::from_str` reads the text as one JSON value.
pub uninterp spec fn is_json_text(s: Seq<char>) -> bool;

/// What `serde_json::to_string_pretty` writes for the JSON value that a text
/// reads as.
pub uninterp spec fn pretty_text_of(s: Seq<char>) -> Seq<char>;

/// What colored_json writes for the JSON value that a text reads as, with
/// colour on (`ColorMode::On`): the indented text with terminal highlighting.
pub uninterp spec fn colored_text_of(s: Seq<char>) -> Seq<char>;

/// The text shown for a value `v` without colour: indented where it reads as
/// JSON, else unchanged.
pub open spec fn plain_value_text(v: Seq<char>) -> Seq<char> {
    if is_json_text(v) {
        pretty_text_of(v)
    } else {
        v
    }
}

/// Relies on `serde_json::from_str::<Value>` followed by
/// `serde_json::to_string_pretty`: reading fails exactly where the text is no
/// JSON (an empty text among them), and writing a parsed `Value` into memory
/// cannot fail, since its map keys are strings; the indented text depends on
/// the text alone.
#[verifier::external_body]
fn pretty_json(s: &str) -> (r: Result<String, serde_json::Error>)
    ensures
        r is Ok <==> is_json_text(s@),
        s@.len() == 0 ==> r is Err,
        r matches Ok(t) ==> t@ == pretty_text_of(s@),
{
    match serde_json::from_str::<serde_json::Value>(s) {
        Ok(v) => serde_json::to_string_pretty(&v),
        Err(e) => Err(e),
    }
}

/// Relies on `serde_json::from_str::<Value>` followed by
/// `colored_json::to_colored_json_auto`: reading fails exactly where the text
/// is no JSON (an empty text among them), and writing a parsed `Value` into
/// memory cannot fail. Where standard output is no terminal or `NO_COLOR` is
/// set, it writes with serde_json's pretty formatter, as `to_string_pretty`
/// does; else it writes the highlighted form.
#[verifier::external_body]
fn colored_json(s: &str) -> (r: Result<String, serde_json::Error>)
    ensures
        r is Ok <==> is_json_text(s@),
        s@.len() == 0 ==> r is Err,
        r matches Ok(t) ==> (t@ == pretty_text_of(s@) || t@ == colored_text_of(s@)),
{
    match serde_json::from_str::<serde_json::Value>(s) {
        Ok(v) => colored_json::to_colored_json_auto(&v),
        Err(e) => Err(e),
    }
}

/// The text shown for a secret whose value is `raw`: where the value was read
/// as JSON, `rendering` holds what rendering it gave; where it was not,
/// `rendering` is `None` and the value is shown unchanged.
pub fn value_text(raw: String, rendering: Option<Result<String, serde_json::Error>>) -> (r: Result<
    String,
    AsmError,
>)
    ensures
        rendering is None ==> r == Ok::<String, AsmError>(raw),
        rendering matches Some(Ok(t)) ==> r == Ok::<String, AsmError>(t),
        rendering matches Some(Err(_)) ==> r matches Err(AsmError::Json { .. }),
{
    match rendering {
        None => Ok(raw),
        Some(Ok(t)) => Ok(t),
        Some(Err(e)) => Err(AsmError::Json { source: e }),
    }
}

/// The value of `secret` for display. A value that reads as JSON is shown
/// indented, highlighted for the terminal when `colored` is set; any other
/// value is shown exactly as stored, an absent one as an empty text.
pub fn get_secret_value(secret: &Secret, colored: bool) -> (r: Result<String, AsmError>)
    ensures
        r is Ok,
        secret.value is None ==> (r matches Ok(t) && t@.len() == 0),
        !is_json_text(text_or_empty(secret.value)) ==> (r matches Ok(t) && t@ == text_or_empty(
            secret.value,
        )),
        !colored ==> (r matches Ok(t) && t@ == plain_value_text(text_or_empty(secret.value))),
        colored && is_json_text(text_or_empty(secret.value)) ==> (r matches Ok(t) && (t@
            == pretty_text_of(text_or_empty(secret.value)) || t@ == colored_text_of(
            text_or_empty(secret.value),
        ))),
{
    let raw = string_or_empty(&secret.value);
    let rendered = if colored {
        colored_json(raw.as_str())
    } else {
        pretty_json(raw.as_str())
    };
    let rendering = match rendered {
        Ok(t) => Some(Ok(t)),
        Err(_) => None,
    };
    value_text(raw, rendering)
}

/// The display of a described secret: the describe command's answer
/// `output`, read as JSON and written indented, highlighted for the
/// terminal. An answer that does not read as JSON fails with
/// [`AsmError::Json`].
pub fn describe_secret(output: &str) -> (r: Result<String, AsmError>)
    ensures
        is_json_text(output@) <==> r is Ok,
        r matches Ok(t) ==> (t@ == pretty_text_of(output@) || t@ == colored_text_of(output@)),
        r matches Err(e) ==> e is Json,
{
    match colored_json(output) {
        Ok(t) => Ok(t),
        Err(e) => Err(AsmError::Json { source: e }),
    }
}

} // verus!
