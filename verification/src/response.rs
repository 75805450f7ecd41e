//! Classification of an analyzer endpoint's reply into the evaluation
//! labels: 0 for a failed analysis, 1 for genuine, 2 for generated.

use crate::text::{contains_seq, contains_str};
use vstd::prelude::*;

verus! {

broadcast use vstd::string::group_string_axioms;

#[verifier::external_type_specification]
#[verifier::external_body]
pub struct ExValue(serde_json::Value);

/// Relies on serde_json::from_str: parses text into a JSON value, `None`
/// when the text is not valid JSON.
#[verifier::external_body]
fn parse_json(s: &str) -> Option<serde_json::Value> {
    serde_json::from_str(s).ok()
}

/// Relies on serde_json's `Index<&str>` for `Value`: member lookup in a JSON
/// object, `Null` when the value is no object or lacks the member.
#[verifier::external_body]
fn json_member<'a>(v: &'a serde_json::Value, key: &str) -> &'a serde_json::Value {
    &v[key]
}

/// Relies on `ToString` through serde_json `Value`'s `Display`: renders the
/// value as JSON text.
#[verifier::external_body]
fn json_to_text(v: &serde_json::Value) -> String {
    v.to_string()
}

/// The label a verdict text classifies to: 1 (genuine) when it holds
/// "Authentic", 2 (generated) otherwise. Never 0: only a failed analysis
/// gets that label.
pub fn label_of_verdict(verdict: &str) -> (r: u8)
    ensures
        r == if contains_seq(verdict@, "Authentic"@) {
            1u8
        } else {
            2u8
        },
{
    if contains_str(verdict, "Authentic") {
        1
    } else {
        2
    }
}

/// Classify an upload endpoint's response body. A body announcing a failed
/// analysis is label 0. Any other body is read as JSON and its stringified
/// `analysis.verdict` member decides through [`label_of_verdict`]; a body
/// that is not valid JSON carries no genuine verdict and classifies as 2.
pub fn get_verdict(body: &str) -> (r: u8)
    ensures
        contains_seq(body@, "Analysis Failed"@) ==> r == 0,
        !contains_seq(body@, "Analysis Failed"@) ==> r == 1 || r == 2,
{
    if contains_str(body, "Analysis Failed") {
        return 0;
    }
    match parse_json(body) {
        Some(json) => {
            let verdict = json_to_text(json_member(json_member(&json, "analysis"), "verdict"));
            label_of_verdict(verdict.as_str())
        },
        None => 2,
    }
}

/// The MIME type an upload step accepts for a file-name suffix: only PNG and
/// JPEG images may be uploaded.
pub fn mime_for_extension(ext: &str) -> (r: Option<&'static str>)
    ensures
        ext@ == "png"@ ==> (r matches Some(m) && m@ == "image/png"@),
        ext@ == "jpg"@ || ext@ == "jpeg"@ ==> (r matches Some(m) && m@ == "image/jpeg"@),
        ext@ != "png"@ && ext@ != "jpg"@ && ext@ != "jpeg"@ ==> r is None,
{
    proof {
        reveal_strlit("png");
        reveal_strlit("jpg");
        reveal_strlit("jpeg");
        assert("png"@[0] == 'p');
        assert("jpg"@[0] == 'j');
        assert("png"@.len() == 3);
        assert("jpg"@.len() == 3);
        assert("jpeg"@.len() == 4);
    }
    if crate::text::str_eq(ext, "png") {
        Some("image/png")
    } else if crate::text::str_eq(ext, "jpg") || crate::text::str_eq(ext, "jpeg") {
        Some("image/jpeg")
    } else {
        None
    }
}

} // verus!
