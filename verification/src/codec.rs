//! The manifest encoding: an ordered list of relative paths as a JSON
//! array of strings.
//!
//! The encoding itself is done by `serde_json`; this module gives both
//! directions a name. `json_of_paths` is the encoder's output;
//! `parsed_paths` is the decoder's verdict on a text — the list it
//! decodes to, or nothing when the decoder rejects it. The encoder's
//! output always parses back to the encoded list, and the decoder fails
//! exactly on the texts it rejects, never silently.

use vstd::prelude::*;

verus! {

/// The JSON text that encodes `paths` as an array of strings.
pub uninterp spec fn json_of_paths(paths: Seq<Seq<char>>) -> Seq<char>;

/// The list of strings that `text` decodes to as a JSON array, or
/// nothing when the decoder rejects `text`.
pub uninterp spec fn parsed_paths(text: Seq<char>) -> Option<Seq<Seq<char>>>;

/// Relies on `serde_json::to_string`: for a vector of strings it always
/// succeeds (its documentation reserves failure for failing `Serialize`
/// impls and maps with non-string keys, and `Vec<String>` has neither),
/// its result is a function of the vector alone, an empty vector encodes
/// as the empty array, and `serde_json::from_str` parses the result back
/// to the encoded vector.
#[verifier::external_body]
pub fn encode_script_paths(paths: &Vec<String>) -> (r: String)
    ensures
        r@ == json_of_paths(paths.deep_view()),
        parsed_paths(r@) == Some(paths.deep_view()),
        paths.deep_view().len() == 0 ==> r@ == "[]"@,
{
    serde_json::to_string(paths).expect("failed to serialize global API script paths")
}

/// Relies on `serde_json::from_str`: parsing is a function of the text
/// alone, it returns a value exactly when it accepts the text (and an
/// error, never a panic, otherwise), and it inverts
/// `serde_json::to_string` on `Vec<String>` — every text the encoder
/// emits is accepted and parses back to the encoded value.
#[verifier::external_body]
pub fn decode_script_paths(text: &str) -> (r: Result<Vec<String>, String>)
    ensures
        r is Ok <==> parsed_paths(text@) is Some,
        r matches Ok(paths) ==> Some(paths.deep_view()) == parsed_paths(text@),
        forall|paths: Seq<Seq<char>>| text@ == #[trigger] json_of_paths(paths) ==> r is Ok
            && r->Ok_0.deep_view() == paths,
{
    match serde_json::from_str::<Vec<String>>(text) {
        Ok(paths) => Ok(paths),
        Err(e) => Err(e.to_string()),
    }
}

} // verus!
