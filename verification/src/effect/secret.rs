//! Secrets kept in AWS Secrets Manager.

use vstd::prelude::*;

verus! {

/// Names the error type of the secrets effect.
pub trait SecretsTypes {
    type Error;
}

/// Marks a runtime whose secrets come from AWS Secrets Manager.
pub trait InAWS {}

/// Says which secret of AWS Secrets Manager a runtime reads.
pub trait SecretsAWSConfig {
    fn id(&self) -> String;
}

/// The string that `raw` denotes when `raw` is the JSON text of a string
/// (as `serde_json` reads it into a `String`), and nothing otherwise.
pub uninterp spec fn json_text(raw: Seq<char>) -> Option<Seq<char>>;

/// `serde_json::from_str::<String>`, which reads `raw` as the JSON text of a
/// string and fails on anything else. The contract claims only that the
/// result is what `json_text` names for `raw`.
#[verifier::external_body]
fn parse_json_text(raw: &str) -> (r: Option<String>)
    ensures
        r is None <==> json_text(raw@) is None,
        r matches Some(t) ==> t@ == json_text(raw@)->0,
{
    serde_json::from_str::<String>(raw).ok()
}

/// The deploy key that a secret's text `raw` holds: the string it denotes
/// when it is stored as a JSON string, else the text itself.
pub fn deploy_key_text(raw: &str) -> (key: String)
    ensures
        key@ == match json_text(raw@) {
            Some(t) => t,
            None => raw@,
        },
{
    match parse_json_text(raw) {
        Some(t) => t,
        None => raw.to_owned(),
    }
}

} // verus!
