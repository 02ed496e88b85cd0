//! Choosing between a JSON and an HTML reply.
//!
//! JSON is chosen when the server permits it and the request asks for it,
//! through the `json` query parameter or through an `Accept` header that
//! mentions `application/json`.

use crate::text::{contains_text, has_substring, lemma_substring_of_concat, text_of};
use vstd::prelude::*;

verus! {

/// Settings fixed at startup and shared, read-only, by every request.
#[derive(Clone, Copy, Debug, PartialEq, Eq)]
pub struct ServerConfig {
    /// Whether a JSON reply is permitted at all.
    pub allow_json: bool,
}

/// What one request contributes to the choice of format.
#[derive(Debug, PartialEq, Eq)]
pub struct NegotiationInput {
    /// Whether the query string carries a `json` parameter, whatever its value.
    pub query_json_flag_present: bool,
    /// The value of the `Accept` header, if the request has one.
    pub accept_header_value: Option<String>,
}

/// The media type that an `Accept` header has to mention.
pub open spec fn json_media_type() -> Seq<char> {
    "application/json"@
}

/// An `Accept` header asks for JSON when it is present and holds the media
/// type somewhere in its text. The header is not parsed: the match is on
/// characters, and upper and lower case differ.
pub open spec fn accept_indicates_json(accept: Option<Seq<char>>) -> bool {
    match accept {
        Some(value) => has_substring(value, json_media_type()),
        None => false,
    }
}

/// The format decision: JSON if and only if the server permits it and the
/// request asks for it by query flag or by header.
pub open spec fn use_json(allow_json: bool, query_flag: bool, accept: Option<Seq<char>>) -> bool {
    allow_json && (query_flag || accept_indicates_json(accept))
}

impl NegotiationInput {
    /// The `Accept` header's text, if there is one.
    pub open spec fn accept(&self) -> Option<Seq<char>> {
        match self.accept_header_value {
            Some(v) => Some(v@),
            None => None,
        }
    }
}

/// Tests whether an `Accept` header asks for JSON.
pub fn accepts_json(accept_header_value: Option<&str>) -> (json: bool)
    ensures
        json == accept_indicates_json(text_of(accept_header_value)),
{
    match accept_header_value {
        Some(value) => contains_text(value, "application/json"),
        None => false,
    }
}

/// Decides whether the reply is JSON (`true`) or HTML (`false`).
pub fn decide(
    allow_json: bool,
    query_json_flag_present: bool,
    accept_header_value: Option<&str>,
) -> (json: bool)
    ensures
        json == use_json(allow_json, query_json_flag_present, text_of(accept_header_value)),
{
    allow_json && (query_json_flag_present || accepts_json(accept_header_value))
}

/// Decides the format for one request under the server's configuration.
pub fn negotiate(config: &ServerConfig, input: &NegotiationInput) -> (json: bool)
    ensures
        json == use_json(config.allow_json, input.query_json_flag_present, input.accept()),
{
    match &input.accept_header_value {
        Some(value) => decide(
            config.allow_json,
            input.query_json_flag_present,
            Some(value.as_str()),
        ),
        None => decide(config.allow_json, input.query_json_flag_present, None),
    }
}

/// The configuration overrides the request: where JSON is not permitted, no
/// query flag and no header selects it.
pub proof fn lemma_config_overrides_request(query_flag: bool, accept: Option<Seq<char>>)
    ensures
        !use_json(false, query_flag, accept),
{
}

/// Where JSON is permitted, the query flag selects it whatever the header
/// says, and also without a header.
pub proof fn lemma_query_flag_forces_json(accept: Option<Seq<char>>)
    ensures
        use_json(true, true, accept),
{
}

/// Where JSON is permitted and the query flag is absent, the header alone
/// decides.
pub proof fn lemma_header_decides_without_flag(accept: Option<Seq<char>>)
    ensures
        use_json(true, false, accept) == accept_indicates_json(accept),
{
}

/// The media type counts wherever it stands in the header, whatever text
/// comes before or after it.
pub proof fn lemma_media_type_anywhere(before: Seq<char>, after: Seq<char>)
    ensures
        accept_indicates_json(Some(before + json_media_type() + after)),
        use_json(true, false, Some(before + json_media_type() + after)),
{
    lemma_substring_of_concat(before, json_media_type(), after);
}

} // verus!
