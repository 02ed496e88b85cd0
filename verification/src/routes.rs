//! The service's routes, on plain values: what a request brought in, and the
//! reply that goes out.
//!
//! A handler is given the server's configuration, what the request says about
//! the format it wants, the user agent if the request names one, and the
//! machine's host name. It decides the format, picks the greeting of its
//! route and renders the reply.

use crate::error::WesterError;
use crate::json::{json_parsed, model_of, parse_json, JsonModel, JsonValue};
use crate::negotiation::{negotiate, use_json, NegotiationInput, ServerConfig};
use crate::render::{
    html_body, json_body, render, rendered_body, rendered_type, user_agent_or_unknown,
    PayloadModel, RenderPayload,
};
use crate::response::{ContentType, Response, ResponseModel, STATUS_OK};
use crate::text::text_of;
use vstd::prelude::*;

verus! {

/// The reply that carries a rendered payload: status 200, with the body and
/// the content type of the format chosen.
pub open spec fn reply(use_json: bool, payload: PayloadModel) -> ResponseModel {
    ResponseModel {
        status: STATUS_OK,
        content_type: Some(rendered_type(use_json)),
        body: rendered_body(use_json, payload),
    }
}

/// The payload of a route: host name, the user agent or `Unknown`, the
/// route's greeting and what it echoes.
pub open spec fn route_payload(
    hostname: Seq<char>,
    user_agent: Option<Seq<char>>,
    greeting: Option<Seq<char>>,
    echo: Option<JsonModel>,
) -> PayloadModel {
    PayloadModel { hostname, user_agent: user_agent_or_unknown(user_agent), greeting, echo }
}

/// Renders a reply in the format given.
pub fn prepare_response(
    json: bool,
    hostname: &str,
    user_agent: &str,
    hello_str: Option<&str>,
    echo_str: Option<JsonValue>,
) -> (out: Response)
    ensures
        out@ == reply(
            json,
            (PayloadModel {
                hostname: hostname@,
                user_agent: user_agent@,
                greeting: text_of(hello_str),
                echo: model_of(echo_str),
            }),
        ),
{
    let payload = RenderPayload::new(hostname, Some(user_agent), hello_str, echo_str);
    let (body, content_type) = render(json, &payload);
    Response { status: STATUS_OK, content_type: Some(content_type), body }
}

/// Decides the format for a request and renders its reply.
fn respond(
    config: &ServerConfig,
    input: &NegotiationInput,
    user_agent: Option<&str>,
    hostname: &str,
    greeting: Option<&str>,
    echo: Option<JsonValue>,
) -> (out: Response)
    ensures
        out@ == reply(
            use_json(config.allow_json, input.query_json_flag_present, input.accept()),
            route_payload(hostname@, text_of(user_agent), text_of(greeting), model_of(echo)),
        ),
{
    let json = negotiate(config, input);
    let agent = match user_agent {
        Some(agent) => agent,
        None => "Unknown",
    };
    prepare_response(json, hostname, agent, greeting, echo)
}

/// `GET /`: the default greeting, nothing echoed.
pub fn hello(
    config: &ServerConfig,
    input: &NegotiationInput,
    user_agent: Option<&str>,
    hostname: &str,
) -> (out: Response)
    ensures
        out@ == reply(
            use_json(config.allow_json, input.query_json_flag_present, input.accept()),
            route_payload(hostname@, text_of(user_agent), None, None),
        ),
{
    respond(config, input, user_agent, hostname, None, None)
}

/// `GET /hey`: the greeting `Hey there!`, nothing echoed.
pub fn manual_hello(
    config: &ServerConfig,
    input: &NegotiationInput,
    user_agent: Option<&str>,
    hostname: &str,
) -> (out: Response)
    ensures
        out@ == reply(
            use_json(config.allow_json, input.query_json_flag_present, input.accept()),
            route_payload(hostname@, text_of(user_agent), Some("Hey there!"@), None),
        ),
{
    respond(config, input, user_agent, hostname, Some("Hey there!"), None)
}

/// `POST /echo`, once the request body is parsed: the default greeting, with
/// the value echoed.
pub fn echo_value(
    config: &ServerConfig,
    input: &NegotiationInput,
    user_agent: Option<&str>,
    hostname: &str,
    value: JsonValue,
) -> (out: Response)
    ensures
        out@ == reply(
            use_json(config.allow_json, input.query_json_flag_present, input.accept()),
            route_payload(hostname@, text_of(user_agent), None, Some(value@)),
        ),
{
    respond(config, input, user_agent, hostname, None, Some(value))
}

/// `POST /echo`: parses the request body and echoes it. A body that is not
/// valid JSON is refused before anything is rendered, with the parser's
/// message in the error.
pub fn echo(
    config: &ServerConfig,
    input: &NegotiationInput,
    user_agent: Option<&str>,
    hostname: &str,
    body: &[u8],
) -> (out: Result<Response, WesterError>)
    ensures
        match json_parsed(body@) {
            Some(value) => out matches Ok(response) && response@ == reply(
                use_json(config.allow_json, input.query_json_flag_present, input.accept()),
                route_payload(hostname@, text_of(user_agent), None, Some(value)),
            ),
            None => out matches Err(WesterError::SerdeJson(_)),
        },
{
    match parse_json(body) {
        Ok(value) => Ok(echo_value(config, input, user_agent, hostname, value)),
        Err(error) => Err(error),
    }
}

/// Where JSON is not permitted, a reply is the HTML page whatever the request
/// asked for; where it is permitted and the query flag is set, a reply is the
/// JSON object whatever the header says.
pub proof fn lemma_reply_format(
    query_flag: bool,
    accept: Option<Seq<char>>,
    payload: PayloadModel,
)
    ensures
        reply(use_json(false, query_flag, accept), payload) == (ResponseModel {
            status: STATUS_OK,
            content_type: Some(ContentType::Html),
            body: html_body(payload),
        }),
        reply(use_json(true, true, accept), payload) == (ResponseModel {
            status: STATUS_OK,
            content_type: Some(ContentType::Json),
            body: json_body(payload),
        }),
{
}

} // verus!
