//! Rendering a reply body, as a JSON object or as an HTML page, from one
//! payload.

use crate::json::{json_compact, model_of, JsonModel, JsonValue};
use crate::markup::{
    greeting_or_default, html_document, html_page, lemma_pre_block_iff_echo, pretty_of,
};
use crate::response::ContentType;
use crate::text::{has_substring, occurs_at, text_of};
use vstd::prelude::*;
use vstd::string::StringExecFns;

verus! {

/// What a reply is rendered from.
#[derive(Debug, PartialEq, Eq)]
pub struct RenderPayload {
    /// The machine's host name.
    pub hostname: String,
    /// The caller's user agent, or `Unknown` where the request names none.
    pub user_agent: String,
    /// The greeting; without one the reply greets with `Hello world`.
    pub greeting: Option<String>,
    /// The value to echo, if any.
    pub echo: Option<JsonValue>,
}

/// The mathematical form of a [`RenderPayload`].
pub struct PayloadModel {
    pub hostname: Seq<char>,
    pub user_agent: Seq<char>,
    pub greeting: Option<Seq<char>>,
    pub echo: Option<JsonModel>,
}

impl View for RenderPayload {
    type V = PayloadModel;

    open spec fn view(&self) -> PayloadModel {
        PayloadModel {
            hostname: self.hostname@,
            user_agent: self.user_agent@,
            greeting: match self.greeting {
                Some(g) => Some(g@),
                None => None,
            },
            echo: model_of(self.echo),
        }
    }
}

/// The user agent to report: the one given, else `Unknown`.
pub open spec fn user_agent_or_unknown(user_agent: Option<Seq<char>>) -> Seq<char> {
    match user_agent {
        Some(agent) => agent,
        None => "Unknown"@,
    }
}

/// The value of the member `response`: the echoed value where there is one,
/// else the greeting as a JSON string.
pub open spec fn response_value(payload: PayloadModel) -> JsonModel {
    match payload.echo {
        Some(value) => value,
        None => JsonModel::String(greeting_or_default(payload.greeting)),
    }
}

/// A JSON object with the members `response`, `hostname` and `user_agent`, in
/// this order, around three texts that are JSON already.
pub open spec fn json_object_text(
    response: Seq<char>,
    hostname: Seq<char>,
    user_agent: Seq<char>,
) -> Seq<char> {
    "{\"response\":"@ + response + ",\"hostname\":"@ + hostname + ",\"user_agent\":"@ + user_agent
        + "}"@
}

/// The JSON body for a payload: each member is the compact JSON text of its
/// value.
pub open spec fn json_body(payload: PayloadModel) -> Seq<char> {
    json_object_text(
        json_compact(response_value(payload)),
        json_compact(JsonModel::String(payload.hostname)),
        json_compact(JsonModel::String(payload.user_agent)),
    )
}

/// The HTML body for a payload: the page, with the echoed value as indented
/// JSON.
pub open spec fn html_body(payload: PayloadModel) -> Seq<char> {
    html_page(
        greeting_or_default(payload.greeting),
        payload.hostname,
        payload.user_agent,
        pretty_of(payload.echo),
    )
}

/// The body of the reply in the format chosen.
pub open spec fn rendered_body(use_json: bool, payload: PayloadModel) -> Seq<char> {
    if use_json {
        json_body(payload)
    } else {
        html_body(payload)
    }
}

/// The content type of the reply in the format chosen.
pub open spec fn rendered_type(use_json: bool) -> ContentType {
    if use_json {
        ContentType::Json
    } else {
        ContentType::Html
    }
}

impl RenderPayload {
    /// A payload from what a handler has in hand. A missing user agent is
    /// reported as `Unknown`.
    pub fn new(
        hostname: &str,
        user_agent: Option<&str>,
        greeting: Option<&str>,
        echo: Option<JsonValue>,
    ) -> (payload: RenderPayload)
        ensures
            payload@ == (PayloadModel {
                hostname: hostname@,
                user_agent: user_agent_or_unknown(text_of(user_agent)),
                greeting: text_of(greeting),
                echo: model_of(echo),
            }),
    {
        RenderPayload {
            hostname: hostname.to_owned(),
            user_agent: match user_agent {
                Some(agent) => agent.to_owned(),
                None => "Unknown".to_owned(),
            },
            greeting: match greeting {
                Some(g) => Some(g.to_owned()),
                None => None,
            },
            echo,
        }
    }
}

/// Frames three JSON texts as the reply object.
pub fn json_document(response: &str, hostname: &str, user_agent: &str) -> (body: String)
    ensures
        body@ == json_object_text(response@, hostname@, user_agent@),
{
    let mut body = String::from_str("{\"response\":");
    body.append(response);
    body.append(",\"hostname\":");
    body.append(hostname);
    body.append(",\"user_agent\":");
    body.append(user_agent);
    body.append("}");
    body
}

/// Renders the JSON body for a payload.
pub fn render_json(payload: &RenderPayload) -> (body: String)
    ensures
        body@ == json_body(payload@),
{
    let response = match &payload.echo {
        Some(value) => value.to_compact(),
        None => match &payload.greeting {
            Some(g) => JsonValue::text(g.as_str()).to_compact(),
            None => JsonValue::text("Hello world").to_compact(),
        },
    };
    let hostname = JsonValue::text(payload.hostname.as_str()).to_compact();
    let user_agent = JsonValue::text(payload.user_agent.as_str()).to_compact();
    json_document(response.as_str(), hostname.as_str(), user_agent.as_str())
}

/// Renders the HTML body for a payload.
pub fn render_html(payload: &RenderPayload) -> (body: String)
    ensures
        body@ == html_body(payload@),
        has_substring(body@, "<pre>"@) <==> payload.echo is Some,
        has_substring(body@, "<hr>"@) <==> payload.echo is None,
{
    let greeting = match &payload.greeting {
        Some(g) => g.as_str(),
        None => "Hello world",
    };
    match &payload.echo {
        Some(value) => {
            let text = value.to_pretty();
            html_document(
                greeting,
                payload.hostname.as_str(),
                payload.user_agent.as_str(),
                Some(text.as_str()),
            )
        },
        None => html_document(
            greeting,
            payload.hostname.as_str(),
            payload.user_agent.as_str(),
            None,
        ),
    }
}

/// Renders a payload in the format chosen: the body and its content type.
pub fn render(use_json: bool, payload: &RenderPayload) -> (out: (String, ContentType))
    ensures
        out.0@ == rendered_body(use_json, payload@),
        out.1 == rendered_type(use_json),
{
    if use_json {
        (render_json(payload), ContentType::Json)
    } else {
        (render_html(payload), ContentType::Html)
    }
}

/// In a JSON body the member `response` is the echoed value: its compact text
/// stands right behind the member's key, whatever the other members hold.
pub proof fn lemma_json_response_is_echo(payload: PayloadModel)
    requires
        payload.echo is Some,
    ensures
        occurs_at(rendered_body(true, payload), "{\"response\":"@, 0),
        occurs_at(rendered_body(true, payload), json_compact(payload.echo->0), 12),
{
    reveal_strlit("{\"response\":");
    let body = rendered_body(true, payload);
    let value = json_compact(payload.echo->0);
    assert(body.subrange(0, 12) =~= "{\"response\":"@);
    assert(body.subrange(12, 12 + value.len() as int) =~= value);
}

/// In a JSON body without an echoed value the member `response` is the
/// greeting, as a JSON string.
pub proof fn lemma_json_response_is_greeting(payload: PayloadModel)
    requires
        payload.echo is None,
    ensures
        occurs_at(
            rendered_body(true, payload),
            json_compact(JsonModel::String(greeting_or_default(payload.greeting))),
            12,
        ),
{
    reveal_strlit("{\"response\":");
    let body = rendered_body(true, payload);
    let value = json_compact(JsonModel::String(greeting_or_default(payload.greeting)));
    assert(body.subrange(12, 12 + value.len() as int) =~= value);
}

/// An HTML body holds a preformatted block exactly when a value is echoed,
/// and a rule exactly when none is.
pub proof fn lemma_html_block_iff_echo(payload: PayloadModel)
    ensures
        has_substring(rendered_body(false, payload), "<pre>"@) <==> payload.echo is Some,
        has_substring(rendered_body(false, payload), "<hr>"@) <==> payload.echo is None,
{
    lemma_pre_block_iff_echo(
        greeting_or_default(payload.greeting),
        payload.hostname,
        payload.user_agent,
        pretty_of(payload.echo),
    );
}

} // verus!
