//! The HTML page: escaping, and the fixed frame around the escaped texts.
//!
//! The page reads: the document type; a head with two `meta` elements and a
//! title; a heading with the greeting, ` from ` and the host name; a paragraph
//! with `Your User agent is: ` and the user agent; and then either a rule,
//! where there is nothing to echo, or the echoed value in a preformatted
//! block. Greeting, host name, user agent and echoed value go in escaped.

use crate::json::{json_pretty, model_of, JsonModel, JsonValue};
use crate::text::{has_substring, lemma_substring_of_concat, occurs_at, text_of};
use vstd::prelude::*;
use vstd::string::StringExecFns;

verus! {

/// What one character becomes in HTML text: the four characters that markup
/// gives a meaning to turn into entities, all others stay.
pub open spec fn escaped_char(c: char) -> Seq<char> {
    if c == '&' {
        seq!['&', 'a', 'm', 'p', ';']
    } else if c == '<' {
        seq!['&', 'l', 't', ';']
    } else if c == '>' {
        seq!['&', 'g', 't', ';']
    } else if c == '"' {
        seq!['&', 'q', 'u', 'o', 't', ';']
    } else {
        seq![c]
    }
}

/// A text with each character escaped for HTML, in order.
pub open spec fn html_escaped(text: Seq<char>) -> Seq<char>
    decreases text.len(),
{
    if text.len() == 0 {
        Seq::empty()
    } else {
        html_escaped(text.drop_last()) + escaped_char(text.last())
    }
}

/// The greeting of a page or reply: the one given, else `Hello world`.
pub open spec fn greeting_or_default(greeting: Option<Seq<char>>) -> Seq<char> {
    match greeting {
        Some(g) => g,
        None => "Hello world"@,
    }
}

/// The document type declaration.
pub open spec fn doctype() -> Seq<char> {
    "<!DOCTYPE html>"@
}

/// The page from the head up to the greeting.
pub open spec fn page_head() -> Seq<char> {
    "<head><meta charset=\"utf-8\"><meta name=\"viewport\" content=\"width=device-width, initial-scale=1\"><title>Hello world!</title></head><body><h1>"@
}

/// The end of the page: a rule where nothing is echoed, else the echoed text,
/// escaped, in a preformatted block.
pub open spec fn echo_block(echo_text: Option<Seq<char>>) -> Seq<char> {
    match echo_text {
        Some(text) => "<pre>"@ + html_escaped(text) + "</pre>"@,
        None => "<hr>"@,
    }
}

/// The whole page for a greeting, a host name, a user agent and, where a
/// value is echoed, its text.
pub open spec fn html_page(
    greeting: Seq<char>,
    hostname: Seq<char>,
    user_agent: Seq<char>,
    echo_text: Option<Seq<char>>,
) -> Seq<char> {
    doctype() + page_head() + html_escaped(greeting) + " from "@ + html_escaped(hostname)
        + "</h1><p>Your User agent is: "@ + html_escaped(user_agent) + "</p>"@ + echo_block(
        echo_text,
    ) + "</body>"@
}

/// The indented JSON text of the value to echo, if there is one.
pub open spec fn pretty_of(echo: Option<JsonModel>) -> Option<Seq<char>> {
    match echo {
        Some(value) => Some(json_pretty(value)),
        None => None,
    }
}

/// Every `<` in `text` is followed, inside `text`, by two characters other
/// than the pair `first`, `second`: no tag whose name starts with that pair
/// opens in `text`, and none can open across its end.
pub open spec fn opens_no_tag(text: Seq<char>, first: char, second: char) -> bool {
    forall|k: int|
        0 <= k < text.len() && #[trigger] text[k] == '<' ==> k + 2 < text.len() && !(text[k + 1]
            == first && text[k + 2] == second)
}

/// `maud`'s `Render::render_to` for `str`, which appends the text with `&`,
/// `<`, `>` and `"` replaced by their entities and every other character
/// unchanged.
#[verifier::external_body]
pub(crate) fn append_escaped(page: &mut String, text: &str)
    ensures
        final(page)@ == old(page)@ + html_escaped(text@),
{
    maud::Render::render_to(text, page)
}

/// `maud`'s `Render::render_to` for its constant `DOCTYPE`, which appends the
/// literal `<!DOCTYPE html>`.
#[verifier::external_body]
pub(crate) fn append_doctype(page: &mut String)
    ensures
        final(page)@ == old(page)@ + doctype(),
{
    maud::Render::render_to(&maud::DOCTYPE, page)
}

/// The characters that can start or end markup: escaped text holds none.
pub open spec fn is_markup_char(c: char) -> bool {
    c == '<' || c == '>' || c == '"'
}

/// Escaped text holds no `<`, no `>` and no `"`, whatever the text was.
pub proof fn lemma_escaped_has_no_markup(text: Seq<char>)
    ensures
        forall|k: int|
            0 <= k < html_escaped(text).len() ==> !is_markup_char(#[trigger] html_escaped(text)[k]),
    decreases text.len(),
{
    if text.len() > 0 {
        let front = html_escaped(text.drop_last());
        let back = escaped_char(text.last());
        lemma_escaped_has_no_markup(text.drop_last());
        assert forall|k: int| 0 <= k < html_escaped(text).len() implies !is_markup_char(
            #[trigger] html_escaped(text)[k],
        ) by {
            if k >= front.len() {
                assert(html_escaped(text)[k] == back[k - front.len()]);
            }
        }
    }
}

/// Text without `&`, `<`, `>` and `"` is shown as it is.
pub proof fn lemma_plain_text_is_kept(text: Seq<char>)
    requires
        forall|k: int| 0 <= k < text.len() ==> text[k] != '&' && !is_markup_char(#[trigger] text[k]),
    ensures
        html_escaped(text) == text,
    decreases text.len(),
{
    if text.len() > 0 {
        lemma_plain_text_is_kept(text.drop_last());
        assert(!is_markup_char(text[text.len() - 1]));
        assert(html_escaped(text) =~= text.drop_last() + seq![text.last()]);
        assert(text.drop_last() + seq![text.last()] =~= text);
    } else {
        assert(html_escaped(text) =~= text);
    }
}

/// Escaped text opens no tag at all.
pub proof fn lemma_escaped_opens_no_tag(text: Seq<char>, first: char, second: char)
    ensures
        opens_no_tag(html_escaped(text), first, second),
{
    lemma_escaped_has_no_markup(text);
    assert forall|k: int|
        0 <= k < html_escaped(text).len() implies #[trigger] html_escaped(text)[k] != '<' by {
        assert(!is_markup_char(html_escaped(text)[k]));
    }
}

/// Two texts that open no such tag open none when joined.
pub proof fn lemma_joined_opens_no_tag(a: Seq<char>, b: Seq<char>, first: char, second: char)
    requires
        opens_no_tag(a, first, second),
        opens_no_tag(b, first, second),
    ensures
        opens_no_tag(a + b, first, second),
{
    let joined = a + b;
    assert forall|k: int| 0 <= k < joined.len() && #[trigger] joined[k] == '<' implies k + 2
        < joined.len() && !(joined[k + 1] == first && joined[k + 2] == second) by {
        if k < a.len() {
            assert(a[k] == '<');
        } else {
            assert(b[k - a.len()] == '<');
        }
    }
}

/// A text holds no tag that it does not open: where no `<` is followed by
/// the first two characters of the tag's name, the tag stands nowhere.
pub proof fn lemma_holds_no_tag(text: Seq<char>, tag: Seq<char>)
    requires
        tag.len() >= 3,
        tag[0] == '<',
        opens_no_tag(text, tag[1], tag[2]),
    ensures
        !has_substring(text, tag),
{
    assert forall|at: int| !occurs_at(text, tag, at) by {
        if occurs_at(text, tag, at) {
            let part = text.subrange(at, at + tag.len());
            assert(part[0] == tag[0] && part[1] == tag[1] && part[2] == tag[2]);
            assert(text[at] == '<');
        }
    }
}

/// The page up to the place of the echo opens neither `<pre>` nor `<hr>`.
proof fn lemma_page_top_opens_neither(
    greeting: Seq<char>,
    hostname: Seq<char>,
    user_agent: Seq<char>,
    first: char,
)
    requires
        first == 'p' || first == 'h',
    ensures
        opens_no_tag(
            doctype() + page_head() + html_escaped(greeting) + " from "@ + html_escaped(hostname)
                + "</h1><p>Your User agent is: "@ + html_escaped(user_agent) + "</p>"@,
            first,
            'r',
        ),
{
    reveal_strlit("<!DOCTYPE html>");
    reveal_strlit(
        "<head><meta charset=\"utf-8\"><meta name=\"viewport\" content=\"width=device-width, initial-scale=1\"><title>Hello world!</title></head><body><h1>",
    );
    reveal_strlit(" from ");
    reveal_strlit("</h1><p>Your User agent is: ");
    reveal_strlit("</p>");
    lemma_escaped_opens_no_tag(greeting, first, 'r');
    lemma_escaped_opens_no_tag(hostname, first, 'r');
    lemma_escaped_opens_no_tag(user_agent, first, 'r');
    let t1 = doctype() + page_head();
    lemma_joined_opens_no_tag(doctype(), page_head(), first, 'r');
    let t2 = t1 + html_escaped(greeting);
    lemma_joined_opens_no_tag(t1, html_escaped(greeting), first, 'r');
    let t3 = t2 + " from "@;
    lemma_joined_opens_no_tag(t2, " from "@, first, 'r');
    let t4 = t3 + html_escaped(hostname);
    lemma_joined_opens_no_tag(t3, html_escaped(hostname), first, 'r');
    let t5 = t4 + "</h1><p>Your User agent is: "@;
    lemma_joined_opens_no_tag(t4, "</h1><p>Your User agent is: "@, first, 'r');
    let t6 = t5 + html_escaped(user_agent);
    lemma_joined_opens_no_tag(t5, html_escaped(user_agent), first, 'r');
    lemma_joined_opens_no_tag(t6, "</p>"@, first, 'r');
}

/// A page holds a preformatted block if and only if a value is echoed, and
/// a rule if and only if none is.
pub proof fn lemma_pre_block_iff_echo(
    greeting: Seq<char>,
    hostname: Seq<char>,
    user_agent: Seq<char>,
    echo_text: Option<Seq<char>>,
)
    ensures
        has_substring(html_page(greeting, hostname, user_agent, echo_text), "<pre>"@)
            <==> echo_text is Some,
        has_substring(html_page(greeting, hostname, user_agent, echo_text), "<hr>"@)
            <==> echo_text is None,
{
    let top = doctype() + page_head() + html_escaped(greeting) + " from "@ + html_escaped(hostname)
        + "</h1><p>Your User agent is: "@ + html_escaped(user_agent) + "</p>"@;
    let page = html_page(greeting, hostname, user_agent, echo_text);
    reveal_strlit("<pre>");
    reveal_strlit("</pre>");
    reveal_strlit("<hr>");
    reveal_strlit("</body>");
    match echo_text {
        Some(text) => {
            let block = "<pre>"@ + html_escaped(text) + "</pre>"@;
            assert(page =~= top + "<pre>"@ + (html_escaped(text) + "</pre>"@ + "</body>"@));
            lemma_substring_of_concat(top, "<pre>"@, html_escaped(text) + "</pre>"@ + "</body>"@);
            lemma_page_top_opens_neither(greeting, hostname, user_agent, 'h');
            lemma_escaped_opens_no_tag(text, 'h', 'r');
            lemma_joined_opens_no_tag("<pre>"@, html_escaped(text), 'h', 'r');
            lemma_joined_opens_no_tag("<pre>"@ + html_escaped(text), "</pre>"@, 'h', 'r');
            lemma_joined_opens_no_tag(top, block, 'h', 'r');
            lemma_joined_opens_no_tag(top + block, "</body>"@, 'h', 'r');
            lemma_holds_no_tag(page, "<hr>"@);
        },
        None => {
            assert(page =~= top + "<hr>"@ + "</body>"@);
            lemma_substring_of_concat(top, "<hr>"@, "</body>"@);
            lemma_page_top_opens_neither(greeting, hostname, user_agent, 'p');
            lemma_joined_opens_no_tag(top, "<hr>"@, 'p', 'r');
            lemma_joined_opens_no_tag(top + "<hr>"@, "</body>"@, 'p', 'r');
            lemma_holds_no_tag(page, "<pre>"@);
        },
    }
}

/// Builds the page from its four texts. `echo_text` is the text to show in the
/// preformatted block; without it the page ends in a rule.
pub fn html_document(
    greeting: &str,
    hostname: &str,
    user_agent: &str,
    echo_text: Option<&str>,
) -> (page: String)
    ensures
        page@ == html_page(greeting@, hostname@, user_agent@, text_of(echo_text)),
        has_substring(page@, "<pre>"@) <==> echo_text is Some,
        has_substring(page@, "<hr>"@) <==> echo_text is None,
{
    let mut page = String::new();
    append_doctype(&mut page);
    page.append(
        "<head><meta charset=\"utf-8\"><meta name=\"viewport\" content=\"width=device-width, initial-scale=1\"><title>Hello world!</title></head><body><h1>",
    );
    append_escaped(&mut page, greeting);
    page.append(" from ");
    append_escaped(&mut page, hostname);
    page.append("</h1><p>Your User agent is: ");
    append_escaped(&mut page, user_agent);
    page.append("</p>");
    match echo_text {
        Some(text) => {
            page.append("<pre>");
            append_escaped(&mut page, text);
            page.append("</pre>");
        },
        None => {
            page.append("<hr>");
        },
    }
    page.append("</body>");
    proof {
        lemma_pre_block_iff_echo(greeting@, hostname@, user_agent@, text_of(echo_text));
        assert(page@ =~= html_page(greeting@, hostname@, user_agent@, text_of(echo_text)));
    }
    page
}

/// Renders the page for a host name, a user agent, an optional greeting and
/// an optional value to echo. The greeting defaults to `Hello world`; the
/// value is shown as indented JSON.
pub fn render_markup(
    hostname: &str,
    user_agent: &str,
    hello_str: Option<&str>,
    echo_str: Option<JsonValue>,
) -> (page: String)
    ensures
        page@ == html_page(
            greeting_or_default(text_of(hello_str)),
            hostname@,
            user_agent@,
            pretty_of(model_of(echo_str)),
        ),
        has_substring(page@, "<pre>"@) <==> echo_str is Some,
        has_substring(page@, "<hr>"@) <==> echo_str is None,
{
    let greeting = match hello_str {
        Some(g) => g,
        None => "Hello world",
    };
    match echo_str {
        Some(value) => {
            let text = value.to_pretty();
            html_document(greeting, hostname, user_agent, Some(text.as_str()))
        },
        None => html_document(greeting, hostname, user_agent, None),
    }
}

} // verus!
