//! The page behind `GET /echo`: a form that sends a JSON payload to
//! `POST /echo` and shows what comes back.

use crate::markup::{append_doctype, append_escaped, doctype, html_escaped};
use crate::response::{ContentType, Response, ResponseModel, STATUS_OK};
use vstd::prelude::*;
use vstd::string::StringExecFns;

verus! {

/// The page from the head up to the text area.
pub open spec fn form_top() -> Seq<char> {
    "<head><meta charset=\"utf-8\"><meta name=\"viewport\" content=\"width=device-width, initial-scale=1\"><title>Echo Form</title><style>body{font-family:system-ui,-apple-system,Segoe UI,Roboto,Helvetica,Arial,sans-serif;padding:2rem;} textarea{width:100%;max-width:640px;} pre{background:#f6f8fa;padding:1rem;border-radius:6px;overflow:auto;} label{display:block;margin-bottom:0.5rem;font-weight:600;} button{margin-top:0.75rem;padding:0.5rem 1rem;border:1px solid #ccc;border-radius:6px;background:#fff;cursor:pointer;} button:hover{background:#f3f4f6;}</style></head><body><h1>Echo</h1><p>Submit a JSON payload to the POST /echo endpoint.</p><form id=\"echo-form\"><label for=\"payload\">JSON payload</label><textarea id=\"payload\" name=\"payload\" rows=\"8\">"@
}

/// The payload that the text area starts with.
pub open spec fn form_sample() -> Seq<char> {
    "{\n  \"message\": \"Hello from form\"\n}"@
}

/// The page from the end of the text area up to the script.
pub open spec fn form_middle() -> Seq<char> {
    "</textarea><button type=\"submit\">Send</button></form><h2>Response</h2><pre id=\"result\"></pre><script>"@
}

/// The script that sends the payload and shows the reply. It stands in the
/// page as it is, unescaped.
pub open spec fn form_script() -> Seq<char> {
    "(function(){\n  const form = document.getElementById('echo-form');\n  const out = document.getElementById('result');\n  form.addEventListener('submit', async (e) => {\n    e.preventDefault();\n    const text = document.getElementById('payload').value;\n    let body = text;\n    try { JSON.parse(text); } catch(_) { body = JSON.stringify({ message: text }); }\n    try {\n      const res = await fetch('/echo', {\n        method: 'POST',\n        headers: { 'Content-Type': 'application/json', 'Accept': 'application/json' },\n        body: body\n      });\n      const txt = await res.text();\n      out.textContent = txt;\n    } catch (err) {\n      out.textContent = (err && err.message) ? err.message : 'Request failed';\n    }\n  });\n})();"@
}

/// The whole page. The sample payload is text of the page and so escaped; the
/// script is not.
pub open spec fn form_page() -> Seq<char> {
    doctype() + form_top() + html_escaped(form_sample()) + form_middle() + form_script()
        + "</script></body>"@
}

/// Builds the page of the echo form.
pub fn echo_form_page() -> (page: String)
    ensures
        page@ == form_page(),
{
    let mut page = String::new();
    append_doctype(&mut page);
    page.append(
        "<head><meta charset=\"utf-8\"><meta name=\"viewport\" content=\"width=device-width, initial-scale=1\"><title>Echo Form</title><style>body{font-family:system-ui,-apple-system,Segoe UI,Roboto,Helvetica,Arial,sans-serif;padding:2rem;} textarea{width:100%;max-width:640px;} pre{background:#f6f8fa;padding:1rem;border-radius:6px;overflow:auto;} label{display:block;margin-bottom:0.5rem;font-weight:600;} button{margin-top:0.75rem;padding:0.5rem 1rem;border:1px solid #ccc;border-radius:6px;background:#fff;cursor:pointer;} button:hover{background:#f3f4f6;}</style></head><body><h1>Echo</h1><p>Submit a JSON payload to the POST /echo endpoint.</p><form id=\"echo-form\"><label for=\"payload\">JSON payload</label><textarea id=\"payload\" name=\"payload\" rows=\"8\">",
    );
    append_escaped(&mut page, "{\n  \"message\": \"Hello from form\"\n}");
    page.append(
        "</textarea><button type=\"submit\">Send</button></form><h2>Response</h2><pre id=\"result\"></pre><script>",
    );
    page.append(
        "(function(){\n  const form = document.getElementById('echo-form');\n  const out = document.getElementById('result');\n  form.addEventListener('submit', async (e) => {\n    e.preventDefault();\n    const text = document.getElementById('payload').value;\n    let body = text;\n    try { JSON.parse(text); } catch(_) { body = JSON.stringify({ message: text }); }\n    try {\n      const res = await fetch('/echo', {\n        method: 'POST',\n        headers: { 'Content-Type': 'application/json', 'Accept': 'application/json' },\n        body: body\n      });\n      const txt = await res.text();\n      out.textContent = txt;\n    } catch (err) {\n      out.textContent = (err && err.message) ? err.message : 'Request failed';\n    }\n  });\n})();",
    );
    page.append("</script></body>");
    page
}

/// `GET /echo`: the form, always as HTML.
pub fn echo_form() -> (out: Response)
    ensures
        out@ == (ResponseModel {
            status: STATUS_OK,
            content_type: Some(ContentType::Html),
            body: form_page(),
        }),
{
    Response { status: STATUS_OK, content_type: Some(ContentType::Html), body: echo_form_page() }
}

} // verus!
