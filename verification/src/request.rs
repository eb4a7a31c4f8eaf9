//! The life of one request: what is sent to the completion service, and
//! what its outcome resolves to.

use crate::json::{parse, parsed, Json, JsonView};
use crate::model::result_view;
use crate::openai::completions::{Response, ResponseView};
use vstd::prelude::*;
use vstd::string::*;
use vstd::utf8::encode_utf8;

verus! {

/// Where completions are asked for.
pub const ENDPOINT: &'static str = "https://api.openai.com/v1/completions";

/// The method of the request.
pub const METHOD: &'static str = "POST";

/// The body of the request up to the prompt: the model and the fixed
/// generation parameters that sort before `prompt`.
pub const BODY_HEAD: &'static str =
    "{\"frequency_penalty\":0.5,\"max_tokens\":512,\"model\":\"text-davinci-003\",\"presence_penalty\":0.25,\"prompt\":";

/// The body of the request after the prompt.
pub const BODY_TAIL: &'static str = ",\"temperature\":0.9,\"top_p\":1}";

/// What every message starts with that reports a failure of this client or
/// a rejection by the service.
pub const FAILURE_PREFIX: &'static str = "ERROR: ";

/// What is reported of a document that describes neither a rejection nor a
/// completion.
pub const NO_MATCH: &'static str = "data did not match any variant of untagged enum Response";

/// A header of a request.
#[derive(Debug, Clone, PartialEq, Eq)]
pub struct Header {
    pub name: String,
    pub value: String,
}

/// A request to the completion service, ready to be sent.
#[derive(Debug, Clone, PartialEq, Eq)]
pub struct Request {
    pub method: String,
    pub url: String,
    pub body: Vec<u8>,
    /// The headers, in the order of their names.
    pub headers: Vec<Header>,
}

/// The mathematical value of a [`Request`].
pub struct RequestView {
    pub method: Seq<char>,
    pub url: Seq<char>,
    pub body: Seq<u8>,
    pub headers: Seq<(Seq<char>, Seq<char>)>,
}

impl View for Header {
    type V = (Seq<char>, Seq<char>);

    open spec fn view(&self) -> (Seq<char>, Seq<char>) {
        (self.name@, self.value@)
    }
}

impl View for Request {
    type V = RequestView;

    open spec fn view(&self) -> RequestView {
        RequestView {
            method: self.method@,
            url: self.url@,
            body: self.body@,
            headers: Seq::new(self.headers@.len(), |i: int| self.headers@[i]@),
        }
    }
}

/// The message that reports the failure `message`.
pub open spec fn failure(message: Seq<char>) -> Seq<char> {
    FAILURE_PREFIX@ + message
}

/// The text of the body around the prompt as a JSON string.
pub open spec fn body_text(quoted_prompt: Seq<char>) -> Seq<char> {
    BODY_HEAD@ + quoted_prompt + BODY_TAIL@
}

/// The headers of a request made with the credential `api_token`.
pub open spec fn headers_for(api_token: Seq<char>) -> Seq<(Seq<char>, Seq<char>)> {
    seq![("Authorization"@, "Bearer "@ + api_token), ("Content-Type"@, "application/json"@)]
}

/// The request for a prompt, given the prompt as a JSON string or the
/// reason why there is none: the request, or the failure to report.
pub open spec fn request_for(
    quoted_prompt: Result<Seq<char>, Seq<char>>,
    api_token: Seq<char>,
) -> Result<RequestView, Seq<char>> {
    match quoted_prompt {
        Ok(quoted_prompt) => Ok(
            RequestView {
                method: METHOD@,
                url: ENDPOINT@,
                body: encode_utf8(body_text(quoted_prompt)),
                headers: headers_for(api_token),
            },
        ),
        Err(message) => Err(failure(message)),
    }
}

/// What a parsed body resolves to: the answer that the document describes,
/// or a failure that says why there is none.
pub open spec fn decoding(parse: Result<JsonView, Seq<char>>) -> Result<ResponseView, Seq<char>> {
    match parse {
        Ok(doc) => match ResponseView::of(doc) {
            Some(response) => Ok(response),
            None => Err(failure(NO_MATCH@)),
        },
        Err(message) => Err(failure(message)),
    }
}

/// What the outcome of the transport resolves to: a transport error as it
/// is, a body as its decoding.
pub open spec fn resolution(transport: Result<Seq<u8>, Seq<char>>) -> Result<
    ResponseView,
    Seq<char>,
> {
    match transport {
        Ok(bytes) => decoding(parsed(bytes)),
        Err(message) => Err(message),
    }
}

/// What `serde_json::to_string` writes for a string with the given
/// characters: the string as JSON text, between double quotes and with
/// its escapes, or the text of the error.
pub uninterp spec fn quoted(text: Seq<char>) -> Result<Seq<char>, Seq<char>>;

/// Calls `serde_json::to_string` on a string and hands back what it wrote,
/// or the text that the error displays. The contract claims one thing:
/// that the result depends on the characters alone.
#[verifier::external_body]
fn quote(text: &str) -> (r: Result<String, String>)
    ensures
        result_view(r) == quoted(text@),
{
    serde_json::to_string(text).map_err(|e| e.to_string())
}

/// The message that reports the failure `message`.
pub fn failure_message(message: &str) -> (r: String)
    ensures
        r@ == failure(message@),
{
    String::from_str(FAILURE_PREFIX).concat(message)
}

/// The headers of a request made with the credential `api_token`.
pub fn headers(api_token: &str) -> (r: Vec<Header>)
    ensures
        Seq::new(r@.len(), |i: int| r@[i]@) == headers_for(api_token@),
{
    let mut r: Vec<Header> = Vec::new();
    r.push(
        Header {
            name: String::from_str("Authorization"),
            value: String::from_str("Bearer ").concat(api_token),
        },
    );
    r.push(
        Header {
            name: String::from_str("Content-Type"),
            value: String::from_str("application/json"),
        },
    );
    r
}

/// Makes the request for a prompt from the prompt as a JSON string, or
/// reports why there is no such string.
pub fn request_from(quoted_prompt: Result<String, String>, api_token: &str) -> (r: Result<
    Request,
    String,
>)
    ensures
        result_view(r) == request_for(result_view(quoted_prompt), api_token@),
{
    match quoted_prompt {
        Ok(quoted_prompt) => {
            let mut text = String::from_str(BODY_HEAD);
            text.append(quoted_prompt.as_str());
            text.append(BODY_TAIL);
            Ok(
                Request {
                    method: String::from_str(METHOD),
                    url: String::from_str(ENDPOINT),
                    body: text.as_str().as_bytes_vec(),
                    headers: headers(api_token),
                },
            )
        },
        Err(message) => Err(failure_message(message.as_str())),
    }
}

/// Make a new HTTP request: the request that asks for a completion of
/// `prompt`, or the failure to report where the prompt cannot be written
/// as JSON.
pub fn http_request(prompt: &str, api_token: &str) -> (r: Result<Request, String>)
    ensures
        result_view(r) == request_for(quoted(prompt@), api_token@),
{
    request_from(quote(prompt), api_token)
}

/// Decodes a parsed body: the answer that the document describes, or the
/// failure to report.
pub fn decoded(parse: Result<Json, String>) -> (r: Result<Response, String>)
    ensures
        result_view(r) == decoding(result_view(parse)),
{
    match parse {
        Ok(doc) => match Response::from_json(&doc) {
            Some(response) => Ok(response),
            None => Err(failure_message(NO_MATCH)),
        },
        Err(message) => Err(failure_message(message.as_str())),
    }
}

/// Resolves the outcome of the transport: a transport error is handed on
/// as it is, a body is parsed and decoded.
pub fn resolve(transport: Result<Vec<u8>, String>) -> (r: Result<Response, String>)
    ensures
        result_view(r) == resolution(result_view(transport)),
{
    match transport {
        Ok(bytes) => decoded(parse(bytes.as_slice())),
        Err(message) => Err(message),
    }
}

} // verus!
