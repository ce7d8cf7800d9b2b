//! Requests to services and what came back, as plain values.
use crate::json::{opt_text, Json, JsonView};
use vstd::prelude::*;
use vstd::string::*;

verus! {

#[derive(Clone, Copy, Debug, PartialEq, Eq, Structural)]
pub enum Method {
    Get,
    Post,
    Delete,
}

/// A request to be sent.
#[derive(Debug)]
pub struct HttpRequest {
    pub method: Method,
    pub url: String,
    /// The value of the `Authorization` header.
    pub authorization: Option<String>,
    pub body: Option<Json>,
    /// How long to wait for the reply, where that is limited.
    pub timeout_secs: Option<u64>,
}

/// What a request is, with texts as sequences of characters.
#[verifier::ext_equal]
pub struct RequestView {
    pub method: Method,
    pub url: Seq<char>,
    pub authorization: Option<Seq<char>>,
    pub body: Option<JsonView>,
    pub timeout_secs: Option<u64>,
}

impl View for HttpRequest {
    type V = RequestView;

    open spec fn view(&self) -> RequestView {
        RequestView {
            method: self.method,
            url: self.url@,
            authorization: opt_text(self.authorization),
            body: match self.body {
                Some(j) => Some(j@),
                None => None,
            },
            timeout_secs: self.timeout_secs,
        }
    }
}

/// A JSON document that came back, with its compact text.
#[derive(Debug)]
pub struct Document {
    pub json: Json,
    pub text: String,
    /// The compact text of the member `errors`, where there is one.
    pub errors_text: String,
}

/// What became of a request.
#[derive(Debug)]
pub enum Outcome {
    /// No reply came.
    Failed { reason: String },
    /// A reply came. Its body is absent where it was not JSON.
    Replied { status: u16, body: Option<Document> },
}

/// Success is a status in the two hundreds.
pub open spec fn success(status: u16) -> bool {
    200 <= status < 300
}

/// The text that `reqwest::StatusCode` displays for a status: the number and the
/// usual phrase.
pub uninterp spec fn status_text(status: int) -> Seq<char>;

/// Displays a `reqwest::StatusCode`. The text is named: it is a function of the
/// number alone.
#[verifier::external_body]
pub(crate) fn display_status(status: u16) -> (r: String)
    requires
        100 <= status < 1000,
    ensures
        r@ == status_text(status as int),
{
    reqwest::StatusCode::from_u16(status).unwrap().to_string()
}

impl Outcome {
    /// A status that a reply can have has three digits.
    pub open spec fn well_formed(self) -> bool {
        match self {
            Outcome::Replied { status, .. } => 100 <= status < 1000,
            _ => true,
        }
    }

    /// The body of a reply; null where there is none or it was not JSON.
    pub open spec fn json(self) -> JsonView {
        match self {
            Outcome::Replied { body: Some(document), .. } => document.json@,
            _ => JsonView::Null,
        }
    }

    /// The compact text of the body.
    pub open spec fn body_text(self) -> Seq<char> {
        match self {
            Outcome::Replied { body: Some(document), .. } => document.text@,
            _ => "null"@,
        }
    }

    /// The compact text of the body's member `errors`.
    pub open spec fn errors_text(self) -> Seq<char> {
        match self {
            Outcome::Replied { body: Some(document), .. } => document.errors_text@,
            _ => "null"@,
        }
    }

    /// A reply with a status of success.
    pub open spec fn succeeded(self) -> bool {
        match self {
            Outcome::Replied { status, .. } => success(status),
            _ => false,
        }
    }
}

pub fn is_success(status: u16) -> (r: bool)
    ensures
        r == success(status),
{
    200 <= status && status < 300
}

/// `Bearer` in front of a key, as the `Authorization` header takes it.
pub open spec fn bearer(key: Seq<char>) -> Seq<char> {
    "Bearer "@ + key
}

pub fn bearer_header(key: &str) -> (r: String)
    ensures
        r@ == bearer(key@),
{
    let mut out = "Bearer ".to_string();
    out.append(key);
    out
}

} // verus!
