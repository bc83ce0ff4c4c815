//! Requests the library asks its driver to perform, and what the driver hands
//! back. The library itself never touches the network.

use crate::json::{Json, JsonView};
use vstd::prelude::*;
use vstd::string::*;

verus! {

/// The HTTP method of a request.
#[derive(Clone, Copy, Debug, PartialEq, Eq, Structural)]
pub enum Method {
    Get,
    Post,
}

/// What a request carries in its body.
#[derive(Debug, PartialEq, Eq)]
pub enum Payload {
    /// No body.
    Empty,
    /// A multipart form of text fields.
    Form(Vec<(String, String)>),
    /// A JSON document.
    Document(Json),
}

/// The mathematical value of a [`Payload`].
#[verifier::ext_equal]
pub ghost enum PayloadView {
    Empty,
    Form(Seq<(Seq<char>, Seq<char>)>),
    Document(JsonView),
}

impl View for Payload {
    type V = PayloadView;

    open spec fn view(&self) -> PayloadView {
        match self {
            Payload::Empty => PayloadView::Empty,
            Payload::Form(fields) => PayloadView::Form(fields.deep_view()),
            Payload::Document(document) => PayloadView::Document(document@),
        }
    }
}

/// One HTTP request for the driver to send.
///
/// `query` holds parameters that the driver appends to `url` in encoded form;
/// `url` itself is sent as it stands.
#[derive(Debug, PartialEq, Eq)]
pub struct Request {
    pub method: Method,
    pub url: String,
    pub query: Vec<(String, String)>,
    pub headers: Vec<(String, String)>,
    pub payload: Payload,
}

/// The mathematical value of a [`Request`].
#[verifier::ext_equal]
pub ghost struct RequestView {
    pub method: Method,
    pub url: Seq<char>,
    pub query: Seq<(Seq<char>, Seq<char>)>,
    pub headers: Seq<(Seq<char>, Seq<char>)>,
    pub payload: PayloadView,
}

impl View for Request {
    type V = RequestView;

    open spec fn view(&self) -> RequestView {
        RequestView {
            method: self.method,
            url: self.url@,
            query: self.query.deep_view(),
            headers: self.headers.deep_view(),
            payload: self.payload@,
        }
    }
}

impl DeepView for Request {
    type V = RequestView;

    open spec fn deep_view(&self) -> RequestView {
        self@
    }
}

/// A plain `GET` of `url`: no parameters, headers or body.
pub open spec fn plain_get(url: Seq<char>) -> RequestView {
    RequestView {
        method: Method::Get,
        url,
        query: Seq::empty(),
        headers: Seq::empty(),
        payload: PayloadView::Empty,
    }
}

impl Request {
    /// A plain `GET` of `url`.
    pub fn get(url: String) -> (request: Request)
        ensures
            request@ == plain_get(url@),
    {
        Request {
            method: Method::Get,
            url,
            query: Vec::new(),
            headers: Vec::new(),
            payload: Payload::Empty,
        }
    }
}

/// A pair of owned strings with the given contents.
pub fn pair(key: &str, value: &str) -> (entry: (String, String))
    ensures
        entry.deep_view() == (key@, value@),
{
    (key.to_owned(), value.to_owned())
}

/// The list holding the two pairs, in this order.
pub fn two_pairs(first: (String, String), second: (String, String)) -> (pairs: Vec<
    (String, String),
>)
    ensures
        pairs.deep_view() == seq![first.deep_view(), second.deep_view()],
{
    let mut pairs: Vec<(String, String)> = Vec::new();
    pairs.push(first);
    pairs.push(second);
    pairs
}

/// What came back for a request that reached its server.
#[derive(Debug, PartialEq, Eq)]
pub struct Reply {
    /// The status code of the final response.
    pub status: u16,
    /// The URL the final response came from, after redirects were followed.
    pub url: String,
    /// The response body as text; empty where the body could not be read.
    pub text: String,
    /// The response body decoded as JSON, or why it could not be decoded.
    pub document: Result<Json, String>,
}

/// The mathematical value of a [`Reply`].
#[verifier::ext_equal]
pub ghost struct ReplyView {
    pub status: int,
    pub url: Seq<char>,
    pub text: Seq<char>,
    pub document: Result<JsonView, Seq<char>>,
}

impl View for Reply {
    type V = ReplyView;

    open spec fn view(&self) -> ReplyView {
        ReplyView {
            status: self.status as int,
            url: self.url@,
            text: self.text@,
            document: match self.document {
                Ok(document) => Ok(document@),
                Err(reason) => Err(reason@),
            },
        }
    }
}

/// How one request ended.
#[derive(Debug, PartialEq, Eq)]
pub enum Exchange {
    /// The request did not complete; the message says why.
    Failed(String),
    /// A response arrived.
    Answered(Reply),
}

/// The mathematical value of an [`Exchange`].
#[verifier::ext_equal]
pub ghost enum ExchangeView {
    Failed(Seq<char>),
    Answered(ReplyView),
}

impl View for Exchange {
    type V = ExchangeView;

    open spec fn view(&self) -> ExchangeView {
        match self {
            Exchange::Failed(reason) => ExchangeView::Failed(reason@),
            Exchange::Answered(reply) => ExchangeView::Answered(reply@),
        }
    }
}

impl ExchangeView {
    /// The decoded document of the exchange, or the message of whatever kept
    /// one from arriving: the failure of the request, or that of the decoding.
    pub open spec fn document(self) -> Result<JsonView, Seq<char>> {
        match self {
            ExchangeView::Failed(reason) => Err(reason),
            ExchangeView::Answered(reply) => reply.document,
        }
    }
}

impl Exchange {
    /// A look at the decoded document of the exchange, or at the message of
    /// whatever kept one from arriving.
    pub fn as_document(&self) -> (outcome: Result<&Json, &str>)
        ensures
            match outcome {
                Ok(document) => self@.document() == Ok::<JsonView, Seq<char>>(document@),
                Err(reason) => self@.document() == Err::<JsonView, Seq<char>>(reason@),
            },
    {
        match self {
            Exchange::Failed(reason) => Err(reason.as_str()),
            Exchange::Answered(reply) => match &reply.document {
                Ok(document) => Ok(document),
                Err(reason) => Err(reason.as_str()),
            },
        }
    }

    /// The decoded document of the exchange, or the message of whatever kept
    /// one from arriving.
    pub fn into_document(self) -> (outcome: Result<Json, String>)
        ensures
            match outcome {
                Ok(document) => self@.document() == Ok::<JsonView, Seq<char>>(document@),
                Err(reason) => self@.document() == Err::<JsonView, Seq<char>>(reason@),
            },
    {
        match self {
            Exchange::Failed(reason) => Err(reason),
            Exchange::Answered(reply) => reply.document,
        }
    }
}

} // verus!
