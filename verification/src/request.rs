//! Requests as values: what is to be sent, before anything is sent.

use crate::headers::{header_fields, HeaderFields};
use reqwest::header::HeaderMap;
use vstd::prelude::*;

verus! {

/// The verbs that the client uses.
#[derive(Debug, Clone, Copy, PartialEq, Eq, Structural)]
pub enum Method {
    Get,
    Post,
    Put,
}

/// The body of a request.
#[derive(Debug, Clone, PartialEq, Eq)]
pub enum Payload {
    /// No body.
    Empty,
    /// A JSON document, already written out.
    Json(String),
    /// Pairs of a name and a value, to be sent form-encoded.
    Form(Vec<(String, String)>),
}

pub enum PayloadView {
    Empty,
    Json(Seq<char>),
    Form(Seq<(Seq<char>, Seq<char>)>),
}

impl View for Payload {
    type V = PayloadView;

    open spec fn view(&self) -> PayloadView {
        match self {
            Payload::Empty => PayloadView::Empty,
            Payload::Json(text) => PayloadView::Json(text@),
            Payload::Form(pairs) => PayloadView::Form(
                Seq::new(pairs@.len(), |i: int| (pairs@[i].0@, pairs@[i].1@)),
            ),
        }
    }
}

/// One request, ready for a transport.
#[derive(Debug, PartialEq, Eq)]
pub struct RequestSpec {
    pub method: Method,
    /// The absolute URL.
    pub url: String,
    pub headers: HeaderMap,
    pub payload: Payload,
}

pub struct RequestSpecView {
    pub method: Method,
    pub url: Seq<char>,
    pub headers: HeaderFields,
    pub payload: PayloadView,
}

impl View for RequestSpec {
    type V = RequestSpecView;

    open spec fn view(&self) -> RequestSpecView {
        RequestSpecView {
            method: self.method,
            url: self.url@,
            headers: header_fields(self.headers),
            payload: self.payload@,
        }
    }
}

} // verus!
