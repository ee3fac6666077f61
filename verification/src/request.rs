//! The HTTP requests that the backends make, as plain values.
use vstd::prelude::*;
use vstd::string::*;
use crate::json::{Json, JsonValue};

verus! {

/// The HTTP method of a request.
#[derive(Debug, Clone, Copy, PartialEq, Eq, Structural)]
pub enum Method {
    Get,
    Post,
}

/// How a request proves who sends it.
#[derive(Debug)]
pub enum Auth {
    /// No header: the credentials, if any, travel in the body.
    InBody,
    /// A header carrying a secret.
    Header { name: String, value: String },
    /// An OAuth2 bearer token.
    Bearer(String),
}

pub enum AuthView {
    InBody,
    Header { name: Seq<char>, value: Seq<char> },
    Bearer(Seq<char>),
}

impl View for Auth {
    type V = AuthView;

    open spec fn view(&self) -> AuthView {
        match self {
            Auth::InBody => AuthView::InBody,
            Auth::Header { name, value } => AuthView::Header { name: name@, value: value@ },
            Auth::Bearer(token) => AuthView::Bearer(token@),
        }
    }
}

/// A request to a backend's REST API; a body is sent as JSON.
#[derive(Debug)]
pub struct Request {
    pub method: Method,
    pub url: String,
    pub auth: Auth,
    pub body: Option<JsonValue>,
}

pub struct RequestView {
    pub method: Method,
    pub url: Seq<char>,
    pub auth: AuthView,
    pub body: Option<Json>,
}

impl View for Request {
    type V = RequestView;

    open spec fn view(&self) -> RequestView {
        RequestView {
            method: self.method,
            url: self.url@,
            auth: self.auth@,
            body: match self.body {
                Some(b) => Some(b.json()),
                None => None,
            },
        }
    }
}

/// `format!("{base}/{path}")`.
pub open spec fn join_url(base: Seq<char>, path: Seq<char>) -> Seq<char> {
    base + seq!['/'] + path
}

pub fn join_url_text(base: &str, path: &str) -> (r: String)
    ensures
        r@ == join_url(base@, path@),
{
    let mut r = base.to_owned();
    proof {
        reveal_strlit("/");
    }
    r.append("/");
    r.append(path);
    r
}

} // verus!
