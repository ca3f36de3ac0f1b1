//! The request descriptor and two builders for it.

use vstd::prelude::*;
use vstd::std_specs::cmp::PartialEqSpecImpl;
use crate::fields::{same_headers, same_text};
use crate::model::RequestView;

pub mod request_builder_non_consuming;
pub mod request_builder_type_state;

verus! {

/// An immutable request descriptor. Only a builder makes one.
#[derive(Debug)]
pub struct Request {
    url: String,
    method: String,
    headers: Vec<(String, String)>,
    body: Option<String>,
}

impl View for Request {
    type V = RequestView;

    closed spec fn view(&self) -> RequestView {
        RequestView {
            target: self.url@,
            method: self.method@,
            headers: self.headers.deep_view(),
            body: self.body.deep_view(),
        }
    }
}

impl PartialEq for Request {
    /// Two requests are equal when they agree in target, method, headers
    /// (entry by entry, in order) and body.
    fn eq(&self, other: &Request) -> (equal: bool) {
        self.url == other.url && self.method == other.method && same_headers(
            &self.headers,
            &other.headers,
        ) && same_text(&self.body, &other.body)
    }
}

impl PartialEqSpecImpl for Request {
    open spec fn obeys_eq_spec() -> bool {
        true
    }

    open spec fn eq_spec(&self, other: &Request) -> bool {
        self@ == other@
    }
}

impl Request {
    /// Puts a request together from fields that a builder hands over.
    pub(crate) fn from_parts(
        url: String,
        method: String,
        headers: Vec<(String, String)>,
        body: Option<String>,
    ) -> (req: Request)
        ensures
            req@ == (RequestView {
                target: url@,
                method: method@,
                headers: headers.deep_view(),
                body: body.deep_view(),
            }),
    {
        Request { url, method, headers, body }
    }

    /// The target address.
    pub fn url(&self) -> (url: &str)
        ensures
            url@ == self@.target,
    {
        self.url.as_str()
    }

    /// The method.
    pub fn method(&self) -> (method: &str)
        ensures
            method@ == self@.method,
    {
        self.method.as_str()
    }

    /// The headers, in the order in which they were added.
    pub fn headers(&self) -> (headers: &Vec<(String, String)>)
        ensures
            headers.deep_view() == self@.headers,
    {
        &self.headers
    }

    /// The body, if one was set.
    pub fn body(&self) -> (body: Option<&str>)
        ensures
            body.deep_view() == self@.body,
    {
        match &self.body {
            Some(text) => Some(text.as_str()),
            None => None,
        }
    }
}

} // verus!
