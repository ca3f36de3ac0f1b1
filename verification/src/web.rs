//! A request and a builder for it that can be used in place or by value.

use vstd::prelude::*;
use vstd::std_specs::cmp::PartialEqSpecImpl;
use crate::error::BuildError;
use crate::fields::{copy_headers, copy_text, push_header, same_headers, same_text};
use crate::model::{viewed, BuilderView, RequestView};

verus! {

/// An immutable request descriptor. Only a builder makes one.
#[derive(Debug)]
pub struct Request {
    url: String,
    method: String,
    headers: Vec<(String, String)>,
    body: Option<String>,
}

impl View for Request {
    type V = RequestView;

    closed spec fn view(&self) -> RequestView {
        RequestView {
            target: self.url@,
            method: self.method@,
            headers: self.headers.deep_view(),
            body: self.body.deep_view(),
        }
    }
}

impl PartialEq for Request {
    /// Two requests are equal when they agree in target, method, headers
    /// (entry by entry, in order) and body.
    fn eq(&self, other: &Request) -> (equal: bool) {
        self.url == other.url && self.method == other.method && same_headers(
            &self.headers,
            &other.headers,
        ) && same_text(&self.body, &other.body)
    }
}

impl PartialEqSpecImpl for Request {
    open spec fn obeys_eq_spec() -> bool {
        true
    }

    open spec fn eq_spec(&self, other: &Request) -> bool {
        self@ == other@
    }
}

impl Request {
    /// The target address.
    pub fn url(&self) -> (url: &str)
        ensures
            url@ == self@.target,
    {
        self.url.as_str()
    }

    /// The method.
    pub fn method(&self) -> (method: &str)
        ensures
            method@ == self@.method,
    {
        self.method.as_str()
    }

    /// The headers, in the order in which they were added.
    pub fn headers(&self) -> (headers: &Vec<(String, String)>)
        ensures
            headers.deep_view() == self@.headers,
    {
        &self.headers
    }

    /// The body, if one was set.
    pub fn body(&self) -> (body: Option<&str>)
        ensures
            body.deep_view() == self@.body,
    {
        match &self.body {
            Some(text) => Some(text.as_str()),
            None => None,
        }
    }
}

/// A builder that offers both disciplines: methods that change it in place
/// and leave it usable, and `_consuming` methods that take it by value, so
/// that using it twice takes an explicit `clone`.
pub struct RequestBuilder {
    url: Option<String>,
    method: Option<String>,
    headers: Vec<(String, String)>,
    body: Option<String>,
}

impl View for RequestBuilder {
    type V = BuilderView;

    closed spec fn view(&self) -> BuilderView {
        BuilderView {
            target: self.url.deep_view(),
            method: self.method.deep_view(),
            headers: self.headers.deep_view(),
            body: self.body.deep_view(),
        }
    }
}

impl Default for RequestBuilder {
    fn default() -> (builder: RequestBuilder)
        ensures
            builder@ == BuilderView::empty(),
    {
        let builder = RequestBuilder { url: None, method: None, headers: Vec::new(), body: None };
        assert(builder.headers.deep_view() =~= Seq::empty());
        builder
    }
}

impl Clone for RequestBuilder {
    /// An independent builder that has been told the same: what is done to
    /// one of the two afterwards leaves the other as it was.
    fn clone(&self) -> (copy: RequestBuilder)
        ensures
            copy@ == self@,
    {
        RequestBuilder {
            url: copy_text(&self.url),
            method: copy_text(&self.method),
            headers: copy_headers(&self.headers),
            body: copy_text(&self.body),
        }
    }
}

impl RequestBuilder {
    /// A builder that has been told nothing.
    pub fn new() -> (builder: RequestBuilder)
        ensures
            builder@ == BuilderView::empty(),
    {
        RequestBuilder::default()
    }

    /// Sets the target address in place, replacing an earlier one.
    pub fn url(&mut self, url: &str) -> (builder: &mut RequestBuilder)
        ensures
            builder@ == old(self)@.with_url(url@),
            *final(self) == *final(builder),
    {
        self.url = Some(url.to_owned());
        self
    }

    /// Sets the method in place, replacing an earlier one.
    pub fn method(&mut self, method: &str) -> (builder: &mut RequestBuilder)
        ensures
            builder@ == old(self)@.with_method(method@),
            *final(self) == *final(builder),
    {
        self.method = Some(method.to_owned());
        self
    }

    /// Sets the body in place, replacing an earlier one.
    pub fn body(&mut self, body: &str) -> (builder: &mut RequestBuilder)
        ensures
            builder@ == old(self)@.with_body(body@),
            *final(self) == *final(builder),
    {
        self.body = Some(body.to_owned());
        self
    }

    /// Adds a header in place, after those already present.
    pub fn header(&mut self, name: &str, value: &str) -> (builder: &mut RequestBuilder)
        ensures
            builder@ == old(self)@.with_header(name@, value@),
            *final(self) == *final(builder),
    {
        push_header(&mut self.headers, name, value);
        self
    }

    /// Builds a request from a copy of what the builder holds now. Fails
    /// exactly when no target address was ever set.
    pub fn build(&self) -> (result: Result<Request, BuildError>)
        ensures
            viewed(result) == self@.build(),
    {
        let url = match &self.url {
            Some(url) => url.clone(),
            None => {
                return Err(BuildError::no_target());
            },
        };
        let method = match &self.method {
            Some(method) => method.clone(),
            None => "GET".to_owned(),
        };
        Ok(
            Request {
                url,
                method,
                headers: copy_headers(&self.headers),
                body: copy_text(&self.body),
            },
        )
    }

    /// Takes the builder and gives it back with the target address set.
    pub fn url_consuming(self, url: &str) -> (builder: RequestBuilder)
        ensures
            builder@ == self@.with_url(url@),
    {
        let mut builder = self;
        builder.url = Some(url.to_owned());
        builder
    }

    /// Takes the builder and gives it back with the method set.
    pub fn method_consuming(self, method: &str) -> (builder: RequestBuilder)
        ensures
            builder@ == self@.with_method(method@),
    {
        let mut builder = self;
        builder.method = Some(method.to_owned());
        builder
    }

    /// Takes the builder and gives it back with the body set.
    pub fn body_consuming(self, body: &str) -> (builder: RequestBuilder)
        ensures
            builder@ == self@.with_body(body@),
    {
        let mut builder = self;
        builder.body = Some(body.to_owned());
        builder
    }

    /// Takes the builder and gives it back with one more header, after
    /// those already present.
    pub fn header_consuming(self, name: &str, value: &str) -> (builder: RequestBuilder)
        ensures
            builder@ == self@.with_header(name@, value@),
    {
        let mut builder = self;
        push_header(&mut builder.headers, name, value);
        builder
    }

    /// Takes the builder and moves its fields into a request. Fails exactly
    /// when no target address was ever set.
    pub fn build_consuming(self) -> (result: Result<Request, BuildError>)
        ensures
            viewed(result) == self@.build(),
    {
        let url = match self.url {
            Some(url) => url,
            None => {
                return Err(BuildError::no_target());
            },
        };
        let method = match self.method {
            Some(method) => method,
            None => "GET".to_owned(),
        };
        Ok(Request { url, method, headers: self.headers, body: self.body })
    }
}

} // verus!
