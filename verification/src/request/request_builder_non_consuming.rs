//! The builder that is changed in place and copies its fields when it builds.

use vstd::prelude::*;
use crate::error::BuildError;
use crate::fields::{copy_headers, copy_text, push_header};
use crate::model::{viewed, BuilderView};
use crate::request::Request;

verus! {

/// A builder that is changed in place and can build any number of requests.
///
/// Building only reads the builder: what was set stays set, and headers
/// added earlier appear in every later request.
pub struct RequestBuilder {
    url: Option<String>,
    method: Option<String>,
    headers: Vec<(String, String)>,
    body: Option<String>,
}

impl View for RequestBuilder {
    type V = BuilderView;

    closed spec fn view(&self) -> BuilderView {
        BuilderView {
            target: self.url.deep_view(),
            method: self.method.deep_view(),
            headers: self.headers.deep_view(),
            body: self.body.deep_view(),
        }
    }
}

impl Default for RequestBuilder {
    fn default() -> (builder: RequestBuilder)
        ensures
            builder@ == BuilderView::empty(),
    {
        let builder = RequestBuilder { url: None, method: None, headers: Vec::new(), body: None };
        assert(builder.headers.deep_view() =~= Seq::empty());
        builder
    }
}

impl Clone for RequestBuilder {
    /// An independent builder that has been told the same.
    fn clone(&self) -> (copy: RequestBuilder)
        ensures
            copy@ == self@,
    {
        RequestBuilder {
            url: copy_text(&self.url),
            method: copy_text(&self.method),
            headers: copy_headers(&self.headers),
            body: copy_text(&self.body),
        }
    }
}

impl RequestBuilder {
    /// A builder that has been told nothing.
    pub fn new() -> (builder: RequestBuilder)
        ensures
            builder@ == BuilderView::empty(),
    {
        RequestBuilder::default()
    }

    /// Sets the target address, replacing an earlier one.
    pub fn url(&mut self, url: &str) -> (builder: &mut RequestBuilder)
        ensures
            builder@ == old(self)@.with_url(url@),
            *final(self) == *final(builder),
    {
        self.url = Some(url.to_owned());
        self
    }

    /// Sets the method, replacing an earlier one.
    pub fn method(&mut self, method: &str) -> (builder: &mut RequestBuilder)
        ensures
            builder@ == old(self)@.with_method(method@),
            *final(self) == *final(builder),
    {
        self.method = Some(method.to_owned());
        self
    }

    /// Sets the body, replacing an earlier one.
    pub fn body(&mut self, body: &str) -> (builder: &mut RequestBuilder)
        ensures
            builder@ == old(self)@.with_body(body@),
            *final(self) == *final(builder),
    {
        self.body = Some(body.to_owned());
        self
    }

    /// Adds a header after those already present.
    pub fn header(&mut self, name: &str, value: &str) -> (builder: &mut RequestBuilder)
        ensures
            builder@ == old(self)@.with_header(name@, value@),
            *final(self) == *final(builder),
    {
        push_header(&mut self.headers, name, value);
        self
    }

    /// Builds a request from a copy of what the builder holds now. Fails
    /// exactly when no target address was ever set.
    pub fn build(&self) -> (result: Result<Request, BuildError>)
        ensures
            viewed(result) == self@.build(),
    {
        let url = match &self.url {
            Some(url) => url.clone(),
            None => {
                return Err(BuildError::no_target());
            },
        };
        let method = match &self.method {
            Some(method) => method.clone(),
            None => "GET".to_owned(),
        };
        Ok(Request::from_parts(url, method, copy_headers(&self.headers), copy_text(&self.body)))
    }
}

} // verus!
