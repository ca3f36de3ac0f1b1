//! The builder whose type tracks the required fields and the seal.

use vstd::prelude::*;
use core::marker::PhantomData;
use crate::fields::{copy_headers, copy_text, push_header};
use crate::model::BuilderView;
use crate::request::Request;

verus! {

/// What a state tag says of its field: `None` while the field is missing,
/// and the text once it is present.
pub trait FieldState: Sized {
    spec fn text(&self) -> Option<Seq<char>>;

    /// A second tag that says the same.
    fn duplicate(&self) -> (copy: Self)
        ensures
            copy.text() == self.text(),
    ;
}

/// The target address is missing.
#[derive(Default)]
pub struct NoUrl;

/// The target address is present.
pub struct Url(String);

/// The method is missing.
#[derive(Default)]
pub struct NoMethod;

/// The method is present.
pub struct Method(String);

/// The builder still accepts changes.
#[derive(Default)]
pub struct NotSealed;

/// The builder accepts no more changes: it can only be cloned and built.
#[derive(Default)]
pub struct Sealed;

impl View for Url {
    type V = Seq<char>;

    closed spec fn view(&self) -> Seq<char> {
        self.0@
    }
}

impl View for Method {
    type V = Seq<char>;

    closed spec fn view(&self) -> Seq<char> {
        self.0@
    }
}

impl Clone for NoUrl {
    fn clone(&self) -> (copy: NoUrl)
        ensures
            copy == *self,
    {
        NoUrl
    }
}

impl Clone for NoMethod {
    fn clone(&self) -> (copy: NoMethod)
        ensures
            copy == *self,
    {
        NoMethod
    }
}

impl Clone for NotSealed {
    fn clone(&self) -> (copy: NotSealed)
        ensures
            copy == *self,
    {
        NotSealed
    }
}

impl Clone for Sealed {
    fn clone(&self) -> (copy: Sealed)
        ensures
            copy == *self,
    {
        Sealed
    }
}

impl Clone for Url {
    fn clone(&self) -> (copy: Url)
        ensures
            copy@ == self@,
    {
        Url(self.0.clone())
    }
}

impl Clone for Method {
    fn clone(&self) -> (copy: Method)
        ensures
            copy@ == self@,
    {
        Method(self.0.clone())
    }
}

impl FieldState for NoUrl {
    open spec fn text(&self) -> Option<Seq<char>> {
        None
    }

    fn duplicate(&self) -> (copy: NoUrl) {
        self.clone()
    }
}

impl FieldState for Url {
    open spec fn text(&self) -> Option<Seq<char>> {
        Some(self@)
    }

    fn duplicate(&self) -> (copy: Url) {
        self.clone()
    }
}

impl FieldState for NoMethod {
    open spec fn text(&self) -> Option<Seq<char>> {
        None
    }

    fn duplicate(&self) -> (copy: NoMethod) {
        self.clone()
    }
}

impl FieldState for Method {
    open spec fn text(&self) -> Option<Seq<char>> {
        Some(self@)
    }

    fn duplicate(&self) -> (copy: Method) {
        self.clone()
    }
}

/// A builder whose type says which required fields it holds (`U` for the
/// target address, `M` for the method) and whether it is sealed (`S`).
///
/// Only a builder of type `RequestBuilder<Url, Method, _>` can build, and
/// only one of type `RequestBuilder<_, _, NotSealed>` can be changed.
pub struct RequestBuilder<U, M, S> {
    url: U,
    method: M,
    headers: Vec<(String, String)>,
    body: Option<String>,
    marker_seal: PhantomData<S>,
}

impl<U: FieldState, M: FieldState, S> View for RequestBuilder<U, M, S> {
    type V = BuilderView;

    closed spec fn view(&self) -> BuilderView {
        BuilderView {
            target: self.url.text(),
            method: self.method.text(),
            headers: self.headers.deep_view(),
            body: self.body.deep_view(),
        }
    }
}

impl<U: FieldState, M: FieldState, S> Clone for RequestBuilder<U, M, S> {
    /// An independent builder of the same type that has been told the same.
    fn clone(&self) -> (copy: RequestBuilder<U, M, S>)
        ensures
            copy@ == self@,
    {
        RequestBuilder {
            url: self.url.duplicate(),
            method: self.method.duplicate(),
            headers: copy_headers(&self.headers),
            body: copy_text(&self.body),
            marker_seal: PhantomData,
        }
    }
}

impl Default for RequestBuilder<NoUrl, NoMethod, NotSealed> {
    fn default() -> (builder: RequestBuilder<NoUrl, NoMethod, NotSealed>)
        ensures
            builder@ == BuilderView::empty(),
    {
        let builder = RequestBuilder {
            url: NoUrl,
            method: NoMethod,
            headers: Vec::new(),
            body: None,
            marker_seal: PhantomData,
        };
        assert(builder.headers.deep_view() =~= Seq::empty());
        builder
    }
}

impl RequestBuilder<NoUrl, NoMethod, NotSealed> {
    /// A builder that has been told nothing and accepts changes.
    pub fn new() -> (builder: RequestBuilder<NoUrl, NoMethod, NotSealed>)
        ensures
            builder@ == BuilderView::empty(),
    {
        RequestBuilder::default()
    }
}

impl<U: FieldState, M: FieldState> RequestBuilder<U, M, NotSealed> {
    /// Closes the builder to further changes. What it holds stays as it is.
    pub fn seal(self) -> (sealed: RequestBuilder<U, M, Sealed>)
        ensures
            sealed@ == self@,
    {
        RequestBuilder {
            url: self.url,
            method: self.method,
            headers: self.headers,
            body: self.body,
            marker_seal: PhantomData,
        }
    }

    /// Sets the target address, replacing an earlier one. The result's type
    /// records that the address is present.
    pub fn url(self, url: &str) -> (builder: RequestBuilder<Url, M, NotSealed>)
        ensures
            builder@ == self@.with_url(url@),
    {
        RequestBuilder {
            url: Url(url.to_owned()),
            method: self.method,
            headers: self.headers,
            body: self.body,
            marker_seal: PhantomData,
        }
    }

    /// Sets the method, replacing an earlier one. The result's type records
    /// that the method is present.
    pub fn method(self, method: &str) -> (builder: RequestBuilder<U, Method, NotSealed>)
        ensures
            builder@ == self@.with_method(method@),
    {
        RequestBuilder {
            url: self.url,
            method: Method(method.to_owned()),
            headers: self.headers,
            body: self.body,
            marker_seal: PhantomData,
        }
    }

    /// Sets the body, replacing an earlier one.
    pub fn body(self, body: &str) -> (builder: RequestBuilder<U, M, NotSealed>)
        ensures
            builder@ == self@.with_body(body@),
    {
        let mut builder = self;
        builder.body = Some(body.to_owned());
        builder
    }

    /// Adds a header after those already present.
    pub fn header(self, name: &str, value: &str) -> (builder: RequestBuilder<U, M, NotSealed>)
        ensures
            builder@ == self@.with_header(name@, value@),
    {
        let mut builder = self;
        push_header(&mut builder.headers, name, value);
        builder
    }
}

impl<S> RequestBuilder<Url, Method, S> {
    /// Builds the request, moving the builder's fields into it. This cannot
    /// fail: a builder of this type holds a target address and a method.
    pub fn build(self) -> (request: Request)
        ensures
            self@.target is Some,
            self@.method is Some,
            request@ == self@.request(),
    {
        Request::from_parts(self.url.0, self.method.0, self.headers, self.body)
    }
}

/// A builder of a type that offers `build` holds a target address and a
/// method, so building it succeeds.
pub proof fn lemma_build_is_offered_only_when_complete<S>(builder: RequestBuilder<Url, Method, S>)
    ensures
        builder@.target is Some,
        builder@.method is Some,
        builder@.build() is Ok,
{
}

/// A builder whose type says that the target address is missing holds
/// none: had it a `build`, that would fail.
pub proof fn lemma_no_url_means_no_target<M: FieldState, S>(builder: RequestBuilder<NoUrl, M, S>)
    ensures
        builder@.target is None,
        builder@.build() is Err,
{
}

/// A builder whose type says that the method is missing holds none.
pub proof fn lemma_no_method_means_no_method<U: FieldState, S>(
    builder: RequestBuilder<U, NoMethod, S>,
)
    ensures
        builder@.method is None,
{
}

} // verus!
