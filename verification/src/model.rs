//! The mathematical model that every builder and request is described by.

use vstd::prelude::*;
use crate::error::BuildError;

verus! {

/// The method a request gets when its builder was never given one.
pub open spec fn default_method() -> Seq<char> {
    "GET"@
}

/// What a finished request is: a target, a method, the headers in the order
/// they were added, and possibly a body.
pub struct RequestView {
    pub target: Seq<char>,
    pub method: Seq<char>,
    pub headers: Seq<(Seq<char>, Seq<char>)>,
    pub body: Option<Seq<char>>,
}

/// What a builder has been told so far. Target and method stay `None` until
/// they are set.
pub struct BuilderView {
    pub target: Option<Seq<char>>,
    pub method: Option<Seq<char>>,
    pub headers: Seq<(Seq<char>, Seq<char>)>,
    pub body: Option<Seq<char>>,
}

/// One field-setting call on a builder.
pub enum Step {
    Url(Seq<char>),
    Method(Seq<char>),
    Body(Seq<char>),
    Header(Seq<char>, Seq<char>),
}

impl BuilderView {
    /// A builder that has been told nothing.
    pub open spec fn empty() -> BuilderView {
        BuilderView { target: None, method: None, headers: Seq::empty(), body: None }
    }

    /// The target is replaced; everything else is kept.
    pub open spec fn with_url(self, url: Seq<char>) -> BuilderView {
        BuilderView { target: Some(url), ..self }
    }

    /// The method is replaced; everything else is kept.
    pub open spec fn with_method(self, method: Seq<char>) -> BuilderView {
        BuilderView { method: Some(method), ..self }
    }

    /// The body is replaced; everything else is kept.
    pub open spec fn with_body(self, body: Seq<char>) -> BuilderView {
        BuilderView { body: Some(body), ..self }
    }

    /// One header is appended after those already present, whether or not
    /// an equal one is among them.
    pub open spec fn with_header(self, name: Seq<char>, value: Seq<char>) -> BuilderView {
        BuilderView { headers: self.headers.push((name, value)), ..self }
    }

    /// The request that a builder with a target stands for: an unset method
    /// becomes the default one.
    pub open spec fn request(self) -> RequestView
        recommends
            self.target is Some,
    {
        RequestView {
            target: self.target->0,
            method: match self.method {
                Some(m) => m,
                None => default_method(),
            },
            headers: self.headers,
            body: self.body,
        }
    }

    /// Building: a request when a target is present, and otherwise the error
    /// that names the target.
    pub open spec fn build(self) -> Result<RequestView, BuildError> {
        if self.target is Some {
            Ok(self.request())
        } else {
            Err(BuildError::missing_target())
        }
    }

    /// The effect of one call.
    pub open spec fn step(self, s: Step) -> BuilderView {
        match s {
            Step::Url(url) => self.with_url(url),
            Step::Method(method) => self.with_method(method),
            Step::Body(body) => self.with_body(body),
            Step::Header(name, value) => self.with_header(name, value),
        }
    }

    /// The effect of a sequence of calls, made in order.
    pub open spec fn run(self, steps: Seq<Step>) -> BuilderView
        decreases steps.len(),
    {
        if steps.len() == 0 {
            self
        } else {
            self.run(steps.drop_last()).step(steps.last())
        }
    }
}

/// A build's outcome with the request, where there is one, taken by its view.
pub open spec fn viewed<R: View>(result: Result<R, BuildError>) -> Result<R::V, BuildError> {
    match result {
        Ok(request) => Ok(request@),
        Err(error) => Err(error),
    }
}

/// The headers that a sequence of calls adds, in the order of the calls.
pub open spec fn headers_added(steps: Seq<Step>) -> Seq<(Seq<char>, Seq<char>)>
    decreases steps.len(),
{
    if steps.len() == 0 {
        Seq::empty()
    } else {
        match steps.last() {
            Step::Header(name, value) => headers_added(steps.drop_last()).push((name, value)),
            _ => headers_added(steps.drop_last()),
        }
    }
}

} // verus!
