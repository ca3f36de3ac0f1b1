//! What holds of every builder, proved of the model that the builders'
//! contracts are stated in.

use vstd::prelude::*;
use crate::error::BuildError;
use crate::model::{default_method, headers_added, BuilderView, RequestView, Step};

verus! {

/// Whether some call of the sequence sets the target address.
pub open spec fn sets_url(steps: Seq<Step>) -> bool {
    exists|i: int| 0 <= i < steps.len() && #[trigger] steps[i] is Url
}

/// Whether some call of the sequence sets the method.
pub open spec fn sets_method(steps: Seq<Step>) -> bool {
    exists|i: int| 0 <= i < steps.len() && #[trigger] steps[i] is Method
}

/// The calls that add the given headers, one call for each, in order.
pub open spec fn header_steps(headers: Seq<(Seq<char>, Seq<char>)>) -> Seq<Step> {
    Seq::new(headers.len(), |i: int| Step::Header(headers[i].0, headers[i].1))
}

/// Calls that do not set the target address leave it as it was, and after
/// calls of which one sets it there is a target address.
pub proof fn lemma_run_target(start: BuilderView, steps: Seq<Step>)
    ensures
        !sets_url(steps) ==> start.run(steps).target == start.target,
        sets_url(steps) ==> start.run(steps).target is Some,
    decreases steps.len(),
{
    if steps.len() > 0 {
        let front = steps.drop_last();
        lemma_run_target(start, front);
        if sets_url(steps) {
            let i = choose|i: int| 0 <= i < steps.len() && #[trigger] steps[i] is Url;
            if i < front.len() {
                assert(front[i] is Url);
            }
        } else {
            assert(!(steps[steps.len() - 1] is Url));
            if sets_url(front) {
                let i = choose|i: int| 0 <= i < front.len() && #[trigger] front[i] is Url;
                assert(steps[i] is Url);
            }
        }
    }
}

/// Calls that do not set the method leave it as it was.
pub proof fn lemma_run_method(start: BuilderView, steps: Seq<Step>)
    requires
        !sets_method(steps),
    ensures
        start.run(steps).method == start.method,
    decreases steps.len(),
{
    if steps.len() > 0 {
        let front = steps.drop_last();
        assert(!(steps[steps.len() - 1] is Method));
        if sets_method(front) {
            let i = choose|i: int| 0 <= i < front.len() && #[trigger] front[i] is Method;
            assert(steps[i] is Method);
        }
        lemma_run_method(start, front);
    }
}

/// After any sequence of calls a builder holds the headers it held before,
/// followed by those that the calls added, in the order of the calls and
/// with nothing left out or merged.
pub proof fn lemma_run_headers(start: BuilderView, steps: Seq<Step>)
    ensures
        start.run(steps).headers == start.headers + headers_added(steps),
    decreases steps.len(),
{
    if steps.len() > 0 {
        lemma_run_headers(start, steps.drop_last());
    }
    assert(start.run(steps).headers =~= start.headers + headers_added(steps));
}

/// The calls that add a given sequence of headers add exactly that sequence.
pub proof fn lemma_header_steps_add_their_headers(headers: Seq<(Seq<char>, Seq<char>)>)
    ensures
        headers_added(header_steps(headers)) == headers,
        !sets_url(header_steps(headers)),
        !sets_method(header_steps(headers)),
    decreases headers.len(),
{
    let steps = header_steps(headers);
    if headers.len() > 0 {
        let front = headers.drop_last();
        lemma_header_steps_add_their_headers(front);
        assert(steps.drop_last() =~= header_steps(front));
        assert(steps.last() == Step::Header(headers.last().0, headers.last().1));
        assert(headers_added(steps) =~= headers);
    } else {
        assert(headers_added(steps) =~= headers);
    }
}

/// A builder on which the target address was never set does not build: the
/// error names the target, whatever else was set. And once a call has set
/// it, the builder builds.
pub proof fn lemma_build_needs_url(steps: Seq<Step>)
    ensures
        !sets_url(steps) ==> BuilderView::empty().run(steps).build() == Err::<RequestView, _>(
            BuildError::missing_target(),
        ),
        sets_url(steps) ==> BuilderView::empty().run(steps).build() is Ok,
{
    lemma_run_target(BuilderView::empty(), steps);
}

/// A builder that was only given a target address builds a request to that
/// address with the default method, no headers and no body.
pub proof fn lemma_url_alone_builds_default_method(url: Seq<char>)
    ensures
        BuilderView::empty().with_url(url).build() == Ok::<_, BuildError>(
            RequestView { target: url, method: "GET"@, headers: Seq::empty(), body: None },
        ),
{
}

/// Whatever calls were made, if none of them set the method, then the
/// request that is built has the default method.
pub proof fn lemma_unset_method_is_default(steps: Seq<Step>)
    requires
        !sets_method(steps),
    ensures
        BuilderView::empty().run(steps).build() matches Ok(request) ==> request.method
            == default_method(),
{
    lemma_run_method(BuilderView::empty(), steps);
}

/// The headers of a built request are those that the calls added, in the
/// order of the calls, duplicates included.
pub proof fn lemma_request_headers_are_those_added(steps: Seq<Step>)
    ensures
        BuilderView::empty().run(steps).build() matches Ok(request) ==> request.headers
            == headers_added(steps),
{
    lemma_run_headers(BuilderView::empty(), steps);
    assert(Seq::<(Seq<char>, Seq<char>)>::empty() + headers_added(steps) =~= headers_added(steps));
}

/// Adding a sequence of headers to a builder with a target address, and
/// nothing else, gives a request with exactly that sequence of headers.
pub proof fn lemma_headers_keep_order(url: Seq<char>, headers: Seq<(Seq<char>, Seq<char>)>)
    ensures
        BuilderView::empty().with_url(url).run(header_steps(headers)).build() matches Ok(request)
            && request.headers == headers && request.target == url,
{
    let start = BuilderView::empty().with_url(url);
    let steps = header_steps(headers);
    lemma_header_steps_add_their_headers(headers);
    lemma_run_headers(start, steps);
    lemma_run_target(start, steps);
    assert(start.headers + headers =~= headers);
}

/// Building twice with calls in between: the second request's headers are
/// the first's followed by those added in between, so the first's are a
/// prefix of the second's. The target address and the method are the same
/// in both unless a call in between set them.
pub proof fn lemma_later_build_extends_earlier(builder: BuilderView, between: Seq<Step>)
    requires
        builder.build() is Ok,
    ensures
        builder.run(between).build() is Ok,
        builder.run(between).request().headers == builder.request().headers + headers_added(
            between,
        ),
        builder.request().headers.is_prefix_of(builder.run(between).request().headers),
        !sets_url(between) ==> builder.run(between).request().target == builder.request().target,
        !sets_method(between) ==> builder.run(between).request().method
            == builder.request().method,
{
    lemma_run_target(builder, between);
    lemma_run_headers(builder, between);
    if !sets_method(between) {
        lemma_run_method(builder, between);
    }
    let first = builder.request().headers;
    let second = builder.run(between).request().headers;
    assert(second.subrange(0, first.len() as int) =~= first);
}

/// Building, adding one header and building again: the second request has
/// the first's headers and then the new one, and agrees with the first in
/// everything else.
pub proof fn lemma_header_between_builds(builder: BuilderView, name: Seq<char>, value: Seq<char>)
    requires
        builder.build() is Ok,
    ensures
        builder.with_header(name, value).build() is Ok,
        builder.with_header(name, value).request() == (RequestView {
            headers: builder.request().headers.push((name, value)),
            ..builder.request()
        }),
{
}

/// A request is fully populated: it always has a target address and a
/// method, and neither is the empty text unless the empty text was given
/// to the builder for it.
pub proof fn lemma_request_is_populated(builder: BuilderView)
    requires
        builder.target is Some,
        builder.target->0.len() > 0,
        builder.method is Some ==> builder.method->0.len() > 0,
    ensures
        builder.build() is Ok,
        builder.request().target.len() > 0,
        builder.request().method.len() > 0,
{
    reveal_strlit("GET");
}

} // verus!
