//! Copying, comparing and extending the text fields that builders and
//! requests hold.

use vstd::prelude::*;

verus! {

/// Copies an optional text.
pub(crate) fn copy_text(text: &Option<String>) -> (copy: Option<String>)
    ensures
        copy.deep_view() == text.deep_view(),
{
    match text {
        Some(t) => Some(t.clone()),
        None => None,
    }
}

/// Copies a header list, entry by entry and in order.
pub(crate) fn copy_headers(headers: &Vec<(String, String)>) -> (copy: Vec<(String, String)>)
    ensures
        copy.deep_view() == headers.deep_view(),
{
    let mut copy: Vec<(String, String)> = Vec::new();
    let mut i: usize = 0;
    while i < headers.len()
        invariant
            i <= headers.len(),
            copy.len() == i,
            forall|k: int| 0 <= k < i ==> copy[k].deep_view() == headers[k].deep_view(),
        decreases headers.len() - i,
    {
        let entry = &headers[i];
        copy.push((entry.0.clone(), entry.1.clone()));
        i += 1;
    }
    assert(copy.deep_view() =~= headers.deep_view());
    copy
}

/// Whether two optional texts are both absent or both present and equal.
pub(crate) fn same_text(left: &Option<String>, right: &Option<String>) -> (same: bool)
    ensures
        same == (left.deep_view() == right.deep_view()),
{
    match (left, right) {
        (Some(l), Some(r)) => *l == *r,
        (None, None) => true,
        _ => false,
    }
}

/// Whether two header lists hold equal entries in the same order.
pub(crate) fn same_headers(left: &Vec<(String, String)>, right: &Vec<(String, String)>) -> (same:
    bool)
    ensures
        same == (left.deep_view() == right.deep_view()),
{
    if left.len() != right.len() {
        assert(left.deep_view().len() != right.deep_view().len());
        return false;
    }
    let mut i: usize = 0;
    while i < left.len()
        invariant
            i <= left.len(),
            left.len() == right.len(),
            forall|k: int| 0 <= k < i ==> left[k].deep_view() == right[k].deep_view(),
        decreases left.len() - i,
    {
        if left[i].0 != right[i].0 || left[i].1 != right[i].1 {
            assert(left.deep_view()[i as int] != right.deep_view()[i as int]);
            return false;
        }
        i += 1;
    }
    assert(left.deep_view() =~= right.deep_view());
    true
}

/// Appends one header after those already present.
pub(crate) fn push_header(headers: &mut Vec<(String, String)>, name: &str, value: &str)
    ensures
        final(headers).deep_view() == old(headers).deep_view().push((name@, value@)),
{
    headers.push((name.to_owned(), value.to_owned()));
    assert(headers.deep_view() =~= old(headers).deep_view().push((name@, value@)));
}

} // verus!
