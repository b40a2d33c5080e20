//! Building tag filters from command-line key=value pairs.
//!
//! The tag-listing request optionally carries a list of filters, one per
//! user-supplied pair, each with one key and a single-element value list.

use vstd::prelude::*;

verus! {

/// One filter handed to the tag-listing request: a key and a set of
/// accepted values. Mirrors the wire shape, where both fields are optional.
#[derive(Debug, PartialEq)]
pub struct TagFilter {
    pub key: Option<String>,
    pub values: Option<Vec<String>>,
}

impl TagFilter {
    /// The filter that accepts exactly `value` for `key`.
    pub open spec fn spec_single(key: Seq<char>, value: Seq<char>) -> (Seq<char>, Seq<Seq<char>>) {
        (key, seq![value])
    }

    /// The key/value view of this filter, absent fields read as empty.
    pub open spec fn view_parts(self) -> (Seq<char>, Seq<Seq<char>>) {
        (
            match self.key {
                Some(k) => k@,
                None => Seq::empty(),
            },
            match self.values {
                Some(vs) => vs.deep_view(),
                None => Seq::empty(),
            },
        )
    }
}

/// Maps each command-line `(key, value)` pair, in the order supplied, to one
/// filter carrying that key and the single value. Empty input gives an empty
/// list, which upstream means "no filtering".
pub fn filters(tags: Vec<(String, String)>) -> (r: Vec<TagFilter>)
    ensures
        r@.len() == tags@.len(),
        forall|i: int|
            0 <= i < tags@.len() ==> (#[trigger] r@[i]).view_parts() == TagFilter::spec_single(
                tags@[i].0@,
                tags@[i].1@,
            ),
{
    let mut out: Vec<TagFilter> = Vec::new();
    let mut idx: usize = 0;
    while idx < tags.len()
        invariant
            idx <= tags@.len(),
            out@.len() == idx,
            forall|i: int|
                0 <= i < idx ==> (#[trigger] out@[i]).view_parts() == TagFilter::spec_single(
                    tags@[i].0@,
                    tags@[i].1@,
                ),
        decreases tags@.len() - idx,
    {
        let (k, v) = (tags[idx].0.clone(), tags[idx].1.clone());
        let mut values: Vec<String> = Vec::new();
        values.push(v);
        out.push(TagFilter { key: Some(k), values: Some(values) });
        idx = idx + 1;
    }
    out
}

} // verus!
