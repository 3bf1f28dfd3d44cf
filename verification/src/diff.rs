//! The line-oriented comparison behind check mode.
//!
//! The comparison itself is done by the `difference` crate: its `Changeset`
//! splits both texts at `'\n'`, computes an edit distance over the resulting
//! lines, and renders a human-readable changeset.  Only the zero / non-zero
//! distinction of the distance carries meaning here, and it is exact: the
//! distance is zero precisely when the two texts are equal.

use vstd::prelude::*;

verus! {

/// An input longer than this is not handed to the diff backend: its distance
/// is an `i32` of the form `lines(orig) + lines(edit) - 2 * common`, and with
/// both inputs below this bound that value cannot wrap.
pub const DIFF_INPUT_LIMIT: usize = 0x3fff_ffff;

/// What `difference::Changeset`'s renderer prints for a pair of texts: the
/// lines of both, in order, with added and removed lines marked.  It depends
/// on the two texts alone.
pub uninterp spec fn diff_render_of(orig: Seq<char>, edit: Seq<char>) -> Seq<char>;

/// Relies on `difference::Changeset::new` with `"\n"` as the split and on its
/// `Display` rendering.  The distance is `lines(orig) + lines(edit) -
/// 2 * common_lines`, so it is `0` exactly when the two texts are equal; the
/// length bound keeps that sum below `i32::MAX`, so the cast to `i32` inside
/// the crate cannot wrap.  The rendering is a function of the two texts alone.
#[verifier::external_body]
pub(crate) fn changeset_diff(orig: &str, edit: &str) -> (r: (i32, String))
    requires
        orig@.len() < DIFF_INPUT_LIMIT,
        edit@.len() < DIFF_INPUT_LIMIT,
    ensures
        (r.0 == 0) <==> (orig@ == edit@),
        r.1@ == diff_render_of(orig@, edit@),
{
    let changeset = difference::Changeset::new(orig, edit, "\n");
    let rendered = format!("{}", changeset);
    (changeset.distance, rendered)
}

} // verus!
