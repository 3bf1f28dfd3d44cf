//! Canonicalization of line endings before comparing generated text.
//!
//! Both a `"\r\n"` pair and a lone `'\r'` stand for one line break; comparing
//! generated text against a committed file must not depend on which form a
//! platform wrote.  `normalize_spec` defines the canonical form: scanning left
//! to right, each `"\r\n"` pair and each remaining `'\r'` becomes `'\n'`.

use vstd::prelude::*;

verus! {

/// The canonical form of a text: every line break is a single `'\n'`.
///
/// Scanning left to right, a `"\r\n"` pair becomes one `'\n'` and a `'\r'`
/// not followed by `'\n'` becomes `'\n'`; every other character is kept.
pub open spec fn normalize_spec(s: Seq<char>) -> Seq<char>
    decreases s.len(),
{
    if s.len() == 0 {
        Seq::<char>::empty()
    } else if s[0] == '\r' && s.len() >= 2 && s[1] == '\n' {
        seq!['\n'] + normalize_spec(s.skip(2))
    } else if s[0] == '\r' {
        seq!['\n'] + normalize_spec(s.skip(1))
    } else {
        seq![s[0]] + normalize_spec(s.skip(1))
    }
}

/// Relies on `normalize_line_endings::normalized`: it turns every `"\r\n"`
/// pair and every remaining `'\r'` of its input into `'\n'`, scanning left to
/// right, and keeps every other character.
#[verifier::external_body]
pub(crate) fn normalized_str(s: &str) -> (r: String)
    ensures
        r@ == normalize_spec(s@),
{
    String::from_iter(normalize_line_endings::normalized(s.chars()))
}

/// Normalization never lengthens a text.
pub proof fn lemma_normalize_len(s: Seq<char>)
    ensures
        normalize_spec(s).len() <= s.len(),
    decreases s.len(),
{
    if s.len() == 0 {
    } else if s[0] == '\r' && s.len() >= 2 && s[1] == '\n' {
        lemma_normalize_len(s.skip(2));
    } else if s[0] == '\r' {
        lemma_normalize_len(s.skip(1));
    } else {
        lemma_normalize_len(s.skip(1));
    }
}

/// A normalized text holds no carriage return.
pub proof fn lemma_normalize_no_cr(s: Seq<char>)
    ensures
        forall|i: int| 0 <= i < normalize_spec(s).len() ==> normalize_spec(s)[i] != '\r',
    decreases s.len(),
{
    if s.len() == 0 {
    } else if s[0] == '\r' && s.len() >= 2 && s[1] == '\n' {
        lemma_normalize_no_cr(s.skip(2));
        assert forall|i: int| 0 <= i < normalize_spec(s).len() implies normalize_spec(s)[i]
            != '\r' by {
            if i > 0 {
                assert(normalize_spec(s)[i] == normalize_spec(s.skip(2))[i - 1]);
            }
        }
    } else if s[0] == '\r' {
        lemma_normalize_no_cr(s.skip(1));
        assert forall|i: int| 0 <= i < normalize_spec(s).len() implies normalize_spec(s)[i]
            != '\r' by {
            if i > 0 {
                assert(normalize_spec(s)[i] == normalize_spec(s.skip(1))[i - 1]);
            }
        }
    } else {
        lemma_normalize_no_cr(s.skip(1));
        assert forall|i: int| 0 <= i < normalize_spec(s).len() implies normalize_spec(s)[i]
            != '\r' by {
            if i > 0 {
                assert(normalize_spec(s)[i] == normalize_spec(s.skip(1))[i - 1]);
            }
        }
    }
}

/// A text without carriage returns is already canonical.
pub proof fn lemma_normalize_cr_free(s: Seq<char>)
    requires
        forall|i: int| 0 <= i < s.len() ==> s[i] != '\r',
    ensures
        normalize_spec(s) == s,
    decreases s.len(),
{
    if s.len() == 0 {
        assert(normalize_spec(s) =~= s);
    } else {
        assert(s[0] != '\r');
        assert forall|i: int| 0 <= i < s.skip(1).len() implies s.skip(1)[i] != '\r' by {
            assert(s.skip(1)[i] == s[i + 1]);
        }
        lemma_normalize_cr_free(s.skip(1));
        assert(normalize_spec(s) =~= s);
    }
}

/// Normalizing twice is the same as normalizing once.
pub proof fn lemma_normalize_idempotent(s: Seq<char>)
    ensures
        normalize_spec(normalize_spec(s)) == normalize_spec(s),
{
    lemma_normalize_no_cr(s);
    lemma_normalize_cr_free(normalize_spec(s));
}

} // verus!
