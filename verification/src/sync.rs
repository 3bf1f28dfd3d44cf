//! The decision at the heart of the tool: write the generated text, or check
//! it against what is already on disk.
//!
//! The caller performs the file reads and writes; [`CodeGenArgs::write_str`]
//! takes the generated text and, in check mode, the file's contents as plain
//! values, and returns the [`SyncAction`] the caller must carry out.

use vstd::prelude::*;

use crate::diff::changeset_diff;
use crate::diff::diff_render_of;
use crate::diff::DIFF_INPUT_LIMIT;
use crate::normalize::lemma_normalize_len;
use crate::normalize::lemma_normalize_idempotent;
use crate::normalize::normalize_spec;
use crate::normalize::normalized_str;

verus! {

/// Check mode accepts the generated text exactly when it equals the on-disk
/// text once both have their line endings canonicalized.
pub open spec fn contents_match(content: Seq<char>, actual: Seq<char>) -> bool {
    normalize_spec(content) == normalize_spec(actual)
}

/// How reconciling generated text with its destination can fail.
#[derive(Clone, Copy, Debug, PartialEq, Eq, Structural)]
pub enum CodeGenError {
    /// The destination file could not be read (check mode) or written
    /// (write mode).  In check mode a missing file fails this way: the
    /// generator has never been run.
    Io,
    /// The generated text differs from the on-disk text even after line
    /// endings are canonicalized.  Check mode only.
    Mismatch,
}

/// What the caller must do after the decision.
#[derive(Debug)]
pub enum SyncAction {
    /// Write mode: persist the generated text verbatim to the destination,
    /// truncating whatever the file held before.
    Write,
    /// Check mode, contents match: report success; the file is untouched.
    ReportMatch,
    /// Check mode, contents differ: emit the carried rendering of the
    /// differences as a diagnostic and fail with [`CodeGenError::Mismatch`].
    ReportMismatch(String),
    /// Check mode, the destination could not be read: fail with
    /// [`CodeGenError::Io`].
    FailRead,
}

/// Destination path and mode flag for one reconciliation.
#[derive(Clone, Debug)]
pub struct CodeGenArgs {
    /// Where the generated text belongs.
    pub output: String,
    /// `true` for check mode, `false` for write mode.
    pub check: bool,
}

impl SyncAction {
    /// The result the whole operation ends with once this action is carried
    /// out: success is owed exactly for a write and for a match, a failed
    /// read is an I/O error and never a mismatch, and a mismatch is never an
    /// I/O error.
    pub fn outcome(&self) -> (r: Result<(), CodeGenError>)
        ensures
            r is Ok <==> (self is Write || self is ReportMatch),
            self is FailRead ==> r == Err::<(), CodeGenError>(CodeGenError::Io),
            self is ReportMismatch ==> r == Err::<(), CodeGenError>(CodeGenError::Mismatch),
    {
        match self {
            SyncAction::Write => Ok(()),
            SyncAction::ReportMatch => Ok(()),
            SyncAction::ReportMismatch(_) => Err(CodeGenError::Mismatch),
            SyncAction::FailRead => Err(CodeGenError::Io),
        }
    }
}

impl CodeGenArgs {
    /// Write or verify code-genned text.
    ///
    /// `on_disk` is the current contents of the destination file, or `None`
    /// where it could not be read; write mode never looks at it.  The length
    /// bounds are what the diff backend's `i32` distance forces.
    pub fn write_str(&self, content: &str, on_disk: Option<&str>) -> (a: SyncAction)
        requires
            self.check ==> content@.len() < DIFF_INPUT_LIMIT,
            self.check && on_disk is Some ==> on_disk->0@.len() < DIFF_INPUT_LIMIT,
        ensures
            a is Write <==> !self.check,
            a is FailRead <==> (self.check && on_disk is None),
            a is ReportMatch <==> (self.check && on_disk is Some && contents_match(
                content@,
                on_disk->0@,
            )),
            a is ReportMismatch <==> (self.check && on_disk is Some && !contents_match(
                content@,
                on_disk->0@,
            )),
            a is ReportMismatch ==> a->0@ == diff_render_of(
                normalize_spec(on_disk->0@),
                normalize_spec(content@),
            ),
    {
        if !self.check {
            SyncAction::Write
        } else {
            match on_disk {
                None => SyncAction::FailRead,
                Some(actual) => {
                    let normalized_content = normalized_str(content);
                    let normalized_actual = normalized_str(actual);
                    proof {
                        lemma_normalize_len(content@);
                        lemma_normalize_len(actual@);
                    }
                    let diff = changeset_diff(
                        normalized_actual.as_str(),
                        normalized_content.as_str(),
                    );
                    if diff.0 != 0 {
                        SyncAction::ReportMismatch(diff.1)
                    } else {
                        SyncAction::ReportMatch
                    }
                },
            }
        }
    }
}

/// Write-then-check idempotence: a check of some generated text against
/// on-disk text equal to it always matches, so writing a blob and then
/// checking the same blob succeeds.
pub proof fn lemma_write_then_check_matches(s: Seq<char>)
    ensures
        contents_match(s, s),
{
}

/// Mismatch detection: texts that differ after canonicalization never match,
/// so a check of one against the other fails.
pub proof fn lemma_mismatch_detected(content: Seq<char>, actual: Seq<char>)
    requires
        normalize_spec(content) != normalize_spec(actual),
    ensures
        !contents_match(content, actual),
{
}

/// Line-ending insensitivity: a text matches its own canonical form, so a
/// blob written with one line-ending convention passes a check against the
/// same blob written with another.
pub proof fn lemma_line_endings_insensitive(s: Seq<char>)
    ensures
        contents_match(normalize_spec(s), s),
        contents_match(s, normalize_spec(s)),
{
    lemma_normalize_idempotent(s);
}

} // verus!
