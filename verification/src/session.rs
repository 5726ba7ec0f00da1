//! What a document session keeps about its edits, and the one guard every
//! recorded edit of annotations and form fields passes through.

use vstd::prelude::*;

verus! {

/// What a session records about its edits.
#[derive(Clone, Copy, Debug, PartialEq, Eq, Structural)]
pub struct EditCounters {
    /// Bumped by every recorded edit, so a dialog opened before it can tell
    /// that its view of the document is stale.
    pub edit_revision: u64,
    /// Whether the document holds edits not yet written to disk.
    pub unsaved_to_disk: bool,
}

/// What running `operation` under the edit guard did: with a refusal the
/// operation never ran and the refusal is the status line; with no
/// document the operation never ran either; otherwise it ran, and a success
/// bumped the revision and marked the document unsaved, its message the
/// status line, while a failure changed nothing and its error is the
/// status line.
pub open spec fn guarded_run<F: FnOnce() -> Result<String, String>>(
    refusal: Option<&'static str>,
    has_document: bool,
    no_document: Seq<char>,
    before: EditCounters,
    after: EditCounters,
    status: Seq<char>,
    operation: F,
) -> bool {
    match refusal {
        Some(r) => status == r@ && after == before,
        None => if !has_document {
            status == no_document && after == before
        } else {
            exists|outcome: Result<String, String>|
                call_ensures(operation, (), outcome) && match outcome {
                    Ok(message) => status == message@ && after == (EditCounters {
                        edit_revision: (before.edit_revision + 1) as u64,
                        unsaved_to_disk: true,
                    }),
                    Err(error) => status == error@ && after == before,
                }
        },
    }
}

/// Runs `operation` under the edit guard (see [`guarded_run`]).
pub fn run_guarded<F: FnOnce() -> Result<String, String>>(
    refusal: Option<&'static str>,
    has_document: bool,
    no_document: &'static str,
    counters: &mut EditCounters,
    operation: F,
) -> (status: String)
    requires
        old(counters).edit_revision < u64::MAX,
        refusal is None && has_document ==> call_requires(operation, ()),
    ensures
        guarded_run(refusal, has_document, no_document@, *old(counters), *final(counters), status@, operation),
{
    if let Some(r) = refusal {
        return r.to_owned();
    }
    if !has_document {
        return no_document.to_owned();
    }
    let outcome = operation();
    match outcome {
        Ok(message) => {
            counters.edit_revision = counters.edit_revision + 1;
            counters.unsaved_to_disk = true;
            message
        },
        Err(error) => error,
    }
}

/// Which document, at which edit, a dialog was opened on.
#[derive(Clone, Copy, Debug, PartialEq, Eq, Structural)]
pub struct SessionToken {
    /// The open attempt that produced the document.
    pub generation: u64,
    pub edit_revision: u64,
}

impl SessionToken {
    /// Whether the document is still the one the dialog opened on, with no
    /// edit recorded since.
    pub fn matches(&self, generation: u64, edit_revision: u64) -> (current: bool)
        ensures
            current == (self.generation == generation && self.edit_revision == edit_revision),
    {
        self.generation == generation && self.edit_revision == edit_revision
    }
}

/// A dialog's token goes stale once an edit is recorded under the edit guard:
/// a success bumps the revision, so a choice made in a dialog opened before
/// it is discarded rather than applied to a document it never saw.
pub proof fn a_recorded_edit_makes_older_tokens_stale<F: FnOnce() -> Result<String, String>>(
    token: SessionToken,
    generation: u64,
    before: EditCounters,
    after: EditCounters,
    status: Seq<char>,
    no_document: Seq<char>,
    operation: F,
)
    requires
        token.generation == generation && token.edit_revision == before.edit_revision,
        before.edit_revision < u64::MAX,
        guarded_run(None, true, no_document, before, after, status, operation),
        after != before,
    ensures
        !(token.generation == generation && token.edit_revision == after.edit_revision),
{
}

} // verus!
