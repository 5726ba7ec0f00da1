//! Opening a document: which edits its security settings allow, what it is
//! called, where new form field ids start, which open attempt is still the
//! current one, and what happens to unsaved edits before it is replaced or
//! the window closes.

use vstd::prelude::*;

use crate::text::join;

verus! {

/// Where a document was opened from, as its name is read.
#[derive(Clone, Debug, PartialEq)]
pub enum SourceKind {
    /// A file; its name, when the path has one that is valid text.
    File(Option<String>),
    /// A sample shipped with the application.
    Embedded,
    /// A document made in memory, such as a new blank one.
    Bytes,
}

/// The name a document is shown under.
pub fn source_name(source: &SourceKind) -> (name: String)
    ensures
        name@ == (match *source {
            SourceKind::File(Some(file_name)) => file_name@,
            SourceKind::File(None) => "Opened PDF"@,
            SourceKind::Embedded => "Sample document"@,
            SourceKind::Bytes => "Untitled document"@,
        }),
{
    match source {
        SourceKind::File(Some(file_name)) => file_name.clone(),
        SourceKind::File(None) => "Opened PDF".to_owned(),
        SourceKind::Embedded => "Sample document".to_owned(),
        SourceKind::Bytes => "Untitled document".to_owned(),
    }
}

/// What reading a document's security settings found.
#[derive(Clone, Copy, Debug, PartialEq, Eq, Structural)]
pub enum SecurityProbe {
    /// The settings could not be read.
    Unreadable,
    /// What the settings allow.
    Read {
        text_extraction: bool,
        annotation_editing: bool,
        content_editing: bool,
        assembly: bool,
    },
}

#[derive(Clone, Copy, Debug, PartialEq, Eq, Structural)]
pub enum TextAccess {
    Allowed,
    Forbidden,
    Unreadable,
}

/// Editing that also needs an editable model of the document.
#[derive(Clone, Copy, Debug, PartialEq, Eq, Structural)]
pub enum EditAccess {
    Allowed,
    Forbidden,
    /// The settings could not be read, or no editable model could be built.
    Unavailable,
}

#[derive(Clone, Copy, Debug, PartialEq, Eq, Structural)]
pub enum PageAssemblyAccess {
    Allowed,
    Forbidden,
    Unreadable,
}

/// Whether text may be extracted (searched, copied, exported).
pub fn text_access_from(probe: SecurityProbe) -> (access: TextAccess)
    ensures
        access == (match probe {
            SecurityProbe::Unreadable => TextAccess::Unreadable,
            SecurityProbe::Read { text_extraction, .. } => if text_extraction {
                TextAccess::Allowed
            } else {
                TextAccess::Forbidden
            },
        }),
{
    match probe {
        SecurityProbe::Unreadable => TextAccess::Unreadable,
        SecurityProbe::Read { text_extraction, .. } => if text_extraction {
            TextAccess::Allowed
        } else {
            TextAccess::Forbidden
        },
    }
}

pub open spec fn spec_edit_access(readable: bool, allowed: bool, has_model: bool) -> EditAccess {
    if readable && !allowed {
        EditAccess::Forbidden
    } else if readable && has_model {
        EditAccess::Allowed
    } else {
        EditAccess::Unavailable
    }
}

/// Whether annotations may be edited: forbidden by the settings, or allowed
/// when an editable model exists; unavailable otherwise.
pub fn annotation_access_from(probe: SecurityProbe, has_model: bool) -> (access: EditAccess)
    ensures
        access == (match probe {
            SecurityProbe::Unreadable => EditAccess::Unavailable,
            SecurityProbe::Read { annotation_editing, .. } => spec_edit_access(
                true,
                annotation_editing,
                has_model,
            ),
        }),
{
    match probe {
        SecurityProbe::Unreadable => EditAccess::Unavailable,
        SecurityProbe::Read { annotation_editing, .. } => if !annotation_editing {
            EditAccess::Forbidden
        } else if has_model {
            EditAccess::Allowed
        } else {
            EditAccess::Unavailable
        },
    }
}

/// Whether page content may be edited, on the same terms as annotations.
pub fn content_edit_access_from(probe: SecurityProbe, has_model: bool) -> (access: EditAccess)
    ensures
        access == (match probe {
            SecurityProbe::Unreadable => EditAccess::Unavailable,
            SecurityProbe::Read { content_editing, .. } => spec_edit_access(
                true,
                content_editing,
                has_model,
            ),
        }),
{
    match probe {
        SecurityProbe::Unreadable => EditAccess::Unavailable,
        SecurityProbe::Read { content_editing, .. } => if !content_editing {
            EditAccess::Forbidden
        } else if has_model {
            EditAccess::Allowed
        } else {
            EditAccess::Unavailable
        },
    }
}

/// Whether pages may be inserted, deleted, rotated and reordered.
pub fn page_assembly_access_from(probe: SecurityProbe) -> (access: PageAssemblyAccess)
    ensures
        access == (match probe {
            SecurityProbe::Unreadable => PageAssemblyAccess::Unreadable,
            SecurityProbe::Read { assembly, .. } => if assembly {
                PageAssemblyAccess::Allowed
            } else {
                PageAssemblyAccess::Forbidden
            },
        }),
{
    match probe {
        SecurityProbe::Unreadable => PageAssemblyAccess::Unreadable,
        SecurityProbe::Read { assembly, .. } => if assembly {
            PageAssemblyAccess::Allowed
        } else {
            PageAssemblyAccess::Forbidden
        },
    }
}

/// Editing is never allowed without an editable model, and never where the
/// settings forbid it.
pub proof fn editing_needs_a_model_and_permission(readable: bool, allowed: bool, has_model: bool)
    ensures
        spec_edit_access(readable, allowed, has_model) == EditAccess::Allowed <==> readable
            && allowed && has_model,
{
}

/// The largest of `ids`.
pub open spec fn max_id(ids: Seq<u64>) -> int
    decreases ids.len(),
{
    if ids.len() == 0 {
        -1
    } else {
        crate::geometry::max(max_id(ids.drop_last()), ids.last() as int)
    }
}

/// Where new form field ids start: one past the highest id the document's
/// fields carry, or zero when it has none (or no editable model).
pub fn next_form_field_id(ids: Option<&[u64]>) -> (next: u64)
    requires
        ids matches Some(v) ==> forall|i: int| 0 <= i < v@.len() ==> #[trigger] v@[i] < u64::MAX,
    ensures
        next == (match ids {
            Some(v) => max_id(v@) + 1,
            None => 0,
        }),
{
    let ids = match ids {
        Some(v) => v,
        None => {
            return 0;
        },
    };
    let mut next: u64 = 0;
    let mut i: usize = 0;
    while i < ids.len()
        invariant
            i <= ids@.len(),
            forall|j: int| 0 <= j < ids@.len() ==> #[trigger] ids@[j] < u64::MAX,
            next == max_id(ids@.take(i as int)) + 1,
        decreases ids@.len() - i,
    {
        assert(ids@.take(i + 1).drop_last() =~= ids@.take(i as int));
        assert(ids@.take(i + 1).last() == ids@[i as int]);
        if ids[i] + 1 > next {
            next = ids[i] + 1;
        }
        i = i + 1;
    }
    assert(ids@.take(i as int) =~= ids@);
    next
}

proof fn max_id_bounds(ids: Seq<u64>)
    ensures
        forall|i: int| 0 <= i < ids.len() ==> #[trigger] ids[i] <= max_id(ids),
    decreases ids.len(),
{
    if ids.len() > 0 {
        max_id_bounds(ids.drop_last());
        assert forall|i: int| 0 <= i < ids.len() implies #[trigger] ids[i] <= max_id(ids) by {
            if i < ids.len() - 1 {
                assert(ids.drop_last()[i] == ids[i]);
            }
        }
    }
}

/// A new form field's id is never one the document's fields already carry.
pub proof fn a_new_field_id_is_never_taken(ids: Seq<u64>)
    ensures
        forall|i: int| 0 <= i < ids.len() ==> #[trigger] ids[i] < max_id(ids) + 1,
{
    max_id_bounds(ids);
}

/// What the unsaved-changes prompt answered.
#[derive(Clone, Copy, Debug, PartialEq, Eq, Structural)]
pub enum UnsavedDecision {
    /// Keep the edits and stay: the prompt was cancelled or dismissed.
    Keep,
    /// Drop the edits and carry on.
    Discard,
    /// Save first, then carry on once the save went through.
    Save,
}

/// Reads the prompt's answer: the button pressed (Cancel, Discard, Save in
/// that order), or nothing when it was dismissed.
pub fn unsaved_decision(response: Option<i32>) -> (decision: UnsavedDecision)
    ensures
        decision == (match response {
            Some(1) => UnsavedDecision::Discard,
            Some(2) => UnsavedDecision::Save,
            _ => UnsavedDecision::Keep,
        }),
{
    match response {
        Some(1) => UnsavedDecision::Discard,
        Some(2) => UnsavedDecision::Save,
        _ => UnsavedDecision::Keep,
    }
}

/// Said when the prompt keeps the edits.
pub const KEPT_UNSAVED: &'static str = "Kept the unsaved changes.";

/// Why the prompt is asked.
#[derive(Clone, Copy, Debug, PartialEq, Eq, Structural)]
pub enum UnsavedReason {
    OpeningAnother,
    Closing,
}

/// The prompt's detail line.
pub fn unsaved_changes_detail(reason: UnsavedReason) -> (detail: String)
    ensures
        detail@ == "The open document has changes that are not saved. "@ + (match reason {
            UnsavedReason::OpeningAnother => "Opening another document will discard them."@,
            UnsavedReason::Closing => "Closing Vitela will discard them."@,
        }),
{
    let reason_text = match reason {
        UnsavedReason::OpeningAnother => "Opening another document will discard them.",
        UnsavedReason::Closing => "Closing Vitela will discard them.",
    };
    join("The open document has changes that are not saved. ", reason_text)
}

/// Starts a new open attempt: every attempt gets its own generation, and
/// only the newest one may show its document.
pub fn begin_loading(generation: &mut u64) -> (attempt: u64)
    requires
        *old(generation) < u64::MAX,
    ensures
        *final(generation) == *old(generation) + 1,
        attempt == *final(generation),
{
    *generation = *generation + 1;
    *generation
}

/// How an open attempt came back.
#[derive(Clone, Copy, Debug, PartialEq, Eq, Structural)]
pub enum OpenResult {
    Opened,
    /// The document needs a password, or the one given was wrong.
    WrongPassword,
    Failed,
}

/// What to do with an open attempt's result.
#[derive(Clone, Copy, Debug, PartialEq, Eq, Structural)]
pub enum OpenRoute {
    /// Show the document.
    Show,
    /// A newer attempt superseded this one: close what it opened.
    CloseStale,
    /// Ask for the password (again).
    AskPassword,
    /// Say it could not be opened.
    Report,
    /// A superseded attempt failed: nothing to do.
    Ignore,
}

pub open spec fn spec_open_route(result: OpenResult, attempt: u64, current: u64) -> OpenRoute {
    if attempt == current {
        match result {
            OpenResult::Opened => OpenRoute::Show,
            OpenResult::WrongPassword => OpenRoute::AskPassword,
            OpenResult::Failed => OpenRoute::Report,
        }
    } else {
        match result {
            OpenResult::Opened => OpenRoute::CloseStale,
            _ => OpenRoute::Ignore,
        }
    }
}

/// Routes an open attempt's result: only the attempt that is still the
/// newest shows its document, asks for a password or reports a failure; a
/// superseded attempt's document is closed unseen.
pub fn open_route(result: OpenResult, attempt: u64, current: u64) -> (route: OpenRoute)
    ensures
        route == spec_open_route(result, attempt, current),
{
    if attempt == current {
        match result {
            OpenResult::Opened => OpenRoute::Show,
            OpenResult::WrongPassword => OpenRoute::AskPassword,
            OpenResult::Failed => OpenRoute::Report,
        }
    } else {
        match result {
            OpenResult::Opened => OpenRoute::CloseStale,
            _ => OpenRoute::Ignore,
        }
    }
}

/// Once a newer open attempt has begun, an older one never replaces the
/// document on screen, never asks for a password and never reports: what
/// it opened is closed unseen.
pub proof fn a_superseded_open_never_shows(result: OpenResult, attempt: u64, current: u64)
    requires
        attempt < current,
    ensures
        spec_open_route(result, attempt, current) != OpenRoute::Show,
        spec_open_route(result, attempt, current) != OpenRoute::AskPassword,
        spec_open_route(result, attempt, current) != OpenRoute::Report,
        result == OpenResult::Opened ==> spec_open_route(result, attempt, current)
            == OpenRoute::CloseStale,
{
}

/// Said while an open attempt runs.
pub const OPENING: &'static str = "Opening PDF...";

/// Said while an attempt with a password runs.
pub const OPENING_WITH_PASSWORD: &'static str = "Opening password-protected PDF...";

/// Said, with [`WRONG_PASSWORD`] under the entry, when the password was
/// wrong and the prompt asks again.
pub const WAITING_FOR_PASSWORD: &'static str = "Waiting for the document password.";

pub const WRONG_PASSWORD: &'static str = "The password is incorrect. Try again.";

pub const PASSWORD_CANCELLED: &'static str = "Password entry cancelled.";

/// The status line when a document could not be opened.
pub fn open_failure_message(error: &str) -> (message: String)
    ensures
        message@ == "Could not open PDF: "@ + error@,
{
    join("Could not open PDF: ", error)
}

/// What the window shows once a document with `page_count` pages is in.
#[derive(Clone, Copy, Debug, PartialEq, Eq, Structural)]
pub struct PageControls {
    /// Print, Save and Export.
    pub output: bool,
    /// The application mark stands in for an empty document.
    pub app_mark: bool,
}

/// Print, Save and Export need a page; an empty document shows the mark
/// and says so.
pub fn page_controls(page_count: usize) -> (shown: (PageControls, Option<&'static str>))
    ensures
        shown.0.output == (page_count > 0),
        shown.0.app_mark == (page_count == 0),
        page_count == 0 ==> (shown.1 matches Some(m) && m@ == "The PDF contains no pages."@),
        page_count > 0 ==> shown.1 is None,
{
    if page_count == 0 {
        (PageControls { output: false, app_mark: true }, Some("The PDF contains no pages."))
    } else {
        (PageControls { output: true, app_mark: false }, None)
    }
}

} // verus!
