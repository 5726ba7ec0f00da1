//! The decisions of a content-editing session: opening the inline editor on
//! a run, committing or deleting what it holds, dragging text and images,
//! routing a release on the page, and which editing mode is armed.
//!
//! Each function decides and hands back what to do; checking an edit
//! against the page, writing the log and updating the window are done by
//! the caller with what it is handed.

use vstd::prelude::*;

use crate::content::command::{
    amended_command, amends_to, image_already_edited, move_index, pending_move_index,
    pending_text_command, spec_image_already_edited, spec_pending_text, text_move_refusal,
    retype_index, MoveRecord, PendingText, UNSAVED_RETYPE,
};
use crate::content::model::{
    content_ok, copy_image, copy_run, font_claims, font_names, image_at, image_boxes,
    is_first_free, reserved_font_resource_names, reserved_xobject_resource_names, smallest_hit,
    text_run_at, unused_font_resource_name, unused_xobject_resource_name, xobject_claims,
    xobject_names, FontKind, ImageItem, PageContent, PendingCommand, TextRun,
};
use crate::geometry::{
    abs, contains, corner_at, dragged_rect, moved_rect, point_ok, rect_ok, spec_contains,
    spec_corner_at, spec_dragged, spec_moved, DragMode, Point, Rect, COORD_LIMIT,
};

verus! {

/// Said when the page behind an edit cannot be edited.
pub const PAGE_NOT_EDITABLE: &'static str = "That page cannot be edited — nothing was recorded.";

/// Said when the queued edit an edit depended on is gone.
pub const NOTHING_RECORDED: &'static str =
    "That edit is no longer available — nothing was recorded.";

/// Said when deleting a run that is itself a pending insertion.
pub const INSERTION_NOT_DELETABLE: &'static str =
    "This text hasn't been saved yet — undo the insertion to remove it.";

/// Said when retyping a run whose move has not been saved.
pub const MOVED_NOT_SAVED: &'static str =
    "This text was moved and not yet saved — save and reopen before retyping it.";

/// Said when editing a run whose pending insertion the log no longer holds.
pub const EDIT_NO_LONGER_AVAILABLE: &'static str =
    "This text is part of an unsaved edit that is no longer available — save and reopen before editing it again.";

/// Said when editing an image that already has a pending edit.
pub const IMAGE_ALREADY_EDITED: &'static str =
    "This image already has a pending edit — save and reopen before editing it again.";

pub const TEXT_UPDATED: &'static str = "Text updated.";

pub const TEXT_INSERTED: &'static str = "Text inserted.";

pub const TEXT_DELETED: &'static str = "Text deleted.";

pub const TEXT_MOVED: &'static str = "Text moved.";

/// Said when Escape closes the editor without recording.
pub const EDIT_CANCELLED: &'static str = "Edit cancelled.";

/// The box a new text insertion starts with (150 x 14 pt).
pub const INSERT_TEXT_WIDTH: i64 = 150_000;
pub const INSERT_TEXT_HEIGHT: i64 = 14_000;

/// How far the pointer may travel, on each axis, and still count as a
/// click (4 px, in thousandths of a pixel).
pub const CLICK_EPSILON: i64 = 4000;

/// How far a drag preview bleeds past the box it shows (2 pt), so the
/// glyphs' edges come along.
pub const PREVIEW_BLEED: i64 = 2000;

/// What opening the inline editor on a run decides.
#[derive(Clone, Copy, Debug, PartialEq, Eq)]
pub enum EditorOpening {
    /// The run's font is composite and cannot take new text.
    CompositeFont,
    /// Refused, with the message to show.
    Refuse(&'static str),
    /// Open the editor; committing will amend this log position, if any.
    Open(Option<usize>),
}

pub open spec fn spec_editor_opening(entries: Seq<PendingCommand>, run: TextRun) -> EditorOpening {
    if run.font_kind == FontKind::EmbeddedComposite {
        EditorOpening::CompositeFont
    } else {
        match spec_pending_text(entries, run) {
            PendingText::Nothing => if move_index(entries, run) is Some {
                EditorOpening::Refuse(MOVED_NOT_SAVED)
            } else {
                EditorOpening::Open(None)
            },
            PendingText::Amend(index) => EditorOpening::Open(Some(index)),
            PendingText::Unresolvable => EditorOpening::Refuse(EDIT_NO_LONGER_AVAILABLE),
        }
    }
}

/// Whether the inline editor may open on `run`, and whether its commit will
/// amend a queued command: a run with a queued retype or insertion amends
/// it; a run moved but not saved must be saved before it is retyped; a run
/// whose insertion is gone cannot be edited at all.
pub fn editor_opening(pending: &[PendingCommand], run: &TextRun) -> (opening: EditorOpening)
    ensures
        opening == spec_editor_opening(pending@, *run),
{
    if run.font_kind == FontKind::EmbeddedComposite {
        return EditorOpening::CompositeFont;
    }
    match pending_text_command(pending, run) {
        PendingText::Nothing => if pending_move_index(pending, run).is_some() {
            EditorOpening::Refuse(MOVED_NOT_SAVED)
        } else {
            EditorOpening::Open(None)
        },
        PendingText::Amend(index) => EditorOpening::Open(Some(index)),
        PendingText::Unresolvable => EditorOpening::Refuse(EDIT_NO_LONGER_AVAILABLE),
    }
}

/// The inline editor open on a page: the run it edits (for an insertion, the
/// run being composed), and the queued command its commit amends.
#[derive(Clone, Debug, PartialEq)]
pub struct OpenEditor {
    pub page_index: usize,
    pub run: TextRun,
    pub is_insertion: bool,
    pub amends: Option<usize>,
}

/// Whether the editor is composing new text that has not joined the log:
/// only such an editor can be dragged to a new spot before it commits.
pub fn is_composing_an_insertion(editor: &OpenEditor) -> (composing: bool)
    ensures
        composing == (editor.is_insertion && editor.amends is None),
{
    editor.is_insertion && editor.amends.is_none()
}

/// Whether a drag of the composing editor is moving it: once it moves it
/// keeps moving; before that, travel past the click slop on either axis
/// starts it, so a click inside the entry still places the caret.
pub fn drag_is_moving(moving: bool, offset_x: i64, offset_y: i64) -> (now_moving: bool)
    requires
        -COORD_LIMIT <= offset_x <= COORD_LIMIT,
        -COORD_LIMIT <= offset_y <= COORD_LIMIT,
    ensures
        now_moving == (moving || !(abs(offset_x as int) < CLICK_EPSILON && abs(offset_y as int)
            < CLICK_EPSILON)),
{
    moving || !is_a_click_offset(offset_x, offset_y)
}

/// What committing the inline editor does.
#[derive(Clone, Debug, PartialEq)]
pub enum CommitStep {
    /// Nothing changed: close the editor and record nothing.
    Close,
    /// Close the editor, record nothing, and say why.
    Abandon(&'static str),
    /// Check `command` against the page, then record it (in place of the
    /// entry at `amend`, or appended); once recorded, close the editor and
    /// say `done`.
    Record { command: PendingCommand, amend: Option<usize>, done: &'static str },
}

/// `command` records `run` retyped to `after`: a new insertion, or a
/// replacement of the run as the file holds it.
pub open spec fn records_text(run: TextRun, is_insertion: bool, after: Seq<char>, command: PendingCommand) -> bool {
    if is_insertion {
        command matches PendingCommand::InsertTextRun(new_run) && crate::content::command::reworded(
            run,
            new_run,
            after,
            run.bbox,
        )
    } else {
        command matches PendingCommand::ReplaceTextRunContent { item, after: text } && item == run
            && text@ == after
    }
}

pub open spec fn spec_commit(
    editor: OpenEditor,
    after: Seq<char>,
    entries: Seq<PendingCommand>,
    page_editable: bool,
    step: CommitStep,
) -> bool {
    if after == editor.run.text@ {
        step == CommitStep::Close
    } else if !page_editable {
        step == CommitStep::Abandon(PAGE_NOT_EDITABLE)
    } else {
        match editor.amends {
            Some(index) => if index < entries.len() && (entries[index as int] is InsertTextRun
                || entries[index as int] is ReplaceTextRunContent) {
                step matches CommitStep::Record { command, amend, done } && amend == Some(index)
                    && done == TEXT_UPDATED && amends_to(
                    entries[index as int],
                    after,
                    None,
                    Some(command),
                )
            } else {
                step == CommitStep::Abandon(NOTHING_RECORDED)
            },
            None => step matches CommitStep::Record { command, amend, done } && amend is None
                && done == (if editor.is_insertion {
                TEXT_INSERTED
            } else {
                TEXT_UPDATED
            }) && records_text(editor.run, editor.is_insertion, after, command),
        }
    }
}

/// What committing the editor holding `after` does: an unchanged run closes
/// quietly; an uneditable page, or an amended entry that is gone, closes
/// with nothing recorded; otherwise the retype is recorded, folded into the
/// queued command the editor amends, or as a new insertion or replacement.
pub fn plan_commit(
    editor: &OpenEditor,
    after: &str,
    pending: &[PendingCommand],
    page_editable: bool,
) -> (step: CommitStep)
    ensures
        spec_commit(*editor, after@, pending@, page_editable, step),
{
    if crate::text::same_text(after, editor.run.text.as_str()) {
        return CommitStep::Close;
    }
    if !page_editable {
        return CommitStep::Abandon(PAGE_NOT_EDITABLE);
    }
    match editor.amends {
        Some(index) => {
            if index >= pending.len() {
                return CommitStep::Abandon(NOTHING_RECORDED);
            }
            match amended_command(&pending[index], after, None) {
                Some(command) => CommitStep::Record { command, amend: Some(index), done: TEXT_UPDATED },
                None => CommitStep::Abandon(NOTHING_RECORDED),
            }
        },
        None => {
            if editor.is_insertion {
                let mut run = copy_run(&editor.run);
                run.text = after.to_owned();
                CommitStep::Record {
                    command: PendingCommand::InsertTextRun(run),
                    amend: None,
                    done: TEXT_INSERTED,
                }
            } else {
                CommitStep::Record {
                    command: PendingCommand::ReplaceTextRunContent {
                        item: copy_run(&editor.run),
                        after: after.to_owned(),
                    },
                    amend: None,
                    done: TEXT_UPDATED,
                }
            }
        },
    }
}


/// What deleting the run under the open editor does.
#[derive(Clone, Debug, PartialEq)]
pub enum RunRemoval {
    /// The editor is composing an insertion: there is no run to delete yet.
    Ignore,
    /// Refused, with the message to show; the editor stays open.
    Refuse(&'static str),
    /// Check `command` against the page, then record it (in place of the
    /// entry at `amend`, or appended).
    Remove { command: PendingCommand, amend: Option<usize> },
}

pub open spec fn spec_run_removal(
    editor: OpenEditor,
    entries: Seq<PendingCommand>,
    page_editable: bool,
) -> RunRemoval {
    if editor.is_insertion {
        RunRemoval::Ignore
    } else {
        let target: Option<(TextRun, Option<usize>)> = match editor.amends {
            None => Some((editor.run, None)),
            Some(index) => if index < entries.len() {
                match entries[index as int] {
                    PendingCommand::ReplaceTextRunContent { item, .. } => Some((item, Some(index))),
                    _ => None,
                }
            } else {
                None
            },
        };
        match target {
            None => if editor.amends matches Some(index) && index < entries.len()
                && entries[index as int] is InsertTextRun {
                RunRemoval::Refuse(INSERTION_NOT_DELETABLE)
            } else {
                RunRemoval::Refuse(NOTHING_RECORDED)
            },
            Some((run, amend)) => if !page_editable {
                RunRemoval::Refuse(PAGE_NOT_EDITABLE)
            } else {
                RunRemoval::Remove { command: PendingCommand::RemoveTextRun(run), amend }
            },
        }
    }
}

/// What deleting the run under the editor does. The removal targets the
/// run as the file holds it: when the editor amends a queued retype, the
/// removal takes that retype's place. A pending insertion cannot be
/// deleted this way (undoing it removes it), and an amended entry that is
/// gone leaves nothing to delete.
pub fn plan_run_removal(editor: &OpenEditor, pending: &[PendingCommand], page_editable: bool) -> (removal: RunRemoval)
    ensures
        removal == spec_run_removal(*editor, pending@, page_editable),
{
    if editor.is_insertion {
        return RunRemoval::Ignore;
    }
    let (run, amend) = match editor.amends {
        None => (copy_run(&editor.run), None),
        Some(index) => {
            if index >= pending.len() {
                return RunRemoval::Refuse(NOTHING_RECORDED);
            }
            match &pending[index] {
                PendingCommand::ReplaceTextRunContent { item, .. } => (copy_run(item), Some(index)),
                PendingCommand::InsertTextRun(_) => {
                    return RunRemoval::Refuse(INSERTION_NOT_DELETABLE);
                },
                _ => {
                    return RunRemoval::Refuse(NOTHING_RECORDED);
                },
            }
        },
    };
    if !page_editable {
        return RunRemoval::Refuse(PAGE_NOT_EDITABLE);
    }
    RunRemoval::Remove { command: PendingCommand::RemoveTextRun(run), amend }
}

/// How recording an edit ended, from the check against the page and
/// whether the log took it: a refused check carries its message, a log
/// that no longer held the amended entry means nothing was recorded.
pub fn record_outcome(checked: Result<(), String>, recorded: bool) -> (outcome: MoveRecord)
    ensures
        match checked {
            Err(message) => outcome == MoveRecord::Refused(message),
            Ok(()) => outcome == (if recorded {
                MoveRecord::Recorded
            } else {
                MoveRecord::Lost
            }),
        },
{
    match checked {
        Err(message) => MoveRecord::Refused(message),
        Ok(()) => if recorded {
            MoveRecord::Recorded
        } else {
            MoveRecord::Lost
        },
    }
}

/// The status line after recording an edit: `done` once recorded, the
/// refusal's own message, or that nothing was recorded.
pub fn status_after(outcome: &MoveRecord, done: &str) -> (message: String)
    ensures
        message@ == (match *outcome {
            MoveRecord::Recorded => done@,
            MoveRecord::Refused(m) => m@,
            MoveRecord::Lost => NOTHING_RECORDED@,
        }),
{
    match outcome {
        MoveRecord::Recorded => done.to_owned(),
        MoveRecord::Refused(m) => m.clone(),
        MoveRecord::Lost => NOTHING_RECORDED.to_owned(),
    }
}

/// Whether the inline editor closes after recording: it stays open on a
/// refusal, so the text can be corrected.
pub fn editor_closes(outcome: &MoveRecord) -> (closes: bool)
    ensures
        closes == !(*outcome is Refused),
{
    !matches!(outcome, MoveRecord::Refused(_))
}

/// Whether a pointer travel, in thousandths of a pixel, is small enough on
/// both axes to count as a click.
pub fn is_a_click_offset(offset_x: i64, offset_y: i64) -> (click: bool)
    requires
        -COORD_LIMIT <= offset_x <= COORD_LIMIT,
        -COORD_LIMIT <= offset_y <= COORD_LIMIT,
    ensures
        click == (abs(offset_x as int) < CLICK_EPSILON && abs(offset_y as int) < CLICK_EPSILON),
{
    let dx = if offset_x < 0 {
        -offset_x
    } else {
        offset_x
    };
    let dy = if offset_y < 0 {
        -offset_y
    } else {
        offset_y
    };
    dx < CLICK_EPSILON && dy < CLICK_EPSILON
}

/// A text run being dragged to a new position.
#[derive(Clone, Debug, PartialEq)]
pub struct TextDrag {
    pub page_index: usize,
    pub run: TextRun,
    /// Why the run cannot be moved, decided when the drag began.
    pub refusal: Option<&'static str>,
    pub origin: Point,
    pub current: Point,
}

pub open spec fn text_drag_ok(drag: TextDrag) -> bool {
    rect_ok(drag.run.bbox) && point_ok(drag.origin) && point_ok(drag.current)
}

/// Starts dragging the run under `point`, if there is one: the smallest run
/// there, with the refusal a pending retype gives it.
pub fn begin_text_drag(
    content: &PageContent,
    pending: &[PendingCommand],
    page_index: usize,
    point: Point,
) -> (drag: Option<TextDrag>)
    requires
        content_ok(content@),
        point_ok(point),
    ensures
        match smallest_hit(crate::content::model::run_boxes(content.text_runs@), point) {
            Some(i) => drag matches Some(d) && d.run == content.text_runs@[i] && d.page_index
                == page_index && d.origin == point && d.current == point && (match retype_index(
                pending@,
                content.text_runs@[i],
            ) {
                Some(_) => d.refusal == Some(UNSAVED_RETYPE),
                None => d.refusal is None,
            }),
            None => drag is None,
        },
{
    match text_run_at(content, point) {
        Some(run) => {
            let refusal = text_move_refusal(pending, run);
            let refusal = match refusal {
                Some(_) => Some(UNSAVED_RETYPE),
                None => None,
            };
            Some(TextDrag { page_index, run: copy_run(run), refusal, origin: point, current: point })
        },
        None => None,
    }
}

/// The run's box where the drag has taken it: shifted by the pointer's
/// travel, its size unchanged.
pub fn dragged_origin(drag: &TextDrag) -> (to: Rect)
    requires
        text_drag_ok(*drag),
    ensures
        to == spec_moved(drag.run.bbox, drag.origin, drag.current),
{
    moved_rect(drag.run.bbox, drag.origin, drag.current)
}

pub open spec fn spec_bled(rect: Rect) -> Rect {
    Rect {
        x: (rect.x - PREVIEW_BLEED) as i64,
        y: (rect.y - PREVIEW_BLEED) as i64,
        width: (rect.width + 2 * PREVIEW_BLEED) as i64,
        height: (rect.height + 2 * PREVIEW_BLEED) as i64,
    }
}

/// `rect` grown by [`PREVIEW_BLEED`] on every side.
pub fn bled_rect(rect: Rect) -> (bled: Rect)
    requires
        -4 * COORD_LIMIT <= rect.x <= 4 * COORD_LIMIT,
        -4 * COORD_LIMIT <= rect.y <= 4 * COORD_LIMIT,
        -4 * COORD_LIMIT <= rect.width <= 4 * COORD_LIMIT,
        -4 * COORD_LIMIT <= rect.height <= 4 * COORD_LIMIT,
    ensures
        bled == spec_bled(rect),
{
    Rect {
        x: rect.x - PREVIEW_BLEED,
        y: rect.y - PREVIEW_BLEED,
        width: rect.width + 2 * PREVIEW_BLEED,
        height: rect.height + 2 * PREVIEW_BLEED,
    }
}

/// Where a text drag preview reads its pixels from and where it paints
/// them: the run's box and the dragged box, each with the bleed.
pub fn preview_rects(drag: &TextDrag) -> (rects: (Rect, Rect))
    requires
        text_drag_ok(*drag),
    ensures
        rects.0 == spec_bled(drag.run.bbox),
        rects.1 == spec_bled(spec_moved(drag.run.bbox, drag.origin, drag.current)),
{
    (bled_rect(drag.run.bbox), bled_rect(dragged_origin(drag)))
}

/// How releasing a text drag ends.
#[derive(Clone, Copy, Debug, PartialEq)]
pub enum TextDragEnd {
    /// The pointer barely moved: the release is a click, left to the click
    /// handling.
    Click,
    /// The run cannot be moved; show this.
    Refuse(&'static str),
    /// Plan and record a move to this box.
    MoveTo(Rect),
}

/// What releasing a text drag after the pointer travelled `offset` does.
pub fn finish_text_drag(drag: &TextDrag, offset_x: i64, offset_y: i64) -> (end: TextDragEnd)
    requires
        text_drag_ok(*drag),
        -COORD_LIMIT <= offset_x <= COORD_LIMIT,
        -COORD_LIMIT <= offset_y <= COORD_LIMIT,
    ensures
        if abs(offset_x as int) < CLICK_EPSILON && abs(offset_y as int) < CLICK_EPSILON {
            end == TextDragEnd::Click
        } else {
            match drag.refusal {
                Some(message) => end == TextDragEnd::Refuse(message),
                None => end == TextDragEnd::MoveTo(
                    spec_moved(drag.run.bbox, drag.origin, drag.current),
                ),
            }
        },
{
    if is_a_click_offset(offset_x, offset_y) {
        return TextDragEnd::Click;
    }
    match drag.refusal {
        Some(message) => TextDragEnd::Refuse(message),
        None => TextDragEnd::MoveTo(dragged_origin(drag)),
    }
}


pub const IMAGE_MOVED: &'static str = "Image moved.";

pub const IMAGE_RESIZED: &'static str = "Image resized.";

pub const IMAGE_DELETED: &'static str = "Image deleted.";

pub const IMAGE_REPLACED: &'static str = "Image replaced.";

pub const IMAGE_INSERTED: &'static str = "Image inserted.";

/// The image selected on a page.
#[derive(Clone, Debug, PartialEq)]
pub struct SelectedImage {
    pub page_index: usize,
    pub item: ImageItem,
}

/// An image being moved or resized.
#[derive(Clone, Debug, PartialEq)]
pub struct ImageDrag {
    pub page_index: usize,
    pub item: ImageItem,
    pub mode: DragMode,
    pub origin: Point,
    pub current: Point,
}

pub open spec fn image_drag_ok(drag: ImageDrag) -> bool {
    rect_ok(drag.item.bbox) && point_ok(drag.origin) && point_ok(drag.current)
}

/// How a press on an image's box grabs it: a corner handle resizes, the
/// body moves.
pub open spec fn spec_press_mode(rect: Rect, point: Point, reach: int) -> Option<DragMode> {
    match spec_corner_at(rect, point, reach) {
        Some(corner) => Some(DragMode::Resize(corner)),
        None => if spec_contains(rect, point) {
            Some(DragMode::Move)
        } else {
            None
        },
    }
}

/// How a press at `point` grabs an image occupying `rect`, if it does: a
/// corner handle within `reach` wins over the body.
pub fn press_mode(rect: Rect, point: Point, reach: i64) -> (mode: Option<DragMode>)
    requires
        rect_ok(rect),
        point_ok(point),
    ensures
        mode == spec_press_mode(rect, point, reach as int),
{
    match corner_at(rect, point, reach) {
        Some(corner) => Some(DragMode::Resize(corner)),
        None => if contains(rect, point) {
            Some(DragMode::Move)
        } else {
            None
        },
    }
}

/// What a press on a page does to the images on it.
#[derive(Clone, Debug, PartialEq)]
pub enum ImagePress {
    /// The selected image was grabbed; drag it this way.
    Grab(DragMode),
    /// This image becomes the selection and is grabbed by its body.
    Select(ImageItem),
    /// Nothing was hit: the selection is dropped.
    Deselect,
    /// Nothing was hit and nothing was selected.
    Miss,
}

pub open spec fn spec_image_press(
    selected: Option<SelectedImage>,
    images: Seq<ImageItem>,
    page_index: usize,
    point: Point,
    reach: int,
) -> ImagePress {
    let grabbed = match selected {
        Some(s) => if s.page_index == page_index {
            spec_press_mode(s.item.bbox, point, reach)
        } else {
            None
        },
        None => None,
    };
    match grabbed {
        Some(mode) => ImagePress::Grab(mode),
        None => match smallest_hit(image_boxes(images), point) {
            Some(i) => ImagePress::Select(images[i]),
            None => if selected is Some {
                ImagePress::Deselect
            } else {
                ImagePress::Miss
            },
        },
    }
}

/// Resolves a press at `point`: the selected image on this page gets first
/// refusal, by a corner handle or its body; otherwise the smallest image
/// under the pointer is selected; a press on bare page drops the selection.
pub fn image_press(
    selected: Option<&SelectedImage>,
    content: &PageContent,
    page_index: usize,
    point: Point,
    reach: i64,
) -> (press: ImagePress)
    requires
        content_ok(content@),
        point_ok(point),
        selected matches Some(s) ==> rect_ok(s.item.bbox),
    ensures
        press == spec_image_press(
            match selected {
                Some(s) => Some(*s),
                None => None,
            },
            content.images@,
            page_index,
            point,
            reach as int,
        ),
{
    if let Some(s) = selected {
        if s.page_index == page_index {
            if let Some(mode) = press_mode(s.item.bbox, point, reach) {
                return ImagePress::Grab(mode);
            }
        }
    }
    match image_at(content, point) {
        Some(item) => ImagePress::Select(copy_image(item)),
        None => if selected.is_some() {
            ImagePress::Deselect
        } else {
            ImagePress::Miss
        },
    }
}

/// Whether a finished image drag never moved: a click that only selected.
pub fn is_click(drag: &ImageDrag) -> (click: bool)
    ensures
        click == (drag.origin == drag.current),
{
    drag.origin.x == drag.current.x && drag.origin.y == drag.current.y
}

/// The box a finished image drag commits.
pub fn committed_image_rect(drag: &ImageDrag) -> (to: Rect)
    requires
        image_drag_ok(*drag),
    ensures
        to == spec_dragged(drag.item.bbox, drag.mode, drag.origin, drag.current),
{
    dragged_rect(drag.item.bbox, drag.mode, drag.origin, drag.current)
}

pub open spec fn spec_command_for(item: ImageItem, mode: DragMode, to: Rect) -> PendingCommand {
    match mode {
        DragMode::Move => PendingCommand::MoveImage { item, to },
        DragMode::Resize(_) => PendingCommand::ResizeImage { item, to },
    }
}

/// The command recording an image drag.
pub fn command_for(item: ImageItem, mode: DragMode, to: Rect) -> (command: PendingCommand)
    ensures
        command == spec_command_for(item, mode, to),
{
    match mode {
        DragMode::Move => PendingCommand::MoveImage { item, to },
        DragMode::Resize(_) => PendingCommand::ResizeImage { item, to },
    }
}

/// The status line once an image drag is recorded.
pub fn message_for(mode: DragMode) -> (message: &'static str)
    ensures
        message == (match mode {
            DragMode::Move => IMAGE_MOVED,
            DragMode::Resize(_) => IMAGE_RESIZED,
        }),
{
    match mode {
        DragMode::Move => IMAGE_MOVED,
        DragMode::Resize(_) => IMAGE_RESIZED,
    }
}

/// How releasing an image drag ends.
#[derive(Clone, Debug, PartialEq)]
pub enum ImageDragEnd {
    /// The image never moved: the press only selected it.
    Click,
    /// Refused, with the message to show.
    Refuse(String),
    /// Check `command` against the page and record it, then say `done`.
    Record { command: PendingCommand, done: &'static str },
}

/// What releasing an image drag does: a drag that never moved records
/// nothing; content editing refused (for `edit_refusal`), or an image that
/// already has a pending edit, is refused; otherwise the move or resize is
/// recorded.
pub fn finish_image_drag(drag: &ImageDrag, pending: &[PendingCommand], edit_refusal: Option<&str>) -> (end: ImageDragEnd)
    requires
        image_drag_ok(*drag),
    ensures
        if drag.origin == drag.current {
            end == ImageDragEnd::Click
        } else if edit_refusal is Some {
            end matches ImageDragEnd::Refuse(m) && m@ == edit_refusal->0@
        } else if spec_image_already_edited(pending@, drag.item) {
            end matches ImageDragEnd::Refuse(m) && m@ == IMAGE_ALREADY_EDITED@
        } else {
            end == ImageDragEnd::Record {
                command: spec_command_for(
                    drag.item,
                    drag.mode,
                    spec_dragged(drag.item.bbox, drag.mode, drag.origin, drag.current),
                ),
                done: match drag.mode {
                    DragMode::Move => IMAGE_MOVED,
                    DragMode::Resize(_) => IMAGE_RESIZED,
                },
            }
        },
{
    if is_click(drag) {
        return ImageDragEnd::Click;
    }
    if let Some(refusal) = edit_refusal {
        return ImageDragEnd::Refuse(refusal.to_owned());
    }
    if image_already_edited(pending, &drag.item) {
        return ImageDragEnd::Refuse(IMAGE_ALREADY_EDITED.to_owned());
    }
    let to = committed_image_rect(drag);
    ImageDragEnd::Record {
        command: command_for(copy_image(&drag.item), drag.mode, to),
        done: message_for(drag.mode),
    }
}

/// Deleting the selected image: refused while it has a pending edit,
/// otherwise its removal.
pub fn plan_image_removal(selected: &SelectedImage, pending: &[PendingCommand]) -> (planned: Result<PendingCommand, &'static str>)
    ensures
        planned == (if spec_image_already_edited(pending@, selected.item) {
            Err::<PendingCommand, &'static str>(IMAGE_ALREADY_EDITED)
        } else {
            Ok(PendingCommand::RemoveImage { item: selected.item })
        }),
{
    if image_already_edited(pending, &selected.item) {
        Err(IMAGE_ALREADY_EDITED)
    } else {
        Ok(PendingCommand::RemoveImage { item: copy_image(&selected.item) })
    }
}

/// Replacing the selected image's picture: refused while it has a pending
/// edit, otherwise the replacement (the bytes travel beside the command).
pub fn plan_image_replacement(selected: &SelectedImage, pending: &[PendingCommand]) -> (planned: Result<PendingCommand, &'static str>)
    ensures
        planned == (if spec_image_already_edited(pending@, selected.item) {
            Err::<PendingCommand, &'static str>(IMAGE_ALREADY_EDITED)
        } else {
            Ok(PendingCommand::ReplaceImageSource { item: selected.item })
        }),
{
    if image_already_edited(pending, &selected.item) {
        Err(IMAGE_ALREADY_EDITED)
    } else {
        Ok(PendingCommand::ReplaceImageSource { item: copy_image(&selected.item) })
    }
}

proof fn lemma_claims_len(entries: Seq<PendingCommand>)
    ensures
        font_claims(entries).len() <= entries.len(),
        xobject_claims(entries).len() <= entries.len(),
    decreases entries.len(),
{
    if entries.len() > 0 {
        lemma_claims_len(entries.drop_last());
    }
}

/// The run a new text insertion at `point` starts as: an empty run in a
/// 150 x 14 pt box whose bottom-left corner is the point, in a standard
/// font under a resource name neither the page nor a queued insertion uses,
/// with the placeholder id 0.
pub fn new_text_insertion(content: &PageContent, pending: &[PendingCommand], page: u32, point: Point) -> (run: TextRun)
    requires
        content.text_runs@.len() + pending@.len() < u64::MAX,
    ensures
        run.id == 0,
        run.page == page,
        run.bbox == (Rect { x: point.x, y: point.y, width: INSERT_TEXT_WIDTH, height: INSERT_TEXT_HEIGHT }),
        run.font_kind == FontKind::Standard14,
        run.text@ == Seq::<char>::empty(),
        is_first_free(
            "FIns"@,
            font_names(content.text_runs@, font_claims(pending@)),
            run.resource_font_name@,
        ),
{
    let reserved = reserved_font_resource_names(pending);
    proof {
        lemma_claims_len(pending@);
    }
    let resource_font_name = unused_font_resource_name(content, reserved.as_slice());
    TextRun {
        id: 0,
        page,
        bbox: Rect { x: point.x, y: point.y, width: INSERT_TEXT_WIDTH, height: INSERT_TEXT_HEIGHT },
        resource_font_name,
        font_kind: FontKind::Standard14,
        text: String::new(),
    }
}

/// The command inserting a picture placed in `bbox`: a new image with the
/// placeholder id 0 under a resource name neither the page nor a queued
/// command uses (the bytes travel beside the command).
pub fn new_image_insertion(content: &PageContent, pending: &[PendingCommand], page: u32, bbox: Rect) -> (command: PendingCommand)
    requires
        content.images@.len() + pending@.len() < u64::MAX,
    ensures
        command matches PendingCommand::InsertImage { item } && item.id == 0 && item.page == page
            && item.bbox == bbox && is_first_free(
            "XIns"@,
            xobject_names(content.images@, xobject_claims(pending@)),
            item.resource_xobject_name@,
        ),
{
    let reserved = reserved_xobject_resource_names(pending);
    proof {
        lemma_claims_len(pending@);
    }
    let resource_xobject_name = unused_xobject_resource_name(content, reserved.as_slice());
    PendingCommand::InsertImage { item: ImageItem { id: 0, page, bbox, resource_xobject_name } }
}

/// What the insert buttons arm.
#[derive(Clone, Copy, Debug, PartialEq, Eq, Structural)]
pub enum InsertKind {
    Text,
    Image,
}

/// Where a release on a page goes once no image drag claimed it.
#[derive(Clone, Copy, Debug, PartialEq, Eq, Structural)]
pub enum ReleaseRoute {
    /// The pointer travelled: a drag elsewhere ended, so commit the editor.
    Commit,
    /// Open an editor composing new text at the release point.
    InsertText,
    /// Ask for a picture to insert at the release point.
    InsertImage,
    /// Open the editor on the run under the release point, or commit when
    /// there is none.
    EditRunAt,
}

/// Routes a release on a page that no image drag claimed: travel beyond a
/// click commits the open editor; a click places whatever insertion is
/// armed, or else edits the run under it.
pub fn release_route(offset_x: i64, offset_y: i64, insert_mode: Option<InsertKind>) -> (route: ReleaseRoute)
    requires
        -COORD_LIMIT <= offset_x <= COORD_LIMIT,
        -COORD_LIMIT <= offset_y <= COORD_LIMIT,
    ensures
        route == (if !(abs(offset_x as int) < CLICK_EPSILON && abs(offset_y as int) < CLICK_EPSILON) {
            ReleaseRoute::Commit
        } else {
            match insert_mode {
                Some(InsertKind::Text) => ReleaseRoute::InsertText,
                Some(InsertKind::Image) => ReleaseRoute::InsertImage,
                None => ReleaseRoute::EditRunAt,
            }
        }),
{
    if !is_a_click_offset(offset_x, offset_y) {
        return ReleaseRoute::Commit;
    }
    match insert_mode {
        Some(InsertKind::Text) => ReleaseRoute::InsertText,
        Some(InsertKind::Image) => ReleaseRoute::InsertImage,
        None => ReleaseRoute::EditRunAt,
    }
}

pub open spec fn clamp(v: int, lo: int, hi: int) -> int {
    if v < lo {
        lo
    } else if v > hi {
        hi
    } else {
        v
    }
}

pub open spec fn spec_kept_on_page(moved: Rect, page_width: int, page_height: int) -> Rect {
    Rect {
        x: clamp(moved.x as int, 0, crate::geometry::max(page_width - moved.width, 0)) as i64,
        y: clamp(moved.y as int, 0, crate::geometry::max(page_height - moved.height, 0)) as i64,
        ..moved
    }
}

/// A dragged box held on its page: its corner is clamped so the box stays
/// inside the page, or at the origin when the box is larger than the page.
pub fn kept_on_page(moved: Rect, page_width: i64, page_height: i64) -> (kept: Rect)
    requires
        rect_ok(moved),
        0 <= page_width <= COORD_LIMIT,
        0 <= page_height <= COORD_LIMIT,
    ensures
        kept == spec_kept_on_page(moved, page_width as int, page_height as int),
{
    let max_x = if page_width - moved.width > 0 {
        page_width - moved.width
    } else {
        0
    };
    let max_y = if page_height - moved.height > 0 {
        page_height - moved.height
    } else {
        0
    };
    let x = if moved.x < 0 {
        0
    } else if moved.x > max_x {
        max_x
    } else {
        moved.x
    };
    let y = if moved.y < 0 {
        0
    } else if moved.y > max_y {
        max_y
    } else {
        moved.y
    };
    Rect { x, y, ..moved }
}

/// Which content-editing modes are armed.
#[derive(Clone, Copy, Debug, PartialEq, Eq, Structural)]
pub struct EditModes {
    /// Content editing: clicks retype runs and drags move content.
    pub edit_mode: bool,
    /// An insertion waiting for a click on the page.
    pub insert_mode: Option<InsertKind>,
}

/// An insertion is only ever armed while content editing is.
pub open spec fn modes_ok(modes: EditModes) -> bool {
    modes.insert_mode is Some ==> modes.edit_mode
}

pub open spec fn spec_set_mode(modes: EditModes, active: bool) -> EditModes {
    if modes.edit_mode == active {
        modes
    } else if active {
        EditModes { edit_mode: true, ..modes }
    } else {
        EditModes { edit_mode: false, insert_mode: None }
    }
}

pub open spec fn spec_set_insert_mode(modes: EditModes, kind: Option<InsertKind>) -> EditModes {
    if modes.insert_mode == kind {
        modes
    } else if kind is Some {
        EditModes { edit_mode: true, insert_mode: kind }
    } else {
        EditModes { insert_mode: None, ..modes }
    }
}

pub const EDIT_ARMED: &'static str = "Edit content armed — click a text run to retype it.";

pub const EDIT_DISARMED: &'static str = "Edit content disarmed.";

pub const INSERT_TEXT_ARMED: &'static str =
    "Insert text armed — click the page to place a new text box.";

pub const INSERT_IMAGE_ARMED: &'static str =
    "Insert image armed — click the page to insert a picture.";

/// Arms or disarms content editing. Returns `None` when nothing changed;
/// otherwise the status line. Disarming also disarms any insertion.
pub fn set_mode(modes: &mut EditModes, active: bool) -> (message: Option<&'static str>)
    ensures
        *final(modes) == spec_set_mode(*old(modes), active),
        message == (if old(modes).edit_mode == active {
            None
        } else if active {
            Some(EDIT_ARMED)
        } else {
            Some(EDIT_DISARMED)
        }),
{
    if modes.edit_mode == active {
        return None;
    }
    modes.edit_mode = active;
    if active {
        Some(EDIT_ARMED)
    } else {
        modes.insert_mode = None;
        Some(EDIT_DISARMED)
    }
}

/// The status line once `kind` is armed (or no insertion is).
pub fn insert_message(kind: Option<InsertKind>) -> (message: &'static str)
    ensures
        message == (match kind {
            Some(InsertKind::Text) => INSERT_TEXT_ARMED,
            Some(InsertKind::Image) => INSERT_IMAGE_ARMED,
            None => EDIT_ARMED,
        }),
{
    match kind {
        Some(InsertKind::Text) => INSERT_TEXT_ARMED,
        Some(InsertKind::Image) => INSERT_IMAGE_ARMED,
        None => EDIT_ARMED,
    }
}

/// Arms an insertion (or none). Arming one arms content editing too.
/// Returns `None` when nothing changed, otherwise whether content editing
/// had to be armed for it (its pages then need loading).
pub fn set_insert_mode(modes: &mut EditModes, kind: Option<InsertKind>) -> (armed_editing: Option<bool>)
    ensures
        *final(modes) == spec_set_insert_mode(*old(modes), kind),
        armed_editing == (if old(modes).insert_mode == kind {
            None
        } else {
            Some(kind is Some && !old(modes).edit_mode)
        }),
{
    if modes.insert_mode == kind {
        return None;
    }
    modes.insert_mode = kind;
    if kind.is_some() {
        let was_off = !modes.edit_mode;
        modes.edit_mode = true;
        return Some(was_off);
    }
    Some(false)
}

/// An insert button toggled: pressing it arms its insertion; releasing it
/// disarms only if its insertion is the armed one (a button released
/// because the other took over changes nothing).
pub fn insert_toggled(modes: &mut EditModes, kind: InsertKind, active: bool) -> (armed_editing: Option<bool>)
    ensures
        active ==> *final(modes) == spec_set_insert_mode(*old(modes), Some(kind)),
        !active && old(modes).insert_mode == Some(kind) ==> *final(modes) == spec_set_insert_mode(
            *old(modes),
            None,
        ),
        !active && old(modes).insert_mode != Some(kind) ==> *final(modes) == *old(modes)
            && armed_editing is None,
{
    if active {
        return set_insert_mode(modes, Some(kind));
    }
    if modes.insert_mode == Some(kind) {
        return set_insert_mode(modes, None);
    }
    None
}

/// Whatever is toggled, an insertion is only ever armed while content
/// editing is.
pub proof fn an_armed_insertion_keeps_editing_armed(
    modes: EditModes,
    active: bool,
    kind: Option<InsertKind>,
)
    requires
        modes_ok(modes),
    ensures
        modes_ok(spec_set_mode(modes, active)),
        modes_ok(spec_set_insert_mode(modes, kind)),
        !spec_set_mode(modes, false).edit_mode,
        spec_set_mode(modes, false).insert_mode is None,
{
}


/// A text drag preview reads and draws the same box until the pointer
/// moves, and afterwards draws it offset by exactly the pointer's travel,
/// at the same size.
pub proof fn a_preview_follows_the_pointer_exactly(drag: TextDrag)
    requires
        text_drag_ok(drag),
    ensures
        drag.origin == drag.current ==> spec_bled(spec_moved(
            drag.run.bbox,
            drag.origin,
            drag.current,
        )) == spec_bled(drag.run.bbox),
        spec_bled(spec_moved(drag.run.bbox, drag.origin, drag.current)).x - spec_bled(
            drag.run.bbox,
        ).x == drag.current.x - drag.origin.x,
        spec_bled(spec_moved(drag.run.bbox, drag.origin, drag.current)).y - spec_bled(
            drag.run.bbox,
        ).y == drag.current.y - drag.origin.y,
        spec_bled(spec_moved(drag.run.bbox, drag.origin, drag.current)).width == spec_bled(
            drag.run.bbox,
        ).width,
        spec_bled(spec_moved(drag.run.bbox, drag.origin, drag.current)).height == spec_bled(
            drag.run.bbox,
        ).height,
{
}

/// A drag cannot carry a box off its page: a box that fits ends up wholly
/// on the page, a box too large for the page sits at its origin, and the
/// size never changes.
pub proof fn a_drag_cannot_carry_the_box_off_the_page(moved: Rect, page_width: int, page_height: int)
    requires
        rect_ok(moved),
        0 <= page_width <= COORD_LIMIT,
        0 <= page_height <= COORD_LIMIT,
        moved.width >= 0,
        moved.height >= 0,
    ensures
        ({
            let kept = spec_kept_on_page(moved, page_width, page_height);
            &&& kept.width == moved.width && kept.height == moved.height
            &&& kept.x >= 0 && kept.y >= 0
            &&& moved.width <= page_width ==> kept.x + kept.width <= page_width
            &&& moved.height <= page_height ==> kept.y + kept.height <= page_height
            &&& moved.width > page_width ==> kept.x == 0
            &&& moved.height > page_height ==> kept.y == 0
        }),
{
}


/// Holding a dragged box on its page moves it only as far as the page's
/// edges demand: a box already wholly on the page stays exactly where it
/// was dropped; one past the left or top edge comes back to that edge; one
/// that fits the page but runs past the right or bottom edge comes back
/// until it touches that edge.
pub proof fn a_box_on_its_page_stays_where_it_was_dropped(
    moved: Rect,
    page_width: int,
    page_height: int,
)
    requires
        rect_ok(moved),
        0 <= page_width <= COORD_LIMIT,
        0 <= page_height <= COORD_LIMIT,
    ensures
        ({
            let kept = spec_kept_on_page(moved, page_width, page_height);
            &&& kept.width == moved.width && kept.height == moved.height
            &&& 0 <= moved.x && moved.x + moved.width <= page_width ==> kept.x == moved.x
            &&& 0 <= moved.y && moved.y + moved.height <= page_height ==> kept.y == moved.y
            &&& moved.x < 0 ==> kept.x == 0
            &&& moved.y < 0 ==> kept.y == 0
            &&& 0 <= moved.x && moved.x + moved.width > page_width && moved.width <= page_width
                ==> kept.x == page_width - moved.width
            &&& 0 <= moved.y && moved.y + moved.height > page_height && moved.height
                <= page_height ==> kept.y == page_height - moved.height
        }),
{
}

} // verus!
