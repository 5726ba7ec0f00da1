//! How a content edit joins the pending edit log: which queued command an
//! edit folds into, which edits are refused, and the command that records
//! a move.
//!
//! The log is replayed in order at save time against a document that
//! changes as it goes, and each command finds its target again by the run
//! or image it carries. So a second edit of the same target must amend the
//! command already queued rather than queue another one whose target no
//! longer exists by the time it replays.

use vstd::prelude::*;

use crate::content::model::{
    copy_run, lemma_filter_members, lemma_first_run_bounds, pending_log_index,
    spec_overlay, spec_pending_log_index, ContentView, ImageItem, PendingCommand, TextRun,
    PENDING_ITEM_ID_BASE,
};
use crate::geometry::Rect;

verus! {

/// Said when a run with an unsaved retype is dragged.
pub const UNSAVED_RETYPE: &'static str =
    "This text has an unsaved edit — save the document before moving it.";

/// The first log position whose command satisfies `f`.
pub open spec fn first_where(entries: Seq<PendingCommand>, f: spec_fn(PendingCommand) -> bool) -> Option<
    int,
>
    decreases entries.len(),
{
    if entries.len() == 0 {
        None
    } else {
        match first_where(entries.drop_last(), f) {
            Some(i) => Some(i),
            None => if f(entries.last()) {
                Some(entries.len() - 1)
            } else {
                None
            },
        }
    }
}

pub proof fn first_where_facts(entries: Seq<PendingCommand>, f: spec_fn(PendingCommand) -> bool)
    ensures
        first_where(entries, f) matches Some(i) ==> 0 <= i < entries.len() && f(entries[i])
            && forall|j: int| 0 <= j < i ==> !f(#[trigger] entries[j]),
        first_where(entries, f) is None ==> forall|j: int|
            0 <= j < entries.len() ==> !f(#[trigger] entries[j]),
    decreases entries.len(),
{
    if entries.len() > 0 {
        let rest = entries.drop_last();
        first_where_facts(rest, f);
        match first_where(rest, f) {
            Some(i) => {
                assert(rest[i] == entries[i]);
                assert forall|j: int| 0 <= j < i implies !f(#[trigger] entries[j]) by {
                    assert(rest[j] == entries[j]);
                }
            },
            None => {
                assert forall|j: int| 0 <= j < rest.len() implies !f(#[trigger] entries[j]) by {
                    assert(rest[j] == entries[j]);
                }
            },
        }
    }
}

proof fn lemma_first_where_prefix(
    entries: Seq<PendingCommand>,
    f: spec_fn(PendingCommand) -> bool,
    n: int,
)
    requires
        0 <= n <= entries.len(),
        first_where(entries.take(n), f) is Some,
    ensures
        first_where(entries, f) == first_where(entries.take(n), f),
    decreases entries.len() - n,
{
    if n < entries.len() {
        assert(entries.take(n + 1).drop_last() =~= entries.take(n));
        lemma_first_where_prefix(entries, f, n + 1);
    } else {
        assert(entries.take(n) =~= entries);
    }
}

/// Whether `command` retypes `run`: a queued replacement of its text.
pub open spec fn retypes(command: PendingCommand, run: TextRun) -> bool {
    match command {
        PendingCommand::ReplaceTextRunContent { item, .. } => item.id == run.id && item.page
            == run.page,
        _ => false,
    }
}

/// Whether `command` moves `run`.
pub open spec fn moves(command: PendingCommand, run: TextRun) -> bool {
    match command {
        PendingCommand::MoveTextRun { item, .. } => item.id == run.id && item.page == run.page,
        _ => false,
    }
}

/// Whether `command` edits `image`: moves, resizes, removes or replaces it.
pub open spec fn edits_image(command: PendingCommand, image: ImageItem) -> bool {
    match command {
        PendingCommand::MoveImage { item, .. } => item.id == image.id && item.page == image.page,
        PendingCommand::ResizeImage { item, .. } => item.id == image.id && item.page == image.page,
        PendingCommand::RemoveImage { item } => item.id == image.id && item.page == image.page,
        PendingCommand::ReplaceImageSource { item } => item.id == image.id && item.page
            == image.page,
        _ => false,
    }
}

pub open spec fn retype_index(entries: Seq<PendingCommand>, run: TextRun) -> Option<int> {
    first_where(entries, |command: PendingCommand| retypes(command, run))
}

pub open spec fn move_index(entries: Seq<PendingCommand>, run: TextRun) -> Option<int> {
    first_where(entries, |command: PendingCommand| moves(command, run))
}

/// Whether the log already holds an edit of `image`, or the image is on the
/// page only because of a pending insertion.
pub open spec fn spec_image_already_edited(entries: Seq<PendingCommand>, image: ImageItem) -> bool {
    image.id >= PENDING_ITEM_ID_BASE || exists|i: int|
        0 <= i < entries.len() && edits_image(#[trigger] entries[i], image)
}

/// Whether `target` can take no further edit until the document is saved:
/// it already has a move, resize, removal or replacement queued, or it is
/// on the page only because of a pending insertion. A second geometry edit
/// would carry a box the first already changed, and resolve against
/// nothing at save time.
pub fn image_already_edited(pending: &[PendingCommand], target: &ImageItem) -> (edited: bool)
    ensures
        edited == spec_image_already_edited(pending@, *target),
{
    if target.id >= PENDING_ITEM_ID_BASE {
        return true;
    }
    let mut i: usize = 0;
    while i < pending.len()
        invariant
            i <= pending@.len(),
            target.id < PENDING_ITEM_ID_BASE,
            forall|j: int| 0 <= j < i ==> !edits_image(#[trigger] pending@[j], *target),
        decreases pending@.len() - i,
    {
        let hit = match &pending[i] {
            PendingCommand::MoveImage { item, .. } => item.id == target.id && item.page
                == target.page,
            PendingCommand::ResizeImage { item, .. } => item.id == target.id && item.page
                == target.page,
            PendingCommand::RemoveImage { item } => item.id == target.id && item.page
                == target.page,
            PendingCommand::ReplaceImageSource { item } => item.id == target.id && item.page
                == target.page,
            _ => false,
        };
        if hit {
            assert(edits_image(pending@[i as int], *target));
            return true;
        }
        i = i + 1;
    }
    false
}

/// What a further edit of a text run has to do about what is already
/// queued against it.
#[derive(Clone, Copy, Debug, PartialEq, Eq, Structural)]
pub enum PendingText {
    /// Nothing queued: the edit records a new command.
    Nothing,
    /// Fold the edit into the command at this log position.
    Amend(usize),
    /// The run is on the page only because of a pending command the log no
    /// longer holds: there is nothing to amend and nothing in the file a new
    /// command could target.
    Unresolvable,
}

/// A run under a synthetic id amends the insertion that minted it, if the
/// log still holds that insertion on that page; a run read from the file
/// amends its queued retype, if it has one.
pub open spec fn spec_pending_text(entries: Seq<PendingCommand>, target: TextRun) -> PendingText {
    match spec_pending_log_index(target.id) {
        Some(index) => if index < entries.len() && (entries[index] matches PendingCommand::InsertTextRun(
            run,
        ) && run.page == target.page) {
            PendingText::Amend(index as usize)
        } else {
            PendingText::Unresolvable
        },
        None => match retype_index(entries, target) {
            Some(i) => PendingText::Amend(i as usize),
            None => PendingText::Nothing,
        },
    }
}

/// Where `run`'s first queued retype sits.
fn find_retype(pending: &[PendingCommand], run: &TextRun) -> (found: Option<usize>)
    ensures
        found matches Some(k) ==> retype_index(pending@, *run) == Some(k as int),
        found is None ==> retype_index(pending@, *run) is None,
{
    let ghost f = |command: PendingCommand| retypes(command, *run);
    let mut i: usize = 0;
    while i < pending.len()
        invariant
            i <= pending@.len(),
            f == (|command: PendingCommand| retypes(command, *run)),
            first_where(pending@.take(i as int), f) is None,
        decreases pending@.len() - i,
    {
        assert(pending@.take(i + 1).drop_last() =~= pending@.take(i as int));
        assert(pending@.take(i + 1).last() == pending@[i as int]);
        let hit = match &pending[i] {
            PendingCommand::ReplaceTextRunContent { item, .. } => item.id == run.id && item.page
                == run.page,
            _ => false,
        };
        if hit {
            proof {
                lemma_first_where_prefix(pending@, f, i + 1);
            }
            return Some(i);
        }
        i = i + 1;
    }
    assert(pending@.take(i as int) =~= pending@);
    None
}

/// What the pending log says about a further edit of `target`.
pub fn pending_text_command(pending: &[PendingCommand], target: &TextRun) -> (found: PendingText)
    ensures
        found == spec_pending_text(pending@, *target),
{
    if let Some(index) = pending_log_index(target.id) {
        if index < pending.len() as u64 {
            let i = index as usize;
            if let PendingCommand::InsertTextRun(run) = &pending[i] {
                if run.page == target.page {
                    return PendingText::Amend(i);
                }
            }
        }
        return PendingText::Unresolvable;
    }
    match find_retype(pending, target) {
        Some(i) => PendingText::Amend(i),
        None => PendingText::Nothing,
    }
}

/// `b` is `a` showing `text` in `bbox`: the same run, the same id and font.
pub open spec fn reworded(a: TextRun, b: TextRun, text: Seq<char>, bbox: Rect) -> bool {
    &&& b.id == a.id
    &&& b.page == a.page
    &&& b.bbox == bbox
    &&& b.resource_font_name == a.resource_font_name
    &&& b.font_kind == a.font_kind
    &&& b.text@ == text
}

/// The box an insertion moved to `to` occupies: `to`'s position, the size
/// the insertion was composed with.
pub open spec fn moved_box(bbox: Rect, moved_to: Option<Rect>) -> Rect {
    match moved_to {
        Some(to) => Rect { x: to.x, y: to.y, ..bbox },
        None => bbox,
    }
}

/// What amending `existing` to show `after` (and, for an insertion, to sit
/// at `moved_to`) yields: the recorded command with its text changed, keeping
/// the snapshot every save-time resolution keys against.
pub open spec fn amends_to(
    existing: PendingCommand,
    after: Seq<char>,
    moved_to: Option<Rect>,
    amended: Option<PendingCommand>,
) -> bool {
    match existing {
        PendingCommand::InsertTextRun(run) => amended matches Some(
            PendingCommand::InsertTextRun(new_run),
        ) && reworded(run, new_run, after, moved_box(run.bbox, moved_to)),
        PendingCommand::ReplaceTextRunContent { item, .. } => amended matches Some(
            PendingCommand::ReplaceTextRunContent { item: kept, after: new_after },
        ) && kept == item && new_after@ == after,
        _ => amended is None,
    }
}

/// The command that replaces the queued `existing` so the run it describes
/// shows `after`: an insertion keeps its placeholder id and font resource
/// and, when `moved_to` is given, takes that position at the size it was
/// composed with; a retype keeps the run as the file holds it. `None` for
/// any other command.
pub fn amended_command(existing: &PendingCommand, after: &str, moved_to: Option<Rect>) -> (amended:
    Option<PendingCommand>)
    ensures
        amends_to(*existing, after@, moved_to, amended),
{
    match existing {
        PendingCommand::InsertTextRun(run) => {
            let mut retyped = copy_run(run);
            retyped.text = after.to_owned();
            if let Some(to) = moved_to {
                retyped.bbox = Rect { x: to.x, y: to.y, ..retyped.bbox };
            }
            Some(PendingCommand::InsertTextRun(retyped))
        },
        PendingCommand::ReplaceTextRunContent { item, .. } => Some(
            PendingCommand::ReplaceTextRunContent { item: copy_run(item), after: after.to_owned() },
        ),
        _ => None,
    }
}

/// Why `run` cannot be dragged right now, or `None` when it can: a run with
/// a pending retype must be saved first, since a move recorded after the
/// retype would have to carry a box only the written file can give back.
pub fn text_move_refusal(pending: &[PendingCommand], run: &TextRun) -> (refusal: Option<
    &'static str,
>)
    ensures
        match retype_index(pending@, *run) {
            Some(_) => refusal matches Some(message) && message@ == UNSAVED_RETYPE@,
            None => refusal is None,
        },
{
    match find_retype(pending, run) {
        Some(_) => Some(UNSAVED_RETYPE),
        None => None,
    }
}

/// Where `run`'s queued move sits in the log, if it has one. A second drag
/// amends that entry rather than queueing another.
pub fn pending_move_index(pending: &[PendingCommand], run: &TextRun) -> (found: Option<usize>)
    ensures
        found matches Some(k) ==> move_index(pending@, *run) == Some(k as int),
        found is None ==> move_index(pending@, *run) is None,
{
    let ghost f = |command: PendingCommand| moves(command, *run);
    let mut i: usize = 0;
    while i < pending.len()
        invariant
            i <= pending@.len(),
            f == (|command: PendingCommand| moves(command, *run)),
            first_where(pending@.take(i as int), f) is None,
        decreases pending@.len() - i,
    {
        assert(pending@.take(i + 1).drop_last() =~= pending@.take(i as int));
        assert(pending@.take(i + 1).last() == pending@[i as int]);
        let hit = match &pending[i] {
            PendingCommand::MoveTextRun { item, .. } => item.id == run.id && item.page == run.page,
            _ => false,
        };
        if hit {
            proof {
                lemma_first_where_prefix(pending@, f, i + 1);
            }
            return Some(i);
        }
        i = i + 1;
    }
    assert(pending@.take(i as int) =~= pending@);
    None
}

/// The command that replaces a queued move so the run lands at `to`
/// instead: the recorded run is kept, only the destination changes. `None`
/// for any command that is not a move.
pub fn moved_text_command(existing: &PendingCommand, to: Rect) -> (moved: Option<PendingCommand>)
    ensures
        match *existing {
            PendingCommand::MoveTextRun { item, .. } => moved == Some(
                PendingCommand::MoveTextRun { item, to },
            ),
            _ => moved is None,
        },
{
    match existing {
        PendingCommand::MoveTextRun { item, .. } => Some(
            PendingCommand::MoveTextRun { item: copy_run(item), to },
        ),
        _ => None,
    }
}


/// How a move is to join the log.
#[derive(Clone, Debug, PartialEq)]
pub enum Plan {
    /// Replace the command at this log position with this one.
    Amend(usize, PendingCommand),
    /// Append this command.
    Append(PendingCommand),
}

/// How recording an edit ended.
#[derive(Clone, Debug, PartialEq)]
pub enum MoveRecord {
    Recorded,
    /// Refused, with the message to show.
    Refused(String),
    /// The edit it depended on is gone; nothing was recorded.
    Lost,
}

/// What [`plan_move`] decides for dragging `run` to `to`.
pub open spec fn spec_plan_move(
    entries: Seq<PendingCommand>,
    run: TextRun,
    to: Rect,
    planned: Result<Plan, MoveRecord>,
) -> bool {
    match spec_pending_text(entries, run) {
        PendingText::Nothing => match move_index(entries, run) {
            Some(i) => match entries[i] {
                PendingCommand::MoveTextRun { item, .. } => planned == Ok::<Plan, MoveRecord>(
                    Plan::Amend(i as usize, PendingCommand::MoveTextRun { item, to }),
                ),
                _ => false,
            },
            None => planned == Ok::<Plan, MoveRecord>(
                Plan::Append(PendingCommand::MoveTextRun { item: run, to }),
            ),
        },
        PendingText::Unresolvable => planned == Err::<Plan, MoveRecord>(MoveRecord::Lost),
        PendingText::Amend(index) => match entries[index as int] {
            PendingCommand::InsertTextRun(inserted) => planned matches Ok(
                Plan::Amend(k, PendingCommand::InsertTextRun(moved)),
            ) && k == index && reworded(
                inserted,
                moved,
                run.text@,
                moved_box(inserted.bbox, Some(to)),
            ),
            _ => planned matches Err(MoveRecord::Refused(message)) && message@ == UNSAVED_RETYPE@,
        },
    }
}

/// How dragging `run` to `to` joins the log. A run with nothing queued gets
/// a new move, or its queued move amended so the recorded run stays the one
/// the file holds; a run that is only on the page because of a pending
/// insertion moves the insertion itself; a run with a pending retype is
/// refused; a run whose insertion the log no longer holds is lost.
pub fn plan_move(pending: &[PendingCommand], run: &TextRun, to: Rect) -> (planned: Result<
    Plan,
    MoveRecord,
>)
    ensures
        spec_plan_move(pending@, *run, to, planned),
{
    let index = match pending_text_command(pending, run) {
        PendingText::Nothing => {
            return match pending_move_index(pending, run) {
                Some(i) => {
                    proof {
                        first_where_facts(pending@, |command: PendingCommand| moves(command, *run));
                    }
                    match moved_text_command(&pending[i], to) {
                        Some(amended) => Ok(Plan::Amend(i, amended)),
                        None => Err(MoveRecord::Lost),
                    }
                },
                None => Ok(Plan::Append(PendingCommand::MoveTextRun { item: copy_run(run), to })),
            };
        },
        PendingText::Unresolvable => {
            return Err(MoveRecord::Lost);
        },
        PendingText::Amend(index) => index,
    };
    proof {
        first_where_facts(pending@, |command: PendingCommand| retypes(command, *run));
    }
    match &pending[index] {
        PendingCommand::InsertTextRun(_) => match amended_command(
            &pending[index],
            run.text.as_str(),
            Some(to),
        ) {
            Some(amended) => Ok(Plan::Amend(index, amended)),
            None => Err(MoveRecord::Lost),
        },
        _ => Err(MoveRecord::Refused(UNSAVED_RETYPE.to_owned())),
    }
}


/// Every run of the overlay under a synthetic id was minted by an insertion
/// for its page, at the log position the id names.
proof fn lemma_minted_runs_name_their_insertion(
    c: ContentView,
    entries: Seq<PendingCommand>,
    page: u32,
)
    requires
        forall|j: int| 0 <= j < c.runs.len() ==> (#[trigger] c.runs[j]).id < PENDING_ITEM_ID_BASE,
        PENDING_ITEM_ID_BASE + entries.len() <= u64::MAX,
    ensures
        forall|k: int|
            0 <= k < spec_overlay(c, entries, page).runs.len() && (#[trigger] spec_overlay(
                c,
                entries,
                page,
            ).runs[k]).id >= PENDING_ITEM_ID_BASE ==> {
                let run = spec_overlay(c, entries, page).runs[k];
                let index = run.id - PENDING_ITEM_ID_BASE;
                &&& index < entries.len()
                &&& entries[index] matches PendingCommand::InsertTextRun(inserted)
                &&& inserted.page == run.page
            },
    decreases entries.len(),
{
    if entries.len() > 0 {
        let rest = entries.drop_last();
        lemma_minted_runs_name_their_insertion(c, rest, page);
        let before = spec_overlay(c, rest, page);
        let after = spec_overlay(c, entries, page);
        let last = entries.last();
        match last {
            PendingCommand::ReplaceTextRunContent { item, .. } => {
                lemma_first_run_bounds(before.runs, item.id);
            },
            PendingCommand::MoveTextRun { item, .. } => {
                lemma_first_run_bounds(before.runs, item.id);
            },
            _ => {},
        }
        assert forall|k: int|
            0 <= k < after.runs.len() && (#[trigger] after.runs[k]).id
                >= PENDING_ITEM_ID_BASE implies {
            let run = after.runs[k];
            let index = run.id - PENDING_ITEM_ID_BASE;
            &&& index < entries.len()
            &&& entries[index] matches PendingCommand::InsertTextRun(inserted)
            &&& inserted.page == run.page
        } by {
            match last {
                PendingCommand::RemoveTextRun(run) => {
                    if run.page == page {
                        let pred = |r: TextRun| r.id != run.id;
                        lemma_filter_members(before.runs, pred, k);
                        let j = choose|j: int|
                            0 <= j < before.runs.len() && before.runs[j] == #[trigger] before.runs.filter(
                                pred,
                            )[k];
                        assert(before.runs[j] == after.runs[k]);
                        assert(rest[before.runs[j].id - PENDING_ITEM_ID_BASE] == entries[
                            before.runs[j].id - PENDING_ITEM_ID_BASE
                        ]);
                    } else {
                        assert(after.runs[k] == before.runs[k]);
                        assert(rest[before.runs[k].id - PENDING_ITEM_ID_BASE] == entries[
                            before.runs[k].id - PENDING_ITEM_ID_BASE
                        ]);
                    }
                },
                _ => {
                    if k < before.runs.len() && before.runs[k].id >= PENDING_ITEM_ID_BASE {
                        assert(rest[before.runs[k].id - PENDING_ITEM_ID_BASE] == entries[
                            before.runs[k].id - PENDING_ITEM_ID_BASE
                        ]);
                    }
                    if k >= before.runs.len() {
                        assert(entries[entries.len() - 1] == last);
                    }
                },
            }
        }
    }
}

/// A run the overlay put on the page under a synthetic id always finds the
/// insertion that minted it: a further edit of the run amends that
/// insertion, whatever else the log holds, as long as the page read from
/// the file carries no synthetic ids of its own.
pub proof fn a_minted_run_amends_its_insertion(
    c: ContentView,
    entries: Seq<PendingCommand>,
    page: u32,
    k: int,
)
    requires
        forall|j: int| 0 <= j < c.runs.len() ==> (#[trigger] c.runs[j]).id < PENDING_ITEM_ID_BASE,
        PENDING_ITEM_ID_BASE + entries.len() <= u64::MAX,
        0 <= k < spec_overlay(c, entries, page).runs.len(),
        spec_overlay(c, entries, page).runs[k].id >= PENDING_ITEM_ID_BASE,
    ensures
        spec_pending_text(entries, spec_overlay(c, entries, page).runs[k]) == PendingText::Amend(
            (spec_overlay(c, entries, page).runs[k].id - PENDING_ITEM_ID_BASE) as usize,
        ),
{
    lemma_minted_runs_name_their_insertion(c, entries, page);
    assert(spec_overlay(c, entries, page).runs[k] == spec_overlay(c, entries, page).runs[k]);
}

/// An image under a synthetic id is refused any further edit until the
/// document is saved, whatever the log holds.
pub proof fn a_minted_image_is_not_edited_again(entries: Seq<PendingCommand>, image: ImageItem)
    requires
        image.id >= PENDING_ITEM_ID_BASE,
    ensures
        spec_image_already_edited(entries, image),
{
}


/// Once the log moves, resizes, removes or replaces an image (same id, same
/// page), that image is refused any further edit until the document is
/// saved, wherever in the log that entry stands.
pub proof fn a_queued_image_edit_blocks_the_next(
    entries: Seq<PendingCommand>,
    image: ImageItem,
    i: int,
    item: ImageItem,
    to: Rect,
)
    requires
        0 <= i < entries.len(),
        item.id == image.id,
        item.page == image.page,
        entries[i] == (PendingCommand::MoveImage { item, to }) || entries[i] == (
        PendingCommand::ResizeImage { item, to }) || entries[i] == (PendingCommand::RemoveImage {
            item,
        }) || entries[i] == (PendingCommand::ReplaceImageSource { item }),
    ensures
        spec_image_already_edited(entries, image),
{
    assert(edits_image(entries[i], image));
}

} // verus!
