//! What a page holds, as content editing reads it: its text runs and
//! images, the pending edit log laid over them, hit-testing, and fresh
//! resource names for inserted content.

use vstd::prelude::*;

use crate::geometry::{contains, point_ok, rect_ok, spec_contains, Point, Rect, COORD_LIMIT};
use crate::text::{decimal, decimal_string, join, numeral_round_trip, numeral_value};

verus! {

/// Ids from here up are never read out of a file: the overlay hands them
/// to content that is on the page only because of a pending insertion, so
/// that several insertions never share the placeholder id their commands
/// carry. The id is the base plus the insertion's position in the log.
pub const PENDING_ITEM_ID_BASE: u64 = 1_099_511_627_776;

/// How a run's font is held by the file.
#[derive(Clone, Copy, Debug, PartialEq, Eq, Structural)]
pub enum FontKind {
    /// One of the fourteen standard fonts every reader has.
    Standard14,
    /// A simple font embedded in the file.
    Embedded,
    /// A composite (CID-keyed) font embedded in the file, which cannot be
    /// re-encoded for new text.
    EmbeddedComposite,
}

/// A run of text painted on a page.
#[derive(Clone, Debug, PartialEq)]
pub struct TextRun {
    pub id: u64,
    /// Zero-based page the run sits on.
    pub page: u32,
    pub bbox: Rect,
    /// The font resource the run is painted with.
    pub resource_font_name: String,
    pub font_kind: FontKind,
    pub text: String,
}

/// An image painted on a page.
#[derive(Clone, Debug, PartialEq)]
pub struct ImageItem {
    pub id: u64,
    pub page: u32,
    pub bbox: Rect,
    /// The XObject resource the image is painted from.
    pub resource_xobject_name: String,
}

/// One entry of the document's pending edit log, reduced to what content
/// editing reads. Image bytes ride along outside this view.
#[derive(Clone, Debug, PartialEq)]
pub enum PendingCommand {
    InsertTextRun(TextRun),
    RemoveTextRun(TextRun),
    ReplaceTextRunContent { item: TextRun, after: String },
    MoveTextRun { item: TextRun, to: Rect },
    InsertImage { item: ImageItem },
    RemoveImage { item: ImageItem },
    MoveImage { item: ImageItem, to: Rect },
    ResizeImage { item: ImageItem, to: Rect },
    ReplaceImageSource { item: ImageItem },
    /// Any other edit: a page, annotation or form-field change.
    Other,
}

/// The content of one page.
#[derive(Clone, Debug, PartialEq)]
pub struct PageContent {
    pub text_runs: Vec<TextRun>,
    pub images: Vec<ImageItem>,
}

/// [`PageContent`] as plain sequences.
#[verifier::ext_equal]
pub struct ContentView {
    pub runs: Seq<TextRun>,
    pub images: Seq<ImageItem>,
}

impl View for PageContent {
    type V = ContentView;

    open spec fn view(&self) -> ContentView {
        ContentView { runs: self.text_runs@, images: self.images@ }
    }
}

pub open spec fn content_ok(c: ContentView) -> bool {
    &&& forall|i: int| 0 <= i < c.runs.len() ==> rect_ok(#[trigger] c.runs[i].bbox)
    &&& forall|i: int| 0 <= i < c.images.len() ==> rect_ok(#[trigger] c.images[i].bbox)
}

/// The rect a command moves something to, if it moves something.
pub open spec fn destination(command: PendingCommand) -> Option<Rect> {
    match command {
        PendingCommand::MoveTextRun { to, .. } => Some(to),
        PendingCommand::MoveImage { to, .. } => Some(to),
        PendingCommand::ResizeImage { to, .. } => Some(to),
        PendingCommand::InsertTextRun(run) => Some(run.bbox),
        PendingCommand::InsertImage { item } => Some(item.bbox),
        _ => None,
    }
}

pub open spec fn command_ok(command: PendingCommand) -> bool {
    match destination(command) {
        Some(rect) => rect_ok(rect),
        None => true,
    }
}

/// A copy of `run`, field for field.
pub fn copy_run(run: &TextRun) -> (copy: TextRun)
    ensures
        copy == *run,
{
    TextRun {
        id: run.id,
        page: run.page,
        bbox: run.bbox,
        resource_font_name: run.resource_font_name.clone(),
        font_kind: run.font_kind,
        text: run.text.clone(),
    }
}

/// A copy of `item`, field for field.
pub fn copy_image(item: &ImageItem) -> (copy: ImageItem)
    ensures
        copy == *item,
{
    ImageItem {
        id: item.id,
        page: item.page,
        bbox: item.bbox,
        resource_xobject_name: item.resource_xobject_name.clone(),
    }
}

/// The log position a synthetic id was minted from, for an id at or above
/// [`PENDING_ITEM_ID_BASE`].
pub open spec fn spec_pending_log_index(id: u64) -> Option<int> {
    if id >= PENDING_ITEM_ID_BASE {
        Some(id - PENDING_ITEM_ID_BASE)
    } else {
        None
    }
}

/// The log position behind a synthetic id; `None` for an id read out of
/// the file.
pub fn pending_log_index(id: u64) -> (index: Option<u64>)
    ensures
        match spec_pending_log_index(id) {
            Some(i) => index == Some(i as u64),
            None => index is None,
        },
{
    if id >= PENDING_ITEM_ID_BASE {
        Some(id - PENDING_ITEM_ID_BASE)
    } else {
        None
    }
}

/// The first index whose run carries `id`.
pub open spec fn first_run(runs: Seq<TextRun>, id: u64) -> Option<int>
    decreases runs.len(),
{
    if runs.len() == 0 {
        None
    } else {
        match first_run(runs.drop_last(), id) {
            Some(i) => Some(i),
            None => if runs.last().id == id {
                Some(runs.len() - 1)
            } else {
                None
            },
        }
    }
}

/// The first index whose image carries `id`.
pub open spec fn first_image(images: Seq<ImageItem>, id: u64) -> Option<int>
    decreases images.len(),
{
    if images.len() == 0 {
        None
    } else {
        match first_image(images.drop_last(), id) {
            Some(i) => Some(i),
            None => if images.last().id == id {
                Some(images.len() - 1)
            } else {
                None
            },
        }
    }
}

pub open spec fn runs_without(runs: Seq<TextRun>, id: u64) -> Seq<TextRun> {
    runs.filter(|run: TextRun| run.id != id)
}

pub open spec fn images_without(images: Seq<ImageItem>, id: u64) -> Seq<ImageItem> {
    images.filter(|image: ImageItem| image.id != id)
}

/// What one pending command at log position `index` does to what the page
/// shows: an insertion appears under a synthetic id, a removal disappears,
/// a retype changes the text, and a move or resize changes the box of the
/// first item carrying the command's id. Commands for other pages, and
/// commands that are not content edits, change nothing.
pub open spec fn overlay_step(
    c: ContentView,
    command: PendingCommand,
    index: int,
    page: u32,
) -> ContentView {
    match command {
        PendingCommand::InsertTextRun(run) => if run.page == page {
            ContentView {
                runs: c.runs.push(TextRun { id: (PENDING_ITEM_ID_BASE + index) as u64, ..run }),
                ..c
            }
        } else {
            c
        },
        PendingCommand::RemoveTextRun(run) => if run.page == page {
            ContentView { runs: runs_without(c.runs, run.id), ..c }
        } else {
            c
        },
        PendingCommand::ReplaceTextRunContent { item, after } => if item.page == page {
            match first_run(c.runs, item.id) {
                Some(i) => ContentView {
                    runs: c.runs.update(i, TextRun { text: after, ..c.runs[i] }),
                    ..c
                },
                None => c,
            }
        } else {
            c
        },
        PendingCommand::MoveTextRun { item, to } => if item.page == page {
            match first_run(c.runs, item.id) {
                Some(i) => ContentView {
                    runs: c.runs.update(i, TextRun { bbox: to, ..c.runs[i] }),
                    ..c
                },
                None => c,
            }
        } else {
            c
        },
        PendingCommand::InsertImage { item } => if item.page == page {
            ContentView {
                images: c.images.push(
                    ImageItem { id: (PENDING_ITEM_ID_BASE + index) as u64, ..item },
                ),
                ..c
            }
        } else {
            c
        },
        PendingCommand::RemoveImage { item } => if item.page == page {
            ContentView { images: images_without(c.images, item.id), ..c }
        } else {
            c
        },
        PendingCommand::MoveImage { item, to } => if item.page == page {
            match first_image(c.images, item.id) {
                Some(i) => ContentView {
                    images: c.images.update(i, ImageItem { bbox: to, ..c.images[i] }),
                    ..c
                },
                None => c,
            }
        } else {
            c
        },
        PendingCommand::ResizeImage { item, to } => if item.page == page {
            match first_image(c.images, item.id) {
                Some(i) => ContentView {
                    images: c.images.update(i, ImageItem { bbox: to, ..c.images[i] }),
                    ..c
                },
                None => c,
            }
        } else {
            c
        },
        _ => c,
    }
}

/// What the page shows once every pending command is laid over it, in log
/// order.
pub open spec fn spec_overlay(c: ContentView, entries: Seq<PendingCommand>, page: u32) -> ContentView
    decreases entries.len(),
{
    if entries.len() == 0 {
        c
    } else {
        overlay_step(
            spec_overlay(c, entries.drop_last(), page),
            entries.last(),
            entries.len() - 1,
            page,
        )
    }
}


proof fn lemma_first_run_prefix(runs: Seq<TextRun>, id: u64, n: int)
    requires
        0 <= n <= runs.len(),
        first_run(runs.take(n), id) is Some,
    ensures
        first_run(runs, id) == first_run(runs.take(n), id),
    decreases runs.len() - n,
{
    if n < runs.len() {
        assert(runs.take(n + 1).drop_last() =~= runs.take(n));
        lemma_first_run_prefix(runs, id, n + 1);
    } else {
        assert(runs.take(n) =~= runs);
    }
}

proof fn lemma_first_image_prefix(images: Seq<ImageItem>, id: u64, n: int)
    requires
        0 <= n <= images.len(),
        first_image(images.take(n), id) is Some,
    ensures
        first_image(images, id) == first_image(images.take(n), id),
    decreases images.len() - n,
{
    if n < images.len() {
        assert(images.take(n + 1).drop_last() =~= images.take(n));
        lemma_first_image_prefix(images, id, n + 1);
    } else {
        assert(images.take(n) =~= images);
    }
}

/// Where the first run carrying `id` sits.
fn find_run(runs: &Vec<TextRun>, id: u64) -> (found: Option<usize>)
    ensures
        found matches Some(k) ==> first_run(runs@, id) == Some(k as int),
        found is None ==> first_run(runs@, id) is None,
        found matches Some(i) ==> i < runs@.len() && runs@[i as int].id == id,
{
    let mut i: usize = 0;
    while i < runs.len()
        invariant
            i <= runs@.len(),
            first_run(runs@.take(i as int), id) is None,
        decreases runs@.len() - i,
    {
        assert(runs@.take(i + 1).drop_last() =~= runs@.take(i as int));
        if runs[i].id == id {
            proof {
                lemma_first_run_prefix(runs@, id, i + 1);
            }
            return Some(i);
        }
        i = i + 1;
    }
    assert(runs@.take(i as int) =~= runs@);
    None
}

/// Where the first image carrying `id` sits.
fn find_image(images: &Vec<ImageItem>, id: u64) -> (found: Option<usize>)
    ensures
        found matches Some(k) ==> first_image(images@, id) == Some(k as int),
        found is None ==> first_image(images@, id) is None,
        found matches Some(i) ==> i < images@.len() && images@[i as int].id == id,
{
    let mut i: usize = 0;
    while i < images.len()
        invariant
            i <= images@.len(),
            first_image(images@.take(i as int), id) is None,
        decreases images@.len() - i,
    {
        assert(images@.take(i + 1).drop_last() =~= images@.take(i as int));
        if images[i].id == id {
            proof {
                lemma_first_image_prefix(images@, id, i + 1);
            }
            return Some(i);
        }
        i = i + 1;
    }
    assert(images@.take(i as int) =~= images@);
    None
}

/// Drops every run carrying `id`, keeping the order of the rest.
fn remove_runs(runs: &mut Vec<TextRun>, id: u64)
    ensures
        final(runs)@ == runs_without(old(runs)@, id),
{
    let mut kept: Vec<TextRun> = Vec::new();
    let mut i: usize = 0;
    while i < runs.len()
        invariant
            i <= runs@.len(),
            kept@ == runs_without(runs@.take(i as int), id),
        decreases runs@.len() - i,
    {
        proof {
            reveal(Seq::filter);
            assert(runs@.take(i + 1).drop_last() =~= runs@.take(i as int));
        }
        if runs[i].id != id {
            kept.push(copy_run(&runs[i]));
        }
        i = i + 1;
    }
    assert(runs@.take(i as int) =~= runs@);
    *runs = kept;
}

/// Drops every image carrying `id`, keeping the order of the rest.
fn remove_images(images: &mut Vec<ImageItem>, id: u64)
    ensures
        final(images)@ == images_without(old(images)@, id),
{
    let mut kept: Vec<ImageItem> = Vec::new();
    let mut i: usize = 0;
    while i < images.len()
        invariant
            i <= images@.len(),
            kept@ == images_without(images@.take(i as int), id),
        decreases images@.len() - i,
    {
        proof {
            reveal(Seq::filter);
            assert(images@.take(i + 1).drop_last() =~= images@.take(i as int));
        }
        if images[i].id != id {
            kept.push(copy_image(&images[i]));
        }
        i = i + 1;
    }
    assert(images@.take(i as int) =~= images@);
    *images = kept;
}

/// Gives the first image carrying `id` the box `to`.
fn rebox_image(images: &mut Vec<ImageItem>, id: u64, to: Rect)
    ensures
        final(images)@ == (match first_image(old(images)@, id) {
            Some(i) => old(images)@.update(i, ImageItem { bbox: to, ..old(images)@[i] }),
            None => old(images)@,
        }),
{
    if let Some(i) = find_image(images, id) {
        let mut moved = copy_image(&images[i]);
        moved.bbox = to;
        images.set(i, moved);
    }
}

/// Lays one pending command, recorded at log position `index`, over what
/// the page shows.
fn overlay_command(content: &mut PageContent, command: &PendingCommand, index: u64, page: u32)
    requires
        PENDING_ITEM_ID_BASE + index <= u64::MAX,
    ensures
        final(content)@ == overlay_step(old(content)@, *command, index as int, page),
{
    match command {
        PendingCommand::InsertTextRun(run) => {
            if run.page == page {
                let mut minted = copy_run(run);
                minted.id = PENDING_ITEM_ID_BASE + index;
                content.text_runs.push(minted);
            }
        },
        PendingCommand::RemoveTextRun(run) => {
            if run.page == page {
                remove_runs(&mut content.text_runs, run.id);
            }
        },
        PendingCommand::ReplaceTextRunContent { item, after } => {
            if item.page == page {
                if let Some(i) = find_run(&content.text_runs, item.id) {
                    let mut retyped = copy_run(&content.text_runs[i]);
                    retyped.text = after.clone();
                    content.text_runs.set(i, retyped);
                }
            }
        },
        PendingCommand::MoveTextRun { item, to } => {
            if item.page == page {
                if let Some(i) = find_run(&content.text_runs, item.id) {
                    let mut moved = copy_run(&content.text_runs[i]);
                    moved.bbox = *to;
                    content.text_runs.set(i, moved);
                }
            }
        },
        PendingCommand::InsertImage { item } => {
            if item.page == page {
                let mut item = copy_image(item);
                item.id = PENDING_ITEM_ID_BASE + index;
                content.images.push(item);
            }
        },
        PendingCommand::RemoveImage { item } => {
            if item.page == page {
                remove_images(&mut content.images, item.id);
            }
        },
        PendingCommand::MoveImage { item, to } => {
            if item.page == page {
                rebox_image(&mut content.images, item.id, *to);
            }
        },
        PendingCommand::ResizeImage { item, to } => {
            if item.page == page {
                rebox_image(&mut content.images, item.id, *to);
            }
        },
        _ => {},
    }
}

/// Lays the pending log over a page read from the file, so hit-testing sees
/// what the user sees: inserted content under synthetic ids, removed content
/// gone, retyped runs with their new text, moved and resized items in their
/// new boxes. Only the commands for `page` apply, in log order.
pub fn overlay_pending_content(content: &mut PageContent, pending: &[PendingCommand], page: u32)
    requires
        PENDING_ITEM_ID_BASE + pending@.len() <= u64::MAX,
    ensures
        final(content)@ == spec_overlay(old(content)@, pending@, page),
{
    let ghost start = content@;
    let mut i: usize = 0;
    while i < pending.len()
        invariant
            i <= pending@.len(),
            PENDING_ITEM_ID_BASE + pending@.len() <= u64::MAX,
            content@ == spec_overlay(start, pending@.take(i as int), page),
        decreases pending@.len() - i,
    {
        assert(pending@.take(i + 1).drop_last() =~= pending@.take(i as int));
        assert(pending@.take(i + 1).last() == pending@[i as int]);
        overlay_command(content, &pending[i], i as u64, page);
        i = i + 1;
    }
    assert(pending@.take(i as int) =~= pending@);
}


/// The area of a box.
pub open spec fn area(r: Rect) -> int {
    r.width * r.height
}

/// Among the boxes holding `point`, the index of the one with the smallest
/// area; of equally small boxes, the first.
pub open spec fn smallest_hit(boxes: Seq<Rect>, point: Point) -> Option<int>
    decreases boxes.len(),
{
    if boxes.len() == 0 {
        None
    } else {
        let rest = smallest_hit(boxes.drop_last(), point);
        let last = boxes.last();
        if spec_contains(last, point) && match rest {
            Some(j) => area(last) < area(boxes[j]),
            None => true,
        } {
            Some(boxes.len() - 1)
        } else {
            rest
        }
    }
}

pub open spec fn run_boxes(runs: Seq<TextRun>) -> Seq<Rect> {
    runs.map_values(|run: TextRun| run.bbox)
}

pub open spec fn image_boxes(images: Seq<ImageItem>) -> Seq<Rect> {
    images.map_values(|image: ImageItem| image.bbox)
}

/// The smallest box under the pointer wins: the box found holds the point,
/// no box holding it is smaller, and every earlier box holding it is
/// strictly larger; when nothing is found, no box holds the point.
pub proof fn the_smallest_box_under_the_pointer_wins(boxes: Seq<Rect>, point: Point)
    ensures
        smallest_hit(boxes, point) matches Some(i) ==> {
            &&& 0 <= i < boxes.len()
            &&& spec_contains(boxes[i], point)
            &&& forall|j: int|
                0 <= j < boxes.len() && spec_contains(#[trigger] boxes[j], point) ==> area(boxes[i])
                    <= area(boxes[j]) && (j < i ==> area(boxes[i]) < area(boxes[j]))
        },
        smallest_hit(boxes, point) is None ==> forall|j: int|
            0 <= j < boxes.len() ==> !spec_contains(#[trigger] boxes[j], point),
    decreases boxes.len(),
{
    if boxes.len() > 0 {
        let rest = boxes.drop_last();
        let last = boxes.len() - 1;
        the_smallest_box_under_the_pointer_wins(rest, point);
        match smallest_hit(boxes, point) {
            Some(i) => {
                assert forall|j: int|
                    0 <= j < boxes.len() && spec_contains(#[trigger] boxes[j], point) implies area(
                        boxes[i],
                    ) <= area(boxes[j]) && (j < i ==> area(boxes[i]) < area(boxes[j])) by {
                    if j < last {
                        assert(rest[j] == boxes[j]);
                    }
                    if let Some(k) = smallest_hit(rest, point) {
                        assert(rest[k] == boxes[k]);
                    }
                }
                if let Some(k) = smallest_hit(rest, point) {
                    assert(rest[k] == boxes[k]);
                }
            },
            None => {
                assert forall|j: int| 0 <= j < boxes.len() implies !spec_contains(
                    #[trigger] boxes[j],
                    point,
                ) by {
                    if j < last {
                        assert(rest[j] == boxes[j]);
                    }
                }
            },
        }
    }
}

fn area_of(r: Rect) -> (a: i128)
    requires
        rect_ok(r),
    ensures
        a == area(r),
{
    let w = r.width as i128;
    let h = r.height as i128;
    assert(-4 * COORD_LIMIT * COORD_LIMIT <= w * h <= 4 * COORD_LIMIT * COORD_LIMIT) by (
    nonlinear_arith)
        requires
            -2 * COORD_LIMIT <= w <= 2 * COORD_LIMIT,
            -2 * COORD_LIMIT <= h <= 2 * COORD_LIMIT,
    ;
    w * h
}

/// The text run under `point`: of several overlapping runs, the one with the
/// smallest box, so a word inside a larger block stays reachable.
pub fn text_run_at(content: &PageContent, point: Point) -> (found: Option<&TextRun>)
    requires
        content_ok(content@),
        point_ok(point),
    ensures
        match smallest_hit(run_boxes(content.text_runs@), point) {
            Some(i) => found == Some(&content.text_runs@[i]),
            None => found is None,
        },
{
    let runs = &content.text_runs;
    let ghost boxes = run_boxes(runs@);
    assert forall|j: int| 0 <= j < runs@.len() implies rect_ok(#[trigger] runs@[j].bbox) by {
        assert(content@.runs[j] == runs@[j]);
    }
    let mut best: Option<usize> = None;
    let mut best_area: i128 = 0;
    let mut i: usize = 0;
    while i < runs.len()
        invariant
            i <= runs@.len(),
            boxes == run_boxes(runs@),
            point_ok(point),
            forall|j: int| 0 <= j < runs@.len() ==> rect_ok(#[trigger] runs@[j].bbox),
            match smallest_hit(boxes.take(i as int), point) {
                Some(j) => best matches Some(b) && b == j && j < i && best_area == area(boxes[j]),
                None => best is None,
            },
        decreases runs@.len() - i,
    {
        assert(boxes.take(i + 1).drop_last() =~= boxes.take(i as int));
        assert(boxes[i as int] == runs@[i as int].bbox);
        proof {
            if let Some(j) = smallest_hit(boxes.take(i as int), point) {
                assert(boxes.take(i + 1)[j] == boxes[j]);
            }
            assert(boxes.take(i + 1)[i as int] == boxes[i as int]);
        }
        let bbox = runs[i].bbox;
        if contains(bbox, point) {
            let a = area_of(bbox);
            if best.is_none() || a < best_area {
                best = Some(i);
                best_area = a;
            }
        }
        i = i + 1;
    }
    assert(boxes.take(i as int) =~= boxes);
    match best {
        Some(j) => Some(&runs[j]),
        None => None,
    }
}

/// The image under `point`: of several overlapping images, the one with the
/// smallest box.
pub fn image_at(content: &PageContent, point: Point) -> (found: Option<&ImageItem>)
    requires
        content_ok(content@),
        point_ok(point),
    ensures
        match smallest_hit(image_boxes(content.images@), point) {
            Some(i) => found == Some(&content.images@[i]),
            None => found is None,
        },
{
    let images = &content.images;
    let ghost boxes = image_boxes(images@);
    assert forall|j: int| 0 <= j < images@.len() implies rect_ok(#[trigger] images@[j].bbox) by {
        assert(content@.images[j] == images@[j]);
    }
    let mut best: Option<usize> = None;
    let mut best_area: i128 = 0;
    let mut i: usize = 0;
    while i < images.len()
        invariant
            i <= images@.len(),
            boxes == image_boxes(images@),
            point_ok(point),
            forall|j: int| 0 <= j < images@.len() ==> rect_ok(#[trigger] images@[j].bbox),
            match smallest_hit(boxes.take(i as int), point) {
                Some(j) => best matches Some(b) && b == j && j < i && best_area == area(boxes[j]),
                None => best is None,
            },
        decreases images@.len() - i,
    {
        assert(boxes.take(i + 1).drop_last() =~= boxes.take(i as int));
        assert(boxes[i as int] == images@[i as int].bbox);
        proof {
            if let Some(j) = smallest_hit(boxes.take(i as int), point) {
                assert(boxes.take(i + 1)[j] == boxes[j]);
            }
            assert(boxes.take(i + 1)[i as int] == boxes[i as int]);
        }
        let bbox = images[i].bbox;
        if contains(bbox, point) {
            let a = area_of(bbox);
            if best.is_none() || a < best_area {
                best = Some(i);
                best_area = a;
            }
        }
        i = i + 1;
    }
    assert(boxes.take(i as int) =~= boxes);
    match best {
        Some(j) => Some(&images[j]),
        None => None,
    }
}


/// The candidate resource name numbered `n`: the prefix, then the decimal
/// numeral.
pub open spec fn candidate(prefix: Seq<char>, n: nat) -> Seq<char> {
    prefix + decimal(n)
}

pub open spec fn names_of(strings: Seq<String>) -> Seq<Seq<char>> {
    strings.map_values(|s: String| s@)
}

/// `name` is the first candidate, counting from one, that `in_use` does not
/// hold.
pub open spec fn is_first_free(prefix: Seq<char>, in_use: Seq<Seq<char>>, name: Seq<char>) -> bool {
    exists|n: nat|
        #![trigger candidate(prefix, n)]
        n >= 1 && name == candidate(prefix, n) && !in_use.contains(name) && forall|m: nat|
            1 <= m < n ==> in_use.contains(#[trigger] candidate(prefix, m))
}

/// The font resource names a page already uses, then those queued
/// insertions have claimed.
pub open spec fn font_names(runs: Seq<TextRun>, reserved: Seq<String>) -> Seq<Seq<char>> {
    runs.map_values(|run: TextRun| run.resource_font_name@) + names_of(reserved)
}

/// The image resource names a page already uses, then those queued
/// commands have claimed.
pub open spec fn xobject_names(images: Seq<ImageItem>, reserved: Seq<String>) -> Seq<Seq<char>> {
    images.map_values(|image: ImageItem| image.resource_xobject_name@) + names_of(reserved)
}

/// Whether `s` is the prefix followed by the canonical numeral of a number
/// at least `n`.
spec fn numbered_at_least(s: Seq<char>, prefix: Seq<char>, n: nat) -> bool {
    let tail = s.subrange(prefix.len() as int, s.len() as int);
    &&& s.len() >= prefix.len()
    &&& s.subrange(0, prefix.len() as int) == prefix
    &&& decimal(numeral_value(tail)) == tail
    &&& numeral_value(tail) >= n
}

/// How many names in `names` are candidates numbered `n` or above: the
/// measure that shrinks as the search for a free candidate moves on.
spec fn count_at_least(names: Seq<Seq<char>>, prefix: Seq<char>, n: nat) -> nat
    decreases names.len(),
{
    if names.len() == 0 {
        0
    } else {
        count_at_least(names.drop_last(), prefix, n) + if numbered_at_least(
            names.last(),
            prefix,
            n,
        ) {
            1nat
        } else {
            0nat
        }
    }
}

proof fn lemma_candidate_numbered(prefix: Seq<char>, m: nat, n: nat)
    ensures
        numbered_at_least(candidate(prefix, m), prefix, n) <==> m >= n,
{
    let c = candidate(prefix, m);
    numeral_round_trip(m);
    assert(c.subrange(prefix.len() as int, c.len() as int) =~= decimal(m));
    assert(c.subrange(0, prefix.len() as int) =~= prefix);
}

proof fn lemma_count_step(names: Seq<Seq<char>>, prefix: Seq<char>, n: nat)
    ensures
        count_at_least(names, prefix, n + 1) + (if names.contains(candidate(prefix, n)) {
            1nat
        } else {
            0nat
        }) <= count_at_least(names, prefix, n),
        count_at_least(names, prefix, n) <= names.len(),
    decreases names.len(),
{
    if names.len() > 0 {
        let rest = names.drop_last();
        let last = names.last();
        let c = candidate(prefix, n);
        lemma_count_step(rest, prefix, n);
        lemma_candidate_numbered(prefix, n, n);
        lemma_candidate_numbered(prefix, n, n + 1);
        if names.contains(c) && !rest.contains(c) {
            let k = choose|k: int| 0 <= k < names.len() && names[k] == c;
            if k < names.len() - 1 {
                assert(rest[k] == c);
            }
            assert(last == c);
        }
        if rest.contains(c) {
            let k = choose|k: int| 0 <= k < rest.len() && rest[k] == c;
            assert(names[k] == c);
        }
    }
}

/// Whether `name` is among `in_use`.
fn is_taken(name: &String, in_use: &Vec<String>) -> (taken: bool)
    ensures
        taken == names_of(in_use@).contains(name@),
{
    let ghost names = names_of(in_use@);
    let mut i: usize = 0;
    while i < in_use.len()
        invariant
            i <= in_use@.len(),
            names == names_of(in_use@),
            forall|j: int| 0 <= j < i ==> names[j] != name@,
        decreases in_use@.len() - i,
    {
        if in_use[i] == *name {
            assert(names[i as int] == name@);
            return true;
        }
        i = i + 1;
    }
    assert forall|j: int| 0 <= j < names.len() implies names[j] != name@ by {}
    false
}

/// The first candidate, counting from one, that no name of `in_use` holds.
fn first_unused(prefix: &str, in_use: &Vec<String>) -> (name: String)
    requires
        in_use@.len() < u64::MAX,
    ensures
        is_first_free(prefix@, names_of(in_use@), name@),
{
    let ghost names = names_of(in_use@);
    proof {
        lemma_count_step(names, prefix@, 1);
    }
    let mut n: u64 = 1;
    loop
        invariant
            1 <= n,
            in_use@.len() < u64::MAX,
            names == names_of(in_use@),
            n + count_at_least(names, prefix@, n as nat) <= names.len() + 1,
            forall|m: nat| 1 <= m < n ==> names.contains(#[trigger] candidate(prefix@, m)),
        decreases count_at_least(names, prefix@, n as nat),
    {
        let digits = decimal_string(n);
        let name = join(prefix, digits.as_str());
        assert(name@ == candidate(prefix@, n as nat));
        if !is_taken(&name, in_use) {
            assert(is_first_free(prefix@, names, name@));
            return name;
        }
        proof {
            lemma_count_step(names, prefix@, n as nat);
        }
        n = n + 1;
    }
}

/// A fresh font resource name for inserted text: "FIns" and the smallest
/// number from one whose name neither the page nor a queued insertion
/// already uses.
pub fn unused_font_resource_name(content: &PageContent, reserved: &[String]) -> (name: String)
    requires
        content.text_runs@.len() + reserved@.len() < u64::MAX,
    ensures
        is_first_free("FIns"@, font_names(content.text_runs@, reserved@), name@),
{
    let mut in_use: Vec<String> = Vec::new();
    let mut i: usize = 0;
    while i < content.text_runs.len()
        invariant
            i <= content.text_runs@.len(),
            in_use@.len() == i,
            forall|j: int| 0 <= j < i ==> (#[trigger] in_use@[j])@ == content.text_runs@[j].resource_font_name@,
        decreases content.text_runs@.len() - i,
    {
        in_use.push(content.text_runs[i].resource_font_name.clone());
        i = i + 1;
    }
    let ghost on_page = content.text_runs@.len();
    let mut k: usize = 0;
    while k < reserved.len()
        invariant
            k <= reserved@.len(),
            on_page == content.text_runs@.len(),
            in_use@.len() == on_page + k,
            forall|j: int| 0 <= j < on_page ==> (#[trigger] in_use@[j])@ == content.text_runs@[j].resource_font_name@,
            forall|j: int| 0 <= j < k ==> (#[trigger] in_use@[on_page + j])@ == reserved@[j]@,
        decreases reserved@.len() - k,
    {
        in_use.push(reserved[k].clone());
        k = k + 1;
    }
    assert(names_of(in_use@) =~= font_names(content.text_runs@, reserved@)) by {
        assert forall|j: int| 0 <= j < in_use@.len() implies names_of(in_use@)[j] == font_names(
            content.text_runs@,
            reserved@,
        )[j] by {
            if j >= on_page {
                assert(in_use@[on_page + (j - on_page)] == in_use@[j]);
            }
        }
    }
    first_unused("FIns", &in_use)
}

/// A fresh image resource name for an inserted picture: "XIns" and the
/// smallest number from one whose name neither the page nor a queued
/// command already uses.
pub fn unused_xobject_resource_name(content: &PageContent, reserved: &[String]) -> (name: String)
    requires
        content.images@.len() + reserved@.len() < u64::MAX,
    ensures
        is_first_free("XIns"@, xobject_names(content.images@, reserved@), name@),
{
    let mut in_use: Vec<String> = Vec::new();
    let mut i: usize = 0;
    while i < content.images.len()
        invariant
            i <= content.images@.len(),
            in_use@.len() == i,
            forall|j: int| 0 <= j < i ==> (#[trigger] in_use@[j])@ == content.images@[j].resource_xobject_name@,
        decreases content.images@.len() - i,
    {
        in_use.push(content.images[i].resource_xobject_name.clone());
        i = i + 1;
    }
    let ghost on_page = content.images@.len();
    let mut k: usize = 0;
    while k < reserved.len()
        invariant
            k <= reserved@.len(),
            on_page == content.images@.len(),
            in_use@.len() == on_page + k,
            forall|j: int| 0 <= j < on_page ==> (#[trigger] in_use@[j])@ == content.images@[j].resource_xobject_name@,
            forall|j: int| 0 <= j < k ==> (#[trigger] in_use@[on_page + j])@ == reserved@[j]@,
        decreases reserved@.len() - k,
    {
        in_use.push(reserved[k].clone());
        k = k + 1;
    }
    assert(names_of(in_use@) =~= xobject_names(content.images@, reserved@)) by {
        assert forall|j: int| 0 <= j < in_use@.len() implies names_of(in_use@)[j] == xobject_names(
            content.images@,
            reserved@,
        )[j] by {
            if j >= on_page {
                assert(in_use@[on_page + (j - on_page)] == in_use@[j]);
            }
        }
    }
    first_unused("XIns", &in_use)
}

/// The font resource a queued command claims: an insertion's.
pub open spec fn font_claim(command: PendingCommand) -> Option<String> {
    match command {
        PendingCommand::InsertTextRun(run) => Some(run.resource_font_name),
        _ => None,
    }
}

/// The image resource a queued command claims: an insertion's, and a
/// removal's too, since undoing the removal brings the name back.
pub open spec fn xobject_claim(command: PendingCommand) -> Option<String> {
    match command {
        PendingCommand::InsertImage { item } => Some(item.resource_xobject_name),
        PendingCommand::RemoveImage { item } => Some(item.resource_xobject_name),
        _ => None,
    }
}

pub open spec fn font_claims(entries: Seq<PendingCommand>) -> Seq<String> {
    entries.filter_map(|command: PendingCommand| font_claim(command))
}

pub open spec fn xobject_claims(entries: Seq<PendingCommand>) -> Seq<String> {
    entries.filter_map(|command: PendingCommand| xobject_claim(command))
}

/// The font resource names queued insertions have claimed, in log order.
pub fn reserved_font_resource_names(pending: &[PendingCommand]) -> (names: Vec<String>)
    ensures
        names@ == font_claims(pending@),
{
    let mut names: Vec<String> = Vec::new();
    let mut i: usize = 0;
    while i < pending.len()
        invariant
            i <= pending@.len(),
            names@ == font_claims(pending@.take(i as int)),
        decreases pending@.len() - i,
    {
        assert(pending@.take(i + 1).drop_last() =~= pending@.take(i as int));
        assert(pending@.take(i + 1).last() == pending@[i as int]);
        match &pending[i] {
            PendingCommand::InsertTextRun(run) => {
                names.push(run.resource_font_name.clone());
            },
            _ => {},
        }
        i = i + 1;
    }
    assert(pending@.take(i as int) =~= pending@);
    names
}

/// The image resource names queued insertions and removals have claimed,
/// in log order.
pub fn reserved_xobject_resource_names(pending: &[PendingCommand]) -> (names: Vec<String>)
    ensures
        names@ == xobject_claims(pending@),
{
    let mut names: Vec<String> = Vec::new();
    let mut i: usize = 0;
    while i < pending.len()
        invariant
            i <= pending@.len(),
            names@ == xobject_claims(pending@.take(i as int)),
        decreases pending@.len() - i,
    {
        assert(pending@.take(i + 1).drop_last() =~= pending@.take(i as int));
        assert(pending@.take(i + 1).last() == pending@[i as int]);
        match &pending[i] {
            PendingCommand::InsertImage { item } => {
                names.push(item.resource_xobject_name.clone());
            },
            PendingCommand::RemoveImage { item } => {
                names.push(item.resource_xobject_name.clone());
            },
            _ => {},
        }
        i = i + 1;
    }
    assert(pending@.take(i as int) =~= pending@);
    names
}


pub(crate) proof fn lemma_first_run_bounds(runs: Seq<TextRun>, id: u64)
    ensures
        first_run(runs, id) matches Some(i) ==> 0 <= i < runs.len() && runs[i].id == id,
    decreases runs.len(),
{
    if runs.len() > 0 {
        lemma_first_run_bounds(runs.drop_last(), id);
    }
}

pub(crate) proof fn lemma_first_image_bounds(images: Seq<ImageItem>, id: u64)
    ensures
        first_image(images, id) matches Some(i) ==> 0 <= i < images.len() && images[i].id == id,
    decreases images.len(),
{
    if images.len() > 0 {
        lemma_first_image_bounds(images.drop_last(), id);
    }
}

pub(crate) proof fn lemma_filter_members<A>(s: Seq<A>, pred: spec_fn(A) -> bool, k: int)
    requires
        0 <= k < s.filter(pred).len(),
    ensures
        exists|j: int| 0 <= j < s.len() && s[j] == #[trigger] s.filter(pred)[k],
{
    assert(s.filter(pred).contains(s.filter(pred)[k]));
    s.lemma_filter_contains_rev(pred, s.filter(pred)[k]);
}

/// Laying the log over a page keeps every box in range, when the page's
/// boxes and the boxes the log carries are.
pub proof fn the_overlay_keeps_boxes_in_range(c: ContentView, entries: Seq<PendingCommand>, page: u32)
    requires
        content_ok(c),
        forall|i: int| 0 <= i < entries.len() ==> command_ok(#[trigger] entries[i]),
    ensures
        content_ok(spec_overlay(c, entries, page)),
    decreases entries.len(),
{
    if entries.len() > 0 {
        let rest = entries.drop_last();
        assert forall|i: int| 0 <= i < rest.len() implies command_ok(#[trigger] rest[i]) by {
            assert(rest[i] == entries[i]);
        }
        the_overlay_keeps_boxes_in_range(c, rest, page);
        let before = spec_overlay(c, rest, page);
        let after = spec_overlay(c, entries, page);
        let last = entries.last();
        assert(command_ok(entries[entries.len() - 1]));
        match last {
            PendingCommand::ReplaceTextRunContent { item, .. } => {
                lemma_first_run_bounds(before.runs, item.id);
            },
            PendingCommand::MoveTextRun { item, .. } => {
                lemma_first_run_bounds(before.runs, item.id);
            },
            PendingCommand::MoveImage { item, .. } => {
                lemma_first_image_bounds(before.images, item.id);
            },
            PendingCommand::ResizeImage { item, .. } => {
                lemma_first_image_bounds(before.images, item.id);
            },
            _ => {},
        }
        assert forall|k: int| 0 <= k < after.runs.len() implies rect_ok(
            #[trigger] after.runs[k].bbox,
        ) by {
            match last {
                PendingCommand::RemoveTextRun(run) => {
                    if run.page == page {
                        lemma_filter_members(before.runs, |r: TextRun| r.id != run.id, k);
                    } else {
                        assert(after.runs[k] == before.runs[k]);
                    }
                },
                _ => {
                    if k < before.runs.len() {
                        assert(rect_ok(before.runs[k].bbox));
                    }
                },
            }
        }
        assert forall|k: int| 0 <= k < after.images.len() implies rect_ok(
            #[trigger] after.images[k].bbox,
        ) by {
            match last {
                PendingCommand::RemoveImage { item } => {
                    if item.page == page {
                        lemma_filter_members(before.images, |r: ImageItem| r.id != item.id, k);
                    } else {
                        assert(after.images[k] == before.images[k]);
                    }
                },
                _ => {
                    if k < before.images.len() {
                        assert(rect_ok(before.images[k].bbox));
                    }
                },
            }
        }
    }
}


/// Whether `command` can change what `page` shows.
pub open spec fn concerns_page(command: PendingCommand, page: u32) -> bool {
    match command {
        PendingCommand::InsertTextRun(run) => run.page == page,
        PendingCommand::RemoveTextRun(run) => run.page == page,
        PendingCommand::ReplaceTextRunContent { item, .. } => item.page == page,
        PendingCommand::MoveTextRun { item, .. } => item.page == page,
        PendingCommand::InsertImage { item } => item.page == page,
        PendingCommand::RemoveImage { item } => item.page == page,
        PendingCommand::MoveImage { item, .. } => item.page == page,
        PendingCommand::ResizeImage { item, .. } => item.page == page,
        _ => false,
    }
}

/// Commands for other pages, and edits that are not page content, leave a
/// page exactly as the file has it.
pub proof fn commands_for_other_pages_change_nothing(
    c: ContentView,
    entries: Seq<PendingCommand>,
    page: u32,
)
    requires
        forall|i: int| 0 <= i < entries.len() ==> !concerns_page(#[trigger] entries[i], page),
    ensures
        spec_overlay(c, entries, page) == c,
    decreases entries.len(),
{
    if entries.len() > 0 {
        let rest = entries.drop_last();
        assert forall|i: int| 0 <= i < rest.len() implies !concerns_page(#[trigger] rest[i], page) by {
            assert(rest[i] == entries[i]);
        }
        commands_for_other_pages_change_nothing(c, rest, page);
        assert(!concerns_page(entries[entries.len() - 1], page));
    }
}


proof fn lemma_first_image_is(images: Seq<ImageItem>, id: u64, k: int)
    requires
        0 <= k <= images.len(),
        k < images.len() ==> images[k].id == id,
        forall|j: int| 0 <= j < k ==> (#[trigger] images[j]).id != id,
    ensures
        first_image(images, id) == (if k < images.len() { Some(k) } else { None::<int> }),
    decreases images.len(),
{
    if images.len() > 0 {
        let rest = images.drop_last();
        if k < images.len() - 1 {
            assert(rest[k] == images[k]);
            assert forall|j: int| 0 <= j < k implies (#[trigger] rest[j]).id != id by {
                assert(rest[j] == images[j]);
            }
            lemma_first_image_is(rest, id, k);
        } else {
            assert forall|j: int| 0 <= j < rest.len() implies (#[trigger] rest[j]).id != id by {
                assert(rest[j] == images[j]);
            }
            lemma_first_image_is(rest, id, rest.len() as int);
        }
    }
}

/// A pending move or resize of an image shows that image at the box it was
/// moved or resized to: the first image on the page that carries the
/// command's id takes the command's box and keeps its id, page and
/// resource, and every other image and every text run stays as it was.
pub proof fn a_pending_move_or_resize_shows_the_image_at_its_new_box(
    c: ContentView,
    entries: Seq<PendingCommand>,
    command: PendingCommand,
    item: ImageItem,
    to: Rect,
    page: u32,
    k: int,
)
    requires
        command == (PendingCommand::MoveImage { item, to }) || command == (
        PendingCommand::ResizeImage { item, to }),
        item.page == page,
        0 <= k < spec_overlay(c, entries, page).images.len(),
        spec_overlay(c, entries, page).images[k].id == item.id,
        forall|j: int|
            0 <= j < k ==> (#[trigger] spec_overlay(c, entries, page).images[j]).id != item.id,
    ensures
        ({
            let before = spec_overlay(c, entries, page);
            let after = spec_overlay(c, entries.push(command), page);
            &&& after.runs == before.runs
            &&& after.images.len() == before.images.len()
            &&& after.images[k].bbox == to
            &&& after.images[k].id == before.images[k].id
            &&& after.images[k].page == before.images[k].page
            &&& after.images[k].resource_xobject_name == before.images[k].resource_xobject_name
            &&& forall|j: int|
                0 <= j < before.images.len() && j != k ==> #[trigger] after.images[j]
                    == before.images[j]
        }),
{
    let before = spec_overlay(c, entries, page);
    let longer = entries.push(command);
    assert(longer.drop_last() =~= entries);
    assert(longer.last() == command);
    lemma_first_image_is(before.images, item.id, k);
}

} // verus!
