//! Page-space pointer maths shared by annotations, page images and form
//! fields: rects, corner handles, hit-testing, and what a move or resize drag
//! does to a box.
//!
//! Coordinates are PDF page space with a bottom-left origin, held as whole
//! milli-points (1/1000 of a PDF point) so that every comparison and every
//! sum here is exact. The shell converts to and from its floating-point
//! pointer coordinates at the edge.

use vstd::prelude::*;

verus! {

/// Milli-points per PDF point.
pub const MILLIPOINTS_PER_POINT: i64 = 1000;

/// The largest magnitude a coordinate handed to this module may have:
/// a trillion PDF points, far beyond any page, and small enough that every
/// sum and product below stays inside the machine integers.
pub const COORD_LIMIT: i64 = 1_000_000_000_000_000;

/// Floor for each side of a traced or resized rect, so a flat sweep or a
/// corner dragged onto its opposite still leaves something visible and
/// selectable behind (4 pt).
pub const MIN_SIDE: i64 = 4000;

/// How far the pointer must travel from the press point before a placement
/// gesture counts as a drag rather than a click (8 pt).
pub const MIN_DRAG: i64 = 8000;

pub open spec fn coord_ok(v: int) -> bool {
    -COORD_LIMIT <= v <= COORD_LIMIT
}

pub open spec fn abs(v: int) -> int {
    if v < 0 {
        -v
    } else {
        v
    }
}

pub open spec fn min(a: int, b: int) -> int {
    if a <= b {
        a
    } else {
        b
    }
}

pub open spec fn max(a: int, b: int) -> int {
    if a >= b {
        a
    } else {
        b
    }
}

/// A point in page space.
#[derive(Clone, Copy, Debug, PartialEq, Eq, Structural)]
pub struct Point {
    pub x: i64,
    pub y: i64,
}

/// An axis-aligned box in page space: `(x, y)` is its bottom-left corner.
#[derive(Clone, Copy, Debug, PartialEq, Eq, Structural)]
pub struct Rect {
    pub x: i64,
    pub y: i64,
    pub width: i64,
    pub height: i64,
}

pub open spec fn point_ok(p: Point) -> bool {
    coord_ok(p.x as int) && coord_ok(p.y as int)
}

/// Whether a side length is within reach: at most twice [`COORD_LIMIT`], the
/// span between two coordinates.
pub open spec fn extent_ok(v: int) -> bool {
    -2 * COORD_LIMIT <= v <= 2 * COORD_LIMIT
}

pub open spec fn rect_ok(r: Rect) -> bool {
    coord_ok(r.x as int) && coord_ok(r.y as int) && extent_ok(r.width as int) && extent_ok(
        r.height as int,
    )
}

/// The four corner handles of a box.
#[derive(Clone, Copy, Debug, PartialEq, Eq, Structural)]
pub enum Corner {
    BottomLeft,
    BottomRight,
    TopLeft,
    TopRight,
}

/// What a drag on an existing box does to it.
#[derive(Clone, Copy, Debug, PartialEq, Eq, Structural)]
pub enum DragMode {
    /// The body was grabbed: the box follows the pointer.
    Move,
    /// A corner handle was grabbed: that corner follows the pointer.
    Resize(Corner),
}

pub open spec fn corner_x(rect: Rect, corner: Corner) -> int {
    match corner {
        Corner::BottomLeft | Corner::TopLeft => rect.x as int,
        Corner::BottomRight | Corner::TopRight => rect.x + rect.width,
    }
}

pub open spec fn corner_y(rect: Rect, corner: Corner) -> int {
    match corner {
        Corner::BottomLeft | Corner::BottomRight => rect.y as int,
        Corner::TopLeft | Corner::TopRight => rect.y + rect.height,
    }
}

pub open spec fn spec_opposite(corner: Corner) -> Corner {
    match corner {
        Corner::BottomLeft => Corner::TopRight,
        Corner::BottomRight => Corner::TopLeft,
        Corner::TopLeft => Corner::BottomRight,
        Corner::TopRight => Corner::BottomLeft,
    }
}

/// Whether the handle of `corner` is within `reach` of `point` on both axes.
pub open spec fn handle_hit(rect: Rect, point: Point, reach: int, corner: Corner) -> bool {
    abs(point.x - corner_x(rect, corner)) <= reach && abs(point.y - corner_y(rect, corner))
        <= reach
}

/// The first corner, in the order bottom-left, bottom-right, top-left,
/// top-right, whose handle is under `point`.
pub open spec fn spec_corner_at(rect: Rect, point: Point, reach: int) -> Option<Corner> {
    if handle_hit(rect, point, reach, Corner::BottomLeft) {
        Some(Corner::BottomLeft)
    } else if handle_hit(rect, point, reach, Corner::BottomRight) {
        Some(Corner::BottomRight)
    } else if handle_hit(rect, point, reach, Corner::TopLeft) {
        Some(Corner::TopLeft)
    } else if handle_hit(rect, point, reach, Corner::TopRight) {
        Some(Corner::TopRight)
    } else {
        None
    }
}

/// Whether `point` lies in the box, edges included.
pub open spec fn spec_contains(rect: Rect, point: Point) -> bool {
    &&& rect.x <= point.x <= rect.x + rect.width
    &&& rect.y <= point.y <= rect.y + rect.height
}

/// The box a resize drag produces: the corner opposite the grabbed one is
/// the anchor, the pointer is the other end, and each side is floored at
/// [`MIN_SIDE`].
pub open spec fn spec_resized(rect: Rect, corner: Corner, point: Point) -> Rect {
    let ax = corner_x(rect, spec_opposite(corner));
    let ay = corner_y(rect, spec_opposite(corner));
    Rect {
        x: min(ax, point.x as int) as i64,
        y: min(ay, point.y as int) as i64,
        width: max(abs(point.x - ax), MIN_SIDE as int) as i64,
        height: max(abs(point.y - ay), MIN_SIDE as int) as i64,
    }
}

/// The box moved by the pointer's travel from `origin` to `current`.
pub open spec fn spec_moved(rect: Rect, origin: Point, current: Point) -> Rect {
    Rect {
        x: (rect.x + (current.x - origin.x)) as i64,
        y: (rect.y + (current.y - origin.y)) as i64,
        width: rect.width,
        height: rect.height,
    }
}

pub open spec fn spec_dragged(rect: Rect, mode: DragMode, origin: Point, current: Point) -> Rect {
    match mode {
        DragMode::Move => spec_moved(rect, origin, current),
        DragMode::Resize(corner) => spec_resized(rect, corner, current),
    }
}

/// Whether the pointer travelled at least [`MIN_DRAG`] from `origin`,
/// measured as distance rather than per axis.
pub open spec fn spec_far_enough(origin: Point, current: Point) -> bool {
    (current.x - origin.x) * (current.x - origin.x) + (current.y - origin.y) * (current.y
        - origin.y) >= MIN_DRAG * MIN_DRAG
}

/// The box the pointer traced from `origin` to `current`, normalised so any
/// of the four drag directions gives the same box, each side floored.
pub open spec fn spec_traced(origin: Point, current: Point) -> Rect {
    Rect {
        x: min(origin.x as int, current.x as int) as i64,
        y: min(origin.y as int, current.y as int) as i64,
        width: max(abs(current.x - origin.x), MIN_SIDE as int) as i64,
        height: max(abs(current.y - origin.y), MIN_SIDE as int) as i64,
    }
}

/// A box of the given size whose top-left corner is `origin`. PDF space has
/// a bottom-left origin, so "top-left" puts the box below the point.
pub open spec fn spec_hanging(origin: Point, width: int, height: int) -> Rect {
    Rect { x: origin.x, y: (origin.y - height) as i64, width: width as i64, height: height as i64 }
}

/// `|a - b|`, exactly.
pub fn distance(a: i64, b: i64) -> (d: i64)
    requires
        -3 * COORD_LIMIT <= a <= 3 * COORD_LIMIT,
        -3 * COORD_LIMIT <= b <= 3 * COORD_LIMIT,
    ensures
        d == abs(a - b),
{
    if a >= b {
        a - b
    } else {
        b - a
    }
}

fn min_of(a: i64, b: i64) -> (m: i64)
    ensures
        m == min(a as int, b as int),
{
    if a <= b {
        a
    } else {
        b
    }
}

fn max_of(a: i64, b: i64) -> (m: i64)
    ensures
        m == max(a as int, b as int),
{
    if a >= b {
        a
    } else {
        b
    }
}

/// Where a corner sits.
pub fn corner_point(rect: Rect, corner: Corner) -> (p: Point)
    requires
        rect_ok(rect),
    ensures
        p.x == corner_x(rect, corner),
        p.y == corner_y(rect, corner),
{
    match corner {
        Corner::BottomLeft => Point { x: rect.x, y: rect.y },
        Corner::BottomRight => Point { x: rect.x + rect.width, y: rect.y },
        Corner::TopLeft => Point { x: rect.x, y: rect.y + rect.height },
        Corner::TopRight => Point { x: rect.x + rect.width, y: rect.y + rect.height },
    }
}

/// The corner across the box from `corner`.
pub fn opposite(corner: Corner) -> (o: Corner)
    ensures
        o == spec_opposite(corner),
{
    match corner {
        Corner::BottomLeft => Corner::TopRight,
        Corner::BottomRight => Corner::TopLeft,
        Corner::TopLeft => Corner::BottomRight,
        Corner::TopRight => Corner::BottomLeft,
    }
}

fn hits_handle(rect: Rect, point: Point, reach: i64, corner: Corner) -> (hit: bool)
    requires
        rect_ok(rect),
        point_ok(point),
    ensures
        hit == handle_hit(rect, point, reach as int, corner),
{
    let c = corner_point(rect, corner);
    distance(point.x, c.x) <= reach && distance(point.y, c.y) <= reach
}

/// The corner whose handle is under `point`, if any. `reach` is the grab
/// radius; the corners are tried bottom-left, bottom-right, top-left,
/// top-right, and the first within reach on both axes wins.
pub fn corner_at(rect: Rect, point: Point, reach: i64) -> (found: Option<Corner>)
    requires
        rect_ok(rect),
        point_ok(point),
    ensures
        found == spec_corner_at(rect, point, reach as int),
{
    if hits_handle(rect, point, reach, Corner::BottomLeft) {
        Some(Corner::BottomLeft)
    } else if hits_handle(rect, point, reach, Corner::BottomRight) {
        Some(Corner::BottomRight)
    } else if hits_handle(rect, point, reach, Corner::TopLeft) {
        Some(Corner::TopLeft)
    } else if hits_handle(rect, point, reach, Corner::TopRight) {
        Some(Corner::TopRight)
    } else {
        None
    }
}

/// Whether `point` is inside the box. Edges count as inside.
pub fn contains(rect: Rect, point: Point) -> (inside: bool)
    requires
        rect_ok(rect),
        point_ok(point),
    ensures
        inside == spec_contains(rect, point),
{
    point.x >= rect.x && point.x <= rect.x + rect.width && point.y >= rect.y && point.y <= rect.y
        + rect.height
}

/// The box a resize drag produces: the grabbed corner follows the pointer,
/// the opposite corner stays put, and the result is normalised so dragging
/// a corner past its opposite flips the box rather than inverting it.
pub fn resized_rect(rect: Rect, corner: Corner, point: Point) -> (resized: Rect)
    requires
        rect_ok(rect),
        point_ok(point),
    ensures
        resized == spec_resized(rect, corner, point),
{
    let anchor = corner_point(rect, opposite(corner));
    Rect {
        x: min_of(anchor.x, point.x),
        y: min_of(anchor.y, point.y),
        width: max_of(distance(point.x, anchor.x), MIN_SIDE),
        height: max_of(distance(point.y, anchor.y), MIN_SIDE),
    }
}

/// The box shifted by the pointer's travel; its size is untouched.
pub fn moved_rect(rect: Rect, origin: Point, current: Point) -> (moved: Rect)
    requires
        rect_ok(rect),
        point_ok(origin),
        point_ok(current),
    ensures
        moved == spec_moved(rect, origin, current),
{
    Rect {
        x: rect.x + (current.x - origin.x),
        y: rect.y + (current.y - origin.y),
        width: rect.width,
        height: rect.height,
    }
}

/// Applies a drag in progress to `rect`: the rect that would be committed
/// if the drag ended now.
pub fn dragged_rect(rect: Rect, mode: DragMode, origin: Point, current: Point) -> (after: Rect)
    requires
        rect_ok(rect),
        point_ok(origin),
        point_ok(current),
    ensures
        after == spec_dragged(rect, mode, origin, current),
{
    match mode {
        DragMode::Move => moved_rect(rect, origin, current),
        DragMode::Resize(corner) => resized_rect(rect, corner, current),
    }
}

/// Whether the pointer travelled far enough from `origin` for the gesture
/// to be a drag: distance, not per-axis travel, so a wide shallow sweep is
/// a drag however little it moved vertically.
pub fn far_enough(origin: Point, current: Point) -> (far: bool)
    requires
        point_ok(origin),
        point_ok(current),
    ensures
        far == spec_far_enough(origin, current),
{
    let dx = (current.x as i128) - (origin.x as i128);
    let dy = (current.y as i128) - (origin.y as i128);
    assert(dx * dx <= 4 * COORD_LIMIT * COORD_LIMIT) by (nonlinear_arith)
        requires
            -2 * COORD_LIMIT <= dx <= 2 * COORD_LIMIT,
    ;
    assert(dy * dy <= 4 * COORD_LIMIT * COORD_LIMIT) by (nonlinear_arith)
        requires
            -2 * COORD_LIMIT <= dy <= 2 * COORD_LIMIT,
    ;
    assert(0 <= dx * dx && 0 <= dy * dy) by (nonlinear_arith);
    let limit: i128 = 64_000_000;
    dx * dx + dy * dy >= limit
}

/// The box the pointer traced, normalised and floored.
pub fn traced_box(origin: Point, current: Point) -> (traced: Rect)
    requires
        point_ok(origin),
        point_ok(current),
    ensures
        traced == spec_traced(origin, current),
{
    Rect {
        x: min_of(origin.x, current.x),
        y: min_of(origin.y, current.y),
        width: max_of(distance(current.x, origin.x), MIN_SIDE),
        height: max_of(distance(current.y, origin.y), MIN_SIDE),
    }
}

/// A box of `width` by `height` hanging below `origin` (its top-left corner).
pub fn hanging_box(origin: Point, width: i64, height: i64) -> (hanging: Rect)
    requires
        point_ok(origin),
        0 <= width <= COORD_LIMIT,
        0 <= height <= COORD_LIMIT,
    ensures
        hanging == spec_hanging(origin, width as int, height as int),
{
    Rect { x: origin.x, y: origin.y - height, width, height }
}


/// Something on a page that a press can grab: an annotation or a form
/// field, reduced to what hit-testing reads.
#[derive(Clone, Copy, Debug, PartialEq, Eq, Structural)]
pub struct PageItem {
    pub id: u64,
    /// Zero-based page the item sits on.
    pub page: u32,
    /// The box the item occupies, if it has one.
    pub bounds: Option<Rect>,
    /// Whether its corner handles may be pulled.
    pub resizable: bool,
}

pub open spec fn item_ok(item: PageItem) -> bool {
    match item.bounds {
        Some(rect) => rect_ok(rect),
        None => true,
    }
}

/// What a press on a page does to the items on it.
#[derive(Clone, Copy, Debug, PartialEq, Eq, Structural)]
pub enum PressOutcome {
    /// The selected item was grabbed, by a corner handle or by its body; the
    /// selection stays and the drag is claimed.
    Grab(DragMode),
    /// Another item was under the pointer: it becomes the selection and is
    /// grabbed by its body.
    Select(u64),
    /// Nothing was hit and the selection was dropped; the drag is not claimed.
    Deselect,
    /// Nothing was hit and nothing was selected; the drag is not claimed.
    Miss,
}

/// How a press grabs an item that is already selected, if it does: a corner
/// handle of a resizable item resizes it, its body moves it.
pub open spec fn grab_mode(item: PageItem, point: Point, reach: int) -> Option<DragMode> {
    match item.bounds {
        None => None,
        Some(rect) => {
            let corner = spec_corner_at(rect, point, reach);
            if corner is Some && item.resizable {
                Some(DragMode::Resize(corner->0))
            } else if spec_contains(rect, point) {
                Some(DragMode::Move)
            } else {
                None
            }
        },
    }
}

/// Whether `item` sits on `page` and its box holds `point`.
pub open spec fn hit_on_page(item: PageItem, page: int, point: Point) -> bool {
    item.page == page && match item.bounds {
        Some(rect) => spec_contains(rect, point),
        None => false,
    }
}

/// The index of the last item hit at `point` on `page`: items paint in
/// order, so the last one drawn is the one on top.
pub open spec fn topmost_hit(items: Seq<PageItem>, page: int, point: Point) -> Option<int>
    decreases items.len(),
{
    if items.len() == 0 {
        None
    } else if hit_on_page(items.last(), page, point) {
        Some(items.len() - 1)
    } else {
        topmost_hit(items.drop_last(), page, point)
    }
}

/// The index of the first item carrying `id`.
pub open spec fn first_with_id(items: Seq<PageItem>, id: u64) -> Option<int>
    decreases items.len(),
{
    if items.len() == 0 {
        None
    } else {
        match first_with_id(items.drop_last(), id) {
            Some(i) => Some(i),
            None => if items.last().id == id {
                Some(items.len() - 1)
            } else {
                None
            },
        }
    }
}

/// The selected item, if it is still there and sits on `page`.
pub open spec fn selected_on_page(items: Seq<PageItem>, selected: Option<u64>, page: int) -> Option<
    PageItem,
> {
    match selected {
        None => None,
        Some(id) => match first_with_id(items, id) {
            None => None,
            Some(i) => if items[i].page == page {
                Some(items[i])
            } else {
                None
            },
        },
    }
}

/// What a press does: the selected item gets first refusal, so its handles
/// stay reachable where another item overlaps them; then the topmost item
/// under the pointer becomes the selection; a press on bare page drops the
/// selection.
pub open spec fn spec_press(
    items: Seq<PageItem>,
    selected: Option<u64>,
    page: int,
    point: Point,
    reach: int,
) -> PressOutcome {
    let grabbed = match selected_on_page(items, selected, page) {
        Some(item) => grab_mode(item, point, reach),
        None => None,
    };
    if grabbed is Some {
        PressOutcome::Grab(grabbed->0)
    } else {
        match topmost_hit(items, page, point) {
            Some(i) => PressOutcome::Select(items[i].id),
            None => if selected is Some {
                PressOutcome::Deselect
            } else {
                PressOutcome::Miss
            },
        }
    }
}

proof fn first_with_id_bounds(items: Seq<PageItem>, id: u64)
    ensures
        first_with_id(items, id) matches Some(i) ==> 0 <= i < items.len() && items[i].id == id,
    decreases items.len(),
{
    if items.len() > 0 {
        first_with_id_bounds(items.drop_last(), id);
    }
}

proof fn topmost_hit_bounds(items: Seq<PageItem>, page: int, point: Point)
    ensures
        topmost_hit(items, page, point) matches Some(i) ==> 0 <= i < items.len() && hit_on_page(
            items[i],
            page,
            point,
        ),
    decreases items.len(),
{
    if items.len() > 0 {
        topmost_hit_bounds(items.drop_last(), page, point);
    }
}

fn find_first_with_id(items: &[PageItem], id: u64) -> (found: Option<usize>)
    ensures
        found matches Some(i) ==> first_with_id(items@, id) == Some(i as int),
        found is None ==> first_with_id(items@, id) is None,
{
    let mut i: usize = 0;
    while i < items.len()
        invariant
            i <= items@.len(),
            first_with_id(items@.take(i as int), id) is None,
        decreases items@.len() - i,
    {
        assert(items@.take(i + 1).drop_last() =~= items@.take(i as int));
        if items[i].id == id {
            assert(first_with_id(items@.take(i + 1), id) == Some(i as int));
            proof {
                lemma_first_with_id_prefix(items@, id, i as int + 1);
            }
            return Some(i);
        }
        i = i + 1;
    }
    assert(items@.take(i as int) =~= items@);
    None
}

/// Once the first item carrying `id` is in a prefix, the whole sequence
/// agrees with the prefix about it.
proof fn lemma_first_with_id_prefix(items: Seq<PageItem>, id: u64, n: int)
    requires
        0 <= n <= items.len(),
        first_with_id(items.take(n), id) is Some,
    ensures
        first_with_id(items, id) == first_with_id(items.take(n), id),
    decreases items.len() - n,
{
    if n < items.len() {
        assert(items.take(n + 1).drop_last() =~= items.take(n));
        lemma_first_with_id_prefix(items, id, n + 1);
    } else {
        assert(items.take(n) =~= items);
    }
}

fn find_topmost_hit(items: &[PageItem], page: usize, point: Point) -> (found: Option<usize>)
    requires
        point_ok(point),
        forall|i: int| 0 <= i < items@.len() ==> item_ok(#[trigger] items@[i]),
    ensures
        found matches Some(i) ==> topmost_hit(items@, page as int, point) == Some(i as int),
        found is None ==> topmost_hit(items@, page as int, point) is None,
{
    let mut i: usize = items.len();
    assert(items@.take(i as int) =~= items@);
    while i > 0
        invariant
            i <= items@.len(),
            point_ok(point),
            forall|j: int| 0 <= j < items@.len() ==> item_ok(#[trigger] items@[j]),
            topmost_hit(items@, page as int, point) == topmost_hit(
                items@.take(i as int),
                page as int,
                point,
            ),
        decreases i,
    {
        let item = items[i - 1];
        assert(items@.take(i as int).last() == item);
        assert(items@.take(i as int).drop_last() =~= items@.take(i - 1));
        let on_page = item.page as usize == page;
        let hit = match item.bounds {
            Some(rect) => on_page && contains(rect, point),
            None => false,
        };
        if hit {
            return Some(i - 1);
        }
        i = i - 1;
    }
    None
}

/// Resolves a press at `point` on page `page_index` against the items of a
/// document, given which one (if any) is selected and the handle reach.
pub fn press_on_page(
    items: &[PageItem],
    selected: Option<u64>,
    page_index: usize,
    point: Point,
    reach: i64,
) -> (outcome: PressOutcome)
    requires
        point_ok(point),
        forall|i: int| 0 <= i < items@.len() ==> item_ok(#[trigger] items@[i]),
    ensures
        outcome == spec_press(items@, selected, page_index as int, point, reach as int),
{
    proof {
        if let Some(id) = selected {
            first_with_id_bounds(items@, id);
        }
        topmost_hit_bounds(items@, page_index as int, point);
    }
    if let Some(id) = selected {
        if let Some(index) = find_first_with_id(items, id) {
            let item = items[index];
            if item.page as usize == page_index {
                if let Some(rect) = item.bounds {
                    let corner = corner_at(rect, point, reach);
                    if corner.is_some() && item.resizable {
                        return PressOutcome::Grab(DragMode::Resize(corner.unwrap()));
                    }
                    if contains(rect, point) {
                        return PressOutcome::Grab(DragMode::Move);
                    }
                }
            }
        }
    }
    match find_topmost_hit(items, page_index, point) {
        Some(index) => PressOutcome::Select(items[index].id),
        None => if selected.is_some() {
            PressOutcome::Deselect
        } else {
            PressOutcome::Miss
        },
    }
}

/// The selection that survives a change to the document: kept while its id
/// is still among `ids`, dropped otherwise.
pub open spec fn spec_surviving(selected: Option<u64>, ids: Seq<u64>) -> Option<u64> {
    match selected {
        Some(id) => if ids.contains(id) {
            Some(id)
        } else {
            None
        },
        None => None,
    }
}

/// Which item the selection should still point at after the document
/// changed underneath it: the same one if it is still there, none otherwise.
pub fn surviving_selection(selected: Option<u64>, ids: &[u64]) -> (surviving: Option<u64>)
    ensures
        surviving == spec_surviving(selected, ids@),
{
    match selected {
        None => None,
        Some(id) => {
            let mut i: usize = 0;
            while i < ids.len()
                invariant
                    i <= ids@.len(),
                    selected == Some(id),
                    forall|j: int| 0 <= j < i ==> ids@[j] != id,
                decreases ids@.len() - i,
            {
                if ids[i] == id {
                    assert(ids@[i as int] == id);
                    assert(ids@.contains(id));
                    return Some(id);
                }
                i = i + 1;
            }
            None
        },
    }
}

/// Turning to the opposite corner twice comes back to where it started, and
/// no corner is its own opposite.
pub proof fn opposite_is_an_involution(corner: Corner)
    ensures
        spec_opposite(spec_opposite(corner)) == corner,
        spec_opposite(corner) != corner,
{
}

/// A corner handle is always under the pointer when the pointer sits exactly
/// on that corner, so a press on a corner grabs some handle whatever the
/// reach.
pub proof fn a_press_on_a_corner_finds_a_handle(rect: Rect, corner: Corner, reach: int)
    requires
        reach >= 0,
        rect_ok(rect),
    ensures
        spec_corner_at(
            rect,
            Point { x: corner_x(rect, corner) as i64, y: corner_y(rect, corner) as i64 },
            reach,
        ) is Some,
{
}

/// Every corner of a box with no negative side counts as inside it: edges
/// are part of the body.
pub proof fn corners_are_inside(rect: Rect, corner: Corner)
    requires
        rect_ok(rect),
        rect.width >= 0,
        rect.height >= 0,
    ensures
        spec_contains(
            rect,
            Point { x: corner_x(rect, corner) as i64, y: corner_y(rect, corner) as i64 },
        ),
{
}

/// A resize never leaves a side shorter than [`MIN_SIDE`], and never inverts
/// the box.
pub proof fn a_resize_keeps_a_grabbable_size(rect: Rect, corner: Corner, point: Point)
    requires
        rect_ok(rect),
        point_ok(point),
    ensures
        spec_resized(rect, corner, point).width >= MIN_SIDE,
        spec_resized(rect, corner, point).height >= MIN_SIDE,
{
}

/// Pulling a corner holds the opposite one still: once the pointer is at
/// least [`MIN_SIDE`] away from it on both axes, the corner opposite the
/// grabbed one is a corner of the resized box too, at the same place,
/// whichever way the box flipped.
pub proof fn a_resize_holds_the_opposite_corner_still(rect: Rect, corner: Corner, point: Point)
    requires
        rect_ok(rect),
        point_ok(point),
        abs(point.x - corner_x(rect, spec_opposite(corner))) >= MIN_SIDE,
        abs(point.y - corner_y(rect, spec_opposite(corner))) >= MIN_SIDE,
    ensures
        ({
            let r = spec_resized(rect, corner, point);
            let ax = corner_x(rect, spec_opposite(corner));
            let ay = corner_y(rect, spec_opposite(corner));
            (ax == r.x || ax == r.x + r.width) && (ay == r.y || ay == r.y + r.height)
        }),
        ({
            let r = spec_resized(rect, corner, point);
            (point.x == r.x || point.x == r.x + r.width) && (point.y == r.y || point.y == r.y
                + r.height)
        }),
{
}

/// A move shifts the box by exactly the pointer's travel and leaves its size
/// alone; a move that never went anywhere changes nothing.
pub proof fn a_move_shifts_by_the_pointer_delta(rect: Rect, origin: Point, current: Point)
    requires
        rect_ok(rect),
        point_ok(origin),
        point_ok(current),
    ensures
        spec_moved(rect, origin, current).x - rect.x == current.x - origin.x,
        spec_moved(rect, origin, current).y - rect.y == current.y - origin.y,
        spec_moved(rect, origin, current).width == rect.width,
        spec_moved(rect, origin, current).height == rect.height,
        origin == current ==> spec_moved(rect, origin, current) == rect,
{
}

/// Dragging in any of the four directions traces the same box.
pub proof fn tracing_ignores_the_drag_direction(origin: Point, current: Point)
    requires
        point_ok(origin),
        point_ok(current),
    ensures
        spec_traced(origin, current) == spec_traced(current, origin),
        spec_far_enough(origin, current) == spec_far_enough(current, origin),
{
    assert((current.x - origin.x) * (current.x - origin.x) == (origin.x - current.x) * (origin.x
        - current.x)) by (nonlinear_arith);
    assert((current.y - origin.y) * (current.y - origin.y) == (origin.y - current.y) * (origin.y
        - current.y)) by (nonlinear_arith);
}

/// A sweep never flips back to a click as it grows: a pointer at least as
/// far from the press point, on each axis, as one that already counted as a
/// drag counts as a drag too.
pub proof fn a_growing_sweep_stays_a_drag(origin: Point, reached: Point, further: Point)
    requires
        point_ok(origin),
        point_ok(reached),
        point_ok(further),
        spec_far_enough(origin, reached),
        abs(further.x - origin.x) >= abs(reached.x - origin.x),
        abs(further.y - origin.y) >= abs(reached.y - origin.y),
    ensures
        spec_far_enough(origin, further),
{
    let a = abs(reached.x - origin.x);
    let b = abs(further.x - origin.x);
    let c = abs(reached.y - origin.y);
    let d = abs(further.y - origin.y);
    assert(a * a <= b * b) by (nonlinear_arith)
        requires
            0 <= a <= b,
    ;
    assert(c * c <= d * d) by (nonlinear_arith)
        requires
            0 <= c <= d,
    ;
    assert(a * a == (reached.x - origin.x) * (reached.x - origin.x)) by (nonlinear_arith)
        requires
            a == abs(reached.x - origin.x),
    ;
    assert(b * b == (further.x - origin.x) * (further.x - origin.x)) by (nonlinear_arith)
        requires
            b == abs(further.x - origin.x),
    ;
    assert(c * c == (reached.y - origin.y) * (reached.y - origin.y)) by (nonlinear_arith)
        requires
            c == abs(reached.y - origin.y),
    ;
    assert(d * d == (further.y - origin.y) * (further.y - origin.y)) by (nonlinear_arith)
        requires
            d == abs(further.y - origin.y),
    ;
}

} // verus!
