//! Annotations: the seven creation tools, the two-step placement gesture
//! behind them (arm a tool, then draw), what a finished gesture builds, and
//! the operations on an annotation that is already on the page.

use vstd::prelude::*;

use crate::geometry::{
    abs, coord_ok, distance, far_enough, hanging_box, max, min, point_ok, rect_ok, spec_far_enough,
    spec_hanging, spec_traced, traced_box, DragMode, PageItem, Point, Rect, MIN_DRAG,
    MIN_SIDE,
};
use crate::session::{guarded_run, run_guarded, EditCounters};
use crate::text::{decimal, decimal_string, join};

verus! {

/// Size given to an annotation placed with a click rather than a drag
/// (144 x 36 pt).
pub const CLICK_WIDTH: i64 = 144_000;
pub const CLICK_HEIGHT: i64 = 36_000;

/// Height of the band a freehand rule occupies (2 pt): thin enough to read
/// as a line, tall enough to stay a real target.
pub const RULE_BAND: i64 = 2000;

/// Said when an ink tool was tapped rather than dragged.
pub const INK_NEEDS_A_DRAG: &'static str = "Drag to draw an ink annotation.";

/// Said when the selected annotation is gone by the time an operation on it
/// runs.
pub const SELECTION_GONE: &'static str = "The selected annotation no longer exists.";

/// Said when an operation needs a selection and there is none.
pub const SELECT_FIRST: &'static str = "Select an annotation first.";

/// Said when a dragged annotation refuses the change.
pub const DRAG_UNSUPPORTED: &'static str = "That annotation cannot be changed this way.";

/// The text a new note annotation carries.
pub const NOTE_CONTENTS: &'static str = "Note";

/// An RGB colour.
#[derive(Clone, Copy, Debug, PartialEq, Eq, Structural)]
pub struct Color {
    pub r: u8,
    pub g: u8,
    pub b: u8,
}

/// The colour every new coloured annotation starts with.
pub open spec fn default_color() -> Color {
    Color { r: 255, g: 220, b: 0 }
}

/// The annotation creation tools, in toolbar order.
#[derive(Clone, Copy, Debug, PartialEq, Eq, Structural)]
pub enum Tool {
    Highlight,
    Underline,
    Strikeout,
    Ink,
    TextNote,
    Shape,
    Stamp,
}

pub open spec fn tool_label(tool: Tool) -> Seq<char> {
    match tool {
        Tool::Highlight => "Highlight"@,
        Tool::Underline => "Underline"@,
        Tool::Strikeout => "Strikeout"@,
        Tool::Ink => "Ink"@,
        Tool::TextNote => "Text note"@,
        Tool::Shape => "Shape"@,
        Tool::Stamp => "Stamp"@,
    }
}

/// The PDF text-markup kinds: the tools that can apply to a text selection.
pub open spec fn spec_marks_up_text(tool: Tool) -> bool {
    tool == Tool::Highlight || tool == Tool::Underline || tool == Tool::Strikeout
}

/// The tools whose mark is a line rather than a band.
pub open spec fn spec_draws_a_rule(tool: Tool) -> bool {
    tool == Tool::Underline || tool == Tool::Strikeout
}

/// The tools that record every point the pointer visits.
pub open spec fn spec_is_freehand(tool: Tool) -> bool {
    tool == Tool::Ink
}

impl Tool {
    /// Every tool, one toolbar button each.
    pub fn all() -> (tools: Vec<Tool>)
        ensures
            tools@ == seq![
                Tool::Highlight,
                Tool::Underline,
                Tool::Strikeout,
                Tool::Ink,
                Tool::TextNote,
                Tool::Shape,
                Tool::Stamp,
            ],
    {
        vec![
            Tool::Highlight,
            Tool::Underline,
            Tool::Strikeout,
            Tool::Ink,
            Tool::TextNote,
            Tool::Shape,
            Tool::Stamp,
        ]
    }

    /// The toolbar label.
    pub fn label(&self) -> (label: &'static str)
        ensures
            label@ == tool_label(*self),
    {
        proof {
            reveal_strlit("Highlight");
            reveal_strlit("Underline");
            reveal_strlit("Strikeout");
            reveal_strlit("Ink");
            reveal_strlit("Text note");
            reveal_strlit("Shape");
            reveal_strlit("Stamp");
        }
        match self {
            Tool::Highlight => "Highlight",
            Tool::Underline => "Underline",
            Tool::Strikeout => "Strikeout",
            Tool::Ink => "Ink",
            Tool::TextNote => "Text note",
            Tool::Shape => "Shape",
            Tool::Stamp => "Stamp",
        }
    }

    pub fn marks_up_text(&self) -> (marks: bool)
        ensures
            marks == spec_marks_up_text(*self),
    {
        matches!(self, Tool::Highlight | Tool::Underline | Tool::Strikeout)
    }

    pub fn draws_a_rule(&self) -> (rule: bool)
        ensures
            rule == spec_draws_a_rule(*self),
    {
        matches!(self, Tool::Underline | Tool::Strikeout)
    }

    pub fn is_freehand(&self) -> (freehand: bool)
        ensures
            freehand == spec_is_freehand(*self),
    {
        matches!(self, Tool::Ink)
    }
}

/// The labels are pairwise distinct, so every tool has its own button text.
pub proof fn every_tool_has_its_own_label(a: Tool, b: Tool)
    requires
        a != b,
    ensures
        tool_label(a) != tool_label(b),
{
    reveal_strlit("Highlight");
    reveal_strlit("Underline");
    reveal_strlit("Strikeout");
    reveal_strlit("Ink");
    reveal_strlit("Text note");
    reveal_strlit("Shape");
    reveal_strlit("Stamp");
    assert(tool_label(a) != tool_label(b)) by {
        if tool_label(a) == tool_label(b) {
            assert(tool_label(a).len() == tool_label(b).len());
            assert(tool_label(a)[0] == tool_label(b)[0]);
            assert(tool_label(a)[1] == tool_label(b)[1]);
        }
    }
}

/// A placement gesture in progress: an armed tool drawing on one page.
#[derive(Clone, Debug, PartialEq)]
pub struct Placement {
    pub tool: Tool,
    pub page_index: usize,
    /// Where the pointer went down.
    pub origin: Point,
    /// Where the pointer is now.
    pub current: Point,
    /// Every point visited, for freehand tools; empty otherwise.
    pub points: Vec<Point>,
}

pub open spec fn placement_ok(p: Placement) -> bool {
    point_ok(p.origin) && point_ok(p.current)
}

/// Starts drawing with `tool` at `point`.
pub fn begin_placement(tool: Tool, page_index: usize, point: Point) -> (placement: Placement)
    ensures
        placement.tool == tool,
        placement.page_index == page_index,
        placement.origin == point,
        placement.current == point,
        placement.points@ == (if spec_is_freehand(tool) {
            seq![point]
        } else {
            Seq::<Point>::empty()
        }),
{
    let points = if tool.is_freehand() {
        vec![point]
    } else {
        Vec::new()
    };
    Placement { tool, page_index, origin: point, current: point, points }
}

/// Follows the pointer to `point`; a freehand tool also records it.
pub fn extend_placement(placement: &mut Placement, point: Point)
    ensures
        final(placement).tool == old(placement).tool,
        final(placement).page_index == old(placement).page_index,
        final(placement).origin == old(placement).origin,
        final(placement).current == point,
        final(placement).points@ == (if spec_is_freehand(old(placement).tool) {
            old(placement).points@.push(point)
        } else {
            old(placement).points@
        }),
{
    placement.current = point;
    if placement.tool.is_freehand() {
        placement.points.push(point);
    }
}

/// Whether the pointer travelled far enough for a drag. A rule only counts
/// travel along itself; every other tool counts distance from the press
/// point, not travel per axis.
pub open spec fn spec_is_a_drag(p: Placement) -> bool {
    if spec_draws_a_rule(p.tool) {
        abs(p.current.x - p.origin.x) >= MIN_DRAG
    } else {
        spec_far_enough(p.origin, p.current)
    }
}

/// Exactly the rect the pointer traced. A rule stays pinned to the press
/// point's height in a thin band, however the hand drifted vertically.
pub open spec fn spec_traced_rect(p: Placement) -> Rect {
    if spec_draws_a_rule(p.tool) {
        Rect {
            x: min(p.origin.x as int, p.current.x as int) as i64,
            y: p.origin.y,
            width: max(abs(p.current.x - p.origin.x), MIN_SIDE as int) as i64,
            height: RULE_BAND,
        }
    } else {
        spec_traced(p.origin, p.current)
    }
}

/// The default-sized rect a click leaves: hanging below the press point, or
/// for a rule a default-length line on it.
pub open spec fn spec_click_rect(p: Placement) -> Rect {
    if spec_draws_a_rule(p.tool) {
        Rect { x: p.origin.x, y: p.origin.y, width: CLICK_WIDTH, height: RULE_BAND }
    } else {
        spec_hanging(p.origin, CLICK_WIDTH as int, CLICK_HEIGHT as int)
    }
}

pub open spec fn spec_committed_rect(p: Placement) -> Rect {
    if spec_is_a_drag(p) {
        spec_traced_rect(p)
    } else {
        spec_click_rect(p)
    }
}

pub fn is_a_drag(placement: &Placement) -> (drag: bool)
    requires
        placement_ok(*placement),
    ensures
        drag == spec_is_a_drag(*placement),
{
    if placement.tool.draws_a_rule() {
        return distance(placement.current.x, placement.origin.x) >= MIN_DRAG;
    }
    far_enough(placement.origin, placement.current)
}

pub fn traced_rect(placement: &Placement) -> (rect: Rect)
    requires
        placement_ok(*placement),
    ensures
        rect == spec_traced_rect(*placement),
{
    let traced = traced_box(placement.origin, placement.current);
    if placement.tool.draws_a_rule() {
        return Rect { y: placement.origin.y, height: RULE_BAND, ..traced };
    }
    traced
}

pub fn click_rect(placement: &Placement) -> (rect: Rect)
    requires
        placement_ok(*placement),
    ensures
        rect == spec_click_rect(*placement),
{
    if placement.tool.draws_a_rule() {
        return Rect {
            x: placement.origin.x,
            y: placement.origin.y,
            width: CLICK_WIDTH,
            height: RULE_BAND,
        };
    }
    hanging_box(placement.origin, CLICK_WIDTH, CLICK_HEIGHT)
}

/// The rect to commit: what the pointer traced, or a default-sized box when
/// it barely moved. Decided once, at the end of the gesture.
pub fn committed_rect(placement: &Placement) -> (rect: Rect)
    requires
        placement_ok(*placement),
    ensures
        rect == spec_committed_rect(*placement),
{
    if is_a_drag(placement) {
        traced_rect(placement)
    } else {
        click_rect(placement)
    }
}

/// What an annotation is, reduced to what this shell reads and builds: its
/// kind, its geometry and its colour.
#[derive(Clone, Debug, PartialEq)]
pub enum AnnotationKind {
    Highlight { rect: Rect, color: Color },
    Underline { rect: Rect, color: Color },
    Strikeout { rect: Rect, color: Color },
    Ink { points: Vec<Point>, color: Color },
    TextNote { rect: Rect },
    Shape { rect: Rect, color: Color },
    Stamp { rect: Rect },
    /// A kind this shell cannot edit, preserved from another tool.
    Other,
}

/// An annotation kind as plain values: the view of [`AnnotationKind`].
pub enum KindView {
    Highlight { rect: Rect, color: Color },
    Underline { rect: Rect, color: Color },
    Strikeout { rect: Rect, color: Color },
    Ink { points: Seq<Point>, color: Color },
    TextNote { rect: Rect },
    Shape { rect: Rect, color: Color },
    Stamp { rect: Rect },
    Other,
}

impl View for AnnotationKind {
    type V = KindView;

    open spec fn view(&self) -> KindView {
        match self {
            AnnotationKind::Highlight { rect, color } => KindView::Highlight { rect: *rect, color: *color },
            AnnotationKind::Underline { rect, color } => KindView::Underline { rect: *rect, color: *color },
            AnnotationKind::Strikeout { rect, color } => KindView::Strikeout { rect: *rect, color: *color },
            AnnotationKind::Ink { points, color } => KindView::Ink { points: points@, color: *color },
            AnnotationKind::TextNote { rect } => KindView::TextNote { rect: *rect },
            AnnotationKind::Shape { rect, color } => KindView::Shape { rect: *rect, color: *color },
            AnnotationKind::Stamp { rect } => KindView::Stamp { rect: *rect },
            AnnotationKind::Other => KindView::Other,
        }
    }
}

/// An annotation on a page.
#[derive(Clone, Debug, PartialEq)]
pub struct Annotation {
    pub id: u64,
    pub page: u32,
    pub kind: AnnotationKind,
}

/// The rect a kind carries, for the kinds that carry one.
pub open spec fn rect_of(kind: KindView) -> Option<Rect> {
    match kind {
        KindView::Highlight { rect, .. } => Some(rect),
        KindView::Underline { rect, .. } => Some(rect),
        KindView::Strikeout { rect, .. } => Some(rect),
        KindView::TextNote { rect } => Some(rect),
        KindView::Shape { rect, .. } => Some(rect),
        KindView::Stamp { rect } => Some(rect),
        _ => None,
    }
}

pub open spec fn kind_ok(kind: KindView) -> bool {
    match kind {
        KindView::Ink { points, .. } => forall|i: int|
            0 <= i < points.len() ==> point_ok(#[trigger] points[i]),
        _ => match rect_of(kind) {
            Some(rect) => rect_ok(rect),
            None => true,
        },
    }
}

/// A build result with its message as plain characters.
pub open spec fn viewed(built: Result<AnnotationKind, String>) -> Result<KindView, Seq<char>> {
    match built {
        Ok(kind) => Ok(kind@),
        Err(message) => Err(message@),
    }
}

/// The markup kind a markup tool builds over `rect`.
pub open spec fn spec_markup(tool: Tool, rect: Rect) -> Option<KindView> {
    match tool {
        Tool::Highlight => Some(KindView::Highlight { rect, color: default_color() }),
        Tool::Underline => Some(KindView::Underline { rect, color: default_color() }),
        Tool::Strikeout => Some(KindView::Strikeout { rect, color: default_color() }),
        _ => None,
    }
}

/// Builds one text-markup annotation over `rect`: the one builder shared by
/// a drag over a region and a click over selected text, so the two cannot
/// drift into different colours or kinds. Any other tool is refused with
/// "<label> does not mark up text.".
pub fn markup_annotation(tool: Tool, rect: Rect) -> (built: Result<AnnotationKind, String>)
    ensures
        viewed(built) == (match spec_markup(tool, rect) {
            Some(kind) => Ok(kind),
            None => Err(tool_label(tool) + " does not mark up text."@),
        }),
{
    match tool {
        Tool::Highlight => Ok(AnnotationKind::Highlight { rect, color: Color { r: 255, g: 220, b: 0 } }),
        Tool::Underline => Ok(AnnotationKind::Underline { rect, color: Color { r: 255, g: 220, b: 0 } }),
        Tool::Strikeout => Ok(AnnotationKind::Strikeout { rect, color: Color { r: 255, g: 220, b: 0 } }),
        other => Err(join(other.label(), " does not mark up text.")),
    }
}

/// What a finished placement builds over `rect`. Ink takes the points the
/// pointer visited and refuses a tap of fewer than two; a stamp is placed
/// with the built-in placeholder image.
pub open spec fn spec_annotation_at(p: Placement, rect: Rect) -> Result<KindView, Seq<char>> {
    match p.tool {
        Tool::Highlight => Ok(KindView::Highlight { rect, color: default_color() }),
        Tool::Underline => Ok(KindView::Underline { rect, color: default_color() }),
        Tool::Strikeout => Ok(KindView::Strikeout { rect, color: default_color() }),
        Tool::Ink => if p.points@.len() < 2 {
            Err(INK_NEEDS_A_DRAG@)
        } else {
            Ok(KindView::Ink { points: p.points@, color: default_color() })
        },
        Tool::TextNote => Ok(KindView::TextNote { rect }),
        Tool::Shape => Ok(KindView::Shape { rect, color: default_color() }),
        Tool::Stamp => Ok(KindView::Stamp { rect }),
    }
}

pub fn annotation_at(placement: &Placement, rect: Rect) -> (built: Result<AnnotationKind, String>)
    ensures
        viewed(built) == spec_annotation_at(*placement, rect),
{
    match placement.tool {
        Tool::Highlight => markup_annotation(Tool::Highlight, rect),
        Tool::Underline => markup_annotation(Tool::Underline, rect),
        Tool::Strikeout => markup_annotation(Tool::Strikeout, rect),
        Tool::Ink => {
            if placement.points.len() < 2 {
                return Err(INK_NEEDS_A_DRAG.to_owned());
            }
            let points = placement.points.clone();
            assert(points@ =~= placement.points@);
            Ok(AnnotationKind::Ink { points, color: Color { r: 255, g: 220, b: 0 } })
        },
        Tool::TextNote => Ok(AnnotationKind::TextNote { rect }),
        Tool::Shape => Ok(AnnotationKind::Shape { rect, color: Color { r: 255, g: 220, b: 0 } }),
        Tool::Stamp => Ok(AnnotationKind::Stamp { rect }),
    }
}

/// The annotation to paint while a placement is still in progress: always
/// the traced rect, so the preview follows the pointer with nothing to pop;
/// `None` when it cannot be built yet (an ink stroke of one point).
pub fn placement_preview(placement: &Placement) -> (preview: Option<AnnotationKind>)
    requires
        placement_ok(*placement),
    ensures
        match spec_annotation_at(*placement, spec_traced_rect(*placement)) {
            Ok(kind) => preview matches Some(p) && p@ == kind,
            Err(_) => preview is None,
        },
{
    match annotation_at(placement, traced_rect(placement)) {
        Ok(kind) => Some(kind),
        Err(_) => None,
    }
}

/// The annotation a finished placement commits.
pub fn finished_annotation(placement: &Placement) -> (built: Result<AnnotationKind, String>)
    requires
        placement_ok(*placement),
    ensures
        viewed(built) == spec_annotation_at(*placement, spec_committed_rect(*placement)),
{
    annotation_at(placement, committed_rect(placement))
}


/// How far the Nudge button shifts the selected annotation (12 pt).
pub const NUDGE: i64 = 12_000;

/// Fallback rect for a Grow with nothing to grow (72, 72, 144 x 36 pt).
pub open spec fn default_rect() -> Rect {
    Rect { x: 72_000, y: 72_000, width: 144_000, height: 36_000 }
}

/// The smallest x among the first `points.len()` points.
pub open spec fn lowest_x(points: Seq<Point>) -> int
    decreases points.len(),
{
    if points.len() <= 1 {
        points[0].x as int
    } else {
        min(lowest_x(points.drop_last()), points.last().x as int)
    }
}

pub open spec fn lowest_y(points: Seq<Point>) -> int
    decreases points.len(),
{
    if points.len() <= 1 {
        points[0].y as int
    } else {
        min(lowest_y(points.drop_last()), points.last().y as int)
    }
}

pub open spec fn highest_x(points: Seq<Point>) -> int
    decreases points.len(),
{
    if points.len() <= 1 {
        points[0].x as int
    } else {
        max(highest_x(points.drop_last()), points.last().x as int)
    }
}

pub open spec fn highest_y(points: Seq<Point>) -> int
    decreases points.len(),
{
    if points.len() <= 1 {
        points[0].y as int
    } else {
        max(highest_y(points.drop_last()), points.last().y as int)
    }
}

/// The bounding box of a stroke of at least one point.
pub open spec fn stroke_box(points: Seq<Point>) -> Rect {
    Rect {
        x: lowest_x(points) as i64,
        y: lowest_y(points) as i64,
        width: (highest_x(points) - lowest_x(points)) as i64,
        height: (highest_y(points) - lowest_y(points)) as i64,
    }
}

/// The rectangle an annotation occupies: its own rect, or for ink the
/// bounding box of its stroke; `None` for a kind with neither.
pub open spec fn spec_bounds(kind: KindView) -> Option<Rect> {
    match kind {
        KindView::Ink { points, .. } => if points.len() == 0 {
            None
        } else {
            Some(stroke_box(points))
        },
        _ => rect_of(kind),
    }
}

proof fn stroke_extremes(points: Seq<Point>)
    requires
        points.len() >= 1,
        forall|i: int| 0 <= i < points.len() ==> point_ok(#[trigger] points[i]),
    ensures
        forall|i: int|
            0 <= i < points.len() ==> lowest_x(points) <= (#[trigger] points[i]).x <= highest_x(
                points,
            ) && lowest_y(points) <= points[i].y <= highest_y(points),
        coord_ok(lowest_x(points)),
        coord_ok(lowest_y(points)),
        coord_ok(highest_x(points)),
        coord_ok(highest_y(points)),
    decreases points.len(),
{
    if points.len() > 1 {
        let rest = points.drop_last();
        assert forall|i: int| 0 <= i < rest.len() implies point_ok(#[trigger] rest[i]) by {
            assert(rest[i] == points[i]);
        }
        stroke_extremes(rest);
        assert forall|i: int| 0 <= i < points.len() implies lowest_x(points) <= (
        #[trigger] points[i]).x <= highest_x(points) && lowest_y(points) <= points[i].y
            <= highest_y(points) by {
            if i < points.len() - 1 {
                assert(rest[i] == points[i]);
            }
        }
    }
}

/// Ink bounds cover every point of the stroke.
pub proof fn ink_bounds_cover_every_point(points: Seq<Point>, i: int)
    requires
        0 <= i < points.len(),
        forall|j: int| 0 <= j < points.len() ==> point_ok(#[trigger] points[j]),
    ensures
        crate::geometry::spec_contains(stroke_box(points), points[i]),
{
    stroke_extremes(points);
    assert(lowest_x(points) <= points[i].x <= highest_x(points));
}

/// The rectangle an annotation occupies, whatever its kind.
pub fn bounds(kind: &AnnotationKind) -> (found: Option<Rect>)
    requires
        kind_ok(kind@),
    ensures
        found == spec_bounds(kind@),
{
    match kind {
        AnnotationKind::Highlight { rect, .. } => Some(*rect),
        AnnotationKind::Underline { rect, .. } => Some(*rect),
        AnnotationKind::Strikeout { rect, .. } => Some(*rect),
        AnnotationKind::TextNote { rect } => Some(*rect),
        AnnotationKind::Shape { rect, .. } => Some(*rect),
        AnnotationKind::Stamp { rect } => Some(*rect),
        AnnotationKind::Other => None,
        AnnotationKind::Ink { points, .. } => {
            if points.len() == 0 {
                return None;
            }
            proof {
                stroke_extremes(points@);
            }
            let first = points[0];
            let mut min_x = first.x;
            let mut min_y = first.y;
            let mut max_x = first.x;
            let mut max_y = first.y;
            let mut i: usize = 1;
            assert(points@.take(1).len() == 1);
            while i < points.len()
                invariant
                    1 <= i <= points@.len(),
                    forall|j: int| 0 <= j < points@.len() ==> point_ok(#[trigger] points@[j]),
                    min_x == lowest_x(points@.take(i as int)),
                    min_y == lowest_y(points@.take(i as int)),
                    max_x == highest_x(points@.take(i as int)),
                    max_y == highest_y(points@.take(i as int)),
                decreases points@.len() - i,
            {
                let p = points[i];
                assert(points@.take(i + 1).drop_last() =~= points@.take(i as int));
                assert(points@.take(i + 1).last() == p);
                if p.x < min_x {
                    min_x = p.x;
                }
                if p.y < min_y {
                    min_y = p.y;
                }
                if p.x > max_x {
                    max_x = p.x;
                }
                if p.y > max_y {
                    max_y = p.y;
                }
                i = i + 1;
            }
            assert(points@.take(i as int) =~= points@);
            Some(Rect { x: min_x, y: min_y, width: max_x - min_x, height: max_y - min_y })
        },
    }
}

/// A side grown by a quarter (the Grow button's 1.25 factor), the quarter
/// rounded toward zero to the milli-point.
pub open spec fn grown(side: int) -> int {
    if side >= 0 {
        side + side / 4
    } else {
        side - (-side) / 4
    }
}

/// The grown rect for the Grow button: the origin stays, each side grows by
/// a quarter; `None` for a kind with no rect of its own (ink is a polyline,
/// and squashing it into a box would be a guess).
pub open spec fn spec_resize_rect(kind: KindView) -> Option<Rect> {
    match rect_of(kind) {
        Some(rect) => Some(
            Rect {
                x: rect.x,
                y: rect.y,
                width: grown(rect.width as int) as i64,
                height: grown(rect.height as int) as i64,
            },
        ),
        None => None,
    }
}

fn grow(side: i64) -> (g: i64)
    requires
        crate::geometry::extent_ok(side as int),
    ensures
        g == grown(side as int),
{
    if side >= 0 {
        side + side / 4
    } else {
        side - (-side) / 4
    }
}

pub fn resize_rect(kind: &AnnotationKind) -> (grown_rect: Option<Rect>)
    requires
        kind_ok(kind@),
    ensures
        grown_rect == spec_resize_rect(kind@),
{
    let rect = match kind {
        AnnotationKind::Highlight { rect, .. } => *rect,
        AnnotationKind::Underline { rect, .. } => *rect,
        AnnotationKind::Strikeout { rect, .. } => *rect,
        AnnotationKind::TextNote { rect } => *rect,
        AnnotationKind::Shape { rect, .. } => *rect,
        AnnotationKind::Stamp { rect } => *rect,
        _ => return None,
    };
    Some(Rect { x: rect.x, y: rect.y, width: grow(rect.width), height: grow(rect.height) })
}

/// The rect the Grow button asks for: the grown rect, or the fixed fallback
/// for a kind with nothing to grow (which the annotation then refuses).
pub fn grow_target(kind: &AnnotationKind) -> (target: Rect)
    requires
        kind_ok(kind@),
    ensures
        target == (match spec_resize_rect(kind@) {
            Some(rect) => rect,
            None => default_rect(),
        }),
{
    match resize_rect(kind) {
        Some(rect) => rect,
        None => Rect { x: 72_000, y: 72_000, width: 144_000, height: 36_000 },
    }
}

pub open spec fn spec_supports_resize(kind: KindView) -> bool {
    rect_of(kind) is Some
}

pub open spec fn spec_selected_color(kind: KindView) -> Option<Color> {
    match kind {
        KindView::Highlight { color, .. } => Some(color),
        KindView::Underline { color, .. } => Some(color),
        KindView::Strikeout { color, .. } => Some(color),
        KindView::Ink { color, .. } => Some(color),
        KindView::Shape { color, .. } => Some(color),
        _ => None,
    }
}

pub open spec fn spec_supports_restyle(kind: KindView) -> bool {
    spec_selected_color(kind) is Some
}

/// Whether the annotation has a rect the Grow button and the corner handles
/// can reshape.
pub fn supports_resize(kind: &AnnotationKind) -> (resizable: bool)
    ensures
        resizable == spec_supports_resize(kind@),
{
    !matches!(kind, AnnotationKind::Ink { .. } | AnnotationKind::Other)
}

/// The colour the Restyle dialog starts from, for the kinds that have one.
pub fn selected_color(kind: &AnnotationKind) -> (color: Option<Color>)
    ensures
        color == spec_selected_color(kind@),
{
    match kind {
        AnnotationKind::Highlight { color, .. } => Some(*color),
        AnnotationKind::Underline { color, .. } => Some(*color),
        AnnotationKind::Strikeout { color, .. } => Some(*color),
        AnnotationKind::Ink { color, .. } => Some(*color),
        AnnotationKind::Shape { color, .. } => Some(*color),
        _ => None,
    }
}

/// Whether the annotation can take a new colour.
pub fn supports_restyle(kind: &AnnotationKind) -> (restylable: bool)
    ensures
        restylable == spec_supports_restyle(kind@),
{
    selected_color(kind).is_some()
}

/// Every coloured kind (highlight, underline, strikeout, ink, shape)
/// reports its own colour and can be restyled; a note, a stamp and any other
/// kind have no colour to start from and cannot.
pub proof fn every_coloured_kind_reports_its_own_colour(
    rect: Rect,
    points: Seq<Point>,
    color: Color,
)
    ensures
        spec_selected_color((KindView::Highlight { rect, color })) == Some(color),
        spec_selected_color((KindView::Underline { rect, color })) == Some(color),
        spec_selected_color((KindView::Strikeout { rect, color })) == Some(color),
        spec_selected_color((KindView::Ink { points, color })) == Some(color),
        spec_selected_color((KindView::Shape { rect, color })) == Some(color),
        spec_supports_restyle((KindView::Highlight { rect, color })),
        spec_supports_restyle((KindView::Underline { rect, color })),
        spec_supports_restyle((KindView::Strikeout { rect, color })),
        spec_supports_restyle((KindView::Ink { points, color })),
        spec_supports_restyle((KindView::Shape { rect, color })),
        spec_selected_color((KindView::TextNote { rect })) is None,
        spec_selected_color((KindView::Stamp { rect })) is None,
        spec_selected_color(KindView::Other) is None,
        !spec_supports_restyle((KindView::TextNote { rect })),
        !spec_supports_restyle((KindView::Stamp { rect })),
        !spec_supports_restyle(KindView::Other),
{
}

/// What hit-testing reads of an annotation.
pub open spec fn item_of(annotation: Annotation) -> PageItem {
    PageItem {
        id: annotation.id,
        page: annotation.page,
        bounds: spec_bounds(annotation.kind@),
        resizable: spec_supports_resize(annotation.kind@),
    }
}

/// The annotations of a document, in paint order, as hit-testing sees them.
pub fn page_items(annotations: &[Annotation]) -> (items: Vec<PageItem>)
    requires
        forall|i: int| 0 <= i < annotations@.len() ==> kind_ok(#[trigger] annotations@[i].kind@),
    ensures
        items@.len() == annotations@.len(),
        forall|i: int| 0 <= i < items@.len() ==> #[trigger] items@[i] == item_of(annotations@[i]),
        forall|i: int| 0 <= i < items@.len() ==> crate::geometry::item_ok(#[trigger] items@[i]),
{
    let mut items: Vec<PageItem> = Vec::new();
    let mut i: usize = 0;
    while i < annotations.len()
        invariant
            i <= annotations@.len(),
            forall|j: int|
                0 <= j < annotations@.len() ==> kind_ok(#[trigger] annotations@[j].kind@),
            items@.len() == i,
            forall|j: int| 0 <= j < i ==> #[trigger] items@[j] == item_of(annotations@[j]),
            forall|j: int| 0 <= j < i ==> crate::geometry::item_ok(#[trigger] items@[j]),
        decreases annotations@.len() - i,
    {
        let annotation = &annotations[i];
        let item = PageItem {
            id: annotation.id,
            page: annotation.page,
            bounds: bounds(&annotation.kind),
            resizable: supports_resize(&annotation.kind),
        };
        proof {
            if let KindView::Ink { points, .. } = annotation.kind@ {
                if points.len() > 0 {
                    stroke_extremes(points);
                }
            }
        }
        items.push(item);
        i = i + 1;
    }
    items
}

/// Ink offers no corner handles: a press on a selected ink annotation only
/// ever grabs it to move it, never to resize it.
pub proof fn ink_is_only_ever_moved(annotation: Annotation, point: Point, reach: int)
    requires
        annotation.kind@ is Ink,
    ensures
        crate::geometry::grab_mode(item_of(annotation), point, reach) matches Some(mode) ==> mode
            == DragMode::Move,
{
}

/// Resolves a press on page `page_index` against a document's annotations:
/// a corner handle of the selected one resizes it (ink offers no corners),
/// its body moves it, any other annotation under the pointer becomes the
/// selection, and a press on bare page drops the selection.
pub fn annotation_press(
    annotations: &[Annotation],
    selected: Option<u64>,
    page_index: usize,
    point: Point,
    reach: i64,
) -> (outcome: crate::geometry::PressOutcome)
    requires
        point_ok(point),
        forall|i: int| 0 <= i < annotations@.len() ==> kind_ok(#[trigger] annotations@[i].kind@),
    ensures
        outcome == crate::geometry::spec_press(
            annotations@.map_values(|a: Annotation| item_of(a)),
            selected,
            page_index as int,
            point,
            reach as int,
        ),
{
    let items = page_items(annotations);
    assert(items@ =~= annotations@.map_values(|a: Annotation| item_of(a)));
    crate::geometry::press_on_page(&items, selected, page_index, point, reach)
}

/// The index of the first occurrence of `id`.
pub open spec fn first_index(ids: Seq<u64>, id: u64) -> Option<int>
    decreases ids.len(),
{
    if ids.len() == 0 {
        None
    } else {
        match first_index(ids.drop_last(), id) {
            Some(i) => Some(i),
            None => if ids.last() == id {
                Some(ids.len() - 1)
            } else {
                None
            },
        }
    }
}

proof fn first_index_facts(ids: Seq<u64>, id: u64)
    ensures
        first_index(ids, id) matches Some(i) ==> 0 <= i < ids.len() && ids[i] == id && forall|
            j: int,
        |
            0 <= j < i ==> ids[j] != id,
        first_index(ids, id) is None ==> !ids.contains(id),
    decreases ids.len(),
{
    if ids.len() > 0 {
        let rest = ids.drop_last();
        first_index_facts(rest, id);
        if first_index(ids, id) is None {
            assert forall|k: int| 0 <= k < ids.len() implies ids[k] != id by {
                if k < ids.len() - 1 {
                    assert(rest[k] == ids[k]);
                    assert(!rest.contains(id));
                    if ids[k] == id {
                        assert(rest.contains(id));
                    }
                }
            }
        }
        if let Some(i) = first_index(rest, id) {
            assert(rest[i] == ids[i]);
            assert forall|j: int| 0 <= j < i implies ids[j] != id by {
                assert(rest[j] == ids[j]);
            }
        } else if ids.last() == id {
            assert forall|j: int| 0 <= j < ids.len() - 1 implies ids[j] != id by {
                assert(rest[j] == ids[j]);
                if ids[j] == id {
                    assert(rest.contains(id));
                }
            }
        }
    }
}

/// The annotation one step back from `selected` in paint order, wrapping
/// from the first to the last; `None` when `selected` is not there.
pub open spec fn spec_previous(ids: Seq<u64>, selected: u64) -> Option<u64> {
    match first_index(ids, selected) {
        Some(i) => Some(ids[(i + ids.len() - 1) % (ids.len() as int)]),
        None => None,
    }
}

pub fn previous_annotation_id(ids: &[u64], selected: u64) -> (previous: Option<u64>)
    ensures
        previous == spec_previous(ids@, selected),
{
    proof {
        first_index_facts(ids@, selected);
    }
    let mut i: usize = 0;
    while i < ids.len()
        invariant
            i <= ids@.len(),
            forall|j: int| 0 <= j < i ==> ids@[j] != selected,
            first_index(ids@, selected) matches Some(k) ==> i <= k,
        decreases ids@.len() - i,
    {
        proof {
            first_index_facts(ids@, selected);
        }
        if ids[i] == selected {
            assert(ids@.contains(selected)) by {
                assert(ids@[i as int] == selected);
            }
            let len = ids.len();
            assert(first_index(ids@, selected) == Some(i as int));
            let previous = if i == 0 {
                len - 1
            } else {
                i - 1
            };
            assert(previous as int == (i + len - 1) % (len as int)) by (nonlinear_arith)
                requires
                    0 <= i < len,
                    previous == (if i == 0 {
                        len - 1
                    } else {
                        i - 1
                    }),
            ;
            return Some(ids[previous]);
        }
        i = i + 1;
    }
    proof {
        first_index_facts(ids@, selected);
    }
    None
}

/// Steps the selection one annotation backwards, wrapping. Returns the new
/// selection, or `None` when there is nothing to step from (no selection, or
/// the selected annotation is gone) and the selection stays as it is.
pub fn select_previous(ids: &[u64], selected: Option<u64>) -> (next: Option<u64>)
    ensures
        next == (match selected {
            Some(id) => spec_previous(ids@, id),
            None => None,
        }),
{
    match selected {
        Some(id) => previous_annotation_id(ids, id),
        None => None,
    }
}

/// Stepping backwards from an annotation lands on an annotation of the set:
/// the one painted just before it, or from the first one the last.
pub proof fn stepping_back_wraps(ids: Seq<u64>, i: int)
    requires
        0 <= i < ids.len(),
        ids.no_duplicates(),
    ensures
        spec_previous(ids, ids[i]) == Some(
            if i == 0 {
                ids[ids.len() - 1]
            } else {
                ids[i - 1]
            },
        ),
{
    first_index_facts(ids, ids[i]);
    let k = first_index(ids, ids[i])->0;
    assert(k == i);
    let len = ids.len() as int;
    assert((i + len - 1) % len == (if i == 0 {
        len - 1
    } else {
        i - 1
    })) by (nonlinear_arith)
        requires
            0 <= i < len,
    ;
}

/// Which controls of the annotation toolbar are live.
#[derive(Clone, Copy, Debug, PartialEq, Eq, Structural)]
pub struct AnnotationControls {
    /// The creation tool buttons.
    pub create: bool,
    pub select_previous: bool,
    pub move_selection: bool,
    pub resize_selection: bool,
    pub restyle_selection: bool,
    pub delete_selection: bool,
    /// The Delete-key accelerator, which stands down while the search entry
    /// holds focus so the key reaches the text being typed.
    pub delete_action: bool,
    pub undo: bool,
    pub redo: bool,
    pub save: bool,
}

/// The one place that decides when each annotation control is live:
/// nothing while the document withholds annotation editing, the selection
/// operations only with a selection that still exists and supports them,
/// and history from the document's own edit log.
pub fn annotation_controls(
    editing_allowed: bool,
    selected: Option<&AnnotationKind>,
    search_has_focus: bool,
    can_undo: bool,
    can_redo: bool,
) -> (controls: AnnotationControls)
    ensures
        controls.create == editing_allowed,
        controls.select_previous == (editing_allowed && selected is Some),
        controls.move_selection == (editing_allowed && selected is Some),
        controls.delete_selection == (editing_allowed && selected is Some),
        controls.resize_selection == (editing_allowed && (selected matches Some(kind)
            && spec_supports_resize(kind@))),
        controls.restyle_selection == (editing_allowed && (selected matches Some(kind)
            && spec_supports_restyle(kind@))),
        controls.delete_action == (editing_allowed && selected is Some && !search_has_focus),
        controls.undo == can_undo,
        controls.redo == can_redo,
        controls.save == can_undo,
{
    let has_selection = editing_allowed && selected.is_some();
    let resizable = match selected {
        Some(kind) => supports_resize(kind),
        None => false,
    };
    let restylable = match selected {
        Some(kind) => supports_restyle(kind),
        None => false,
    };
    AnnotationControls {
        create: editing_allowed,
        select_previous: has_selection,
        move_selection: has_selection,
        resize_selection: editing_allowed && resizable,
        restyle_selection: editing_allowed && restylable,
        delete_selection: has_selection,
        delete_action: has_selection && !search_has_focus,
        undo: can_undo,
        redo: can_redo,
        save: can_undo,
    }
}

/// What arming or disarming a tool button changed.
#[derive(Clone, Copy, Debug, PartialEq, Eq, Structural)]
pub enum ArmChange {
    Armed(Tool),
    Disarmed(Tool),
    /// A button released because another tool took over: not the armed
    /// tool, so nothing changes.
    Unchanged,
}

/// Arms or disarms `tool`, keeping at most one armed. Switching tools
/// releases the previous button, which comes back here with `active` false
/// for a tool that is no longer the armed one — a no-op.
pub fn arm_tool(active_tool: &mut Option<Tool>, tool: Tool, active: bool) -> (change: ArmChange)
    ensures
        active ==> *final(active_tool) == Some(tool) && change == ArmChange::Armed(tool),
        !active && *old(active_tool) == Some(tool) ==> *final(active_tool) == None::<Tool>
            && change == ArmChange::Disarmed(tool),
        !active && *old(active_tool) != Some(tool) ==> *final(active_tool) == *old(active_tool)
            && change == ArmChange::Unchanged,
{
    if active {
        *active_tool = Some(tool);
        ArmChange::Armed(tool)
    } else if *active_tool == Some(tool) {
        *active_tool = None;
        ArmChange::Disarmed(tool)
    } else {
        ArmChange::Unchanged
    }
}

/// The status line for a tool being armed or disarmed.
pub fn arm_message(change: ArmChange) -> (message: Option<String>)
    ensures
        match change {
            ArmChange::Armed(tool) => message matches Some(m) && m@ == tool_label(tool)
                + " armed — drag on a page to place it."@,
            ArmChange::Disarmed(tool) => message matches Some(m) && m@ == tool_label(tool)
                + " disarmed."@,
            ArmChange::Unchanged => message is None,
        },
{
    match change {
        ArmChange::Armed(tool) => Some(join(tool.label(), " armed — drag on a page to place it.")),
        ArmChange::Disarmed(tool) => Some(join(tool.label(), " disarmed.")),
        ArmChange::Unchanged => None,
    }
}

/// The status line once a placement has been recorded.
pub fn added_message(tool: Tool) -> (message: String)
    ensures
        message@ == tool_label(tool) + " added. Changes are pending save."@,
{
    join(tool.label(), " added. Changes are pending save.")
}

/// The status line once a text selection has been marked up.
pub fn markup_applied_message(tool: Tool) -> (message: String)
    ensures
        message@ == tool_label(tool) + " applied to the selected text. Changes are pending save."@,
{
    join(tool.label(), " applied to the selected text. Changes are pending save.")
}

/// Whether a finished drag of an existing annotation records anything: a
/// drag that never moved is a click that selected it, and an edit log full
/// of no-op edits would make undo useless.
pub fn drag_records_an_edit(origin: Point, current: Point) -> (records: bool)
    ensures
        records == (origin != current),
{
    origin != current
}

/// The status line once a dragged annotation has been recorded.
pub fn drag_message(mode: DragMode) -> (message: &'static str)
    ensures
        message@ == (match mode {
            DragMode::Move => "Annotation moved. Changes are pending save."@,
            DragMode::Resize(_) => "Annotation resized. Changes are pending save."@,
        }),
{
    match mode {
        DragMode::Move => "Annotation moved. Changes are pending save.",
        DragMode::Resize(_) => "Annotation resized. Changes are pending save.",
    }
}

/// A click leaves a default-sized annotation where the pointer went down.
pub proof fn a_click_places_a_default_sized_annotation(p: Placement)
    requires
        placement_ok(p),
        p.origin == p.current,
    ensures
        !spec_is_a_drag(p),
        spec_committed_rect(p) == spec_click_rect(p),
        spec_committed_rect(p).width == CLICK_WIDTH,
        spec_committed_rect(p).x == p.origin.x,
        !spec_draws_a_rule(p.tool) ==> spec_committed_rect(p).y == p.origin.y - CLICK_HEIGHT
            && spec_committed_rect(p).height == CLICK_HEIGHT,
        spec_draws_a_rule(p.tool) ==> spec_committed_rect(p).y == p.origin.y
            && spec_committed_rect(p).height == RULE_BAND,
{
}

/// Vertical drift changes nothing about a rule: an underline or strikeout
/// is judged, traced and committed from horizontal travel alone.
pub proof fn vertical_drift_changes_nothing_about_a_rule(p: Placement, q: Placement)
    requires
        placement_ok(p),
        placement_ok(q),
        spec_draws_a_rule(p.tool),
        q.tool == p.tool,
        q.origin == p.origin,
        q.current.x == p.current.x,
    ensures
        spec_is_a_drag(q) == spec_is_a_drag(p),
        spec_traced_rect(q) == spec_traced_rect(p),
        spec_committed_rect(q) == spec_committed_rect(p),
{
}

/// The band-shaped tools trace the same rect whichever of the four ways
/// the pointer travelled.
pub proof fn a_drag_in_any_direction_produces_the_same_rect(p: Placement, q: Placement)
    requires
        placement_ok(p),
        placement_ok(q),
        !spec_draws_a_rule(p.tool),
        q.tool == p.tool,
        q.origin == p.current,
        q.current == p.origin,
    ensures
        spec_is_a_drag(q) == spec_is_a_drag(p),
        spec_is_a_drag(p) ==> spec_committed_rect(q) == spec_committed_rect(p),
{
    crate::geometry::tracing_ignores_the_drag_direction(p.origin, p.current);
}

/// While the pointer is down the preview is the traced rect; once the
/// gesture counts as a drag that is exactly the rect that gets committed,
/// so the preview paints what the release will record.
pub proof fn the_preview_paints_what_a_drag_commits(p: Placement)
    requires
        placement_ok(p),
        spec_is_a_drag(p),
    ensures
        spec_annotation_at(p, spec_traced_rect(p)) == spec_annotation_at(
            p,
            spec_committed_rect(p),
        ),
{
}

/// A drag and a click over selected text build the very same markup
/// annotation from the same rect: one builder serves both.
pub proof fn both_creation_paths_share_one_markup_builder(p: Placement, rect: Rect)
    requires
        spec_marks_up_text(p.tool),
    ensures
        spec_annotation_at(p, rect) == Ok::<KindView, Seq<char>>(spec_markup(p.tool, rect)->0),
{
}


/// Said once a Nudge or Grow is recorded.
pub const ANNOTATION_EDITED: &'static str = "Annotation edited. Changes are pending save.";

/// Said once a deletion is recorded.
pub const ANNOTATION_DELETED: &'static str = "Annotation deleted. Changes are pending save.";

/// Said once a colour change is recorded.
pub const ANNOTATION_RESTYLED: &'static str = "Annotation restyled. Changes are pending save.";

/// Said when an annotation operation needs a document and none is open.
pub const NO_DOCUMENT: &'static str = "Open a PDF before editing annotations.";

/// Runs one annotation operation under the edit guard: refused while annotation
/// editing is (the operation never runs) or with no document open;
/// otherwise a success bumps the edit revision and marks the document
/// unsaved. Returns the status line.
pub fn command<F: FnOnce() -> Result<String, String>>(
    refusal: Option<&'static str>,
    has_document: bool,
    counters: &mut EditCounters,
    operation: F,
) -> (status: String)
    requires
        old(counters).edit_revision < u64::MAX,
        refusal is None && has_document ==> call_requires(operation, ()),
    ensures
        guarded_run(refusal, has_document, NO_DOCUMENT@, *old(counters), *final(counters), status@, operation),
{
    run_guarded(refusal, has_document, NO_DOCUMENT, counters, operation)
}

/// Where the selected annotation sits among the document's, for an
/// operation on it: refused with no selection, or when it is gone.
pub fn selected_annotation_index(ids: &[u64], selected: Option<u64>) -> (found: Result<usize, &'static str>)
    ensures
        match selected {
            None => found == Err::<usize, &'static str>(SELECT_FIRST),
            Some(id) => match first_index(ids@, id) {
                Some(i) => found == Ok::<usize, &'static str>(i as usize),
                None => found == Err::<usize, &'static str>(SELECTION_GONE),
            },
        },
{
    let id = match selected {
        None => {
            return Err(SELECT_FIRST);
        },
        Some(id) => id,
    };
    proof {
        first_index_facts(ids@, id);
    }
    let mut i: usize = 0;
    while i < ids.len()
        invariant
            i <= ids@.len(),
            selected == Some(id),
            forall|j: int| 0 <= j < i ==> ids@[j] != id,
            first_index(ids@, id) matches Some(k) ==> i <= k,
        decreases ids@.len() - i,
    {
        proof {
            first_index_facts(ids@, id);
        }
        if ids[i] == id {
            assert(ids@.contains(id)) by {
                assert(ids@[i as int] == id);
            }
            return Ok(i);
        }
        i = i + 1;
    }
    proof {
        first_index_facts(ids@, id);
    }
    Err(SELECTION_GONE)
}

/// The status line once the selection stepped to annotation `id`.
pub fn selected_message(id: u64) -> (message: String)
    ensures
        message@ == "Selected annotation "@ + decimal(id as nat) + "."@,
{
    let digits = decimal_string(id);
    let head = join("Selected annotation ", digits.as_str());
    join(head.as_str(), ".")
}

/// The status line after an undo or a redo: a content edit's page is
/// re-read, so its line does not repeat that changes are pending.
pub fn history_message(undo: bool, content_edit: bool) -> (message: &'static str)
    ensures
        message@ == (if content_edit {
            if undo {
                "Edit undone."@
            } else {
                "Edit redone."@
            }
        } else if undo {
            "Edit undone. Changes are pending save."@
        } else {
            "Edit redone. Changes are pending save."@
        }),
{
    if content_edit {
        if undo {
            "Edit undone."
        } else {
            "Edit redone."
        }
    } else if undo {
        "Edit undone. Changes are pending save."
    } else {
        "Edit redone. Changes are pending save."
    }
}

/// An annotation being moved or resized.
#[derive(Clone, Copy, Debug, PartialEq, Eq, Structural)]
pub struct AnnotationDrag {
    pub id: u64,
    pub mode: DragMode,
    pub origin: Point,
    pub current: Point,
}

/// The change a finished annotation drag asks of the annotation.
#[derive(Clone, Copy, Debug, PartialEq, Eq, Structural)]
pub enum DragChange {
    /// Shift everything it has by this much.
    MoveBy { dx: i64, dy: i64 },
    /// Give it this rect.
    ResizeTo(Rect),
}

/// What a finished drag asks of the annotation it grabbed: the pointer's
/// travel for a move; for a resize, the rect the grabbed corner reached
/// with the opposite one held still, which a kind with no box refuses.
pub open spec fn spec_drag_change(kind: KindView, drag: AnnotationDrag) -> Result<DragChange, &'static str> {
    match drag.mode {
        DragMode::Move => Ok(
            DragChange::MoveBy {
                dx: (drag.current.x - drag.origin.x) as i64,
                dy: (drag.current.y - drag.origin.y) as i64,
            },
        ),
        DragMode::Resize(corner) => match spec_bounds(kind) {
            Some(rect) => Ok(DragChange::ResizeTo(crate::geometry::spec_resized(rect, corner, drag.current))),
            None => Err(DRAG_UNSUPPORTED),
        },
    }
}

pub fn drag_change(kind: &AnnotationKind, drag: &AnnotationDrag) -> (change: Result<DragChange, &'static str>)
    requires
        kind_ok(kind@),
        point_ok(drag.origin),
        point_ok(drag.current),
    ensures
        change == spec_drag_change(kind@, *drag),
{
    match drag.mode {
        DragMode::Move => Ok(
            DragChange::MoveBy {
                dx: drag.current.x - drag.origin.x,
                dy: drag.current.y - drag.origin.y,
            },
        ),
        DragMode::Resize(corner) => {
            proof {
                if let KindView::Ink { points, .. } = kind@ {
                    if points.len() > 0 {
                        stroke_extremes(points);
                    }
                }
            }
            match bounds(kind) {
                Some(rect) => Ok(DragChange::ResizeTo(crate::geometry::resized_rect(rect, corner, drag.current))),
                None => Err(DRAG_UNSUPPORTED),
            }
        },
    }
}


/// The annotation a finished placement records: the next id, the page it
/// was drawn on, and what the gesture built (an ink tap is refused).
pub fn placed_annotation(placement: &Placement, id: u64) -> (placed: Result<Annotation, String>)
    requires
        placement_ok(*placement),
    ensures
        match spec_annotation_at(*placement, spec_committed_rect(*placement)) {
            Ok(kind) => placed matches Ok(a) && a.id == id && a.page == placement.page_index as u32
                && a.kind@ == kind,
            Err(message) => placed matches Err(m) && m@ == message,
        },
{
    match finished_annotation(placement) {
        Ok(kind) => Ok(Annotation { id, page: placement.page_index as u32, kind }),
        Err(message) => Err(message),
    }
}

/// The markup annotations a text selection gets: one per selected line,
/// with consecutive ids from `first_id`, all built by the one markup
/// builder. `None` for a tool that does not mark up text.
pub fn markup_for_selection(tool: Tool, page: u32, rects: &[Rect], first_id: u64) -> (marked: Option<Vec<Annotation>>)
    requires
        first_id + rects@.len() <= u64::MAX,
    ensures
        !spec_marks_up_text(tool) ==> marked is None,
        spec_marks_up_text(tool) ==> (marked matches Some(v) && v@.len() == rects@.len() && forall|
            i: int,
        |
            0 <= i < rects@.len() ==> (#[trigger] v@[i]).id == first_id + i && v@[i].page == page
                && v@[i].kind@ == spec_markup(tool, rects@[i])->0),
{
    if !tool.marks_up_text() {
        return None;
    }
    let mut marked: Vec<Annotation> = Vec::new();
    let mut i: usize = 0;
    while i < rects.len()
        invariant
            i <= rects@.len(),
            first_id + rects@.len() <= u64::MAX,
            spec_marks_up_text(tool),
            marked@.len() == i,
            forall|j: int|
                0 <= j < i ==> (#[trigger] marked@[j]).id == first_id + j && marked@[j].page == page
                    && marked@[j].kind@ == spec_markup(tool, rects@[j])->0,
        decreases rects@.len() - i,
    {
        let kind = match markup_annotation(tool, rects[i]) {
            Ok(kind) => kind,
            Err(_) => {
                return None;
            },
        };
        marked.push(Annotation { id: first_id + i as u64, page, kind });
        i = i + 1;
    }
    Some(marked)
}

} // verus!
