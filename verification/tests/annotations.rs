use vitela_shell::annotations::{
    annotation_at, annotation_press, placed_annotation, markup_for_selection, Annotation, annotation_controls, arm_message, arm_tool, bounds, click_rect, committed_rect,
    drag_change, drag_message, drag_records_an_edit, finished_annotation, grow_target,
    history_message, is_a_drag, markup_annotation, placement_preview, previous_annotation_id,
    resize_rect, select_previous, selected_annotation_index, selected_color, selected_message,
    supports_resize, supports_restyle, traced_rect, AnnotationDrag, AnnotationKind, ArmChange,
    Color, DragChange, Placement, Tool, CLICK_HEIGHT, CLICK_WIDTH, INK_NEEDS_A_DRAG, RULE_BAND,
    SELECTION_GONE, SELECT_FIRST,
};
use vitela_shell::geometry::{
    contains, corner_at, resized_rect, Corner, DragMode, Point, PressOutcome, Rect,
};

fn pt(value: f64) -> i64 {
    (value * 1000.0).round() as i64
}

fn at(x: f64, y: f64) -> Point {
    Point { x: pt(x), y: pt(y) }
}

fn a_rect(x: f64, y: f64, width: f64, height: f64) -> Rect {
    Rect { x: pt(x), y: pt(y), width: pt(width), height: pt(height) }
}

fn drag(tool: Tool, origin: (f64, f64), end: (f64, f64)) -> Placement {
    let origin = at(origin.0, origin.1);
    let end = at(end.0, end.1);
    Placement {
        tool,
        page_index: 0,
        origin,
        current: end,
        points: if tool.is_freehand() { vec![origin, end] } else { Vec::new() },
    }
}

fn click(tool: Tool, point: (f64, f64)) -> Placement {
    let point = at(point.0, point.1);
    Placement {
        tool,
        page_index: 0,
        origin: point,
        current: point,
        points: if tool.is_freehand() { vec![point] } else { Vec::new() },
    }
}

fn built(placement: &Placement) -> AnnotationKind {
    finished_annotation(placement)
        .unwrap_or_else(|error| panic!("{:?} must build from a placement: {error}", placement.tool))
}

fn rect_of(kind: &AnnotationKind) -> Rect {
    match kind {
        AnnotationKind::Highlight { rect, .. }
        | AnnotationKind::Underline { rect, .. }
        | AnnotationKind::Strikeout { rect, .. }
        | AnnotationKind::Shape { rect, .. }
        | AnnotationKind::TextNote { rect }
        | AnnotationKind::Stamp { rect } => *rect,
        _ => panic!("kind has no rect"),
    }
}

#[test]
fn geometry_a_drag_places_the_annotation_where_it_was_drawn() {
    let rect = rect_of(&built(&drag(Tool::Highlight, (120.0, 400.0), (300.0, 460.0))));

    assert_eq!((rect.x, rect.y), (pt(120.0), pt(400.0)));
    assert_eq!((rect.width, rect.height), (pt(180.0), pt(60.0)));
}

#[test]
fn geometry_a_drag_in_any_direction_produces_the_same_rect() {
    let forward = rect_of(&built(&drag(Tool::Shape, (120.0, 400.0), (300.0, 460.0))));
    let backward = rect_of(&built(&drag(Tool::Shape, (300.0, 460.0), (120.0, 400.0))));

    assert_eq!((forward.x, forward.y), (backward.x, backward.y));
    assert_eq!((forward.width, forward.height), (backward.width, backward.height));
}

#[test]
fn geometry_a_click_places_a_default_sized_annotation_at_the_pointer() {
    let rect = rect_of(&built(&click(Tool::TextNote, (200.0, 500.0))));
    let (width, height) = (CLICK_WIDTH, CLICK_HEIGHT);

    assert_eq!((rect.width, rect.height), (width, height));
    assert_eq!((rect.x, rect.y), (pt(200.0), pt(500.0) - height));
}

#[test]
fn geometry_a_press_that_barely_moves_is_treated_as_a_click() {
    let barely = drag(Tool::Shape, (200.0, 500.0), (201.0, 500.5));
    let rect = rect_of(&built(&barely));

    assert_eq!((rect.width, rect.height), (CLICK_WIDTH, CLICK_HEIGHT));
}

#[test]
fn geometry_a_wide_shallow_sweep_is_a_drag_not_a_click() {
    let sweep = drag(Tool::Highlight, (100.0, 500.0), (400.0, 502.0));

    assert!(is_a_drag(&sweep));
    let rect = rect_of(&built(&sweep));
    assert_eq!(rect.x, pt(100.0));
    assert_eq!(rect.width, pt(300.0));
    assert_ne!((rect.width, rect.height), (CLICK_WIDTH, CLICK_HEIGHT));
}

#[test]
fn geometry_a_sweep_never_flips_back_to_a_click_as_it_grows() {
    for x in [110.0, 150.0, 200.0, 300.0, 400.0] {
        for y in [498.0, 500.0, 502.0, 505.0] {
            let sweep = drag(Tool::Highlight, (100.0, 500.0), (x, y));
            assert!(is_a_drag(&sweep), "sweep to ({x}, {y}) must stay a drag");
        }
    }
}

#[test]
fn geometry_a_rule_swept_sideways_stays_on_the_press_point() {
    for tool in [Tool::Underline, Tool::Strikeout] {
        let shaky = drag(tool, (100.0, 500.0), (300.0, 537.0));
        let rect = rect_of(&built(&shaky));

        assert_eq!(rect.y, pt(500.0), "{tool:?} must not follow vertical drift");
        assert_eq!(rect.height, RULE_BAND, "{tool:?} must stay a line");
        assert_eq!(rect.width, pt(200.0), "{tool:?} must follow the sweep");
    }
}

#[test]
fn geometry_vertical_drift_changes_nothing_about_a_rule() {
    let straight = rect_of(&built(&drag(Tool::Underline, (100.0, 500.0), (300.0, 500.0))));

    for drift in [-40.0, -5.0, 5.0, 40.0] {
        let wobbled =
            rect_of(&built(&drag(Tool::Underline, (100.0, 500.0), (300.0, 500.0 + drift))));

        assert_eq!(
            (wobbled.x, wobbled.y, wobbled.width, wobbled.height),
            (straight.x, straight.y, straight.width, straight.height),
            "a drift of {drift} must not move the rule"
        );
    }
}

#[test]
fn geometry_a_highlight_still_uses_both_axes() {
    let rect = rect_of(&built(&drag(Tool::Highlight, (100.0, 500.0), (300.0, 540.0))));

    assert_eq!(rect.height, pt(40.0));
}

#[test]
fn geometry_a_clicked_rule_lands_on_the_pointer_not_below_it() {
    let rect = rect_of(&built(&click(Tool::Underline, (200.0, 500.0))));

    assert_eq!(rect.y, pt(500.0));
    assert_eq!(rect.height, RULE_BAND);
    assert_eq!(rect.width, CLICK_WIDTH);
}

#[test]
fn geometry_a_flat_sweep_still_leaves_something_selectable() {
    let flat = drag(Tool::Highlight, (100.0, 500.0), (400.0, 500.0));
    let rect = traced_rect(&flat);

    assert_eq!(rect.width, pt(300.0));
    assert_eq!(rect.height, pt(4.0));
}

#[test]
fn geometry_a_press_inside_an_annotation_hits_it_and_one_outside_does_not() {
    let rect = a_rect(100.0, 500.0, 200.0, 40.0);

    assert!(contains(rect, at(150.0, 520.0)));
    assert!(contains(rect, at(100.0, 500.0)), "edges count as inside");
    assert!(!contains(rect, at(99.0, 520.0)));
    assert!(!contains(rect, at(150.0, 541.0)));
}

#[test]
fn geometry_each_corner_has_its_own_handle() {
    let rect = a_rect(100.0, 500.0, 200.0, 40.0);
    let reach = pt(5.0);

    assert_eq!(corner_at(rect, at(100.0, 500.0), reach), Some(Corner::BottomLeft));
    assert_eq!(corner_at(rect, at(300.0, 500.0), reach), Some(Corner::BottomRight));
    assert_eq!(corner_at(rect, at(100.0, 540.0), reach), Some(Corner::TopLeft));
    assert_eq!(corner_at(rect, at(300.0, 540.0), reach), Some(Corner::TopRight));
    assert_eq!(corner_at(rect, at(200.0, 520.0), reach), None, "the body is not a handle");
}

#[test]
fn geometry_a_resize_holds_the_opposite_corner_still() {
    let rect = a_rect(100.0, 500.0, 200.0, 40.0);

    let grown = resized_rect(rect, Corner::TopRight, at(400.0, 600.0));

    assert_eq!((grown.x, grown.y), (pt(100.0), pt(500.0)), "anchor must not move");
    assert_eq!((grown.width, grown.height), (pt(300.0), pt(100.0)));
}

#[test]
fn geometry_dragging_a_corner_past_its_opposite_flips_rather_than_inverts() {
    let rect = a_rect(100.0, 500.0, 200.0, 40.0);

    let flipped = resized_rect(rect, Corner::TopRight, at(40.0, 460.0));

    assert!(flipped.width > 0 && flipped.height > 0);
    assert_eq!((flipped.x, flipped.y), (pt(40.0), pt(460.0)));
}

#[test]
fn geometry_a_move_drag_shifts_the_annotation_by_the_pointer_delta() {
    let shape = built(&drag(Tool::Shape, (100.0, 500.0), (200.0, 560.0)));
    let change = drag_change(
        &shape,
        &AnnotationDrag {
            id: 1,
            mode: DragMode::Move,
            origin: at(150.0, 520.0),
            current: at(170.0, 495.0),
        },
    );

    assert_eq!(change, Ok(DragChange::MoveBy { dx: pt(20.0), dy: pt(-25.0) }));
}

#[test]
fn geometry_ink_can_be_moved_but_not_resized() {
    let ink = built(&drag(Tool::Ink, (10.0, 10.0), (60.0, 40.0)));
    let handle = AnnotationDrag {
        id: 1,
        mode: DragMode::Resize(Corner::TopRight),
        origin: at(60.0, 40.0),
        current: at(90.0, 70.0),
    };

    assert!(bounds(&ink).is_some(), "ink still reports bounds");
    assert!(!supports_resize(&ink), "ink refuses a resize");
    assert!(drag_change(&ink, &AnnotationDrag { mode: DragMode::Move, ..handle }).is_ok());
}

#[test]
fn geometry_ink_bounds_cover_every_point_of_the_stroke() {
    let mut placement = drag(Tool::Ink, (10.0, 10.0), (60.0, 40.0));
    placement.points = vec![at(10.0, 30.0), at(35.0, 10.0), at(60.0, 40.0)];
    let ink = built(&placement);

    let rect = bounds(&ink).expect("ink has bounds");

    assert_eq!((rect.x, rect.y), (pt(10.0), pt(10.0)));
    assert_eq!((rect.width, rect.height), (pt(50.0), pt(30.0)));
}

#[test]
fn builder_every_toolbar_tool_builds_the_annotation_kind_its_label_promises() {
    for (tool, expected) in [
        (Tool::Highlight, "Highlight"),
        (Tool::Underline, "Underline"),
        (Tool::Strikeout, "Strikeout"),
        (Tool::Ink, "Ink"),
        (Tool::TextNote, "TextNote"),
        (Tool::Shape, "Shape"),
        (Tool::Stamp, "Stamp"),
    ] {
        let kind = built(&drag(tool, (100.0, 100.0), (200.0, 160.0)));
        let name = match kind {
            AnnotationKind::Highlight { .. } => "Highlight",
            AnnotationKind::Underline { .. } => "Underline",
            AnnotationKind::Strikeout { .. } => "Strikeout",
            AnnotationKind::Ink { .. } => "Ink",
            AnnotationKind::TextNote { .. } => "TextNote",
            AnnotationKind::Shape { .. } => "Shape",
            AnnotationKind::Stamp { .. } => "Stamp",
            _ => "unknown",
        };
        assert_eq!(name, expected, "{tool:?} built the wrong kind");
    }
}

#[test]
fn builder_an_ink_stroke_keeps_every_point_the_pointer_visited() {
    let mut placement = drag(Tool::Ink, (10.0, 10.0), (30.0, 40.0));
    placement.points = vec![at(10.0, 10.0), at(20.0, 25.0), at(30.0, 40.0)];

    match built(&placement) {
        AnnotationKind::Ink { points, .. } => assert_eq!(points, placement.points),
        other => panic!("expected an ink annotation, got {other:?}"),
    }
}

#[test]
fn builder_a_tap_with_the_ink_tool_is_refused_rather_than_recorded() {
    let tap = click(Tool::Ink, (10.0, 10.0));
    let error = annotation_at(&tap, committed_rect(&tap)).expect_err("a single point is not a stroke");

    assert_eq!(error, INK_NEEDS_A_DRAG);
}

#[test]
fn builder_a_placement_preview_paints_the_same_annotation_the_drag_will_commit() {
    let placement = drag(Tool::Highlight, (120.0, 400.0), (300.0, 460.0));

    let preview = placement_preview(&placement).expect("a drag previews");

    assert_eq!(rect_of(&preview), rect_of(&built(&placement)));
}

#[test]
fn builder_a_placement_that_cannot_be_built_yet_has_no_preview() {
    assert!(placement_preview(&click(Tool::Ink, (10.0, 10.0))).is_none());
}

#[test]
fn builder_both_creation_paths_share_one_markup_builder() {
    for tool in Tool::all().iter().filter(|tool| tool.marks_up_text()) {
        let placement = drag(*tool, (10.0, 20.0), (110.0, 32.0));
        let rect = committed_rect(&placement);

        let from_drag = built(&placement);
        let from_selection = markup_annotation(*tool, rect).expect("a markup tool builds from a rect");

        assert_eq!(from_drag, from_selection, "{tool:?} must go through the same builder either way");
    }
}

#[test]
fn builder_a_non_markup_tool_is_refused_rather_than_guessed_at() {
    let rect = a_rect(0.0, 0.0, 10.0, 10.0);

    assert!(markup_annotation(Tool::Shape, rect).is_err());
    assert!(markup_annotation(Tool::Ink, rect).is_err());
    assert_eq!(
        markup_annotation(Tool::Shape, rect).unwrap_err(),
        "Shape does not mark up text."
    );
}

#[test]
fn builder_the_placeholder_stamp_decodes_as_a_real_image() {
    let stamp = drag(Tool::Stamp, (10.0, 10.0), (100.0, 100.0));

    assert!(annotation_at(&stamp, committed_rect(&stamp)).is_ok());
}

#[test]
fn toolbar_the_toolbar_offers_one_button_per_annotation_type() {
    assert_eq!(Tool::all().len(), 7);
}

#[test]
fn toolbar_every_tool_has_its_own_label() {
    let mut labels: Vec<_> = Tool::all().iter().map(|tool| tool.label()).collect();
    labels.sort_unstable();
    labels.dedup();

    assert_eq!(labels.len(), Tool::all().len());
}

#[test]
fn toolbar_only_the_text_markup_tools_apply_to_a_selection() {
    let marking: Vec<_> = Tool::all().iter().filter(|tool| tool.marks_up_text()).copied().collect();

    assert_eq!(marking, vec![Tool::Highlight, Tool::Underline, Tool::Strikeout]);
}

#[test]
fn edit_resize_remains_rejected_for_ink() {
    let ink = built(&drag(Tool::Ink, (10.0, 10.0), (100.0, 100.0)));

    assert_eq!(resize_rect(&ink), None);
    assert_eq!(grow_target(&ink), a_rect(72.0, 72.0, 144.0, 36.0));
}

#[test]
fn edit_resize_grows_the_annotation_without_moving_its_origin() {
    let shape = AnnotationKind::Shape { rect: a_rect(120.0, 130.0, 100.0, 60.0), color: Color { r: 255, g: 220, b: 0 } };

    let rect = resize_rect(&shape).expect("shape has a rect");

    assert_eq!((rect.x, rect.y), (pt(120.0), pt(130.0)));
    assert_eq!((rect.width, rect.height), (pt(100.0 * 1.25), pt(60.0 * 1.25)));
}

#[test]
fn edit_only_supported_operations_are_enabled_for_each_annotation_kind() {
    let ink = built(&drag(Tool::Ink, (10.0, 10.0), (100.0, 100.0)));
    let note = built(&drag(Tool::TextNote, (10.0, 10.0), (100.0, 100.0)));

    assert!(!supports_resize(&ink));
    assert!(supports_restyle(&ink));
    assert!(supports_resize(&note));
    assert!(!supports_restyle(&note));
}

#[test]
fn edit_previous_annotation_selection_wraps_to_an_earlier_annotation() {
    let ids = [1, 2, 3];

    assert_eq!(previous_annotation_id(&ids, 1), Some(3));
    assert_eq!(previous_annotation_id(&ids, 3), Some(2));
    assert_eq!(previous_annotation_id(&ids, 9), None);
}

#[test]
fn stepping_back_without_a_selection_changes_nothing() {
    assert_eq!(select_previous(&[1, 2, 3], None), None);
    assert_eq!(select_previous(&[1, 2, 3], Some(2)), Some(1));
    assert_eq!(select_previous(&[7], Some(7)), Some(7));
}

#[test]
fn a_click_on_the_page_gives_the_default_box_hanging_below_it() {
    let placement = click(Tool::Shape, (50.0, 60.0));

    assert_eq!(click_rect(&placement), Rect { x: pt(50.0), y: pt(60.0) - CLICK_HEIGHT, width: CLICK_WIDTH, height: CLICK_HEIGHT });
}

#[test]
fn arming_one_tool_then_another_keeps_one_armed() {
    let mut active = None;

    assert_eq!(arm_tool(&mut active, Tool::Shape, true), ArmChange::Armed(Tool::Shape));
    assert_eq!(arm_tool(&mut active, Tool::Ink, true), ArmChange::Armed(Tool::Ink));
    assert_eq!(arm_tool(&mut active, Tool::Shape, false), ArmChange::Unchanged);
    assert_eq!(active, Some(Tool::Ink));
    assert_eq!(arm_tool(&mut active, Tool::Ink, false), ArmChange::Disarmed(Tool::Ink));
    assert_eq!(active, None);
}

#[test]
fn arming_and_disarming_say_which_tool() {
    assert_eq!(
        arm_message(ArmChange::Armed(Tool::Highlight)).as_deref(),
        Some("Highlight armed — drag on a page to place it.")
    );
    assert_eq!(arm_message(ArmChange::Disarmed(Tool::Ink)).as_deref(), Some("Ink disarmed."));
    assert_eq!(arm_message(ArmChange::Unchanged), None);
}

#[test]
fn the_controls_follow_the_selection_and_the_permission() {
    let shape = AnnotationKind::Shape { rect: a_rect(0.0, 0.0, 10.0, 10.0), color: Color { r: 1, g: 2, b: 3 } };
    let note = AnnotationKind::TextNote { rect: a_rect(0.0, 0.0, 10.0, 10.0) };

    let live = annotation_controls(true, Some(&shape), false, true, false);
    assert!(live.create && live.move_selection && live.resize_selection && live.restyle_selection);
    assert!(live.delete_action && live.undo && live.save && !live.redo);

    let searching = annotation_controls(true, Some(&note), true, false, false);
    assert!(!searching.delete_action && searching.delete_selection && !searching.restyle_selection);

    let refused = annotation_controls(false, Some(&shape), false, true, true);
    assert!(!refused.create && !refused.move_selection && !refused.resize_selection);
    assert!(refused.undo && refused.redo);
}

#[test]
fn a_drag_that_never_moved_records_nothing() {
    assert!(!drag_records_an_edit(at(1.0, 2.0), at(1.0, 2.0)));
    assert!(drag_records_an_edit(at(1.0, 2.0), at(1.0, 3.0)));
    assert_eq!(drag_message(DragMode::Move), "Annotation moved. Changes are pending save.");
    assert_eq!(
        drag_message(DragMode::Resize(Corner::TopLeft)),
        "Annotation resized. Changes are pending save."
    );
}

#[test]
fn a_resize_drag_asks_for_the_rect_the_corner_reached() {
    let shape = AnnotationKind::Shape { rect: a_rect(100.0, 500.0, 200.0, 40.0), color: Color { r: 0, g: 0, b: 0 } };
    let change = drag_change(
        &shape,
        &AnnotationDrag { id: 4, mode: DragMode::Resize(Corner::TopRight), origin: at(300.0, 540.0), current: at(400.0, 600.0) },
    );

    assert_eq!(change, Ok(DragChange::ResizeTo(a_rect(100.0, 500.0, 300.0, 100.0))));
    assert_eq!(
        drag_change(&AnnotationKind::Other, &AnnotationDrag { id: 4, mode: DragMode::Resize(Corner::TopRight), origin: at(0.0, 0.0), current: at(1.0, 1.0) }),
        Err("That annotation cannot be changed this way.")
    );
}

#[test]
fn an_operation_on_the_selection_needs_one_that_still_exists() {
    assert_eq!(selected_annotation_index(&[4, 5], None), Err(SELECT_FIRST));
    assert_eq!(selected_annotation_index(&[4, 5], Some(9)), Err(SELECTION_GONE));
    assert_eq!(selected_annotation_index(&[4, 5], Some(5)), Ok(1));
}

#[test]
fn the_restyle_dialog_starts_from_the_annotations_colour() {
    let color = Color { r: 9, g: 8, b: 7 };
    assert_eq!(selected_color(&AnnotationKind::Underline { rect: a_rect(0.0, 0.0, 1.0, 1.0), color }), Some(color));
    assert_eq!(selected_color(&AnnotationKind::Stamp { rect: a_rect(0.0, 0.0, 1.0, 1.0) }), None);
}

#[test]
fn status_lines_for_selection_and_history() {
    assert_eq!(selected_message(12), "Selected annotation 12.");
    assert_eq!(history_message(true, false), "Edit undone. Changes are pending save.");
    assert_eq!(history_message(false, false), "Edit redone. Changes are pending save.");
    assert_eq!(history_message(true, true), "Edit undone.");
}

#[test]
fn a_press_on_an_ink_corner_moves_it_rather_than_resizing() {
    let ink = Annotation { id: 1, page: 0, kind: built(&drag(Tool::Ink, (10.0, 10.0), (60.0, 40.0))) };
    let shape = Annotation { id: 2, page: 0, kind: built(&drag(Tool::Shape, (100.0, 100.0), (200.0, 160.0))) };
    let annotations = vec![ink, shape];

    assert_eq!(annotation_press(&annotations, Some(1), 0, at(10.0, 10.0), pt(5.0)), PressOutcome::Grab(DragMode::Move));
    assert_eq!(
        annotation_press(&annotations, Some(2), 0, at(200.0, 160.0), pt(5.0)),
        PressOutcome::Grab(DragMode::Resize(Corner::TopRight))
    );
    assert_eq!(annotation_press(&annotations, None, 0, at(150.0, 150.0), pt(5.0)), PressOutcome::Select(2));
    assert_eq!(annotation_press(&annotations, Some(2), 0, at(500.0, 500.0), pt(5.0)), PressOutcome::Deselect);
}

#[test]
fn a_placement_records_the_next_id_on_its_page() {
    let mut placement = drag(Tool::Shape, (100.0, 100.0), (200.0, 160.0));
    placement.page_index = 3;

    let placed = placed_annotation(&placement, 41).expect("a shape builds");
    assert_eq!((placed.id, placed.page), (41, 3));
    assert_eq!(rect_of(&placed.kind), a_rect(100.0, 100.0, 100.0, 60.0));
    assert_eq!(placed_annotation(&click(Tool::Ink, (1.0, 1.0)), 41).unwrap_err(), INK_NEEDS_A_DRAG);
}

#[test]
fn a_selection_is_marked_up_line_by_line_with_consecutive_ids() {
    let lines = [a_rect(10.0, 700.0, 100.0, 12.0), a_rect(10.0, 686.0, 80.0, 12.0)];

    let marked = markup_for_selection(Tool::Underline, 0, &lines, 5).expect("underline marks up text");
    assert_eq!(marked.len(), 2);
    assert_eq!((marked[0].id, marked[1].id), (5, 6));
    assert_eq!(rect_of(&marked[1].kind), lines[1]);
    assert!(matches!(marked[0].kind, AnnotationKind::Underline { .. }));
    assert!(markup_for_selection(Tool::Shape, 0, &lines, 5).is_none());
}
