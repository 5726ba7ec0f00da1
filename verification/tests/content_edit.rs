use vitela_shell::content::command::{
    amended_command, image_already_edited, moved_text_command, pending_move_index,
    pending_text_command, plan_move, text_move_refusal, MoveRecord, PendingText, Plan,
};
use vitela_shell::content::model::{
    image_at, overlay_pending_content, pending_log_index, reserved_font_resource_names,
    reserved_xobject_resource_names, text_run_at, unused_font_resource_name,
    unused_xobject_resource_name, FontKind, ImageItem, PageContent, PendingCommand, TextRun,
    PENDING_ITEM_ID_BASE,
};
use vitela_shell::content::session::{
    begin_text_drag, command_for, committed_image_rect, dragged_origin, editor_closes,
    editor_opening, finish_image_drag, finish_text_drag, image_press, insert_message,
    insert_toggled, is_click, kept_on_page, message_for, new_image_insertion, new_text_insertion,
    plan_commit, plan_image_removal, plan_image_replacement, plan_run_removal, preview_rects,
    press_mode, record_outcome, release_route, set_insert_mode, set_mode, status_after,
    CommitStep, EditModes, EditorOpening, ImageDrag, ImageDragEnd, ImagePress, InsertKind,
    OpenEditor, ReleaseRoute, RunRemoval, SelectedImage, TextDrag, TextDragEnd, EDIT_ARMED,
    EDIT_DISARMED, EDIT_NO_LONGER_AVAILABLE, IMAGE_ALREADY_EDITED, INSERTION_NOT_DELETABLE,
    INSERT_IMAGE_ARMED, INSERT_TEXT_ARMED, MOVED_NOT_SAVED, NOTHING_RECORDED, PAGE_NOT_EDITABLE,
    TEXT_INSERTED, TEXT_UPDATED,
};
use vitela_shell::geometry::{contains, corner_at, resized_rect, Corner, DragMode, Point, Rect};

fn pt(value: f64) -> i64 {
    (value * 1000.0).round() as i64
}

fn at(x: f64, y: f64) -> Point {
    Point { x: pt(x), y: pt(y) }
}

fn a_rect(x: f64, y: f64, width: f64, height: f64) -> Rect {
    Rect { x: pt(x), y: pt(y), width: pt(width), height: pt(height) }
}

fn run(id: u64, x: f64, y: f64, width: f64, height: f64) -> TextRun {
    TextRun {
        id,
        page: 0,
        bbox: a_rect(x, y, width, height),
        resource_font_name: "F1".to_string(),
        font_kind: FontKind::Standard14,
        text: "Hello".to_string(),
    }
}

fn image(id: u64, x: f64, y: f64, width: f64, height: f64) -> ImageItem {
    ImageItem { id, page: 0, bbox: a_rect(x, y, width, height), resource_xobject_name: "Im1".to_string() }
}

fn sample_run() -> TextRun {
    run(1, 0.0, 0.0, 10.0, 10.0)
}

fn sample_image_item() -> ImageItem {
    image(1, 100.0, 500.0, 200.0, 40.0)
}

fn empty_page() -> PageContent {
    PageContent { text_runs: Vec::new(), images: Vec::new() }
}

// --- image_already_edited ----------------------------------------------

#[test]
fn a_fresh_document_has_no_pending_edit_for_any_image() {
    assert!(!image_already_edited(&[], &sample_image_item()));
}

#[test]
fn an_image_with_a_recorded_move_is_already_edited() {
    let item = sample_image_item();
    let log = vec![PendingCommand::MoveImage { item: item.clone(), to: item.bbox }];

    assert!(image_already_edited(&log, &item));
}

#[test]
fn a_different_image_on_the_same_page_is_unaffected() {
    let edited = sample_image_item();
    let mut other = sample_image_item();
    other.id = edited.id + 1;
    let log = vec![PendingCommand::MoveImage { item: edited, to: other.bbox }];

    assert!(!image_already_edited(&log, &other));
}

#[test]
fn an_image_with_a_synthetic_id_is_already_edited_with_an_empty_log() {
    let mut pending_insert = sample_image_item();
    pending_insert.id = PENDING_ITEM_ID_BASE;

    assert!(image_already_edited(&[], &pending_insert));
}

// --- pending_text_command ----------------------------------------------

#[test]
fn a_fresh_document_has_no_pending_edit_for_any_text_run() {
    assert_eq!(pending_text_command(&[], &sample_run()), PendingText::Nothing);
}

#[test]
fn a_run_with_a_recorded_replacement_points_at_that_entry() {
    let log = vec![
        PendingCommand::Other,
        PendingCommand::ReplaceTextRunContent { item: sample_run(), after: "Goodbye".to_string() },
    ];

    assert_eq!(pending_text_command(&log, &sample_run()), PendingText::Amend(1));
}

#[test]
fn a_different_run_on_the_same_page_is_unaffected_by_a_replacement() {
    let edited = sample_run();
    let mut other = sample_run();
    other.id = edited.id + 1;
    let log = vec![PendingCommand::ReplaceTextRunContent { item: edited, after: "Goodbye".to_string() }];

    assert_eq!(pending_text_command(&log, &other), PendingText::Nothing);
}

#[test]
fn a_synthetic_id_points_at_the_insertion_that_minted_it() {
    let mut inserted = sample_run();
    inserted.id = 0;
    let log = vec![PendingCommand::InsertTextRun(inserted)];
    let mut hit_tested = sample_run();
    hit_tested.id = PENDING_ITEM_ID_BASE;

    assert_eq!(pending_text_command(&log, &hit_tested), PendingText::Amend(0));
}

#[test]
fn a_synthetic_id_with_no_insertion_behind_it_is_unresolvable() {
    let log = vec![PendingCommand::ReplaceTextRunContent { item: sample_run(), after: "Goodbye".to_string() }];
    let mut stale = sample_run();
    stale.id = PENDING_ITEM_ID_BASE;

    assert_eq!(pending_text_command(&log, &stale), PendingText::Unresolvable);
}

#[test]
fn a_synthetic_id_past_the_end_of_the_log_is_unresolvable() {
    let mut stale = sample_run();
    stale.id = PENDING_ITEM_ID_BASE + 3;

    assert_eq!(pending_text_command(&[], &stale), PendingText::Unresolvable);
}

#[test]
fn a_synthetic_id_pointing_at_another_pages_insertion_is_unresolvable() {
    let mut elsewhere = sample_run();
    elsewhere.id = 0;
    elsewhere.page = 4;
    let log = vec![PendingCommand::InsertTextRun(elsewhere)];
    let mut hit_tested = sample_run();
    hit_tested.id = PENDING_ITEM_ID_BASE;

    assert_eq!(pending_text_command(&log, &hit_tested), PendingText::Unresolvable);
}

#[test]
fn a_synthetic_id_names_its_log_position() {
    assert_eq!(pending_log_index(PENDING_ITEM_ID_BASE + 5), Some(5));
    assert_eq!(pending_log_index(7), None);
}

// --- drag to move ------------------------------------------------------

fn a_destination() -> Rect {
    a_rect(300.0, 200.0, 0.0, 0.0)
}

#[test]
fn a_run_with_nothing_queued_against_it_can_be_moved() {
    assert_eq!(text_move_refusal(&[], &sample_run()), None);
}

#[test]
fn a_run_with_an_unsaved_retype_refuses_to_be_moved() {
    let log = vec![PendingCommand::ReplaceTextRunContent { item: sample_run(), after: "Adios".to_string() }];

    assert!(text_move_refusal(&log, &sample_run()).is_some());
}

#[test]
fn a_run_that_was_already_moved_can_be_moved_again() {
    let log = vec![PendingCommand::MoveTextRun { item: sample_run(), to: a_destination() }];

    assert_eq!(text_move_refusal(&log, &sample_run()), None);
    assert_eq!(pending_move_index(&log, &sample_run()), Some(0));
}

#[test]
fn another_runs_move_is_not_this_runs_move() {
    let mut other = sample_run();
    other.id = 7;
    let log = vec![PendingCommand::MoveTextRun { item: other, to: a_destination() }];

    assert_eq!(pending_move_index(&log, &sample_run()), None);
}

#[test]
fn moving_a_moved_run_keeps_the_original_item_and_swaps_the_destination() {
    let existing = PendingCommand::MoveTextRun { item: sample_run(), to: a_destination() };
    let further = Rect { x: pt(400.0), y: pt(100.0), ..a_destination() };

    let Some(PendingCommand::MoveTextRun { item, to }) = moved_text_command(&existing, further) else {
        panic!("amending a move stays a move");
    };
    assert_eq!(item, sample_run(), "still keyed to the run as parsed");
    assert_eq!(to, further);
}

#[test]
fn a_command_that_is_not_a_move_has_no_moved_form() {
    assert!(moved_text_command(&PendingCommand::InsertTextRun(sample_run()), a_destination()).is_none());
}

#[test]
fn dragging_a_pending_insertion_moves_the_insertion_rather_than_recording_one() {
    let existing = PendingCommand::InsertTextRun(sample_run());

    let Some(PendingCommand::InsertTextRun(moved)) = amended_command(&existing, "Adios", Some(a_destination())) else {
        panic!("amending an insertion stays an insertion");
    };
    assert_eq!((moved.bbox.x, moved.bbox.y), (pt(300.0), pt(200.0)));
    assert_eq!(
        (moved.bbox.width, moved.bbox.height),
        (sample_run().bbox.width, sample_run().bbox.height),
        "the insertion box keeps the size it was composed with"
    );
    assert_eq!(moved.text, "Adios", "and the retype rides along with it");
}

#[test]
fn retyping_a_replacement_keeps_the_original_item_and_swaps_the_text() {
    let existing = PendingCommand::ReplaceTextRunContent { item: sample_run(), after: "Goodbye".to_string() };

    let Some(PendingCommand::ReplaceTextRunContent { item, after }) = amended_command(&existing, "Adios", None) else {
        panic!("retyping a replacement stays a replacement");
    };
    assert_eq!(item, sample_run(), "still keyed to the run as parsed");
    assert_eq!(after, "Adios");
}

#[test]
fn retyping_an_insertion_keeps_its_placeholder_id_and_font_resource() {
    let mut inserted = sample_run();
    inserted.id = 0;
    inserted.resource_font_name = "FIns1".to_string();

    let Some(PendingCommand::InsertTextRun(retyped)) = amended_command(&PendingCommand::InsertTextRun(inserted), "Adios", None) else {
        panic!("retyping an insertion stays an insertion");
    };
    assert_eq!(retyped.id, 0);
    assert_eq!(retyped.resource_font_name, "FIns1");
    assert_eq!(retyped.text, "Adios");
}

#[test]
fn a_command_that_is_not_a_text_edit_has_no_retyped_form() {
    assert!(amended_command(
        &PendingCommand::MoveImage { item: sample_image_item(), to: sample_image_item().bbox },
        "Adios",
        None
    )
    .is_none());
}

#[test]
fn amending_leaves_one_command_per_run() {
    let run = sample_run();
    let mut log = vec![PendingCommand::ReplaceTextRunContent { item: run.clone(), after: "Goodbye".to_string() }];
    let PendingText::Amend(index) = pending_text_command(&log, &run) else {
        panic!("a replacement was just recorded for this run");
    };

    let amended = amended_command(&log[index], "Adios", None).expect("a replacement has a retyped form");
    log[index] = amended;

    assert_eq!(log.len(), 1);
    assert_eq!(log[0], PendingCommand::ReplaceTextRunContent { item: run, after: "Adios".to_string() });
}

// --- hit-testing -------------------------------------------------------

#[test]
fn a_click_inside_a_runs_bbox_finds_it() {
    let content = PageContent { text_runs: vec![run(1, 100.0, 700.0, 50.0, 12.0)], images: Vec::new() };

    let found = text_run_at(&content, at(110.0, 705.0)).expect("point is inside the bbox");
    assert_eq!(found.id, 1);
}

#[test]
fn a_click_outside_every_bbox_finds_nothing() {
    let content = PageContent { text_runs: vec![run(1, 100.0, 700.0, 50.0, 12.0)], images: Vec::new() };

    assert!(text_run_at(&content, at(0.0, 0.0)).is_none());
}

#[test]
fn overlapping_runs_the_smaller_bbox_wins() {
    let content = PageContent {
        text_runs: vec![run(1, 0.0, 0.0, 200.0, 200.0), run(2, 50.0, 50.0, 20.0, 20.0)],
        images: Vec::new(),
    };

    let found = text_run_at(&content, at(55.0, 55.0)).expect("point is inside both bboxes");
    assert_eq!(found.id, 2);
}

#[test]
fn of_equally_small_runs_the_first_wins() {
    let content = PageContent {
        text_runs: vec![run(1, 0.0, 0.0, 20.0, 20.0), run(2, 10.0, 10.0, 20.0, 20.0)],
        images: Vec::new(),
    };

    assert_eq!(text_run_at(&content, at(15.0, 15.0)).map(|found| found.id), Some(1));
}

#[test]
fn a_click_inside_an_images_bbox_finds_it() {
    let content = PageContent { text_runs: Vec::new(), images: vec![image(1, 100.0, 600.0, 80.0, 40.0)] };

    let found = image_at(&content, at(140.0, 620.0)).expect("point is inside the bbox");
    assert_eq!(found.id, 1);
}

#[test]
fn a_click_outside_every_images_bbox_finds_nothing() {
    let content = PageContent { text_runs: Vec::new(), images: vec![image(1, 100.0, 600.0, 80.0, 40.0)] };

    assert!(image_at(&content, at(0.0, 0.0)).is_none());
}

#[test]
fn overlapping_images_the_smaller_bbox_wins() {
    let content = PageContent {
        text_runs: Vec::new(),
        images: vec![image(1, 0.0, 0.0, 200.0, 200.0), image(2, 50.0, 50.0, 20.0, 20.0)],
    };

    let found = image_at(&content, at(55.0, 55.0)).expect("point is inside both bboxes");
    assert_eq!(found.id, 2);
}

// --- the pending overlay -----------------------------------------------

fn read_page() -> PageContent {
    PageContent { text_runs: vec![run(1, 72.0, 700.0, 100.0, 12.0)], images: vec![image(3, 100.0, 600.0, 20.0, 20.0)] }
}

#[test]
fn a_pending_insertion_becomes_clickable_with_a_synthetic_id() {
    let mut content = read_page();
    let mut inserted = run(0, 200.0, 200.0, 50.0, 12.0);
    inserted.text = "New".to_string();
    overlay_pending_content(&mut content, &[PendingCommand::InsertTextRun(inserted.clone())], 0);

    let found = text_run_at(&content, at(210.0, 205.0)).expect("the inserted run is hit-tested");
    assert!(found.id >= PENDING_ITEM_ID_BASE, "an inserted run must not keep the placeholder id its command carries");
    assert_eq!(found.text, inserted.text);
    assert_eq!(pending_text_command(&[PendingCommand::InsertTextRun(inserted)], found), PendingText::Amend(0));
}

#[test]
fn two_pending_insertions_on_the_same_page_get_distinct_synthetic_ids() {
    let mut content = read_page();
    let pending = vec![
        PendingCommand::InsertTextRun(run(0, 200.0, 200.0, 50.0, 12.0)),
        PendingCommand::InsertTextRun(run(0, 200.0, 300.0, 50.0, 12.0)),
    ];
    overlay_pending_content(&mut content, &pending, 0);

    let first = text_run_at(&content, at(210.0, 205.0)).expect("first insertion is hit-tested").id;
    let second = text_run_at(&content, at(210.0, 305.0)).expect("second insertion is hit-tested").id;
    assert_ne!(first, second, "two pending insertions must not collide on the placeholder id");
}

#[test]
fn a_pending_move_updates_an_existing_images_bbox_for_hit_testing() {
    let mut content = read_page();
    let target = content.images[0].clone();
    let moved_to = Rect { x: pt(300.0), y: pt(100.0), ..target.bbox };
    overlay_pending_content(&mut content, &[PendingCommand::MoveImage { item: target.clone(), to: moved_to }], 0);

    assert!(image_at(&content, at(110.0, 610.0)).is_none(), "the image must no longer hit-test at its pre-move position");
    let found = image_at(&content, at(305.0, 105.0)).expect("the image hit-tests at its pending position");
    assert_eq!(found.id, target.id);
}

#[test]
fn a_pending_removal_hides_an_existing_image_from_hit_testing() {
    let mut content = read_page();
    let target = content.images[0].clone();
    overlay_pending_content(&mut content, &[PendingCommand::RemoveImage { item: target }], 0);

    assert!(image_at(&content, at(110.0, 610.0)).is_none(), "a pending removal must not still be a valid hit-test target");
}

#[test]
fn a_pending_replacement_updates_the_runs_text_for_hit_testing() {
    let mut content = read_page();
    let target = content.text_runs[0].clone();
    overlay_pending_content(
        &mut content,
        &[PendingCommand::ReplaceTextRunContent { item: target.clone(), after: "Goodbye world".to_string() }],
        0,
    );

    let found = content.text_runs.iter().find(|candidate| candidate.id == target.id).expect("the replaced run is still on the page");
    assert_eq!(found.text, "Goodbye world");
}

#[test]
fn a_pending_text_move_shows_the_run_where_the_move_put_it() {
    let mut content = read_page();
    let target = content.text_runs[0].clone();
    let first = Rect { x: target.bbox.x + pt(100.0), y: target.bbox.y - pt(50.0), ..target.bbox };
    overlay_pending_content(&mut content, &[PendingCommand::MoveTextRun { item: target.clone(), to: first }], 0);

    let moved = content.text_runs.iter().find(|candidate| candidate.id == target.id).expect("the moved run is still on the page");
    assert_eq!((moved.bbox.x, moved.bbox.y), (first.x, first.y));
}

#[test]
fn pending_commands_targeting_a_different_page_are_ignored() {
    let mut content = read_page();
    let mut inserted = run(0, 200.0, 200.0, 50.0, 12.0);
    inserted.page = 7;
    overlay_pending_content(&mut content, &[PendingCommand::InsertTextRun(inserted)], 0);

    assert!(text_run_at(&content, at(210.0, 205.0)).is_none());
}

// --- fresh resource names ----------------------------------------------

#[test]
fn an_empty_page_gets_the_first_candidate_name() {
    let content = empty_page();

    assert_eq!(unused_font_resource_name(&content, &[]), "FIns1");
    assert_eq!(unused_xobject_resource_name(&content, &[]), "XIns1");
}

#[test]
fn a_taken_font_name_is_skipped_for_the_next_candidate() {
    let mut taken = run(1, 0.0, 0.0, 10.0, 10.0);
    taken.resource_font_name = "FIns1".to_string();
    let content = PageContent { text_runs: vec![taken], images: Vec::new() };

    assert_eq!(unused_font_resource_name(&content, &[]), "FIns2");
}

#[test]
fn a_taken_xobject_name_is_skipped_for_the_next_candidate() {
    let mut taken = image(1, 0.0, 0.0, 10.0, 10.0);
    taken.resource_xobject_name = "XIns1".to_string();
    let content = PageContent { text_runs: Vec::new(), images: vec![taken] };

    assert_eq!(unused_xobject_resource_name(&content, &[]), "XIns2");
}

#[test]
fn font_and_xobject_naming_do_not_interfere_with_each_other() {
    let mut taken_font = run(1, 0.0, 0.0, 10.0, 10.0);
    taken_font.resource_font_name = "FIns1".to_string();
    let content = PageContent { text_runs: vec![taken_font], images: Vec::new() };

    assert_eq!(unused_xobject_resource_name(&content, &[]), "XIns1");
}

#[test]
fn a_name_claimed_by_a_queued_insertion_is_skipped() {
    let reserved = vec!["XIns1".to_string()];

    assert_eq!(unused_xobject_resource_name(&empty_page(), &reserved), "XIns2");
}

#[test]
fn a_font_name_claimed_by_a_queued_insertion_is_skipped() {
    let reserved = vec!["FIns1".to_string()];

    assert_eq!(unused_font_resource_name(&empty_page(), &reserved), "FIns2");
}

#[test]
fn page_content_and_queued_insertions_are_both_honoured() {
    let mut painted = run(1, 0.0, 0.0, 10.0, 10.0);
    painted.resource_font_name = "FIns1".to_string();
    let content = PageContent { text_runs: vec![painted], images: Vec::new() };
    let reserved = vec!["FIns2".to_string()];

    assert_eq!(unused_font_resource_name(&content, &reserved), "FIns3");
}

#[test]
fn a_gap_in_the_taken_names_is_filled_first() {
    let reserved = vec!["FIns1".to_string(), "FIns3".to_string(), "FIns10".to_string()];

    assert_eq!(unused_font_resource_name(&empty_page(), &reserved), "FIns2");
}

#[test]
fn queued_text_and_image_insertions_report_the_names_they_claim() {
    let mut inserted_run = run(1, 0.0, 0.0, 10.0, 10.0);
    inserted_run.resource_font_name = "FIns1".to_string();
    let mut inserted_image = image(1, 0.0, 0.0, 10.0, 10.0);
    inserted_image.resource_xobject_name = "XIns1".to_string();
    let log = vec![PendingCommand::InsertTextRun(inserted_run), PendingCommand::InsertImage { item: inserted_image }];

    assert_eq!(reserved_font_resource_names(&log), vec!["FIns1"]);
    assert_eq!(reserved_xobject_resource_names(&log), vec!["XIns1"]);
}

#[test]
fn a_queued_removal_still_reserves_its_xobject_name() {
    let mut removed = image(1, 0.0, 0.0, 10.0, 10.0);
    removed.resource_xobject_name = "XIns1".to_string();
    let log = vec![PendingCommand::RemoveImage { item: removed }];

    assert_eq!(reserved_xobject_resource_names(&log), vec!["XIns1"]);
    assert_eq!(unused_xobject_resource_name(&empty_page(), &reserved_xobject_resource_names(&log)), "XIns2");
}

#[test]
fn commands_that_claim_no_resource_reserve_nothing() {
    let log = vec![PendingCommand::Other];

    assert!(reserved_font_resource_names(&log).is_empty());
    assert!(reserved_xobject_resource_names(&log).is_empty());
}

// --- text drags --------------------------------------------------------

fn a_run() -> TextRun {
    run(1, 100.0, 500.0, 80.0, 12.0)
}

fn a_drag(current: (f64, f64)) -> TextDrag {
    TextDrag { page_index: 0, run: a_run(), refusal: None, origin: at(120.0, 505.0), current: at(current.0, current.1) }
}

#[test]
fn a_drag_translates_the_box_by_the_pointer_delta() {
    let moved = dragged_origin(&a_drag((150.0, 480.0)));

    assert_eq!((moved.x, moved.y), (pt(130.0), pt(475.0)));
}

#[test]
fn a_drag_never_changes_the_size_of_the_box() {
    let moved = dragged_origin(&a_drag((400.0, 100.0)));

    assert_eq!((moved.width, moved.height), (pt(80.0), pt(12.0)));
}

#[test]
fn a_preview_reads_and_draws_the_same_box_until_the_pointer_moves() {
    let (source, destination) = preview_rects(&a_drag((120.0, 505.0)));

    assert_eq!(source, destination);
    assert_eq!(source, a_rect(98.0, 498.0, 84.0, 16.0));
}

#[test]
fn a_preview_offsets_its_destination_by_exactly_the_pointer_delta() {
    let (source, destination) = preview_rects(&a_drag((150.0, 480.0)));

    assert_eq!((destination.x - source.x, destination.y - source.y), (pt(30.0), pt(-25.0)));
    assert_eq!((destination.width, destination.height), (source.width, source.height));
}

#[test]
fn a_drag_that_never_moved_leaves_the_box_where_it_was() {
    let moved = dragged_origin(&a_drag((120.0, 505.0)));

    assert_eq!((moved.x, moved.y), (pt(100.0), pt(500.0)));
}

#[test]
fn a_run_with_nothing_queued_gets_a_new_move() {
    let plan = plan_move(&[], &a_run(), a_rect(300.0, 200.0, 80.0, 12.0)).expect("planned");

    assert_eq!(plan, Plan::Append(PendingCommand::MoveTextRun { item: a_run(), to: a_rect(300.0, 200.0, 80.0, 12.0) }));
}

#[test]
fn a_run_dragged_a_second_time_amends_its_move_and_keeps_the_original_item() {
    let first = a_rect(300.0, 200.0, 80.0, 12.0);
    let log = vec![PendingCommand::MoveTextRun { item: a_run(), to: first }];
    let as_hit_tested = TextRun { bbox: first, ..a_run() };
    let second = a_rect(120.0, 640.0, 80.0, 12.0);

    let plan = plan_move(&log, &as_hit_tested, second).expect("planned");

    assert_eq!(
        plan,
        Plan::Amend(0, PendingCommand::MoveTextRun { item: a_run(), to: second }),
        "the amended entry must keep the run as the file holds it"
    );
}

#[test]
fn dragging_a_pending_insertion_amends_the_insertion() {
    let inserted = TextRun { id: 0, bbox: a_rect(50.0, 700.0, 80.0, 12.0), ..a_run() };
    let log = vec![PendingCommand::InsertTextRun(inserted)];
    let as_hit_tested = TextRun { id: PENDING_ITEM_ID_BASE, bbox: a_rect(50.0, 700.0, 80.0, 12.0), ..a_run() };

    let plan = plan_move(&log, &as_hit_tested, a_rect(300.0, 400.0, 80.0, 12.0)).expect("planned");

    let Plan::Amend(0, PendingCommand::InsertTextRun(moved)) = plan else {
        panic!("a pending insertion is moved by amending it, got {plan:?}");
    };
    assert_eq!((moved.bbox.x, moved.bbox.y), (pt(300.0), pt(400.0)));
    assert_eq!(moved.id, 0, "the placeholder id the command carries is never replaced by the synthetic one");
}

#[test]
fn a_run_with_a_pending_retype_is_refused_rather_than_planned() {
    let log = vec![PendingCommand::ReplaceTextRunContent { item: a_run(), after: "Adios".to_string() }];

    let refusal = plan_move(&log, &a_run(), a_rect(300.0, 200.0, 80.0, 12.0)).expect_err("refused");

    assert!(matches!(refusal, MoveRecord::Refused(_)));
}

#[test]
fn a_synthetic_id_with_nothing_behind_it_records_nothing() {
    let stale = TextRun { id: PENDING_ITEM_ID_BASE + 7, ..a_run() };

    let refusal = plan_move(&[], &stale, a_rect(300.0, 200.0, 80.0, 12.0)).expect_err("lost");

    assert_eq!(refusal, MoveRecord::Lost);
}

#[test]
fn a_text_drag_starts_on_the_run_under_the_pointer_with_its_refusal() {
    let content = PageContent { text_runs: vec![a_run()], images: Vec::new() };
    let log = vec![PendingCommand::ReplaceTextRunContent { item: a_run(), after: "Adios".to_string() }];

    let drag = begin_text_drag(&content, &log, 0, at(110.0, 505.0)).expect("a run is under the pointer");
    assert_eq!(drag.run, a_run());
    assert!(drag.refusal.is_some());
    assert!(begin_text_drag(&content, &[], 0, at(0.0, 0.0)).is_none());
}

#[test]
fn releasing_a_text_drag_within_the_click_slop_is_a_click() {
    let drag = a_drag((150.0, 480.0));

    assert_eq!(finish_text_drag(&drag, 3999, -3999), TextDragEnd::Click);
    assert_eq!(finish_text_drag(&drag, 4000, 0), TextDragEnd::MoveTo(a_rect(130.0, 475.0, 80.0, 12.0)));
    let refused = TextDrag { refusal: Some("no"), ..a_drag((150.0, 480.0)) };
    assert_eq!(finish_text_drag(&refused, 0, 9000), TextDragEnd::Refuse("no"));
}

// --- images ------------------------------------------------------------

fn sample_drag(origin: (f64, f64), current: (f64, f64), mode: DragMode) -> ImageDrag {
    ImageDrag { page_index: 0, item: sample_image_item(), mode, origin: at(origin.0, origin.1), current: at(current.0, current.1) }
}

#[test]
fn press_mode_prefers_a_corner_handle_over_the_body() {
    assert_eq!(press_mode(a_rect(100.0, 500.0, 200.0, 40.0), at(100.0, 500.0), pt(5.0)), Some(DragMode::Resize(Corner::BottomLeft)));
}

#[test]
fn press_mode_falls_back_to_moving_the_body() {
    assert_eq!(press_mode(a_rect(100.0, 500.0, 200.0, 40.0), at(150.0, 520.0), pt(5.0)), Some(DragMode::Move));
}

#[test]
fn press_mode_misses_outside_the_image() {
    assert_eq!(press_mode(a_rect(100.0, 500.0, 200.0, 40.0), at(0.0, 0.0), pt(5.0)), None);
}

#[test]
fn a_press_release_that_never_moved_is_a_click() {
    assert!(is_click(&sample_drag((150.0, 520.0), (150.0, 520.0), DragMode::Move)));
}

#[test]
fn a_press_release_that_moved_is_not_a_click() {
    assert!(!is_click(&sample_drag((150.0, 520.0), (170.0, 520.0), DragMode::Move)));
}

#[test]
fn committed_rect_reflects_the_drag_mode() {
    let moved = committed_image_rect(&sample_drag((150.0, 520.0), (170.0, 495.0), DragMode::Move));
    assert_eq!((moved.x, moved.y), (pt(120.0), pt(475.0)));

    let resized = committed_image_rect(&sample_drag((300.0, 540.0), (400.0, 600.0), DragMode::Resize(Corner::TopRight)));
    assert_eq!((resized.x, resized.y), (pt(100.0), pt(500.0)));
    assert_eq!((resized.width, resized.height), (pt(300.0), pt(100.0)));
}

#[test]
fn command_for_a_move_records_move_image() {
    let item = sample_image_item();
    let to = a_rect(300.0, 400.0, 80.0, 40.0);

    assert_eq!(command_for(item.clone(), DragMode::Move, to), PendingCommand::MoveImage { item, to });
    assert_eq!(message_for(DragMode::Move), "Image moved.");
}

#[test]
fn command_for_a_resize_records_resize_image() {
    let item = sample_image_item();
    let to = a_rect(100.0, 600.0, 160.0, 80.0);

    assert_eq!(command_for(item.clone(), DragMode::Resize(Corner::TopRight), to), PendingCommand::ResizeImage { item, to });
    assert_eq!(message_for(DragMode::Resize(Corner::TopRight)), "Image resized.");
}

#[test]
fn content_geometry_a_press_inside_an_images_body_hits_it_and_one_outside_does_not() {
    let rect = a_rect(100.0, 500.0, 200.0, 40.0);

    assert!(contains(rect, at(150.0, 520.0)));
    assert!(contains(rect, at(100.0, 500.0)), "edges count as inside");
    assert!(!contains(rect, at(99.0, 520.0)));
    assert!(!contains(rect, at(150.0, 541.0)));
    assert_eq!(corner_at(rect, at(300.0, 540.0), pt(5.0)), Some(Corner::TopRight));
    assert_eq!(resized_rect(rect, Corner::TopRight, at(40.0, 460.0)), a_rect(40.0, 460.0, 60.0, 40.0));
}

#[test]
fn an_image_press_grabs_the_selection_before_anything_else() {
    let content = PageContent { text_runs: Vec::new(), images: vec![image(1, 0.0, 0.0, 500.0, 500.0), image(2, 100.0, 100.0, 50.0, 50.0)] };
    let selected = SelectedImage { page_index: 0, item: image(1, 0.0, 0.0, 500.0, 500.0) };

    assert_eq!(image_press(Some(&selected), &content, 0, at(0.0, 0.0), pt(5.0)), ImagePress::Grab(DragMode::Resize(Corner::BottomLeft)));
    assert_eq!(image_press(Some(&selected), &content, 0, at(120.0, 120.0), pt(5.0)), ImagePress::Grab(DragMode::Move));
    assert_eq!(image_press(None, &content, 0, at(120.0, 120.0), pt(5.0)), ImagePress::Select(image(2, 100.0, 100.0, 50.0, 50.0)));
    assert_eq!(image_press(Some(&selected), &content, 1, at(900.0, 900.0), pt(5.0)), ImagePress::Deselect);
    assert_eq!(image_press(None, &content, 0, at(900.0, 900.0), pt(5.0)), ImagePress::Miss);
}

#[test]
fn an_image_edited_twice_before_a_save_is_refused() {
    let item = sample_image_item();
    let log = vec![PendingCommand::MoveImage { item: item.clone(), to: item.bbox }];
    let drag = sample_drag((150.0, 520.0), (170.0, 520.0), DragMode::Move);

    assert_eq!(finish_image_drag(&drag, &log, None), ImageDragEnd::Refuse(IMAGE_ALREADY_EDITED.to_string()));
    assert_eq!(finish_image_drag(&sample_drag((1.0, 1.0), (1.0, 1.0), DragMode::Move), &log, None), ImageDragEnd::Click);
    assert_eq!(finish_image_drag(&drag, &[], Some("refused")), ImageDragEnd::Refuse("refused".to_string()));
    assert_eq!(
        finish_image_drag(&drag, &[], None),
        ImageDragEnd::Record { command: PendingCommand::MoveImage { item: item.clone(), to: a_rect(120.0, 500.0, 200.0, 40.0) }, done: "Image moved." }
    );
    let selected = SelectedImage { page_index: 0, item: item.clone() };
    assert_eq!(plan_image_removal(&selected, &log), Err(IMAGE_ALREADY_EDITED));
    assert_eq!(plan_image_removal(&selected, &[]), Ok(PendingCommand::RemoveImage { item: item.clone() }));
    assert_eq!(plan_image_replacement(&selected, &[]), Ok(PendingCommand::ReplaceImageSource { item }));
}

#[test]
fn an_inserted_picture_gets_a_fresh_name_and_the_placeholder_id() {
    let mut taken = image(1, 0.0, 0.0, 10.0, 10.0);
    taken.resource_xobject_name = "XIns1".to_string();
    let content = PageContent { text_runs: Vec::new(), images: vec![taken] };
    let bbox = a_rect(10.0, 20.0, 30.0, 40.0);

    let PendingCommand::InsertImage { item } = new_image_insertion(&content, &[], 2, bbox) else {
        panic!("an insertion");
    };
    assert_eq!((item.id, item.page, item.bbox), (0, 2, bbox));
    assert_eq!(item.resource_xobject_name, "XIns2");
}

#[test]
fn new_text_starts_empty_in_a_standard_font_box_at_the_click() {
    let log = vec![PendingCommand::InsertTextRun(TextRun { resource_font_name: "FIns1".to_string(), ..sample_run() })];

    let inserted = new_text_insertion(&empty_page(), &log, 3, at(72.0, 100.0));
    assert_eq!(inserted.bbox, a_rect(72.0, 100.0, 150.0, 14.0));
    assert_eq!((inserted.id, inserted.page, inserted.font_kind), (0, 3, FontKind::Standard14));
    assert_eq!(inserted.text, "");
    assert_eq!(inserted.resource_font_name, "FIns2");
}

// --- the inline editor -------------------------------------------------

fn editor(is_insertion: bool, amends: Option<usize>) -> OpenEditor {
    OpenEditor { page_index: 0, run: sample_run(), is_insertion, amends }
}

#[test]
fn the_editor_opens_on_what_the_log_says_about_the_run() {
    assert_eq!(editor_opening(&[], &sample_run()), EditorOpening::Open(None));
    let composite = TextRun { font_kind: FontKind::EmbeddedComposite, ..sample_run() };
    assert_eq!(editor_opening(&[], &composite), EditorOpening::CompositeFont);
    let moved = vec![PendingCommand::MoveTextRun { item: sample_run(), to: a_destination() }];
    assert_eq!(editor_opening(&moved, &sample_run()), EditorOpening::Refuse(MOVED_NOT_SAVED));
    let retyped = vec![PendingCommand::ReplaceTextRunContent { item: sample_run(), after: "x".to_string() }];
    assert_eq!(editor_opening(&retyped, &sample_run()), EditorOpening::Open(Some(0)));
    let stale = TextRun { id: PENDING_ITEM_ID_BASE, ..sample_run() };
    assert_eq!(editor_opening(&[], &stale), EditorOpening::Refuse(EDIT_NO_LONGER_AVAILABLE));
}

#[test]
fn committing_unchanged_text_records_nothing() {
    assert_eq!(plan_commit(&editor(false, None), "Hello", &[], true), CommitStep::Close);
    assert_eq!(plan_commit(&editor(false, None), "Hi", &[], false), CommitStep::Abandon(PAGE_NOT_EDITABLE));
}

#[test]
fn committing_records_a_replacement_an_insertion_or_an_amendment() {
    assert_eq!(
        plan_commit(&editor(false, None), "Adios", &[], true),
        CommitStep::Record {
            command: PendingCommand::ReplaceTextRunContent { item: sample_run(), after: "Adios".to_string() },
            amend: None,
            done: TEXT_UPDATED,
        }
    );
    assert_eq!(
        plan_commit(&editor(true, None), "New", &[], true),
        CommitStep::Record {
            command: PendingCommand::InsertTextRun(TextRun { text: "New".to_string(), ..sample_run() }),
            amend: None,
            done: TEXT_INSERTED,
        }
    );
    let log = vec![PendingCommand::ReplaceTextRunContent { item: sample_run(), after: "Goodbye".to_string() }];
    assert_eq!(
        plan_commit(&editor(false, Some(0)), "Adios", &log, true),
        CommitStep::Record {
            command: PendingCommand::ReplaceTextRunContent { item: sample_run(), after: "Adios".to_string() },
            amend: Some(0),
            done: TEXT_UPDATED,
        }
    );
    assert_eq!(plan_commit(&editor(false, Some(3)), "Adios", &log, true), CommitStep::Abandon(NOTHING_RECORDED));
}

#[test]
fn deleting_the_open_run_targets_the_run_the_file_holds() {
    assert_eq!(plan_run_removal(&editor(true, None), &[], true), RunRemoval::Ignore);
    assert_eq!(
        plan_run_removal(&editor(false, None), &[], true),
        RunRemoval::Remove { command: PendingCommand::RemoveTextRun(sample_run()), amend: None }
    );
    let as_read = run(1, 5.0, 5.0, 10.0, 10.0);
    let retyped = vec![PendingCommand::ReplaceTextRunContent { item: as_read.clone(), after: "x".to_string() }];
    assert_eq!(
        plan_run_removal(&editor(false, Some(0)), &retyped, true),
        RunRemoval::Remove { command: PendingCommand::RemoveTextRun(as_read), amend: Some(0) }
    );
    let inserted = vec![PendingCommand::InsertTextRun(sample_run())];
    assert_eq!(plan_run_removal(&editor(false, Some(0)), &inserted, true), RunRemoval::Refuse(INSERTION_NOT_DELETABLE));
    assert_eq!(plan_run_removal(&editor(false, Some(9)), &inserted, true), RunRemoval::Refuse(NOTHING_RECORDED));
    assert_eq!(plan_run_removal(&editor(false, None), &[], false), RunRemoval::Refuse(PAGE_NOT_EDITABLE));
}

#[test]
fn recording_ends_with_the_right_status_line() {
    assert_eq!(record_outcome(Ok(()), true), MoveRecord::Recorded);
    assert_eq!(record_outcome(Ok(()), false), MoveRecord::Lost);
    assert_eq!(record_outcome(Err("bad".to_string()), true), MoveRecord::Refused("bad".to_string()));
    assert_eq!(status_after(&MoveRecord::Recorded, "Text moved."), "Text moved.");
    assert_eq!(status_after(&MoveRecord::Lost, "Text moved."), NOTHING_RECORDED);
    assert_eq!(status_after(&MoveRecord::Refused("bad".to_string()), "Text moved."), "bad");
    assert!(editor_closes(&MoveRecord::Lost));
    assert!(!editor_closes(&MoveRecord::Refused("bad".to_string())));
}

// --- releases and modes ------------------------------------------------

#[test]
fn a_release_is_routed_by_travel_and_the_armed_insertion() {
    assert_eq!(release_route(4000, 0, None), ReleaseRoute::Commit);
    assert_eq!(release_route(0, 3999, Some(InsertKind::Text)), ReleaseRoute::InsertText);
    assert_eq!(release_route(-3999, 0, Some(InsertKind::Image)), ReleaseRoute::InsertImage);
    assert_eq!(release_route(0, 0, None), ReleaseRoute::EditRunAt);
}

#[test]
fn a_box_is_kept_wholly_on_its_page() {
    let (page_width, page_height) = (pt(612.0), pt(792.0));
    let a_box = a_rect(100.0, 500.0, 150.0, 14.0);

    let off_the_bottom_left = kept_on_page(Rect { x: a_box.x - pt(9000.0), y: a_box.y + pt(9000.0), ..a_box }, page_width, page_height);
    assert_eq!((off_the_bottom_left.x, off_the_bottom_left.y), (0, page_height - a_box.height));

    let off_the_top_right = kept_on_page(Rect { x: a_box.x + pt(9000.0), y: a_box.y - pt(9000.0), ..a_box }, page_width, page_height);
    assert_eq!((off_the_top_right.x, off_the_top_right.y), (page_width - a_box.width, 0));
}

#[test]
fn a_box_too_big_for_its_page_clamps_rather_than_panicking() {
    let oversized = a_rect(50.0, 50.0, 10_000.0, 10_000.0);

    let moved = kept_on_page(oversized, pt(612.0), pt(792.0));

    assert_eq!((moved.x, moved.y), (0, 0));
}

#[test]
fn arming_an_insertion_arms_content_editing_and_disarming_drops_it() {
    let mut modes = EditModes { edit_mode: false, insert_mode: None };

    assert_eq!(set_insert_mode(&mut modes, Some(InsertKind::Text)), Some(true));
    assert_eq!(modes, EditModes { edit_mode: true, insert_mode: Some(InsertKind::Text) });
    assert_eq!(insert_message(Some(InsertKind::Text)), INSERT_TEXT_ARMED);
    assert_eq!(insert_message(Some(InsertKind::Image)), INSERT_IMAGE_ARMED);

    assert_eq!(insert_toggled(&mut modes, InsertKind::Image, false), None);
    assert_eq!(insert_toggled(&mut modes, InsertKind::Image, true), Some(false));
    assert_eq!(modes.insert_mode, Some(InsertKind::Image));

    assert_eq!(set_mode(&mut modes, true), None);
    assert_eq!(set_mode(&mut modes, false), Some(EDIT_DISARMED));
    assert_eq!(modes, EditModes { edit_mode: false, insert_mode: None });
    assert_eq!(set_mode(&mut modes, true), Some(EDIT_ARMED));
}
