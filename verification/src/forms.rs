//! Form fields: placing new fields with a drag or a click, moving and
//! resizing them, the choices a dropdown shows, the font picker, and the
//! one guard every structural field edit passes through.

use vstd::prelude::*;

use crate::annotations::Color;
use crate::geometry::{
    dragged_rect, far_enough, hanging_box, point_ok, press_on_page, rect_ok, spec_dragged,
    spec_far_enough, spec_hanging, spec_press, spec_traced, traced_box, DragMode, PageItem, Point,
    PressOutcome, Rect,
};
use crate::session::{guarded_run, run_guarded, EditCounters};
use crate::text::join;

verus! {

/// Size given to a field placed with a click rather than a drag
/// (144 x 24 pt).
pub const FIELD_CLICK_WIDTH: i64 = 144_000;
pub const FIELD_CLICK_HEIGHT: i64 = 24_000;

/// Said when an operation needs a document and none is open.
pub const NO_DOCUMENT: &'static str = "Open a PDF before editing form fields.";

/// Said when the selected field is gone by the time an operation on it runs.
pub const FIELD_GONE: &'static str = "The selected form field no longer exists.";

/// The kinds of field the toolbar places, in toolbar order.
#[derive(Clone, Copy, Debug, PartialEq, Eq, Structural)]
pub enum FieldKind {
    Text,
    Checkbox,
    RadioGroup,
    Dropdown,
}

pub open spec fn field_label(kind: FieldKind) -> Seq<char> {
    match kind {
        FieldKind::Text => "Text field"@,
        FieldKind::Checkbox => "Checkbox"@,
        FieldKind::RadioGroup => "Radio group"@,
        FieldKind::Dropdown => "Dropdown"@,
    }
}

pub open spec fn field_name_base(kind: FieldKind) -> Seq<char> {
    match kind {
        FieldKind::Text => "Text"@,
        FieldKind::Checkbox => "Checkbox"@,
        FieldKind::RadioGroup => "Radio"@,
        FieldKind::Dropdown => "Dropdown"@,
    }
}

impl FieldKind {
    /// Every kind, one toolbar button each.
    pub fn all() -> (kinds: Vec<FieldKind>)
        ensures
            kinds@ == seq![
                FieldKind::Text,
                FieldKind::Checkbox,
                FieldKind::RadioGroup,
                FieldKind::Dropdown,
            ],
    {
        vec![FieldKind::Text, FieldKind::Checkbox, FieldKind::RadioGroup, FieldKind::Dropdown]
    }

    /// The toolbar label.
    pub fn label(&self) -> (label: &'static str)
        ensures
            label@ == field_label(*self),
    {
        proof {
            reveal_strlit("Text field");
            reveal_strlit("Checkbox");
            reveal_strlit("Radio group");
            reveal_strlit("Dropdown");
        }
        match self {
            FieldKind::Text => "Text field",
            FieldKind::Checkbox => "Checkbox",
            FieldKind::RadioGroup => "Radio group",
            FieldKind::Dropdown => "Dropdown",
        }
    }

    /// The stem new fields of this kind are named from ("Text" gives
    /// "Text_1", "Text_2", ...).
    pub fn name_base(&self) -> (base: &'static str)
        ensures
            base@ == field_name_base(*self),
    {
        proof {
            reveal_strlit("Text");
            reveal_strlit("Checkbox");
            reveal_strlit("Radio");
            reveal_strlit("Dropdown");
        }
        match self {
            FieldKind::Text => "Text",
            FieldKind::Checkbox => "Checkbox",
            FieldKind::RadioGroup => "Radio",
            FieldKind::Dropdown => "Dropdown",
        }
    }
}

/// The labels are pairwise distinct, so every kind has its own button.
pub proof fn every_field_kind_has_its_own_label(a: FieldKind, b: FieldKind)
    requires
        a != b,
    ensures
        field_label(a) != field_label(b),
{
    reveal_strlit("Text field");
    reveal_strlit("Checkbox");
    reveal_strlit("Radio group");
    reveal_strlit("Dropdown");
    if field_label(a) == field_label(b) {
        assert(field_label(a).len() == field_label(b).len());
        assert(field_label(a)[0] == field_label(b)[0]);
    }
}

/// A field placement in progress: a kind armed and drawn on one page.
#[derive(Clone, Copy, Debug, PartialEq, Eq, Structural)]
pub struct FormPlacement {
    pub kind: FieldKind,
    pub page_index: usize,
    pub origin: Point,
    pub current: Point,
}

pub open spec fn form_placement_ok(p: FormPlacement) -> bool {
    point_ok(p.origin) && point_ok(p.current)
}

/// The default-sized rect a click leaves, hanging below the press point.
pub open spec fn spec_field_click_rect(p: FormPlacement) -> Rect {
    spec_hanging(p.origin, FIELD_CLICK_WIDTH as int, FIELD_CLICK_HEIGHT as int)
}

/// The rect a finished placement commits: the traced rect once the pointer
/// travelled far enough, the click default otherwise.
pub open spec fn spec_field_committed_rect(p: FormPlacement) -> Rect {
    if spec_far_enough(p.origin, p.current) {
        spec_traced(p.origin, p.current)
    } else {
        spec_field_click_rect(p)
    }
}

/// Whether the pointer travelled far enough, as distance, for a drag.
pub fn is_a_drag(placement: &FormPlacement) -> (drag: bool)
    requires
        form_placement_ok(*placement),
    ensures
        drag == spec_far_enough(placement.origin, placement.current),
{
    far_enough(placement.origin, placement.current)
}

/// Exactly the rect the pointer traced, normalised and floored.
pub fn traced_rect(placement: &FormPlacement) -> (rect: Rect)
    requires
        form_placement_ok(*placement),
    ensures
        rect == spec_traced(placement.origin, placement.current),
{
    traced_box(placement.origin, placement.current)
}

/// The rect a click leaves.
pub fn click_rect(placement: &FormPlacement) -> (rect: Rect)
    requires
        form_placement_ok(*placement),
    ensures
        rect == spec_field_click_rect(*placement),
{
    hanging_box(placement.origin, FIELD_CLICK_WIDTH, FIELD_CLICK_HEIGHT)
}

/// The rect a finished placement commits.
pub fn committed_rect(placement: &FormPlacement) -> (rect: Rect)
    requires
        form_placement_ok(*placement),
    ensures
        rect == spec_field_committed_rect(*placement),
{
    if is_a_drag(placement) {
        traced_rect(placement)
    } else {
        click_rect(placement)
    }
}

/// One option of a radio group: the value it exports and the box of its
/// button.
#[derive(Clone, Debug, PartialEq)]
pub struct RadioOption {
    pub export_value: String,
    pub rect: Rect,
}

/// Half a length, rounded toward zero to the milli-point.
pub open spec fn half_of(length: int) -> int {
    if length >= 0 {
        length / 2
    } else {
        -((-length) / 2)
    }
}

/// The two options a new radio group starts with: "Option 1" over the top
/// half of its box, "Option 2" over the bottom half.
pub fn default_radio_options(rect: Rect) -> (options: Vec<RadioOption>)
    requires
        rect_ok(rect),
    ensures
        options@.len() == 2,
        options@[0].export_value@ == "Option 1"@,
        options@[1].export_value@ == "Option 2"@,
        options@[0].rect == (Rect {
            x: rect.x,
            y: (rect.y + half_of(rect.height as int)) as i64,
            width: rect.width,
            height: half_of(rect.height as int) as i64,
        }),
        options@[1].rect == (Rect {
            x: rect.x,
            y: rect.y,
            width: rect.width,
            height: half_of(rect.height as int) as i64,
        }),
{
    let half_height = if rect.height >= 0 {
        rect.height / 2
    } else {
        -((-rect.height) / 2)
    };
    vec![
        RadioOption {
            export_value: "Option 1".to_owned(),
            rect: Rect { x: rect.x, y: rect.y + half_height, width: rect.width, height: half_height },
        },
        RadioOption {
            export_value: "Option 2".to_owned(),
            rect: Rect { x: rect.x, y: rect.y, width: rect.width, height: half_height },
        },
    ]
}

/// The two choices a new dropdown starts with.
pub fn default_dropdown_options() -> (options: Vec<String>)
    ensures
        options@.len() == 2,
        options@[0]@ == "Option 1"@,
        options@[1]@ == "Option 2"@,
{
    vec!["Option 1".to_owned(), "Option 2".to_owned()]
}

/// The first index holding `chosen`.
pub open spec fn first_option(options: Seq<String>, chosen: Seq<char>) -> Option<int>
    decreases options.len(),
{
    if options.len() == 0 {
        None
    } else {
        match first_option(options.drop_last(), chosen) {
            Some(i) => Some(i),
            None => if options.last()@ == chosen {
                Some(options.len() - 1)
            } else {
                None
            },
        }
    }
}

proof fn first_option_facts(options: Seq<String>, chosen: Seq<char>)
    ensures
        first_option(options, chosen) matches Some(i) ==> 0 <= i < options.len() && options[i]@
            == chosen && forall|j: int| 0 <= j < i ==> (#[trigger] options[j])@ != chosen,
        first_option(options, chosen) is None ==> forall|j: int|
            0 <= j < options.len() ==> (#[trigger] options[j])@ != chosen,
    decreases options.len(),
{
    if options.len() > 0 {
        let rest = options.drop_last();
        first_option_facts(rest, chosen);
        assert forall|j: int| 0 <= j < rest.len() implies #[trigger] rest[j] == options[j] by {}
        match first_option(rest, chosen) {
            Some(i) => {
                assert(rest[i] == options[i]);
                assert forall|j: int| 0 <= j < i implies (#[trigger] options[j])@ != chosen by {
                    assert(rest[j] == options[j]);
                }
            },
            None => {
                assert forall|j: int| 0 <= j < rest.len() implies (#[trigger] options[j])@
                    != chosen by {
                    assert(rest[j] == options[j]);
                }
            },
        }
    }
}

/// The dropdown row showing a field's value: row 0 is the "none" choice,
/// rows from 1 are the options; a choice the field no longer offers, or no
/// choice, shows row 0.
pub open spec fn spec_dropdown_index(options: Seq<String>, chosen: Option<Seq<char>>) -> int {
    match chosen {
        Some(c) => match first_option(options, c) {
            Some(i) => i + 1,
            None => 0,
        },
        None => 0,
    }
}

/// The dropdown row showing the chosen value (`None` when the field holds
/// no choice).
pub fn dropdown_index_for(options: &[String], chosen: Option<&str>) -> (index: u32)
    requires
        options@.len() < u32::MAX,
    ensures
        index == spec_dropdown_index(
            options@,
            match chosen {
                Some(c) => Some(c@),
                None => None,
            },
        ),
{
    let c = match chosen {
        Some(c) => c,
        None => {
            return 0;
        },
    };
    let mut i: usize = 0;
    while i < options.len()
        invariant
            i <= options@.len(),
            options@.len() < u32::MAX,
            chosen == Some(c),
            first_option(options@.take(i as int), c@) is None,
        decreases options@.len() - i,
    {
        assert(options@.take(i + 1).drop_last() =~= options@.take(i as int));
        assert(options@.take(i + 1).last() == options@[i as int]);
        if crate::text::same_text(options[i].as_str(), c) {
            assert(options@[i as int]@ == c@);
            assert(first_option(options@.take(i + 1), c@) == Some(i as int));
            proof {
                lemma_first_option_prefix(options@, c@, i + 1);
            }
            return (i + 1) as u32;
        }
        i = i + 1;
    }
    assert(options@.take(i as int) =~= options@);
    0
}

proof fn lemma_first_option_prefix(options: Seq<String>, chosen: Seq<char>, n: int)
    requires
        0 <= n <= options.len(),
        first_option(options.take(n), chosen) is Some,
    ensures
        first_option(options, chosen) == first_option(options.take(n), chosen),
    decreases options.len() - n,
{
    if n < options.len() {
        assert(options.take(n + 1).drop_last() =~= options.take(n));
        lemma_first_option_prefix(options, chosen, n + 1);
    } else {
        assert(options.take(n) =~= options);
    }
}

/// The value a dropdown row stands for: none for row 0 or a row past the
/// options, the option otherwise.
pub fn dropdown_choice_for(options: &[String], index: u32) -> (choice: Option<String>)
    ensures
        index == 0 || index > options@.len() ==> choice is None,
        1 <= index <= options@.len() ==> choice == Some(options@[index - 1]),
{
    if index == 0 {
        None
    } else if ((index - 1) as usize) < options.len() {
        Some(options[(index - 1) as usize].clone())
    } else {
        None
    }
}

/// Rows and values round-trip: every row of a dropdown whose options are
/// distinct reads back as the row its value is shown in, and every option
/// is shown in the row that reads back as it.
pub proof fn dropdown_rows_and_values_round_trip(options: Seq<String>, i: int)
    requires
        0 <= i < options.len(),
        forall|a: int, b: int|
            0 <= a < b < options.len() ==> (#[trigger] options[a])@ != (#[trigger] options[b])@,
    ensures
        spec_dropdown_index(options, Some(options[i]@)) == i + 1,
{
    first_option_facts(options, options[i]@);
    if let Some(k) = first_option(options, options[i]@) {
        if k < i {
            assert(options[k]@ != options[i]@);
        }
    }
}

/// The choice an editable dropdown's entry holds: none while it is empty.
pub fn editable_choice(text: &str) -> (choice: Option<String>)
    ensures
        text@.len() == 0 ==> choice is None,
        text@.len() > 0 ==> (choice matches Some(c) && c@ == text@),
{
    if text.unicode_len() == 0 {
        None
    } else {
        Some(text.to_owned())
    }
}

/// The longest text an entry accepts for a field limited to `max_len`
/// characters: the limit itself, as far as an entry can hold it.
pub fn entry_max_length(max_len: u32) -> (length: i32)
    ensures
        length == (if max_len <= i32::MAX {
            max_len as int
        } else {
            i32::MAX as int
        }),
{
    if max_len <= 2_147_483_647 {
        max_len as i32
    } else {
        2_147_483_647
    }
}

/// The fonts a field's text can be set in, in picker order.
#[derive(Clone, Copy, Debug, PartialEq, Eq, Structural)]
pub enum FontFamily {
    Helvetica,
    TimesRoman,
    Courier,
}

pub open spec fn spec_font_from_selected(index: u32) -> FontFamily {
    if index == 1 {
        FontFamily::TimesRoman
    } else if index == 2 {
        FontFamily::Courier
    } else {
        FontFamily::Helvetica
    }
}

pub open spec fn spec_selected_from_font(font: FontFamily) -> u32 {
    match font {
        FontFamily::Helvetica => 0,
        FontFamily::TimesRoman => 1,
        FontFamily::Courier => 2,
    }
}

/// The font a picker row stands for; any row past the list is Helvetica.
pub fn font_from_selected(index: u32) -> (font: FontFamily)
    ensures
        font == spec_font_from_selected(index),
{
    match index {
        1 => FontFamily::TimesRoman,
        2 => FontFamily::Courier,
        _ => FontFamily::Helvetica,
    }
}

/// The picker row showing a font.
pub fn selected_from_font(font: FontFamily) -> (index: u32)
    ensures
        index == spec_selected_from_font(font),
{
    match font {
        FontFamily::Helvetica => 0,
        FontFamily::TimesRoman => 1,
        FontFamily::Courier => 2,
    }
}

/// The font picker round-trips: every font is shown in the row that reads
/// back as it, and distinct fonts get distinct rows.
pub proof fn the_font_picker_round_trips(font: FontFamily, other: FontFamily)
    ensures
        spec_font_from_selected(spec_selected_from_font(font)) == font,
        font != other ==> spec_selected_from_font(font) != spec_selected_from_font(other),
{
}

/// The name a font goes by in the field style picker.
pub open spec fn font_label(font: FontFamily) -> Seq<char> {
    match font {
        FontFamily::Helvetica => "Helvetica"@,
        FontFamily::TimesRoman => "Times Roman"@,
        FontFamily::Courier => "Courier"@,
    }
}

/// The field style picker's rows, top to bottom.
pub open spec fn font_picker_labels() -> Seq<Seq<char>> {
    seq!["Helvetica"@, "Times Roman"@, "Courier"@]
}

/// Each picker row stands for the font the picker lists in that row, and
/// each font is shown in the row that lists it; a row past the list falls
/// back to Helvetica.
pub proof fn each_picker_row_stands_for_the_font_it_lists(index: u32, font: FontFamily)
    ensures
        index < font_picker_labels().len() ==> font_label(spec_font_from_selected(index))
            == font_picker_labels()[index as int],
        index >= font_picker_labels().len() ==> spec_font_from_selected(index)
            == FontFamily::Helvetica,
        spec_selected_from_font(font) < font_picker_labels().len(),
        font_picker_labels()[spec_selected_from_font(font) as int] == font_label(font),
{
}

/// Why structural field edits are refused right now, if they are: a field
/// change writes page content and annotations both, so either refusal
/// stands, the annotation one first.
pub fn structural_edit_refusal(
    annotation_refusal: Option<&'static str>,
    content_refusal: Option<&'static str>,
) -> (refusal: Option<&'static str>)
    ensures
        refusal == (match annotation_refusal {
            Some(r) => Some(r),
            None => content_refusal,
        }),
{
    match annotation_refusal {
        Some(r) => Some(r),
        None => content_refusal,
    }
}

/// Runs one structural field operation under the edit guard: refused while
/// structural edits are (the operation never runs), refused with no
/// document open; otherwise the operation runs, and a success bumps the
/// edit revision and marks the document unsaved. Returns the status line:
/// the refusal, or what the operation reported.
pub fn command<F: FnOnce() -> Result<String, String>>(
    refusal: Option<&'static str>,
    has_document: bool,
    counters: &mut EditCounters,
    operation: F,
) -> (status: String)
    requires
        old(counters).edit_revision < u64::MAX,
        refusal is None && has_document ==> call_requires(operation, ()),
    ensures
        guarded_run(refusal, has_document, NO_DOCUMENT@, *old(counters), *final(counters), status@, operation),
{
    run_guarded(refusal, has_document, NO_DOCUMENT, counters, operation)
}

/// A form field, reduced to what hit-testing and dragging read.
#[derive(Clone, Copy, Debug, PartialEq, Eq, Structural)]
pub struct FieldItem {
    pub id: u64,
    pub page: u32,
    pub rect: Rect,
}

pub open spec fn field_page_item(field: FieldItem) -> PageItem {
    PageItem { id: field.id, page: field.page, bounds: Some(field.rect), resizable: true }
}

/// Resolves a press on a page against a document's fields: a corner handle
/// of the selected field resizes it, its body moves it, any other field
/// under the pointer (the last drawn, on top) becomes the selection, and a
/// press on bare page drops the selection.
pub fn field_press(
    fields: &[FieldItem],
    selected: Option<u64>,
    page_index: usize,
    point: Point,
    reach: i64,
) -> (outcome: PressOutcome)
    requires
        point_ok(point),
        forall|i: int| 0 <= i < fields@.len() ==> rect_ok(#[trigger] fields@[i].rect),
    ensures
        outcome == spec_press(
            fields@.map_values(|f: FieldItem| field_page_item(f)),
            selected,
            page_index as int,
            point,
            reach as int,
        ),
{
    let mut items: Vec<PageItem> = Vec::new();
    let mut i: usize = 0;
    while i < fields.len()
        invariant
            i <= fields@.len(),
            items@.len() == i,
            forall|j: int| 0 <= j < i ==> #[trigger] items@[j] == field_page_item(fields@[j]),
            forall|j: int| 0 <= j < fields@.len() ==> rect_ok(#[trigger] fields@[j].rect),
        decreases fields@.len() - i,
    {
        let field = fields[i];
        items.push(PageItem { id: field.id, page: field.page, bounds: Some(field.rect), resizable: true });
        i = i + 1;
    }
    assert(items@ =~= fields@.map_values(|f: FieldItem| field_page_item(f)));
    press_on_page(&items, selected, page_index, point, reach)
}

/// A field being moved or resized.
#[derive(Clone, Copy, Debug, PartialEq, Eq, Structural)]
pub struct FieldDrag {
    pub id: u64,
    pub mode: DragMode,
    pub origin: Point,
    pub current: Point,
}

/// A recorded move or resize of a field: the box it had and the box it gets.
#[derive(Clone, Copy, Debug, PartialEq, Eq, Structural)]
pub struct FieldEdit {
    pub id: u64,
    pub mode: DragMode,
    pub from: Rect,
    pub to: Rect,
}

/// The first field carrying `id`.
pub open spec fn field_with_id(fields: Seq<FieldItem>, id: u64) -> Option<int>
    decreases fields.len(),
{
    if fields.len() == 0 {
        None
    } else {
        match field_with_id(fields.drop_last(), id) {
            Some(i) => Some(i),
            None => if fields.last().id == id {
                Some(fields.len() - 1)
            } else {
                None
            },
        }
    }
}

proof fn field_with_id_bounds(fields: Seq<FieldItem>, id: u64)
    ensures
        field_with_id(fields, id) matches Some(i) ==> 0 <= i < fields.len() && fields[i].id == id,
    decreases fields.len(),
{
    if fields.len() > 0 {
        field_with_id_bounds(fields.drop_last(), id);
    }
}

proof fn lemma_field_with_id_prefix(fields: Seq<FieldItem>, id: u64, n: int)
    requires
        0 <= n <= fields.len(),
        field_with_id(fields.take(n), id) is Some,
    ensures
        field_with_id(fields, id) == field_with_id(fields.take(n), id),
    decreases fields.len() - n,
{
    if n < fields.len() {
        assert(fields.take(n + 1).drop_last() =~= fields.take(n));
        lemma_field_with_id_prefix(fields, id, n + 1);
    } else {
        assert(fields.take(n) =~= fields);
    }
}

/// What a finished field drag records: its box before and after, or the
/// refusal when the field is gone.
pub open spec fn spec_field_drag_edit(fields: Seq<FieldItem>, drag: FieldDrag) -> Result<FieldEdit, &'static str> {
    match field_with_id(fields, drag.id) {
        Some(i) => Ok(
            FieldEdit {
                id: drag.id,
                mode: drag.mode,
                from: fields[i].rect,
                to: spec_dragged(fields[i].rect, drag.mode, drag.origin, drag.current),
            },
        ),
        None => Err(FIELD_GONE),
    }
}

/// The edit a finished field drag records.
pub fn field_drag_edit(fields: &[FieldItem], drag: &FieldDrag) -> (edit: Result<FieldEdit, &'static str>)
    requires
        point_ok(drag.origin),
        point_ok(drag.current),
        forall|i: int| 0 <= i < fields@.len() ==> rect_ok(#[trigger] fields@[i].rect),
    ensures
        edit == spec_field_drag_edit(fields@, *drag),
{
    let mut i: usize = 0;
    while i < fields.len()
        invariant
            i <= fields@.len(),
            field_with_id(fields@.take(i as int), drag.id) is None,
            forall|j: int| 0 <= j < fields@.len() ==> rect_ok(#[trigger] fields@[j].rect),
            point_ok(drag.origin),
            point_ok(drag.current),
        decreases fields@.len() - i,
    {
        assert(fields@.take(i + 1).drop_last() =~= fields@.take(i as int));
        assert(fields@.take(i + 1).last() == fields@[i as int]);
        if fields[i].id == drag.id {
            proof {
                lemma_field_with_id_prefix(fields@, drag.id, i + 1);
            }
            let before = fields[i].rect;
            return Ok(
                FieldEdit {
                    id: drag.id,
                    mode: drag.mode,
                    from: before,
                    to: dragged_rect(before, drag.mode, drag.origin, drag.current),
                },
            );
        }
        i = i + 1;
    }
    assert(fields@.take(i as int) =~= fields@);
    Err(FIELD_GONE)
}

/// The status line once a field drag is recorded.
pub fn field_drag_message(mode: DragMode) -> (message: &'static str)
    ensures
        message@ == (match mode {
            DragMode::Move => "Field moved. Changes are pending save."@,
            DragMode::Resize(_) => "Field resized. Changes are pending save."@,
        }),
{
    match mode {
        DragMode::Move => "Field moved. Changes are pending save.",
        DragMode::Resize(_) => "Field resized. Changes are pending save.",
    }
}

/// The status line once a placed field is recorded.
pub fn field_added_message(kind: FieldKind) -> (message: String)
    ensures
        message@ == field_label(kind) + " added. Changes are pending save."@,
{
    join(kind.label(), " added. Changes are pending save.")
}

/// Which form-editing modes are armed.
#[derive(Clone, Copy, Debug, PartialEq, Eq, Structural)]
pub struct FormModes {
    pub form_edit_mode: bool,
    /// The field kind waiting to be placed.
    pub field_kind: Option<FieldKind>,
}

/// A field kind is only ever armed while form editing is.
pub open spec fn form_modes_ok(modes: FormModes) -> bool {
    modes.field_kind is Some ==> modes.form_edit_mode
}

pub open spec fn spec_set_form_mode(modes: FormModes, active: bool) -> FormModes {
    if modes.form_edit_mode == active {
        modes
    } else if active {
        FormModes { form_edit_mode: true, ..modes }
    } else {
        FormModes { form_edit_mode: false, field_kind: None }
    }
}

pub open spec fn spec_set_field_kind(modes: FormModes, kind: Option<FieldKind>) -> FormModes {
    if modes.field_kind == kind {
        modes
    } else if kind is Some {
        FormModes { form_edit_mode: true, field_kind: kind }
    } else {
        FormModes { field_kind: None, ..modes }
    }
}

pub const FORMS_ARMED: &'static str =
    "Edit forms armed — pick a field type to place, or click an existing field to select it.";

pub const FORMS_DISARMED: &'static str = "Edit forms disarmed.";

pub const FORMS_SELECT_ONLY: &'static str =
    "Edit forms armed — click an existing field to select it.";

/// Arms or disarms form editing. Returns `None` when nothing changed,
/// otherwise the status line. Arming it disarms annotation placement and
/// content editing; disarming it drops the armed kind, any placement or
/// drag, and the field selection.
pub fn set_form_mode(modes: &mut FormModes, active: bool) -> (message: Option<&'static str>)
    ensures
        *final(modes) == spec_set_form_mode(*old(modes), active),
        message == (if old(modes).form_edit_mode == active {
            None
        } else if active {
            Some(FORMS_ARMED)
        } else {
            Some(FORMS_DISARMED)
        }),
{
    if modes.form_edit_mode == active {
        return None;
    }
    modes.form_edit_mode = active;
    if active {
        Some(FORMS_ARMED)
    } else {
        modes.field_kind = None;
        Some(FORMS_DISARMED)
    }
}

/// Arms a field kind (or none); arming one arms form editing too. Returns
/// `None` when nothing changed, otherwise whether form editing had to be
/// armed for it.
pub fn set_field_kind(modes: &mut FormModes, kind: Option<FieldKind>) -> (armed_forms: Option<bool>)
    ensures
        *final(modes) == spec_set_field_kind(*old(modes), kind),
        armed_forms == (if old(modes).field_kind == kind {
            None
        } else {
            Some(kind is Some && !old(modes).form_edit_mode)
        }),
{
    if modes.field_kind == kind {
        return None;
    }
    modes.field_kind = kind;
    if kind.is_some() {
        let was_off = !modes.form_edit_mode;
        modes.form_edit_mode = true;
        return Some(was_off);
    }
    Some(false)
}

/// A field-kind button toggled: pressing it arms its kind; releasing it
/// disarms only if its kind is the armed one (a button released because
/// another took over changes nothing).
pub fn field_kind_toggled(modes: &mut FormModes, kind: FieldKind, active: bool) -> (armed_forms: Option<bool>)
    ensures
        active ==> *final(modes) == spec_set_field_kind(*old(modes), Some(kind)),
        !active && old(modes).field_kind == Some(kind) ==> *final(modes) == spec_set_field_kind(
            *old(modes),
            None,
        ),
        !active && old(modes).field_kind != Some(kind) ==> *final(modes) == *old(modes)
            && armed_forms is None,
{
    if active {
        return set_field_kind(modes, Some(kind));
    }
    if modes.field_kind == Some(kind) {
        return set_field_kind(modes, None);
    }
    None
}

/// Said once a field's style change is recorded.
pub const FIELD_RESTYLED: &'static str = "Field restyled. Changes are pending save.";

/// Said once a field's value is recorded.
pub const FIELD_VALUE_SET: &'static str = "Field value set. Changes are pending save.";

/// The status line once a field kind (or none) is armed.
pub fn field_kind_message(kind: Option<FieldKind>) -> (message: String)
    ensures
        message@ == (match kind {
            Some(k) => field_label(k) + " armed — drag on the page to place it."@,
            None => FORMS_SELECT_ONLY@,
        }),
{
    match kind {
        Some(k) => join(k.label(), " armed — drag on the page to place it."),
        None => FORMS_SELECT_ONLY.to_owned(),
    }
}

/// Whatever is toggled, a field kind is only ever armed while form editing
/// is.
pub proof fn an_armed_field_kind_keeps_form_editing_armed(
    modes: FormModes,
    active: bool,
    kind: Option<FieldKind>,
)
    requires
        form_modes_ok(modes),
    ensures
        form_modes_ok(spec_set_form_mode(modes, active)),
        form_modes_ok(spec_set_field_kind(modes, kind)),
{
}

/// Which form controls are live: placing and the mode button while both
/// annotation and content editing are allowed, the style controls only with
/// a selected field as well.
#[derive(Clone, Copy, Debug, PartialEq, Eq, Structural)]
pub struct FormControls {
    pub mode: bool,
    pub place: bool,
    pub style: bool,
}

pub fn form_controls(
    annotation_allowed: bool,
    content_allowed: bool,
    has_selected_style: bool,
) -> (controls: FormControls)
    ensures
        controls.mode == (annotation_allowed && content_allowed),
        controls.place == (annotation_allowed && content_allowed),
        controls.style == (annotation_allowed && content_allowed && has_selected_style),
{
    let enabled = annotation_allowed && content_allowed;
    FormControls { mode: enabled, place: enabled, style: enabled && has_selected_style }
}

/// A field's text style: font, size in milli-points, and colour.
#[derive(Clone, Copy, Debug, PartialEq, Eq, Structural)]
pub struct FieldStyle {
    pub font: FontFamily,
    pub size: i64,
    pub color: Color,
}

/// Said when the colour dialog closes on a field whose style changed
/// underneath it.
pub const COLOR_NO_LONGER_CURRENT: &'static str = "Color selection is no longer current.";

/// What a colour chosen for the selected field records: nothing when the
/// field is gone (refused) or its style changed since the dialog opened
/// (`Ok(None)`, said with [`COLOR_NO_LONGER_CURRENT`]); otherwise the style
/// it had and the style with the new colour.
pub fn color_choice_restyle(current: Option<FieldStyle>, before: FieldStyle, color: Color) -> (restyle: Result<
    Option<(FieldStyle, FieldStyle)>,
    &'static str,
>)
    ensures
        restyle == (match current {
            None => Err::<Option<(FieldStyle, FieldStyle)>, &'static str>(FIELD_GONE),
            Some(style) => if style == before {
                Ok(Some((before, FieldStyle { color, ..before })))
            } else {
                Ok(None)
            },
        }),
{
    match current {
        None => Err(FIELD_GONE),
        Some(style) => if style == before {
            Ok(Some((before, FieldStyle { color, ..before })))
        } else {
            Ok(None)
        },
    }
}

} // verus!
