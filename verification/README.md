# vitela_shell

The decision logic of a desktop PDF editor's shell, verified with Verus:
where a pointer gesture places, moves or resizes an annotation, a page
image or a form field; how a content edit joins the document's pending edit
log and what the page shows before it is saved; which controls are live;
and what the export dialog checks before a page is rendered.

Layout:

- `src/geometry.rs` — boxes, corner handles, hit-testing and drag maths, in
  whole milli-points.
- `src/annotations.rs` — the creation tools, the placement gesture, what a
  gesture builds, and operations on existing annotations.
- `src/content/` — text runs and images: the pending-log overlay, hit
  testing, fresh resource names (`model`), how edits fold into the log
  (`command`), and the editing session's decisions (`session`).
- `src/forms.rs` — form field placement, dragging, dropdown and font
  pickers, and when structural field edits are refused.
- `src/export.rs` — page selection, resolution and format for exporting
  pages as images.
- `src/document.rs` — security-derived access, document names, open
  attempts and the unsaved-changes prompt.
- `src/session.rs` — the edit counters and the refusal rules every
  recorded edit follows.
- `src/text.rs` — decimal numerals and string joins with exact contents.
- `app/` — the floating-point and file-system edge: coordinate conversion,
  colour conversion, and writing exported pages.
- `tests/` — the behaviour on concrete values.
