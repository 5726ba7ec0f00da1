//! The decision logic of a PDF editor's desktop shell: the pointer maths of
//! placing, moving and resizing annotations, page images and form fields;
//! how content edits join the pending edit log; which controls are live;
//! and the rules the export dialog applies before a page is rendered.

pub mod geometry;
pub mod session;
pub mod text;
pub mod annotations;
pub mod content;
pub mod forms;
pub mod export;
pub mod document;
