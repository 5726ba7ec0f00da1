//! Editing page content in place: retyping, moving, inserting and deleting
//! text runs, and moving, resizing, replacing, inserting and deleting
//! images. Every change is recorded in the document's pending edit log and
//! written out only at save time; this module decides what is recorded and
//! what the page shows meanwhile.

pub mod model;
pub mod command;
pub mod session;
