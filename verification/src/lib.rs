//! A chat bot that reports on the progress of a sprint.
//!
//! The library decides and computes; it does no input or output. `bot` reads
//! chat messages and says what to do about them, `jira` plans the request to
//! the tracker and turns its response into a report, `report` holds the
//! report's data and its text, `document` holds JSON as plain values, `date`
//! reads and writes the tracker's dates, and `measure` and `text` hold the
//! arithmetic and the text handling that the others share.

pub mod bot;
pub mod date;
pub mod document;
pub mod error;
pub mod jira;
pub mod measure;
pub mod report;
pub mod text;
