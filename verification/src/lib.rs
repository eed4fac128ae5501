//! A bidirectional bridge between plain text values and the interned,
//! process-wide symbols ("atoms") of a foreign runtime.
//!
//! The bridge answers two questions: given a piece of text, produce the
//! best-matching foreign term (a symbol, if one with that name already
//! exists in the runtime's symbol table); and given a foreign term,
//! recover the text it denotes. Two reserved spellings, `"Ok"` and
//! `"Err"`, are mapped to pre-registered sentinel symbols so that a
//! `Result`-shaped value can be round-tripped through a runtime that has
//! no native success/failure type. The bridge never creates a symbol:
//! the runtime's symbol table is append-only and finite, so speculative
//! creation from arbitrary incoming text would leak table capacity for
//! the life of the process.

pub mod atoms;
pub mod table;
