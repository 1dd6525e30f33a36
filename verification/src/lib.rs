//! A composable text-scanning engine: a cursor over in-memory text, span
//! capture, sticky errors, character-class and literal matchers, and the
//! repetition and collection combinators built on them.

pub mod bounds;
pub mod error;
pub mod laws;
pub mod selection;
pub mod sink;
pub mod state;
pub mod text;
pub mod text_parser;
pub mod tuples;
