//! Text as sequences of characters.
//!
//! `model` says what each operation on text means; the other modules hold the operations.
pub mod compose;
pub mod decode;
pub mod laws;
pub mod model;
pub mod number;
pub mod quote;
pub mod scan;
