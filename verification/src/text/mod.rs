//! Text as sequences of characters.
//!
//! Every contract in this crate that speaks of text speaks of `Seq<char>`, the
//! view of `str` and `String`. The modules below hold the vocabulary those
//! contracts share (character classes, searching, lines, trimming, decimal
//! numbers) together with executable counterparts that work on `Vec<char>`.

pub mod case;
pub mod classes;
pub mod convert;
pub mod lines;
pub mod number;
pub mod search;
pub mod trim;
