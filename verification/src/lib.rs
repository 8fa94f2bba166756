//! Safe conversion between units of memory.
//!
//! Three wrapper types measure an amount of memory in a single unit each:
//! [`Bytes`], machine [`Words`], and memory [`Pages`]. Mixing two units by
//! accident is a type error; converting between them is always explicit and
//! comes in two deliberately separate flavours:
//!
//! - [`ExactInto`] converts in the directions where no information can be
//!   lost (pages to bytes, words to bytes, pages to words).
//! - [`RoundUpTo`] converts in the directions where the target unit may not
//!   evenly divide the source, returning the least number of whole target
//!   units that covers the source amount.
//!
//! The arithmetic operators `+`, `-`, `*` and `/` work on any pair of units
//! where the right-hand side converts exactly into the left-hand unit; the
//! result keeps the left-hand unit. Every operation carries a contract that
//! pins down its result and rules out overflow, underflow and division by
//! zero.

mod arith;
mod convert;
mod laws;
mod units;

pub use convert::{div_round_up, round_up_to, ExactInto, RoundUpTo};
pub use laws::{
    lemma_add_converts_exactly, lemma_div_round_up_is_ceil,
    lemma_pages_round_trip, lemma_pages_to_bytes_exact, lemma_pages_to_words_is_exact,
    lemma_round_up_to_words_is_ceil,
    lemma_round_up_zero, lemma_same_unit_arithmetic, lemma_zero_rounds_up_to_zero,
};
pub use units::{
    lemma_page_size_is_whole_words, lemma_word_size_is_native, native_word_size, size_of,
    word_size, Bytes, Pages, Words, PAGE_SIZE,
};
