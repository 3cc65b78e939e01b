//! Character iterators that keep track of the line and column of each
//! character they hand out.
//!
//! [`Location`] is a 1-based line/column pair. [`Located`] wraps an iterator
//! of characters and exposes the location of the next character it will
//! return; [`Tagged`] pairs every returned character with its location.
mod located;
mod location;
mod tagged;

pub use located::Located;
pub use location::{
    column_after, compare_locations, lemma_carriage_return, lemma_follows_push,
    lemma_follows_unique, lemma_newlines, lemma_single_line, line_after, newline_count, Location,
};
pub use tagged::Tagged;
