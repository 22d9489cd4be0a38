//! Tools for working with sequences of items: escaping and splitting.

pub use crate::auto_escape::{
    auto_escape, indicator, indicator_not_escaped, unescape, unescape_all, unescape_all_except,
    unescape_ignore,
};
pub use crate::iter_split::{split, split_impl, splitn, SplitNotEscapedString};
