//! Later takes on the sum type and the write-once cell.

pub mod singleton;
pub mod union;
