//! Columnar storage for prototype/instance entity tables.
//!
//! A table keeps one column per registered field. Plain fields live in a
//! dense column (a `Vec`, one slot per record). Fields that are expensive to
//! duplicate live in an overlay column, which lets every spawned instance
//! read its prototype's template value until the instant the instance is
//! individually written, at which point the value is materialized for that
//! instance alone (copy-on-write).

pub mod bits;
pub mod overlay;
pub mod storage;
pub mod table;

pub use crate::overlay::IndexOutOfBounds;
pub use crate::overlay::Overlay;
pub use crate::storage::Storage;
pub use crate::table::Bar;
pub use crate::table::DecodedRecord;
pub use crate::table::Foo;
pub use crate::table::MySoA;
