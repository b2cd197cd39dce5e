//! A store of accounts, one of which is active.
//!
//! [`storage`] holds the operations on the store, [`writer`] the rules
//! by which its single writer applies and publishes them, [`files`] the steps
//! by which it is read and replaced on disk, and [`paths`] where it lies.
//! [`operation_laws`] states what each operation does, [`laws`] what the
//! operations and the writer promise together, [`file_laws`] what becomes of the
//! files, and [`report_laws`] what is reported when something fails.

pub mod clock;
pub mod error;
pub mod file_laws;
pub mod files;
pub mod laws;
pub mod model;
pub mod operation_laws;
pub mod paths;
pub mod report_laws;
pub mod storage;
pub mod types;
pub mod writer;
