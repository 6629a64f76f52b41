//! A key-value storage behind a trait, with three implementations, and a
//! processor that runs a fixed series of operations on any of them.

pub mod processor;
pub mod storage;

pub use processor::{IProcessor, Processor};
pub use storage::{FileStorage, MemoryStorage, MockStorage, Storage};
