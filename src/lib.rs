//! Reading the memory of another process: locating a process by executable
//! name, listing its modules, and keeping a fixed-size record in step with
//! its bytes at a module-relative address.

mod error;
mod field;
mod memory;
mod process;
mod signature;

pub use error::{MemoryError, ProcessError};
pub use field::{lemma_field_equality, UnknownField};
pub use memory::{lemma_refresh_reproduces, read_outcome, RemoteRecord, RemoteStruct};
pub use process::{
    collect_modules, lemma_absent_target_not_found, lemma_present_target_located, module_count,
    process_count, select_process, ModuleRecord, Process, ProcessEntry, ProcessModule, MAX_MODULES,
    MAX_PROCESSES,
};
pub use signature::{Signature, SignatureType};
