use vstd::prelude::*;

verus! {

/// Failures while locating a process or listing its modules.
#[derive(Debug, Clone, PartialEq, Eq)]
pub enum ProcessError {
    /// The process-identifier snapshot could not be taken (OS error code).
    ProcessEnumeration(u32),
    /// The module-handle list of a process could not be taken (handle, OS error code).
    ModuleEnumeration(u32, u32),
    /// The name of a module could not be read (handle, OS error code).
    ModuleName(u32, u32),
    /// The base address and size of a module could not be read (module name, OS error code).
    ModuleInformation(String, u32),
    /// No process with this executable name could be opened.
    NotFound(String),
    /// More processes exist than one snapshot can hold (the snapshot's capacity).
    TooManyProcesses(usize),
    /// More modules are loaded than one listing can hold (handle, the listing's capacity).
    TooManyModules(u32, usize),
    /// The module listing of a process came back empty (handle).
    NoModules(u32),
}

/// Failures while reading memory of another process.
#[derive(Debug, Clone, PartialEq, Eq)]
pub enum MemoryError {
    /// The read call failed (address, OS error code, bytes transferred before it failed).
    Read(u64, u32, usize),
    /// The read transferred another count than the record's size (expected, actual).
    IncorrectSize(usize, usize),
    /// A signature's bytes were not found, or its address could not be derived.
    NotFound,
}

} // verus!
