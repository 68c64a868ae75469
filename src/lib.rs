//! A non-owning view of an operating-system process handle, together with the
//! decisions made around it: handle identity, the buffer-sizing protocol used to
//! list a process's modules, and the normalisation and matching of module names.
//!
//! The system calls themselves are made by the caller; this library decides what
//! to ask for next and how to read what came back.

pub mod enumeration;
pub mod error;
pub mod handle;
pub mod lookup;

pub use enumeration::{
    visible_modules, EnumerationStep, ModuleEnumeration, ModuleHandle, DEFAULT_MODULE_CAPACITY, MAX_BUFFER_BYTES,
};
pub use error::OsCallError;
pub use handle::{
    DuplicateRequest, ProcessHandle, ProcessRef, TerminateRequest, CURRENT_PROCESS_PSEUDO_HANDLE, DEFAULT_EXIT_CODE,
};
pub use lookup::{eq_ignore_ascii_case, has_extension, normalize_target, LookupStep, ModuleSearch};
