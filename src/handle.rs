use vstd::prelude::*;

verus! {

/// The raw value of a process handle.
pub type ProcessHandle = usize;

/// The pseudo handle that always denotes the calling process, `(HANDLE)-1`.
/// It needs no closing.
pub const CURRENT_PROCESS_PSEUDO_HANDLE: usize = usize::MAX;

/// The exit code used when a process is killed without one being given.
pub const DEFAULT_EXIT_CODE: u32 = 1;

/// A reference to a running process (the current one included) that does not
/// own its handle and never closes it.
///
/// The handle is expected to carry at least the rights to create threads, query
/// information, and operate on, write and read the process's memory. Whoever owns
/// the handle keeps it open while the reference is used.
///
/// Two references are equal exactly when their raw handle values are equal, and
/// they hash the same way. Raw value equality is an identity test only while the
/// handle has not been closed and its value reused.
#[derive(Debug, Clone, Copy, PartialEq, Eq, Structural, Hash)]
pub struct ProcessRef {
    raw: usize,
}

impl View for ProcessRef {
    type V = usize;

    closed spec fn view(&self) -> usize {
        self.raw
    }
}

/// What a call that duplicates a handle is asked to do.
#[derive(Debug, Clone, Copy, PartialEq, Eq, Structural)]
pub struct DuplicateRequest {
    /// The process that holds the handle to duplicate.
    pub source_process: usize,
    /// The handle to duplicate.
    pub source_handle: usize,
    /// The process that receives, and then owns, the new handle.
    pub target_process: usize,
    /// The access mask asked for; ignored when `same_access` is set.
    pub desired_access: u32,
    /// Whether child processes inherit the new handle.
    pub inheritable: bool,
    /// Whether the new handle gets the same access rights as the source.
    pub same_access: bool,
}

/// What a call that terminates a process is asked to do.
#[derive(Debug, Clone, Copy, PartialEq, Eq, Structural)]
pub struct TerminateRequest {
    pub process: usize,
    pub exit_code: u32,
}

impl ProcessRef {
    /// Whether this reference denotes the calling process.
    pub open spec fn is_current_spec(&self) -> bool {
        self@ == CURRENT_PROCESS_PSEUDO_HANDLE
    }

    /// Creates a reference from a raw handle value. The caller guarantees the
    /// access rights listed on the type.
    pub fn borrow_from_handle(handle: usize) -> (r: ProcessRef)
        ensures
            r@ == handle,
    {
        ProcessRef { raw: handle }
    }

    /// The pseudo handle of the current process.
    pub fn current_handle() -> (r: usize)
        ensures
            r == CURRENT_PROCESS_PSEUDO_HANDLE,
    {
        Self::raw_current_handle()
    }

    /// The raw pseudo handle of the current process.
    pub fn raw_current_handle() -> (r: ProcessHandle)
        ensures
            r == CURRENT_PROCESS_PSEUDO_HANDLE,
    {
        CURRENT_PROCESS_PSEUDO_HANDLE
    }

    /// A reference to the current process.
    pub fn current() -> (r: ProcessRef)
        ensures
            r@ == CURRENT_PROCESS_PSEUDO_HANDLE,
            r.is_current_spec(),
    {
        ProcessRef { raw: Self::current_handle() }
    }

    /// Whether this reference denotes the current process.
    pub fn is_current(&self) -> (r: bool)
        ensures
            r == self.is_current_spec(),
    {
        self.handle() == Self::raw_current_handle()
    }

    /// The raw handle value.
    pub fn handle(&self) -> (r: ProcessHandle)
        ensures
            r == self@,
    {
        self.raw
    }

    /// The duplication that promotes this reference to an owned handle: the
    /// calling process duplicates the handle into itself, with the same access
    /// rights, not inheritable.
    pub fn promote_request(&self) -> (r: DuplicateRequest)
        ensures
            r.source_process == CURRENT_PROCESS_PSEUDO_HANDLE,
            r.source_handle == self@,
            r.target_process == CURRENT_PROCESS_PSEUDO_HANDLE,
            r.desired_access == 0,
            !r.inheritable,
            r.same_access,
    {
        let current = Self::raw_current_handle();
        DuplicateRequest {
            source_process: current,
            source_handle: self.raw,
            target_process: current,
            desired_access: 0,
            inheritable: false,
            same_access: true,
        }
    }

    /// The termination of this process with the default exit code.
    pub fn kill_request(self) -> (r: TerminateRequest)
        ensures
            r.process == self@,
            r.exit_code == DEFAULT_EXIT_CODE,
    {
        self.kill_with_exit_code_request(DEFAULT_EXIT_CODE)
    }

    /// The termination of this process with the given exit code.
    pub fn kill_with_exit_code_request(self, exit_code: u32) -> (r: TerminateRequest)
        ensures
            r.process == self@,
            r.exit_code == exit_code,
    {
        TerminateRequest { process: self.raw, exit_code }
    }
}

/// Two references are equal exactly when their raw handle values are equal.
pub proof fn lemma_identity_is_raw_value(a: ProcessRef, b: ProcessRef)
    ensures
        (a == b) <==> (a@ == b@),
{
}

} // verus!
