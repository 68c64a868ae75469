use vstd::prelude::*;
use vstd::arithmetic::div_mod::*;
use vstd::arithmetic::mul::*;
use crate::error::OsCallError;

verus! {

/// The raw value of a module handle: the module's base address inside the
/// process it was listed from.
pub type ModuleHandle = usize;

/// How many module handles the first attempt makes room for.
pub const DEFAULT_MODULE_CAPACITY: usize = 1024;

/// The largest byte count that the enumeration call's length parameter carries.
pub const MAX_BUFFER_BYTES: u64 = 0xFFFF_FFFF;

/// The byte size to try after a buffer of `current` bytes proved too small for
/// the `needed` bytes reported: the larger of the two and twice the old size.
pub open spec fn grown_size(current: nat, needed: nat) -> nat {
    if needed > 2 * current {
        needed
    } else {
        2 * current
    }
}

/// The number of entries of `entry_size` bytes that cover `bytes` bytes.
pub open spec fn entries_covering(bytes: nat, entry_size: nat) -> nat
    recommends
        entry_size > 0,
{
    if bytes % entry_size == 0 {
        bytes / entry_size
    } else {
        bytes / entry_size + 1
    }
}

/// What to do after one enumeration call.
#[derive(Debug, Clone, Copy, PartialEq, Eq, Structural)]
pub enum EnumerationStep {
    /// The buffer held every handle: its first `count` entries are the modules.
    Complete { count: usize },
    /// The buffer was too small: call again with the new buffer size.
    Retry,
    /// The call failed: the enumeration ends with this error.
    Failed(OsCallError),
    /// The next buffer would not fit the call's length parameter.
    TooLarge,
}

/// The buffer-sizing protocol for listing the modules of a process.
///
/// The enumeration call fills a caller-supplied buffer and reports how many bytes
/// the full list needs, as of the moment it ran. When the buffer was too small
/// the protocol grows it, to the larger of the reported size and twice the old
/// size, and asks again, until one call's report fits the buffer handed to that
/// same call. Only then are the entries read, and only as many as were reported.
pub struct ModuleEnumeration {
    entry_size: usize,
    entries: usize,
}

impl ModuleEnumeration {
    /// The size in bytes of one module handle.
    pub closed spec fn entry_size_spec(&self) -> nat {
        self.entry_size as nat
    }

    /// The number of entries the next call's buffer holds.
    pub closed spec fn entries_spec(&self) -> nat {
        self.entries as nat
    }

    /// The byte size of the next call's buffer.
    pub open spec fn bytes_spec(&self) -> nat {
        self.entries_spec() * self.entry_size_spec()
    }

    pub open spec fn wf(&self) -> bool {
        &&& self.entry_size_spec() > 0
        &&& self.entries_spec() >= 1
        &&& self.bytes_spec() <= MAX_BUFFER_BYTES
    }

    /// The entry count of the buffer that follows one of this size when a call
    /// reported `needed` bytes.
    pub open spec fn grown_entries(&self, needed: nat) -> nat {
        entries_covering(grown_size(self.bytes_spec(), needed), self.entry_size_spec())
    }

    /// The step that follows a call on this buffer that reported `reported`.
    pub open spec fn next_step(&self, reported: Result<u32, OsCallError>) -> EnumerationStep {
        match reported {
            Err(e) => EnumerationStep::Failed(e),
            Ok(needed) => if needed as nat <= self.bytes_spec() {
                EnumerationStep::Complete { count: (needed as nat / self.entry_size_spec()) as usize }
            } else if self.grown_entries(needed as nat) * self.entry_size_spec() > MAX_BUFFER_BYTES {
                EnumerationStep::TooLarge
            } else {
                EnumerationStep::Retry
            },
        }
    }

    /// Starts with room for the default number of handles of `entry_size` bytes.
    pub fn new(entry_size: usize) -> (r: ModuleEnumeration)
        requires
            entry_size > 0,
            DEFAULT_MODULE_CAPACITY * entry_size <= MAX_BUFFER_BYTES,
        ensures
            r.wf(),
            r.entry_size_spec() == entry_size,
            r.entries_spec() == DEFAULT_MODULE_CAPACITY,
    {
        ModuleEnumeration { entry_size, entries: DEFAULT_MODULE_CAPACITY }
    }

    /// The size in bytes of one module handle.
    pub fn entry_size(&self) -> (r: usize)
        ensures
            r == self.entry_size_spec(),
    {
        self.entry_size
    }

    /// The number of entries the next call's buffer must hold.
    pub fn buffer_entries(&self) -> (r: usize)
        ensures
            r == self.entries_spec(),
    {
        self.entries
    }

    /// The byte size to pass with the next call's buffer.
    pub fn buffer_bytes(&self) -> (r: u32)
        requires
            self.wf(),
        ensures
            r == self.bytes_spec(),
    {
        proof {
            lemma_mul_upper_bound(self.entries as int, self.entries as int, self.entry_size as int, self.entry_size as int);
        }
        (self.entries as u64 * self.entry_size as u64) as u32
    }

    /// Takes the outcome of one call, `Ok` with the byte count it reported or
    /// `Err` with its error, and says what to do next. On `Retry` the buffer has
    /// grown; otherwise it is unchanged. Since every retry grows the buffer and no
    /// buffer exceeds `MAX_BUFFER_BYTES`, an enumeration retries finitely often.
    pub fn step(&mut self, reported: Result<u32, OsCallError>) -> (r: EnumerationStep)
        requires
            old(self).wf(),
        ensures
            final(self).wf(),
            r == old(self).next_step(reported),
            final(self).entry_size_spec() == old(self).entry_size_spec(),
            r is Retry ==> final(self).entries_spec() == old(self).grown_entries(reported->Ok_0 as nat),
            !(r is Retry) ==> final(self).entries_spec() == old(self).entries_spec(),
            r is Retry ==> final(self).bytes_spec() > old(self).bytes_spec(),
    {
        let es: u64 = self.entry_size as u64;
        proof {
            lemma_mul_upper_bound(self.entries as int, self.entries as int, self.entry_size as int, self.entry_size as int);
            lemma_mul_inequality(1, self.entries as int, self.entry_size as int);
        }
        let bytes: u64 = self.entries as u64 * es;
        match reported {
            Err(e) => EnumerationStep::Failed(e),
            Ok(needed) => {
                let needed: u64 = needed as u64;
                if needed <= bytes {
                    EnumerationStep::Complete { count: (needed / es) as usize }
                } else {
                    let doubled: u64 = bytes * 2;
                    let target: u64 = if needed > doubled { needed } else { doubled };
                    let entries: u64 = if target % es == 0 { target / es } else { target / es + 1 };
                    proof {
                        lemma_fundamental_div_mod(target as int, es as int);
                        lemma_mod_bound(target as int, es as int);
                        lemma_mul_is_distributive_add(es as int, (target / es) as int, 1);
                        lemma_mul_is_commutative(es as int, (target / es) as int);
                        lemma_mul_is_commutative(es as int, entries as int);
                    }
                    let total: u64 = entries * es;
                    if total > MAX_BUFFER_BYTES {
                        EnumerationStep::TooLarge
                    } else {
                        proof {
                            lemma_mul_inequality(1, es as int, entries as int);
                        }
                        self.entries = entries as usize;
                        EnumerationStep::Retry
                    }
                }
            },
        }
    }
}

/// A call that fits its buffer ends the enumeration and exposes exactly the
/// entries the call reported: never more than the buffer holds, never more than
/// the reported byte count covers, and none of the whole handles it covers left
/// out.
pub proof fn lemma_exposed_count_bounds(e: ModuleEnumeration, needed: u32)
    requires
        e.wf(),
        needed as nat <= e.bytes_spec(),
    ensures
        e.next_step(Ok(needed)) is Complete,
        e.next_step(Ok(needed))->count <= e.entries_spec(),
        e.next_step(Ok(needed))->count * e.entry_size_spec() <= needed,
        needed < (e.next_step(Ok(needed))->count + 1) * e.entry_size_spec(),
{
    let es = e.entry_size_spec() as int;
    let q = needed as int / es;
    lemma_fundamental_div_mod(needed as int, es);
    lemma_mod_bound(needed as int, es);
    lemma_div_is_ordered(needed as int, e.bytes_spec() as int, es);
    lemma_div_multiples_vanish(e.entries_spec() as int, es);
    lemma_mul_is_commutative(e.entries_spec() as int, es);
    lemma_mul_is_commutative(q, es);
    lemma_mul_is_distributive_add(es, q, 1);
    lemma_mul_is_commutative(q + 1, es);
    lemma_div_pos_is_pos(needed as int, es);
    assert(q <= e.entries_spec());
}

/// When `k` modules are loaded, every buffer with room for them ends the
/// enumeration with exactly `k` handles: the first buffer and a grown one agree.
pub proof fn lemma_every_fitting_buffer_agrees(e1: ModuleEnumeration, e2: ModuleEnumeration, k: nat)
    requires
        e1.wf(),
        e2.wf(),
        e1.entry_size_spec() == e2.entry_size_spec(),
        k * e1.entry_size_spec() <= e1.bytes_spec(),
        k * e2.entry_size_spec() <= e2.bytes_spec(),
    ensures
        e1.next_step(Ok((k * e1.entry_size_spec()) as u32)) == (EnumerationStep::Complete { count: k as usize }),
        e2.next_step(Ok((k * e2.entry_size_spec()) as u32)) == (EnumerationStep::Complete { count: k as usize }),
{
    lemma_div_multiples_vanish(k as int, e1.entry_size_spec() as int);
    lemma_mul_is_commutative(k as int, e1.entry_size_spec() as int);
    assert(k * e1.entry_size_spec() <= MAX_BUFFER_BYTES);
}

/// The handles a completed enumeration exposes: the first `count` entries of the
/// buffer handed to the last call, and none of the rest.
pub fn visible_modules(buffer: Vec<ModuleHandle>, count: usize) -> (r: Vec<ModuleHandle>)
    requires
        count <= buffer.len(),
    ensures
        r@ == buffer@.subrange(0, count as int),
{
    let mut buffer = buffer;
    buffer.truncate(count);
    buffer
}

} // verus!
