//! Applying or restoring a byte patch step by step: the library decides
//! each step from the state and the outcome of the previous one, and the
//! caller carries the steps out on the process.
use vstd::prelude::*;
use crate::error::{error_text, PatchError};
use crate::patch::{bytes_equal, fits, read_at, write_at};

verus! {

/// Where a patch run stands.
#[derive(PartialEq, Eq, Structural, Clone, Copy, Debug)]
pub enum PatchPhase {
    /// Not started, or over.
    Idle,
    /// Waiting for the executable's base address.
    AwaitBase,
    /// Waiting for the bytes currently at `addr`.
    AwaitRead { addr: usize },
    /// Waiting for the code at `addr` to be made writable.
    AwaitWritable { addr: usize },
    /// Waiting for the new bytes to be written at `addr`.
    AwaitWrite { addr: usize },
}

/// A run that writes `replacement` at `offset` from the executable's base.
/// When `verify` holds, the bytes there must first be `original`.
pub struct PatchRun {
    pub offset: usize,
    pub original: Vec<u8>,
    pub replacement: Vec<u8>,
    pub verify: bool,
    pub phase: PatchPhase,
}

/// A step for the caller to carry out.
#[derive(Debug)]
pub enum PatchAction {
    /// Find the executable's base address.
    QueryBase,
    /// Read `len` bytes at `addr`.
    Read { addr: usize, len: usize },
    /// Make `len` bytes of code at `addr` readable, writable and executable.
    MakeWritable { addr: usize, len: usize },
    /// Write `bytes` at `addr`.
    Write { addr: usize, bytes: Vec<u8> },
    /// The run is over, with this outcome.
    Finished(Result<(), String>),
}

/// The outcome of the last step.
pub enum PatchEvent {
    /// The executable's base address, or the text of why it was not found.
    Base(Result<usize, String>),
    /// The bytes read.
    Read(Vec<u8>),
    /// The code was made writable, or the system's description of why not.
    MadeWritable(Result<(), String>),
    /// The bytes were written.
    Written,
}

/// Whether `e` is an outcome of the step that `r` waits for.
pub open spec fn patch_accepts(r: PatchRun, e: PatchEvent) -> bool {
    match r.phase {
        PatchPhase::AwaitBase => match e {
            PatchEvent::Base(Ok(base)) => base + r.offset <= usize::MAX,
            PatchEvent::Base(Err(_)) => true,
            _ => false,
        },
        PatchPhase::AwaitRead { .. } => e is Read,
        PatchPhase::AwaitWritable { .. } => e is MadeWritable,
        PatchPhase::AwaitWrite { .. } => e is Written,
        PatchPhase::Idle => false,
    }
}

/// `r` with phase `p`.
pub open spec fn in_phase(r: PatchRun, p: PatchPhase) -> PatchRun {
    PatchRun { phase: p, ..r }
}

/// The next state `t` and step `a` after outcome `e` in state `r`.
pub open spec fn patch_step_spec(r: PatchRun, e: PatchEvent, t: PatchRun, a: PatchAction) -> bool {
    match r.phase {
        PatchPhase::AwaitBase => match e {
            PatchEvent::Base(Ok(base)) => {
                let addr = (base + r.offset) as usize;
                if r.verify {
                    t == in_phase(r, PatchPhase::AwaitRead { addr }) && a == PatchAction::Read {
                        addr,
                        len: r.original@.len() as usize,
                    }
                } else {
                    t == in_phase(r, PatchPhase::AwaitWritable { addr }) && a == PatchAction::MakeWritable {
                        addr,
                        len: r.replacement@.len() as usize,
                    }
                }
            },
            PatchEvent::Base(Err(m)) => t == in_phase(r, PatchPhase::Idle) && a == PatchAction::Finished(Err(m)),
            _ => false,
        },
        PatchPhase::AwaitRead { addr } => match e {
            PatchEvent::Read(found) => if found@ == r.original@ {
                t == in_phase(r, PatchPhase::AwaitWritable { addr }) && a == PatchAction::MakeWritable {
                    addr,
                    len: r.replacement@.len() as usize,
                }
            } else {
                &&& t == in_phase(r, PatchPhase::Idle)
                &&& a matches PatchAction::Finished(Err(m))
                &&& m@ == error_text(
                    PatchError::BytesMismatch { offset: r.offset, expected: r.original, found },
                )
            },
            _ => false,
        },
        PatchPhase::AwaitWritable { addr } => match e {
            PatchEvent::MadeWritable(Ok(())) => {
                &&& t == in_phase(r, PatchPhase::AwaitWrite { addr })
                &&& a matches PatchAction::Write { addr: w, bytes }
                &&& w == addr
                &&& bytes@ == r.replacement@
            },
            PatchEvent::MadeWritable(Err(detail)) => {
                &&& t == in_phase(r, PatchPhase::Idle)
                &&& a matches PatchAction::Finished(Err(m))
                &&& m@ == error_text(
                    if r.verify {
                        PatchError::Protection { detail }
                    } else {
                        PatchError::RestoreProtection { detail }
                    },
                )
            },
            _ => false,
        },
        PatchPhase::AwaitWrite { .. } => match e {
            PatchEvent::Written => t == in_phase(r, PatchPhase::Idle) && a == PatchAction::Finished(Ok(())),
            _ => false,
        },
        PatchPhase::Idle => false,
    }
}

/// Copies a byte run.
fn copy_bytes(b: &Vec<u8>) -> (r: Vec<u8>)
    ensures
        r@ == b@,
{
    vstd::slice::slice_to_vec(b.as_slice())
}

impl PatchRun {
    /// A run that checks that `original` is at `offset` and replaces it by
    /// `patched`.
    pub fn apply(offset: usize, original: &[u8], patched: &[u8]) -> (r: PatchRun)
        ensures
            r.offset == offset,
            r.original@ == original@,
            r.replacement@ == patched@,
            r.verify,
            r.phase == PatchPhase::Idle,
    {
        PatchRun {
            offset,
            original: vstd::slice::slice_to_vec(original),
            replacement: vstd::slice::slice_to_vec(patched),
            verify: true,
            phase: PatchPhase::Idle,
        }
    }

    /// A run that writes `original` back at `offset`, whatever is there.
    pub fn restore(offset: usize, original: &[u8]) -> (r: PatchRun)
        ensures
            r.offset == offset,
            r.original@ == original@,
            r.replacement@ == original@,
            !r.verify,
            r.phase == PatchPhase::Idle,
    {
        PatchRun {
            offset,
            original: vstd::slice::slice_to_vec(original),
            replacement: vstd::slice::slice_to_vec(original),
            verify: false,
            phase: PatchPhase::Idle,
        }
    }

    /// Starts the run: the first step is finding the executable's base.
    pub fn start(&mut self) -> (a: PatchAction)
        requires
            old(self).phase is Idle,
        ensures
            *final(self) == in_phase(*old(self), PatchPhase::AwaitBase),
            a == PatchAction::QueryBase,
    {
        self.phase = PatchPhase::AwaitBase;
        PatchAction::QueryBase
    }

    /// Whether `e` is an outcome of the step this run waits for.
    pub fn accepts(&self, e: &PatchEvent) -> (b: bool)
        ensures
            b == patch_accepts(*self, *e),
    {
        match self.phase {
            PatchPhase::AwaitBase => match e {
                PatchEvent::Base(Ok(base)) => *base <= usize::MAX - self.offset,
                PatchEvent::Base(Err(_)) => true,
                _ => false,
            },
            PatchPhase::AwaitRead { .. } => matches!(e, PatchEvent::Read(_)),
            PatchPhase::AwaitWritable { .. } => matches!(e, PatchEvent::MadeWritable(_)),
            PatchPhase::AwaitWrite { .. } => matches!(e, PatchEvent::Written),
            PatchPhase::Idle => false,
        }
    }

    /// Takes the outcome of the last step and gives the next one.
    pub fn step(&mut self, e: PatchEvent) -> (a: PatchAction)
        requires
            patch_accepts(*old(self), e),
        ensures
            patch_step_spec(*old(self), e, *final(self), a),
    {
        match (self.phase, e) {
            (PatchPhase::AwaitBase, PatchEvent::Base(Ok(base))) => {
                let addr = base + self.offset;
                if self.verify {
                    self.phase = PatchPhase::AwaitRead { addr };
                    PatchAction::Read { addr, len: self.original.len() }
                } else {
                    self.phase = PatchPhase::AwaitWritable { addr };
                    PatchAction::MakeWritable { addr, len: self.replacement.len() }
                }
            },
            (PatchPhase::AwaitBase, PatchEvent::Base(Err(m))) => {
                self.phase = PatchPhase::Idle;
                PatchAction::Finished(Err(m))
            },
            (PatchPhase::AwaitRead { addr }, PatchEvent::Read(found)) => {
                if bytes_equal(found.as_slice(), self.original.as_slice()) {
                    self.phase = PatchPhase::AwaitWritable { addr };
                    PatchAction::MakeWritable { addr, len: self.replacement.len() }
                } else {
                    self.phase = PatchPhase::Idle;
                    let err = PatchError::BytesMismatch {
                        offset: self.offset,
                        expected: copy_bytes(&self.original),
                        found,
                    };
                    PatchAction::Finished(Err(err.message()))
                }
            },
            (PatchPhase::AwaitWritable { addr }, PatchEvent::MadeWritable(Ok(()))) => {
                self.phase = PatchPhase::AwaitWrite { addr };
                PatchAction::Write { addr, bytes: copy_bytes(&self.replacement) }
            },
            (PatchPhase::AwaitWritable { .. }, PatchEvent::MadeWritable(Err(detail))) => {
                self.phase = PatchPhase::Idle;
                let err = if self.verify {
                    PatchError::Protection { detail }
                } else {
                    PatchError::RestoreProtection { detail }
                };
                PatchAction::Finished(Err(err.message()))
            },
            (PatchPhase::AwaitWrite { .. }, PatchEvent::Written) => {
                self.phase = PatchPhase::Idle;
                PatchAction::Finished(Ok(()))
            },
            _ => {
                proof {
                    assert(false);
                }
                PatchAction::QueryBase
            },
        }
    }
}

/// The order of a patch run: code is made writable, in a checking run, only
/// after the bytes read matched the original, and bytes are written only
/// after the code was made writable; a failed check ends the run.
pub proof fn lemma_patch_order(r: PatchRun, e: PatchEvent, t: PatchRun, a: PatchAction)
    requires
        patch_accepts(r, e),
        patch_step_spec(r, e, t, a),
    ensures
        a is MakeWritable && r.verify ==> r.phase is AwaitRead && (e matches PatchEvent::Read(f) && f@
            == r.original@),
        a is Write ==> r.phase is AwaitWritable && e matches PatchEvent::MadeWritable(Ok(_)),
        (r.phase is AwaitRead && (e matches PatchEvent::Read(f) && f@ != r.original@)) ==> a is Finished
            && t.phase is Idle,
{
}


/// Memory after the caller carried out step `a`.
pub open spec fn after_patch_action(mem: Seq<u8>, a: PatchAction) -> Seq<u8> {
    match a {
        PatchAction::Write { addr, bytes } => write_at(mem, addr as int, bytes@),
        _ => mem,
    }
}

/// Whether outcome `e`, reported in state `r`, is true of memory `mem` and of
/// the executable loaded at `base`.
pub open spec fn patch_outcome_true(r: PatchRun, e: PatchEvent, mem: Seq<u8>, base: int) -> bool {
    match e {
        PatchEvent::Base(Ok(b)) => b == base,
        PatchEvent::Read(found) => found@ == read_at(mem, base + r.offset, r.original@.len() as int),
        _ => true,
    }
}

/// What memory holds during a run that started on memory `start`, once the
/// step last asked for was carried out: nothing is written until the code
/// was made writable and, in a checking run, the original bytes were found;
/// then exactly the replacement is written at the patch's place.
pub open spec fn run_matches(r: PatchRun, mem: Seq<u8>, base: int, start: Seq<u8>) -> bool {
    let at = base + r.offset;
    let checked = r.verify ==> read_at(start, at, r.original@.len() as int) == r.original@;
    let written = write_at(start, at, r.replacement@);
    &&& fits(start, at, r.original@.len() as int)
    &&& fits(start, at, r.replacement@.len() as int)
    &&& match r.phase {
        PatchPhase::Idle => mem == start || (mem == written && checked),
        PatchPhase::AwaitBase => mem == start,
        PatchPhase::AwaitRead { addr } => addr == at && mem == start,
        PatchPhase::AwaitWritable { addr } => addr == at && mem == start && checked,
        PatchPhase::AwaitWrite { addr } => addr == at && mem == written && checked,
    }
}

/// Starting a run changes nothing in memory.
pub proof fn lemma_start_matches(r: PatchRun, mem: Seq<u8>, base: int)
    requires
        r.phase is Idle,
        fits(mem, base + r.offset, r.original@.len() as int),
        fits(mem, base + r.offset, r.replacement@.len() as int),
    ensures
        run_matches(in_phase(r, PatchPhase::AwaitBase), mem, base, mem),
{
}

/// Every step, taken on a true outcome and carried out, keeps memory as
/// `run_matches` says. So when a run is over, memory is either untouched or
/// holds the replacement at the patch's place, and in a checking run the
/// latter only where the original bytes were there.
pub proof fn lemma_run_keeps_memory(
    r: PatchRun,
    e: PatchEvent,
    t: PatchRun,
    a: PatchAction,
    mem: Seq<u8>,
    base: int,
    start: Seq<u8>,
)
    requires
        run_matches(r, mem, base, start),
        patch_accepts(r, e),
        patch_outcome_true(r, e, mem, base),
        patch_step_spec(r, e, t, a),
    ensures
        run_matches(t, after_patch_action(mem, a), base, start),
{
}


/// Once the base is known, a run works at `base + offset`: a checking run
/// reads the original's length there; a restoring run asks to make the
/// replacement's length there writable.
pub proof fn lemma_run_targets_base_plus_offset(r: PatchRun, base: usize, t: PatchRun, a: PatchAction)
    requires
        r.phase is AwaitBase,
        base + r.offset <= usize::MAX,
        patch_step_spec(r, PatchEvent::Base(Ok(base)), t, a),
    ensures
        r.verify ==> a == (PatchAction::Read { addr: (base + r.offset) as usize, len: r.original@.len() as usize })
            && t.phase == (PatchPhase::AwaitRead { addr: (base + r.offset) as usize }),
        !r.verify ==> a == (PatchAction::MakeWritable {
            addr: (base + r.offset) as usize,
            len: r.replacement@.len() as usize,
        }) && t.phase == (PatchPhase::AwaitWritable { addr: (base + r.offset) as usize }),
        t.offset == r.offset && t.original == r.original && t.replacement == r.replacement && t.verify == r.verify,
{
}

/// In a checking run, bytes read that equal the original lead to making
/// exactly the range about to be written writable: the replacement's length
/// at the address read; other bytes end the run with a failure.
pub proof fn lemma_run_checks_then_unprotects(r: PatchRun, addr: usize, found: Vec<u8>, t: PatchRun, a: PatchAction)
    requires
        r.phase == (PatchPhase::AwaitRead { addr }),
        patch_step_spec(r, PatchEvent::Read(found), t, a),
    ensures
        found@ == r.original@ ==> a == (PatchAction::MakeWritable { addr, len: r.replacement@.len() as usize })
            && t.phase == (PatchPhase::AwaitWritable { addr }),
        found@ != r.original@ ==> (a matches PatchAction::Finished(Err(_))) && t.phase is Idle,
        t.offset == r.offset && t.original == r.original && t.replacement == r.replacement && t.verify == r.verify,
{
}

/// Once the code at `addr` was made writable, the replacement is written
/// there; if that failed, the run ends with a failure.
pub proof fn lemma_run_writes_replacement(
    r: PatchRun,
    addr: usize,
    outcome: Result<(), String>,
    t: PatchRun,
    a: PatchAction,
)
    requires
        r.phase == (PatchPhase::AwaitWritable { addr }),
        patch_step_spec(r, PatchEvent::MadeWritable(outcome), t, a),
    ensures
        outcome is Ok ==> (a matches PatchAction::Write { addr: w, bytes } && w == addr && bytes@ == r.replacement@)
            && t.phase == (PatchPhase::AwaitWrite { addr }),
        outcome is Err ==> (a matches PatchAction::Finished(Err(_))) && t.phase is Idle,
{
}

/// Once the replacement was written, the run is over and succeeded.
pub proof fn lemma_run_succeeds(r: PatchRun, t: PatchRun, a: PatchAction)
    requires
        r.phase is AwaitWrite,
        patch_step_spec(r, PatchEvent::Written, t, a),
    ensures
        a == PatchAction::Finished(Ok(())),
        t.phase is Idle,
{
}

/// Success is reported only right after the replacement was written, and a
/// run that reports success leaves memory holding the replacement at
/// `base + offset`.
pub proof fn lemma_success_means_written(
    r: PatchRun,
    e: PatchEvent,
    t: PatchRun,
    a: PatchAction,
    mem: Seq<u8>,
    base: int,
    start: Seq<u8>,
)
    requires
        run_matches(r, mem, base, start),
        patch_accepts(r, e),
        patch_outcome_true(r, e, mem, base),
        patch_step_spec(r, e, t, a),
        a matches PatchAction::Finished(Ok(_)),
    ensures
        r.phase is AwaitWrite,
        e is Written,
        after_patch_action(mem, a) == write_at(start, base + r.offset, r.replacement@),
        r.verify ==> read_at(start, base + r.offset, r.original@.len() as int) == r.original@,
{
}

} // verus!
