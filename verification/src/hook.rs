//! Installing and removing the fall-damage hook, step by step: the library
//! decides each step from the state and the outcome of the previous one, and
//! the caller carries the steps out on the process.
use vstd::prelude::*;
use crate::error::PatchError;
use crate::fall_damage::{
    build_hook, build_stub, check_hook_site, hook_bytes, hook_site_bytes, hook_site_original, lemma_hook_layout,
    stub_bytes, HOOK_LEN, HOOK_OFFSET, STUB_ALLOCATION, STUB_LEN,
};
use crate::encoding::{branch_target, in_rel32_range, signed_le32};
use crate::fall_damage::lemma_stub_layout;
use crate::patch::{fits, lemma_read_back, lemma_write_leaves_disjoint, read_at, write_at};

verus! {

/// Where an installation or removal of the hook stands.
#[derive(PartialEq, Eq, Structural, Clone, Copy, Debug)]
pub enum HookPhase {
    /// Nothing under way.
    Idle,
    /// Installing: waiting for the executable's base address.
    AwaitBase,
    /// Installing: waiting for the bytes at the hook site `hook`.
    AwaitSite { hook: usize },
    /// Installing: the site was checked; waiting for memory for the stub.
    AwaitMemory { hook: usize },
    /// Installing: waiting for the stub to be written at `stub`.
    AwaitStubWrite { hook: usize, stub: usize },
    /// Installing: waiting for the hook to be written at `hook`.
    AwaitHookWrite { hook: usize, stub: usize },
    /// Removing: waiting for the stub's memory to be released.
    AwaitFree,
    /// Removing: waiting for the hooked instruction to be written back.
    AwaitRestore,
}

/// The state of the hook: the phase, and the start of the stub memory that
/// the library holds, if any.
#[derive(PartialEq, Eq, Structural, Clone, Copy, Debug)]
pub struct HookLifecycle {
    pub phase: HookPhase,
    pub stub: Option<usize>,
}

/// A step for the caller to carry out.
#[derive(Debug)]
pub enum HookAction {
    /// Find the executable's base address.
    QueryBase,
    /// Read `len` bytes at `addr`.
    ReadSite { addr: usize, len: usize },
    /// Allocate `size` bytes of readable, writable and executable memory and
    /// hold on to it.
    Allocate { size: usize },
    /// Write `bytes` at `addr`, the start of the memory just allocated.
    WriteStub { addr: usize, bytes: Vec<u8> },
    /// Make the code at `addr` writable, write `bytes`, and put the old
    /// protection back.
    WriteHook { addr: usize, bytes: Vec<u8> },
    /// Release the stub's memory.
    FreeStub,
    /// Write `bytes` back at `offset` from the executable's base.
    RestoreSite { offset: usize, bytes: Vec<u8> },
    /// The installation or removal is over, with this outcome.
    Finished(Result<(), String>),
}

/// The outcome of the last step.
pub enum HookEvent {
    /// The executable's base address, or why it could not be found.
    Base(Result<usize, String>),
    /// The bytes read at the hook site.
    SiteRead(Vec<u8>),
    /// The start of the allocated memory, or the allocation's error text.
    Allocated(Result<usize, String>),
    /// The stub was written.
    StubWritten,
    /// The hook was written.
    HookWritten,
    /// The stub's memory was released.
    Freed,
    /// The hooked instruction was written back, or why it could not be.
    Restored(Result<(), String>),
}

/// Whether the phases carry the stub that the state holds.
pub open spec fn lifecycle_wf(s: HookLifecycle) -> bool {
    &&& s.phase matches HookPhase::AwaitStubWrite { stub, .. } ==> s.stub == Some(stub)
    &&& s.phase matches HookPhase::AwaitHookWrite { stub, .. } ==> s.stub == Some(stub)
    &&& s.phase is AwaitFree ==> s.stub is Some
}

/// Whether `e` is an outcome of the step that state `s` waits for.
pub open spec fn accepts_spec(s: HookLifecycle, e: HookEvent) -> bool {
    match s.phase {
        HookPhase::AwaitBase => match e {
            HookEvent::Base(Ok(base)) => base + HOOK_OFFSET <= usize::MAX,
            HookEvent::Base(Err(_)) => true,
            _ => false,
        },
        HookPhase::AwaitSite { .. } => e is SiteRead,
        HookPhase::AwaitMemory { .. } => e is Allocated,
        HookPhase::AwaitStubWrite { .. } => e is StubWritten,
        HookPhase::AwaitHookWrite { .. } => e is HookWritten,
        HookPhase::AwaitFree => e is Freed,
        HookPhase::AwaitRestore => e is Restored,
        HookPhase::Idle => false,
    }
}

/// The state and step that follow outcome `e` in state `s`.
pub open spec fn step_spec(s: HookLifecycle, e: HookEvent, t: HookLifecycle, a: HookAction) -> bool {
    match s.phase {
        HookPhase::AwaitBase => match e {
            HookEvent::Base(Ok(base)) => {
                &&& t == HookLifecycle { phase: HookPhase::AwaitSite { hook: (base + HOOK_OFFSET) as usize }, stub: s.stub }
                &&& a == HookAction::ReadSite { addr: (base + HOOK_OFFSET) as usize, len: HOOK_LEN }
            },
            HookEvent::Base(Err(m)) => t == HookLifecycle { phase: HookPhase::Idle, stub: s.stub } && a
                == HookAction::Finished(Err(m)),
            _ => false,
        },
        HookPhase::AwaitSite { hook } => match e {
            HookEvent::SiteRead(found) => if found@ == hook_site_original() {
                &&& t == HookLifecycle { phase: HookPhase::AwaitMemory { hook }, stub: s.stub }
                &&& a == HookAction::Allocate { size: STUB_ALLOCATION }
            } else {
                &&& t == HookLifecycle { phase: HookPhase::Idle, stub: s.stub }
                &&& a matches HookAction::Finished(Err(m))
                &&& m@ == crate::error::error_text(PatchError::HookMismatch { found })
            },
            _ => false,
        },
        HookPhase::AwaitMemory { hook } => match e {
            HookEvent::Allocated(Ok(stub)) => {
                &&& t == HookLifecycle { phase: HookPhase::AwaitStubWrite { hook, stub }, stub: Some(stub) }
                &&& a matches HookAction::WriteStub { addr, bytes }
                &&& addr == stub
                &&& bytes@ == stub_bytes(stub as int, hook as int)
            },
            HookEvent::Allocated(Err(m)) => t == HookLifecycle { phase: HookPhase::Idle, stub: s.stub } && a
                == HookAction::Finished(Err(m)),
            _ => false,
        },
        HookPhase::AwaitStubWrite { hook, stub } => match e {
            HookEvent::StubWritten => {
                &&& t == HookLifecycle { phase: HookPhase::AwaitHookWrite { hook, stub }, stub: s.stub }
                &&& a matches HookAction::WriteHook { addr, bytes }
                &&& addr == hook
                &&& bytes@ == hook_bytes(hook as int, stub as int)
            },
            _ => false,
        },
        HookPhase::AwaitHookWrite { .. } => match e {
            HookEvent::HookWritten => t == HookLifecycle { phase: HookPhase::Idle, stub: s.stub } && a
                == HookAction::Finished(Ok(())),
            _ => false,
        },
        HookPhase::AwaitFree => match e {
            HookEvent::Freed => {
                &&& t == HookLifecycle { phase: HookPhase::AwaitRestore, stub: None }
                &&& a matches HookAction::RestoreSite { offset, bytes }
                &&& offset == HOOK_OFFSET
                &&& bytes@ == hook_site_original()
            },
            _ => false,
        },
        HookPhase::AwaitRestore => match e {
            HookEvent::Restored(r) => t == HookLifecycle { phase: HookPhase::Idle, stub: s.stub } && a
                == HookAction::Finished(r),
            _ => false,
        },
        HookPhase::Idle => false,
    }
}

/// The state and first step of a removal started in state `s`: release the
/// stub if one is held, otherwise write the hooked instruction back at once.
pub open spec fn remove_spec(s: HookLifecycle, t: HookLifecycle, a: HookAction) -> bool {
    if s.stub is Some {
        t == HookLifecycle { phase: HookPhase::AwaitFree, stub: s.stub } && a == HookAction::FreeStub
    } else {
        &&& t == HookLifecycle { phase: HookPhase::AwaitRestore, stub: None }
        &&& a matches HookAction::RestoreSite { offset, bytes }
        &&& offset == HOOK_OFFSET
        &&& bytes@ == hook_site_original()
    }
}

impl HookLifecycle {
    /// Nothing installed and nothing under way.
    pub fn new() -> (r: HookLifecycle)
        ensures
            r == (HookLifecycle { phase: HookPhase::Idle, stub: None }),
    {
        HookLifecycle { phase: HookPhase::Idle, stub: None }
    }

    /// Starts installing the hook: the first step is finding the
    /// executable's base address.
    pub fn install(&mut self) -> (a: HookAction)
        requires
            old(self).phase is Idle,
        ensures
            *final(self) == (HookLifecycle { phase: HookPhase::AwaitBase, stub: old(self).stub }),
            a == HookAction::QueryBase,
    {
        self.phase = HookPhase::AwaitBase;
        HookAction::QueryBase
    }

    /// Starts removing the hook.
    pub fn remove(&mut self) -> (a: HookAction)
        requires
            old(self).phase is Idle,
        ensures
            remove_spec(*old(self), *final(self), a),
    {
        if self.stub.is_some() {
            self.phase = HookPhase::AwaitFree;
            HookAction::FreeStub
        } else {
            self.phase = HookPhase::AwaitRestore;
            HookAction::RestoreSite { offset: HOOK_OFFSET, bytes: hook_site_bytes() }
        }
    }

    /// Whether `e` is an outcome of the step this state waits for.
    pub fn accepts(&self, e: &HookEvent) -> (r: bool)
        ensures
            r == accepts_spec(*self, *e),
    {
        match self.phase {
            HookPhase::AwaitBase => match e {
                HookEvent::Base(Ok(base)) => *base <= usize::MAX - HOOK_OFFSET,
                HookEvent::Base(Err(_)) => true,
                _ => false,
            },
            HookPhase::AwaitSite { .. } => matches!(e, HookEvent::SiteRead(_)),
            HookPhase::AwaitMemory { .. } => matches!(e, HookEvent::Allocated(_)),
            HookPhase::AwaitStubWrite { .. } => matches!(e, HookEvent::StubWritten),
            HookPhase::AwaitHookWrite { .. } => matches!(e, HookEvent::HookWritten),
            HookPhase::AwaitFree => matches!(e, HookEvent::Freed),
            HookPhase::AwaitRestore => matches!(e, HookEvent::Restored(_)),
            HookPhase::Idle => false,
        }
    }

    /// Takes the outcome of the last step and gives the next one.
    pub fn step(&mut self, e: HookEvent) -> (a: HookAction)
        requires
            accepts_spec(*old(self), e),
        ensures
            step_spec(*old(self), e, *final(self), a),
    {
        match (self.phase, e) {
            (HookPhase::AwaitBase, HookEvent::Base(Ok(base))) => {
                let hook = base + HOOK_OFFSET;
                self.phase = HookPhase::AwaitSite { hook };
                HookAction::ReadSite { addr: hook, len: HOOK_LEN }
            },
            (HookPhase::AwaitBase, HookEvent::Base(Err(m))) => {
                self.phase = HookPhase::Idle;
                HookAction::Finished(Err(m))
            },
            (HookPhase::AwaitSite { hook }, HookEvent::SiteRead(found)) => {
                match check_hook_site(found.as_slice()) {
                    Ok(()) => {
                        self.phase = HookPhase::AwaitMemory { hook };
                        HookAction::Allocate { size: STUB_ALLOCATION }
                    },
                    Err(err) => {
                        self.phase = HookPhase::Idle;
                        let m = err.message();
                        proof {
                            assert(m@ == crate::error::error_text(PatchError::HookMismatch { found }));
                        }
                        HookAction::Finished(Err(m))
                    },
                }
            },
            (HookPhase::AwaitMemory { hook }, HookEvent::Allocated(Ok(stub))) => {
                self.phase = HookPhase::AwaitStubWrite { hook, stub };
                self.stub = Some(stub);
                HookAction::WriteStub { addr: stub, bytes: build_stub(stub, hook) }
            },
            (HookPhase::AwaitMemory { .. }, HookEvent::Allocated(Err(m))) => {
                self.phase = HookPhase::Idle;
                HookAction::Finished(Err(m))
            },
            (HookPhase::AwaitStubWrite { hook, stub }, HookEvent::StubWritten) => {
                self.phase = HookPhase::AwaitHookWrite { hook, stub };
                HookAction::WriteHook { addr: hook, bytes: build_hook(hook, stub) }
            },
            (HookPhase::AwaitHookWrite { .. }, HookEvent::HookWritten) => {
                self.phase = HookPhase::Idle;
                HookAction::Finished(Ok(()))
            },
            (HookPhase::AwaitFree, HookEvent::Freed) => {
                self.phase = HookPhase::AwaitRestore;
                self.stub = None;
                HookAction::RestoreSite { offset: HOOK_OFFSET, bytes: hook_site_bytes() }
            },
            (HookPhase::AwaitRestore, HookEvent::Restored(r)) => {
                self.phase = HookPhase::Idle;
                HookAction::Finished(r)
            },
            _ => {
                proof {
                    assert(false);
                }
                HookAction::QueryBase
            },
        }
    }
}


/// Every step keeps the state's record of the stub consistent with the
/// phase.
pub proof fn lemma_step_keeps_wf(s: HookLifecycle, e: HookEvent, t: HookLifecycle, a: HookAction)
    requires
        lifecycle_wf(s),
        accepts_spec(s, e),
        step_spec(s, e, t, a),
    ensures
        lifecycle_wf(t),
{
}

/// Starting a removal keeps the state's record of the stub consistent with
/// the phase.
pub proof fn lemma_remove_keeps_wf(s: HookLifecycle, t: HookLifecycle, a: HookAction)
    requires
        remove_spec(s, t, a),
    ensures
        lifecycle_wf(t),
{
}

/// The order of the steps: memory is allocated only after the hook site
/// held the expected instruction; the stub is recorded as held before it is
/// written; the hook is written only after the stub; no step but a removal
/// releases the stub, and the hooked instruction is written back only after
/// the stub was released.
pub proof fn lemma_install_order(s: HookLifecycle, e: HookEvent, t: HookLifecycle, a: HookAction)
    requires
        accepts_spec(s, e),
        step_spec(s, e, t, a),
    ensures
        a is Allocate ==> s.phase is AwaitSite && (e matches HookEvent::SiteRead(f) && f@
            == hook_site_original()),
        a is WriteStub ==> s.phase is AwaitMemory && (a matches HookAction::WriteStub { addr, .. } && t.stub
            == Some(addr)),
        a is WriteHook ==> s.phase is AwaitStubWrite && e is StubWritten,
        !(a is FreeStub),
        a is RestoreSite ==> s.phase is AwaitFree && t.stub is None,
{
}

/// A removal releases the stub it holds once: when it is over, a second
/// removal finds no stub to release and only writes the hooked instruction
/// back.
pub proof fn lemma_second_remove_frees_nothing(
    s0: HookLifecycle,
    s1: HookLifecycle,
    a1: HookAction,
    e1: HookEvent,
    s2: HookLifecycle,
    a2: HookAction,
    e2: HookEvent,
    s3: HookLifecycle,
    a3: HookAction,
    t: HookLifecycle,
    b: HookAction,
)
    requires
        s0.phase is Idle,
        s0.stub is Some,
        remove_spec(s0, s1, a1),
        accepts_spec(s1, e1),
        step_spec(s1, e1, s2, a2),
        accepts_spec(s2, e2),
        step_spec(s2, e2, s3, a3),
        remove_spec(s3, t, b),
    ensures
        a1 is FreeStub,
        a2 is RestoreSite,
        a3 is Finished,
        s3.phase is Idle,
        s3.stub is None,
        b is RestoreSite,
{
}


/// Whether the stub at `stub` and the hook site at `hook` do not overlap.
pub open spec fn apart(stub: int, hook: int) -> bool {
    stub + STUB_LEN <= hook || hook + HOOK_LEN <= stub
}

/// Whether memory `mem` holds an installed hook at `hook` for the stub at
/// `stub`: the hook's jump at the site, and the stub's code at `stub`.
pub open spec fn hooked(mem: Seq<u8>, hook: int, stub: int) -> bool {
    &&& fits(mem, stub, STUB_LEN as int)
    &&& apart(stub, hook)
    &&& read_at(mem, hook, HOOK_LEN as int) == hook_bytes(hook, stub)
    &&& read_at(mem, stub, STUB_LEN as int) == stub_bytes(stub, hook)
}

/// The hook site of the executable loaded at `base`.
pub open spec fn site(base: int) -> int {
    base + HOOK_OFFSET
}

/// Memory after the caller carried out step `a`, for the executable loaded
/// at `base`.
pub open spec fn after_action(mem: Seq<u8>, a: HookAction, base: int) -> Seq<u8> {
    match a {
        HookAction::WriteStub { addr, bytes } => write_at(mem, addr as int, bytes@),
        HookAction::WriteHook { addr, bytes } => write_at(mem, addr as int, bytes@),
        HookAction::RestoreSite { offset, bytes } => write_at(mem, base + offset, bytes@),
        _ => mem,
    }
}

/// Whether outcome `e`, reported in state `s`, is true of memory `mem` and of
/// the executable loaded at `base`: the base is that one, the bytes read are
/// the bytes at the site, and the memory allocated for the stub lies inside
/// `mem` apart from the site.
pub open spec fn outcome_true(s: HookLifecycle, e: HookEvent, mem: Seq<u8>, base: int) -> bool {
    match e {
        HookEvent::Base(Ok(b)) => b == base,
        HookEvent::SiteRead(found) => found@ == read_at(mem, site(base), HOOK_LEN as int),
        HookEvent::Allocated(Ok(stub)) => fits(mem, stub as int, STUB_LEN as int) && apart(stub as int, site(base)),
        _ => true,
    }
}

/// What memory holds in each phase, once the step last asked for was carried
/// out: whenever the state holds a stub and nothing is under way, the hook
/// at the site jumps to that stub and the stub holds its code.
pub open spec fn memory_matches(s: HookLifecycle, mem: Seq<u8>, base: int) -> bool {
    &&& fits(mem, site(base), HOOK_LEN as int)
    &&& match s.phase {
        HookPhase::Idle | HookPhase::AwaitBase | HookPhase::AwaitFree => s.stub matches Some(stub) ==> hooked(
            mem,
            site(base),
            stub as int,
        ),
        HookPhase::AwaitSite { hook } => hook == site(base) && (s.stub matches Some(stub) ==> hooked(
            mem,
            site(base),
            stub as int,
        )),
        HookPhase::AwaitMemory { hook } => {
            &&& hook == site(base)
            &&& s.stub is None
            &&& read_at(mem, site(base), HOOK_LEN as int) == hook_site_original()
        },
        HookPhase::AwaitStubWrite { hook, stub } => {
            &&& hook == site(base)
            &&& s.stub == Some(stub)
            &&& fits(mem, stub as int, STUB_LEN as int)
            &&& apart(stub as int, site(base))
            &&& read_at(mem, stub as int, STUB_LEN as int) == stub_bytes(stub as int, site(base))
        },
        HookPhase::AwaitHookWrite { hook, stub } => {
            &&& hook == site(base)
            &&& s.stub == Some(stub)
            &&& hooked(mem, site(base), stub as int)
        },
        HookPhase::AwaitRestore => s.stub is None && read_at(mem, site(base), HOOK_LEN as int)
            == hook_site_original(),
    }
}

/// A fresh state matches any memory that holds the hook site: no stub is
/// held.
pub proof fn lemma_new_matches_memory(mem: Seq<u8>, base: int)
    requires
        fits(mem, site(base), HOOK_LEN as int),
    ensures
        memory_matches(HookLifecycle { phase: HookPhase::Idle, stub: None }, mem, base),
{
}

/// Starting an installation leaves memory as it matched the state.
pub proof fn lemma_install_keeps_memory(s: HookLifecycle, mem: Seq<u8>, base: int)
    requires
        s.phase is Idle,
        memory_matches(s, mem, base),
    ensures
        memory_matches(HookLifecycle { phase: HookPhase::AwaitBase, stub: s.stub }, mem, base),
{
}

/// Starting a removal, and carrying out its first step, keeps memory
/// matching the state.
pub proof fn lemma_remove_keeps_memory(s: HookLifecycle, t: HookLifecycle, a: HookAction, mem: Seq<u8>, base: int)
    requires
        s.phase is Idle,
        memory_matches(s, mem, base),
        remove_spec(s, t, a),
    ensures
        memory_matches(t, after_action(mem, a, base), base),
{
    if s.stub is None {
        lemma_read_back(mem, site(base), hook_site_original());
    }
}

/// Every step, taken on a true outcome and carried out, keeps memory
/// matching the state. So, across installations and removals, while a stub
/// is held and nothing is under way the hook at the site is the jump to
/// that stub and the stub holds its code.
pub proof fn lemma_step_keeps_memory(
    s: HookLifecycle,
    e: HookEvent,
    t: HookLifecycle,
    a: HookAction,
    mem: Seq<u8>,
    base: int,
)
    requires
        memory_matches(s, mem, base),
        accepts_spec(s, e),
        outcome_true(s, e, mem, base),
        step_spec(s, e, t, a),
    ensures
        memory_matches(t, after_action(mem, a, base), base),
{
    let h = site(base);
    match s.phase {
        HookPhase::AwaitSite { hook } => {
            if s.stub is Some {
                let stub = s.stub->0;
                lemma_hook_layout(h, stub as int);
                assert(hook_site_original()[0] == 0x0F);
                assert(read_at(mem, h, HOOK_LEN as int)[0] != hook_site_original()[0]);
                assert(read_at(mem, h, HOOK_LEN as int) != hook_site_original());
            }
            match e {
                HookEvent::SiteRead(found) => {
                    if found@ == hook_site_original() {
                        assert(s.stub is None);
                    }
                },
                _ => {},
            }
        },
        HookPhase::AwaitMemory { hook } => {
            match e {
                HookEvent::Allocated(Ok(stub)) => {
                    lemma_read_back(mem, stub as int, stub_bytes(stub as int, h));
                },
                _ => {},
            }
        },
        HookPhase::AwaitStubWrite { hook, stub } => {
            lemma_hook_layout(h, stub as int);
            lemma_read_back(mem, h, hook_bytes(h, stub as int));
            lemma_write_leaves_disjoint(mem, h, hook_bytes(h, stub as int), stub as int, STUB_LEN as int);
        },
        HookPhase::AwaitFree => {
            lemma_read_back(mem, h, hook_site_original());
        },
        _ => {},
    }
}

/// Where a hook is installed, the site starts with `jmp rel32`, and when the
/// stub is within rel32 reach of the site, the jump lands on the stub.
pub proof fn lemma_hooked_jumps_to_stub(mem: Seq<u8>, hook: int, stub: int)
    requires
        hooked(mem, hook, stub),
        fits(mem, hook, HOOK_LEN as int),
    ensures
        mem[hook] == crate::opcodes::JMP_REL32,
        in_rel32_range(hook + 5, stub) ==> branch_target(hook, read_at(mem, hook, HOOK_LEN as int)) == stub,
{
    lemma_hook_layout(hook, stub);
    assert(mem[hook] == read_at(mem, hook, HOOK_LEN as int)[0]);
}


/// Installing, once the base is known: the next step reads the 7 bytes at
/// `base + 0x9C83CA`.
pub proof fn lemma_install_reads_site(s: HookLifecycle, base: usize, t: HookLifecycle, a: HookAction)
    requires
        s.phase is AwaitBase,
        base + 0x9C83CA <= usize::MAX,
        step_spec(s, HookEvent::Base(Ok(base)), t, a),
    ensures
        a == (HookAction::ReadSite { addr: (base + 0x9C83CA) as usize, len: 7 }),
        t.phase == (HookPhase::AwaitSite { hook: (base + 0x9C83CA) as usize }),
        t.stub == s.stub,
{
}

/// Installing, once the site was read: if it holds
/// `movups xmm6, [rcx+0x170]` the next step allocates a page for the stub;
/// otherwise the installation fails with nothing allocated or written.
pub proof fn lemma_install_checks_site(
    s: HookLifecycle,
    hook: usize,
    found: Vec<u8>,
    t: HookLifecycle,
    a: HookAction,
)
    requires
        s.phase == (HookPhase::AwaitSite { hook }),
        step_spec(s, HookEvent::SiteRead(found), t, a),
    ensures
        found@ == seq![0x0Fu8, 0x28u8, 0xB1u8, 0x70u8, 0x01u8, 0x00u8, 0x00u8] ==> a == (HookAction::Allocate {
            size: 0x1000,
        }) && t.phase == (HookPhase::AwaitMemory { hook }),
        found@ != seq![0x0Fu8, 0x28u8, 0xB1u8, 0x70u8, 0x01u8, 0x00u8, 0x00u8] ==> (a matches HookAction::Finished(
            Err(_),
        )) && t.phase is Idle,
        t.stub == s.stub,
{
}

/// Installing, once memory was allocated at `stub`: the stub is recorded as
/// held, and the next step writes the 28-byte stub there: it loads the
/// vector (0.0, -2000.0, 0.0, 1.0) into `xmm6` and jumps back to the
/// instruction after the 7-byte hook site.
pub proof fn lemma_install_writes_stub(s: HookLifecycle, hook: usize, stub: usize, t: HookLifecycle, a: HookAction)
    requires
        s.phase == (HookPhase::AwaitMemory { hook }),
        step_spec(s, HookEvent::Allocated(Ok(stub)), t, a),
    ensures
        t.stub == Some(stub),
        t.phase == (HookPhase::AwaitStubWrite { hook, stub }),
        a matches HookAction::WriteStub { addr, bytes } && addr == stub && bytes@.len() == 28 && bytes@.subrange(0, 7)
            == seq![0x0Fu8, 0x28u8, 0x35u8, 0x05u8, 0x00u8, 0x00u8, 0x00u8] && bytes@[7] == 0xE9u8
            && bytes@.subrange(12, 28) == seq![
            0x00u8, 0x00u8, 0x00u8, 0x00u8,
            0x00u8, 0x00u8, 0xFAu8, 0xC4u8,
            0x00u8, 0x00u8, 0x00u8, 0x00u8,
            0x00u8, 0x00u8, 0x80u8, 0x3Fu8,
        ] && (-0x8000_0000 <= (hook + 7) - (stub + 12) < 0x8000_0000 ==> stub + 12 + signed_le32(
            bytes@.subrange(8, 12),
        ) == hook + 7),
{
    lemma_stub_layout(stub as int, hook as int);
}

/// Installing, once the stub was written: the next step writes at the site
/// a `jmp rel32` to the stub followed by two `nop`.
pub proof fn lemma_install_writes_hook(s: HookLifecycle, hook: usize, stub: usize, t: HookLifecycle, a: HookAction)
    requires
        s.phase == (HookPhase::AwaitStubWrite { hook, stub }),
        step_spec(s, HookEvent::StubWritten, t, a),
    ensures
        t.phase == (HookPhase::AwaitHookWrite { hook, stub }),
        t.stub == s.stub,
        a matches HookAction::WriteHook { addr, bytes } && addr == hook && bytes@.len() == 7 && bytes@[0] == 0xE9u8
            && bytes@[5] == 0x90u8 && bytes@[6] == 0x90u8 && (-0x8000_0000 <= stub - (hook + 5) < 0x8000_0000
            ==> hook + 5 + signed_le32(bytes@.subrange(1, 5)) == stub),
{
    lemma_hook_layout(hook as int, stub as int);
}

/// Installing, once the hook was written: the installation is over and
/// succeeded, whatever the addresses; the stub stays held.
pub proof fn lemma_install_succeeds(s: HookLifecycle, t: HookLifecycle, a: HookAction)
    requires
        s.phase is AwaitHookWrite,
        step_spec(s, HookEvent::HookWritten, t, a),
    ensures
        a == HookAction::Finished(Ok(())),
        t.phase is Idle,
        t.stub == s.stub,
{
}

/// Success is reported only once the hook was written, or once the hooked
/// instruction was written back.
pub proof fn lemma_success_follows_write(s: HookLifecycle, e: HookEvent, t: HookLifecycle, a: HookAction)
    requires
        accepts_spec(s, e),
        step_spec(s, e, t, a),
        a matches HookAction::Finished(Ok(_)),
    ensures
        (s.phase is AwaitHookWrite && e is HookWritten) || (s.phase is AwaitRestore && e matches HookEvent::Restored(
            Ok(_),
        )),
{
}

/// An installation whose base lookup or allocation failed ends with that
/// failure's text, and holds no new stub.
pub proof fn lemma_install_failures(s: HookLifecycle, m: String, t: HookLifecycle, a: HookAction)
    requires
        (s.phase is AwaitBase && step_spec(s, HookEvent::Base(Err(m)), t, a)) || (s.phase is AwaitMemory
            && step_spec(s, HookEvent::Allocated(Err(m)), t, a)),
    ensures
        a == HookAction::Finished(Err(m)),
        t.phase is Idle,
        t.stub == s.stub,
{
}

/// Starting a removal: a held stub is released first; when none is held,
/// the 7 original bytes are written back at offset 0x9C83CA at once.
pub proof fn lemma_remove_starts(s: HookLifecycle, t: HookLifecycle, a: HookAction)
    requires
        s.phase is Idle,
        remove_spec(s, t, a),
    ensures
        s.stub is Some ==> a == HookAction::FreeStub && t.phase is AwaitFree && t.stub == s.stub,
        s.stub is None ==> t.phase is AwaitRestore && (a matches HookAction::RestoreSite { offset, bytes } && offset
            == 0x9C83CA && bytes@ == seq![0x0Fu8, 0x28u8, 0xB1u8, 0x70u8, 0x01u8, 0x00u8, 0x00u8]),
{
}

/// Removing, once the stub was released: no stub is held any more, and the
/// 7 original bytes are written back at offset 0x9C83CA.
pub proof fn lemma_remove_restores_site(s: HookLifecycle, t: HookLifecycle, a: HookAction)
    requires
        s.phase is AwaitFree,
        step_spec(s, HookEvent::Freed, t, a),
    ensures
        t.stub is None,
        t.phase is AwaitRestore,
        a matches HookAction::RestoreSite { offset, bytes } && offset == 0x9C83CA && bytes@ == seq![
            0x0Fu8, 0x28u8, 0xB1u8, 0x70u8, 0x01u8, 0x00u8, 0x00u8,
        ],
{
}

/// Removing, once the original bytes were written back or that failed: the
/// removal is over with that outcome.
pub proof fn lemma_remove_finishes(s: HookLifecycle, r: Result<(), String>, t: HookLifecycle, a: HookAction)
    requires
        s.phase is AwaitRestore,
        step_spec(s, HookEvent::Restored(r), t, a),
    ensures
        a == HookAction::Finished(r),
        t.phase is Idle,
        t.stub == s.stub,
{
}

} // verus!
