use souls_patch::fall_damage::{build_hook, build_stub, hook_site_bytes, HOOK_LEN, HOOK_OFFSET, STUB_ALLOCATION};
use souls_patch::hook::{HookAction, HookEvent, HookLifecycle, HookPhase};

fn installed(base: usize, stub: usize) -> (HookLifecycle, Vec<HookAction>) {
    let mut lc = HookLifecycle::new();
    let mut seen = vec![lc.install()];
    for e in [
        HookEvent::Base(Ok(base)),
        HookEvent::SiteRead(hook_site_bytes()),
        HookEvent::Allocated(Ok(stub)),
        HookEvent::StubWritten,
        HookEvent::HookWritten,
    ] {
        assert!(lc.accepts(&e));
        seen.push(lc.step(e));
    }
    (lc, seen)
}

#[test]
fn install_runs_in_order() {
    let base = 0x1_4000_0000usize;
    let hook = base + HOOK_OFFSET;
    let stub = 0x1_3000_0000usize;
    let (lc, seen) = installed(base, stub);
    assert!(matches!(seen[0], HookAction::QueryBase));
    match &seen[1] {
        HookAction::ReadSite { addr, len } => assert_eq!((*addr, *len), (hook, HOOK_LEN)),
        other => panic!("{:?}", other),
    }
    assert!(matches!(seen[2], HookAction::Allocate { size } if size == STUB_ALLOCATION));
    match &seen[3] {
        HookAction::WriteStub { addr, bytes } => {
            assert_eq!(*addr, stub);
            assert_eq!(bytes, &build_stub(stub, hook));
        }
        other => panic!("{:?}", other),
    }
    match &seen[4] {
        HookAction::WriteHook { addr, bytes } => {
            assert_eq!(*addr, hook);
            assert_eq!(bytes, &build_hook(hook, stub));
        }
        other => panic!("{:?}", other),
    }
    assert!(matches!(seen[5], HookAction::Finished(Ok(()))));
    assert_eq!(lc.phase, HookPhase::Idle);
    assert_eq!(lc.stub, Some(stub));
}

#[test]
fn base_failure_ends_install() {
    let mut lc = HookLifecycle::new();
    lc.install();
    let a = lc.step(HookEvent::Base(Err("Failed to get base module: x".to_string())));
    assert!(matches!(a, HookAction::Finished(Err(ref m)) if m == "Failed to get base module: x"));
    assert_eq!(lc, HookLifecycle::new());
}

#[test]
fn wrong_site_allocates_nothing() {
    let mut lc = HookLifecycle::new();
    lc.install();
    lc.step(HookEvent::Base(Ok(0x1000)));
    let a = lc.step(HookEvent::SiteRead(vec![0x90; 7]));
    match a {
        HookAction::Finished(Err(m)) => {
            assert_eq!(m, "Bytes não correspondem! Encontrado: [90, 90, 90, 90, 90, 90, 90]")
        }
        other => panic!("{:?}", other),
    }
    assert_eq!(lc.stub, None);
    assert_eq!(lc.phase, HookPhase::Idle);
}

#[test]
fn allocation_failure_ends_install() {
    let mut lc = HookLifecycle::new();
    lc.install();
    lc.step(HookEvent::Base(Ok(0x1000)));
    lc.step(HookEvent::SiteRead(hook_site_bytes()));
    let a = lc.step(HookEvent::Allocated(Err("Failed to allocate memory: e".to_string())));
    assert!(matches!(a, HookAction::Finished(Err(ref m)) if m == "Failed to allocate memory: e"));
    assert_eq!(lc.stub, None);
}

#[test]
fn remove_frees_then_restores_once() {
    let (mut lc, _) = installed(0x1000, 0x9000);
    assert!(matches!(lc.remove(), HookAction::FreeStub));
    assert!(!lc.accepts(&HookEvent::StubWritten));
    match lc.step(HookEvent::Freed) {
        HookAction::RestoreSite { offset, bytes } => {
            assert_eq!(offset, HOOK_OFFSET);
            assert_eq!(bytes, hook_site_bytes());
        }
        other => panic!("{:?}", other),
    }
    assert!(matches!(lc.step(HookEvent::Restored(Ok(()))), HookAction::Finished(Ok(()))));
    assert_eq!(lc, HookLifecycle::new());
    assert!(matches!(lc.remove(), HookAction::RestoreSite { .. }));
}

#[test]
fn restore_error_is_reported() {
    let mut lc = HookLifecycle::new();
    lc.remove();
    let a = lc.step(HookEvent::Restored(Err("Falha ao mudar proteção: e".to_string())));
    assert!(matches!(a, HookAction::Finished(Err(ref m)) if m == "Falha ao mudar proteção: e"));
}

#[test]
fn base_too_high_is_not_accepted() {
    let mut lc = HookLifecycle::new();
    lc.install();
    assert!(!lc.accepts(&HookEvent::Base(Ok(usize::MAX))));
    assert!(lc.accepts(&HookEvent::Base(Ok(usize::MAX - HOOK_OFFSET))));
    assert!(!lc.accepts(&HookEvent::Freed));
}

/// Carries out installs and removals on a stand-in for the process memory.
fn drive(lc: &mut HookLifecycle, first: HookAction, mem: &mut Vec<u8>, base: usize, stub_at: usize) -> Result<(), String> {
    let mut action = first;
    loop {
        let event = match action {
            HookAction::QueryBase => HookEvent::Base(Ok(base)),
            HookAction::ReadSite { addr, len } => HookEvent::SiteRead(mem[addr..addr + len].to_vec()),
            HookAction::Allocate { .. } => HookEvent::Allocated(Ok(stub_at)),
            HookAction::WriteStub { addr, bytes } | HookAction::WriteHook { addr, bytes } => {
                let is_stub = addr == stub_at;
                souls_patch::patch::write_bytes(&mut mem[addr..], &bytes);
                if is_stub { HookEvent::StubWritten } else { HookEvent::HookWritten }
            }
            HookAction::FreeStub => HookEvent::Freed,
            HookAction::RestoreSite { offset, bytes } => {
                souls_patch::patch::write_bytes(&mut mem[base + offset..], &bytes);
                HookEvent::Restored(Ok(()))
            }
            HookAction::Finished(r) => return r,
        };
        assert!(lc.accepts(&event));
        action = lc.step(event);
    }
}

#[test]
fn held_stub_is_where_the_hook_jumps() {
    let base = 0x100usize;
    let site = base + HOOK_OFFSET;
    let stub_at = site + 0x100;
    let mut mem = vec![0xCCu8; stub_at + 0x1000];
    mem[site..site + HOOK_LEN].copy_from_slice(&hook_site_bytes());
    let before = mem.clone();
    let mut lc = HookLifecycle::new();
    let first = lc.install();
    drive(&mut lc, first, &mut mem, base, stub_at).unwrap();
    let held = lc.stub.unwrap();
    assert_eq!(held, stub_at);
    assert_eq!(mem[site], 0xE9);
    let d = i32::from_le_bytes([mem[site + 1], mem[site + 2], mem[site + 3], mem[site + 4]]);
    assert_eq!((site + 5) as i128 + d as i128, held as i128);
    assert_eq!(&mem[held..held + 28], &build_stub(held, site)[..]);
    // Installing again finds the hook, not the instruction, and changes nothing.
    let first = lc.install();
    assert!(drive(&mut lc, first, &mut mem, base, stub_at + 0x200).is_err());
    assert_eq!(lc.stub, Some(stub_at));
    let first = lc.remove();
    drive(&mut lc, first, &mut mem, base, stub_at).unwrap();
    assert_eq!(lc.stub, None);
    assert_eq!(&mem[site..site + HOOK_LEN], &before[site..site + HOOK_LEN]);
}
