use souls_patch::patch::write_bytes;
use souls_patch::patch_run::{PatchAction, PatchEvent, PatchPhase, PatchRun};

/// Carries out a run on `mem`, a stand-in for the process memory with the
/// executable loaded at `base`; `writable` says whether making code writable
/// succeeds. Returns the outcome and the actions asked for.
fn simulate(mut run: PatchRun, mem: &mut Vec<u8>, base: usize, writable: bool) -> (Result<(), String>, Vec<String>) {
    let mut log = Vec::new();
    let mut action = run.start();
    loop {
        log.push(format!("{:?}", action).split(|c: char| c == ' ' || c == '(').next().unwrap().to_string());
        let event = match action {
            PatchAction::QueryBase => PatchEvent::Base(Ok(base)),
            PatchAction::Read { addr, len } => PatchEvent::Read(mem[addr..addr + len].to_vec()),
            PatchAction::MakeWritable { .. } => {
                PatchEvent::MadeWritable(if writable { Ok(()) } else { Err("Os { code: 5 }".to_string()) })
            }
            PatchAction::Write { addr, bytes } => {
                write_bytes(&mut mem[addr..], &bytes);
                PatchEvent::Written
            }
            PatchAction::Finished(outcome) => return (outcome, log),
        };
        assert!(run.accepts(&event));
        action = run.step(event);
    }
}

#[test]
fn apply_checks_then_writes() {
    let mut mem = vec![0x55, 0x8B, 0xD3, 0xC3];
    let (r, log) = simulate(PatchRun::apply(1, &[0x8B, 0xD3], &[0x33, 0xD2]), &mut mem, 0, true);
    assert_eq!(r, Ok(()));
    assert_eq!(mem, vec![0x55, 0x33, 0xD2, 0xC3]);
    assert_eq!(log, vec!["QueryBase", "Read", "MakeWritable", "Write", "Finished"]);
}

#[test]
fn apply_on_wrong_bytes_writes_nothing() {
    let mut mem = vec![0x55, 0x33, 0xD2, 0xC3];
    let (r, log) = simulate(PatchRun::apply(1, &[0x8B, 0xD3], &[0x33, 0xD2]), &mut mem, 0, true);
    assert_eq!(r, Err("Bytes didn't match in offset 0x1! Expected: [8B, D3], Founded: [33, D2]".to_string()));
    assert_eq!(mem, vec![0x55, 0x33, 0xD2, 0xC3]);
    assert_eq!(log, vec!["QueryBase", "Read", "Finished"]);
}

#[test]
fn apply_reports_protection_failure() {
    let mut mem = vec![0x8B, 0xD3];
    let (r, log) = simulate(PatchRun::apply(0, &[0x8B, 0xD3], &[0x33, 0xD2]), &mut mem, 0, false);
    assert_eq!(r, Err("Failed to change protection: Os { code: 5 }".to_string()));
    assert_eq!(mem, vec![0x8B, 0xD3]);
    assert_eq!(log, vec!["QueryBase", "Read", "MakeWritable", "Finished"]);
}

#[test]
fn restore_writes_without_reading() {
    let mut mem = vec![0, 0, 0x33, 0xD2];
    let (r, log) = simulate(PatchRun::restore(2, &[0x8B, 0xD3]), &mut mem, 0, true);
    assert_eq!(r, Ok(()));
    assert_eq!(mem, vec![0, 0, 0x8B, 0xD3]);
    assert_eq!(log, vec!["QueryBase", "MakeWritable", "Write", "Finished"]);
}

#[test]
fn restore_reports_protection_failure() {
    let mut mem = vec![0x33, 0xD2];
    let (r, _) = simulate(PatchRun::restore(0, &[0x8B, 0xD3]), &mut mem, 0, false);
    assert_eq!(r, Err("Falha ao mudar proteção: Os { code: 5 }".to_string()));
}

#[test]
fn patch_then_restore_gives_memory_back() {
    let before = vec![1, 2, 0xE8, 0x2d, 0xb9, 0xfb, 0xff, 3];
    let mut mem = before.clone();
    let orig = [0xE8, 0x2d, 0xb9, 0xfb, 0xff];
    simulate(PatchRun::apply(0, &orig, &[0x90; 5]), &mut mem, 2, true).0.unwrap();
    assert_eq!(&mem[2..7], &[0x90; 5]);
    assert!(simulate(PatchRun::apply(0, &orig, &[0x90; 5]), &mut mem, 2, true).0.is_err());
    simulate(PatchRun::restore(0, &orig), &mut mem, 2, true).0.unwrap();
    assert_eq!(mem, before);
}

#[test]
fn base_errors_end_the_run() {
    let mut run = PatchRun::apply(0x10, &[1], &[2]);
    run.start();
    assert!(!run.accepts(&PatchEvent::Base(Ok(usize::MAX))));
    assert!(!run.accepts(&PatchEvent::Written));
    let a = run.step(PatchEvent::Base(Err("Failed to get base module: x".to_string())));
    assert!(matches!(a, PatchAction::Finished(Err(ref m)) if m == "Failed to get base module: x"));
    assert_eq!(run.phase, PatchPhase::Idle);
}
