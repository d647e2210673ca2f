use moonwave::hooking::{HookAction, HookEvent, HookOutcome, HookRun, HookTarget};
use moonwave::opts::{EOS_SETOPT_OFFSET, UNREAL_SETOPT_OFFSET};

fn run(target: HookTarget, events: &[HookEvent]) -> Vec<HookAction> {
    let mut r = HookRun::new(target);
    let mut out = Vec::new();
    for e in events {
        assert!(r.accepts_event(*e));
        out.push(r.step(*e));
    }
    out
}

#[test]
fn symbol_hook_installs_at_symbol() {
    let acts = run(HookTarget::UnrealSymbol, &[HookEvent::Begin, HookEvent::SymbolResolved(0x1000), HookEvent::HookInstalled(0)]);
    assert!(acts == vec![HookAction::ResolveSymbol, HookAction::InstallHook(0x1000), HookAction::Report(HookOutcome::Hooked)]);
}

#[test]
fn symbol_hook_missing_symbol() {
    let acts = run(HookTarget::UnrealSymbol, &[HookEvent::Begin, HookEvent::SymbolResolved(0)]);
    assert!(acts == vec![HookAction::ResolveSymbol, HookAction::Report(HookOutcome::SymbolMissing)]);
}

#[test]
fn offset_hook_releases_library_before_install() {
    let acts = run(
        HookTarget::UnrealOffset,
        &[HookEvent::Begin, HookEvent::LibraryOpened(true), HookEvent::BaseFound(0x7000_0000), HookEvent::LibraryClosed, HookEvent::HookInstalled(-1)],
    );
    assert!(acts == vec![
        HookAction::OpenLibrary,
        HookAction::FindBase,
        HookAction::CloseLibrary,
        HookAction::InstallHook(0x7000_0000 + UNREAL_SETOPT_OFFSET),
        HookAction::Report(HookOutcome::HookRejected),
    ]);
}

#[test]
fn eos_hook_releases_library_after_install() {
    let acts = run(
        HookTarget::Eos,
        &[HookEvent::Begin, HookEvent::LibraryOpened(true), HookEvent::BaseFound(0x5000), HookEvent::HookInstalled(0), HookEvent::LibraryClosed],
    );
    assert!(acts == vec![
        HookAction::OpenLibrary,
        HookAction::FindBase,
        HookAction::InstallHook(0x5000 + EOS_SETOPT_OFFSET),
        HookAction::CloseLibrary,
        HookAction::Report(HookOutcome::Hooked),
    ]);
}

#[test]
fn missing_library_or_base() {
    let acts = run(HookTarget::Eos, &[HookEvent::Begin, HookEvent::LibraryOpened(false)]);
    assert!(acts == vec![HookAction::OpenLibrary, HookAction::Report(HookOutcome::LibraryNotLoaded)]);
    let acts = run(HookTarget::UnrealOffset, &[HookEvent::Begin, HookEvent::LibraryOpened(true), HookEvent::BaseFound(0), HookEvent::LibraryClosed]);
    assert!(acts == vec![HookAction::OpenLibrary, HookAction::FindBase, HookAction::CloseLibrary, HookAction::Report(HookOutcome::BaseMissing)]);
}

#[test]
fn finished_run_accepts_nothing() {
    let mut r = HookRun::new(HookTarget::UnrealSymbol);
    assert!(!r.accepts_event(HookEvent::LibraryClosed));
    r.step(HookEvent::Begin);
    r.step(HookEvent::SymbolResolved(0));
    assert!(!r.accepts_event(HookEvent::Begin));
    assert!(!r.accepts_event(HookEvent::HookInstalled(0)));
}
