//! The steps that install the `curl_easy_setopt` hook, as a state machine.
//!
//! The driver performs each action (resolving a symbol, loading or unloading the
//! library, reading its base from the process maps, installing the hook) and
//! reports what came of it as the next event.
use vstd::prelude::*;
use crate::opts::{EOS_SETOPT_OFFSET, UNREAL_SETOPT_OFFSET};

verus! {

/// Where the hooked `curl_easy_setopt` is found.
#[derive(PartialEq, Eq, Structural, Clone, Copy)]
pub enum HookTarget {
    /// In "libUE4.so", by its exported symbol.
    UnrealSymbol,
    /// In "libUnreal.so", at a fixed offset from its base.
    UnrealOffset,
    /// In "libEOSSDK.so", at a fixed offset from its base.
    Eos,
}

/// How a hook installation ended.
#[derive(PartialEq, Eq, Structural, Clone, Copy)]
pub enum HookOutcome {
    /// The hook is in place.
    Hooked,
    /// The symbol could not be resolved.
    SymbolMissing,
    /// The library could not be loaded.
    LibraryNotLoaded,
    /// The library's base address was not found in the process maps.
    BaseMissing,
    /// The hooking engine refused the hook.
    HookRejected,
}

/// What came of the last action.
#[derive(PartialEq, Eq, Structural, Clone, Copy)]
pub enum HookEvent {
    /// The installation starts.
    Begin,
    /// The symbol resolved to this address (0: not found).
    SymbolResolved(usize),
    /// The library was loaded (or not).
    LibraryOpened(bool),
    /// The library's base address (0: not found).
    BaseFound(usize),
    /// The library handle was released.
    LibraryClosed,
    /// The hooking engine's result code (0: success).
    HookInstalled(i32),
}

/// What the driver does next.
#[derive(PartialEq, Eq, Structural, Clone, Copy)]
pub enum HookAction {
    /// Resolve `curl_easy_setopt` in "libUE4.so".
    ResolveSymbol,
    /// Load the target library.
    OpenLibrary,
    /// Read the target library's base address from the process maps.
    FindBase,
    /// Release the library handle.
    CloseLibrary,
    /// Install the hook at this address.
    InstallHook(usize),
    /// Stop, with this outcome.
    Report(HookOutcome),
}

/// Where an installation stands.
#[derive(PartialEq, Eq, Structural, Clone, Copy)]
pub enum HookPhase {
    /// Not started.
    Idle,
    /// Waiting for the symbol.
    AwaitSymbol,
    /// Waiting for the library to load.
    AwaitOpen,
    /// Waiting for the base address.
    AwaitBase,
    /// Waiting for the library to be released, then installing at this address.
    AwaitCloseThenInstall(usize),
    /// Waiting for the library to be released, then reporting this outcome.
    AwaitCloseThenReport(HookOutcome),
    /// Waiting for the hooking engine.
    AwaitInstall,
    /// Finished.
    Done,
}

/// One hook installation in progress.
pub struct HookRun {
    pub target: HookTarget,
    pub phase: HookPhase,
}

/// The offset of `curl_easy_setopt` from the library base for a target.
pub open spec fn target_offset(target: HookTarget) -> usize {
    match target {
        HookTarget::Eos => EOS_SETOPT_OFFSET,
        _ => UNREAL_SETOPT_OFFSET,
    }
}

/// The events that a phase waits for.
pub open spec fn accepts(phase: HookPhase, event: HookEvent) -> bool {
    match phase {
        HookPhase::Idle => event is Begin,
        HookPhase::AwaitSymbol => event is SymbolResolved,
        HookPhase::AwaitOpen => event is LibraryOpened,
        HookPhase::AwaitBase => event is BaseFound,
        HookPhase::AwaitCloseThenInstall(_) => event is LibraryClosed,
        HookPhase::AwaitCloseThenReport(_) => event is LibraryClosed,
        HookPhase::AwaitInstall => event is HookInstalled,
        HookPhase::Done => false,
    }
}

/// The outcome for a hooking engine result code.
pub open spec fn install_outcome(code: i32) -> HookOutcome {
    if code == 0 {
        HookOutcome::Hooked
    } else {
        HookOutcome::HookRejected
    }
}

/// The transition table: the next phase and action for an event.
///
/// With the symbol: resolve it, and install there unless it is missing. With an
/// offset: load the library, read its base; a missing base releases the library
/// and fails. For "libUnreal.so" the library is released before the hook is
/// installed at base + offset; for "libEOSSDK.so" after it.
pub open spec fn spec_hook_step(target: HookTarget, phase: HookPhase, event: HookEvent) -> (
    HookPhase,
    HookAction,
) {
    match (phase, event) {
        (HookPhase::Idle, HookEvent::Begin) => if target is UnrealSymbol {
            (HookPhase::AwaitSymbol, HookAction::ResolveSymbol)
        } else {
            (HookPhase::AwaitOpen, HookAction::OpenLibrary)
        },
        (HookPhase::AwaitSymbol, HookEvent::SymbolResolved(addr)) => if addr == 0 {
            (HookPhase::Done, HookAction::Report(HookOutcome::SymbolMissing))
        } else {
            (HookPhase::AwaitInstall, HookAction::InstallHook(addr))
        },
        (HookPhase::AwaitOpen, HookEvent::LibraryOpened(ok)) => if ok {
            (HookPhase::AwaitBase, HookAction::FindBase)
        } else {
            (HookPhase::Done, HookAction::Report(HookOutcome::LibraryNotLoaded))
        },
        (HookPhase::AwaitBase, HookEvent::BaseFound(base)) => if base == 0 {
            (HookPhase::AwaitCloseThenReport(HookOutcome::BaseMissing), HookAction::CloseLibrary)
        } else if target is Eos {
            (
                HookPhase::AwaitInstall,
                HookAction::InstallHook((base + target_offset(target)) as usize),
            )
        } else {
            (
                HookPhase::AwaitCloseThenInstall((base + target_offset(target)) as usize),
                HookAction::CloseLibrary,
            )
        },
        (HookPhase::AwaitCloseThenInstall(addr), HookEvent::LibraryClosed) => (
            HookPhase::AwaitInstall,
            HookAction::InstallHook(addr),
        ),
        (HookPhase::AwaitCloseThenReport(outcome), HookEvent::LibraryClosed) => (
            HookPhase::Done,
            HookAction::Report(outcome),
        ),
        (HookPhase::AwaitInstall, HookEvent::HookInstalled(code)) => if target is Eos {
            (HookPhase::AwaitCloseThenReport(install_outcome(code)), HookAction::CloseLibrary)
        } else {
            (HookPhase::Done, HookAction::Report(install_outcome(code)))
        },
        _ => (phase, HookAction::Report(HookOutcome::HookRejected)),
    }
}

/// The phases a run for `target` can be in.
pub open spec fn reachable(target: HookTarget, phase: HookPhase) -> bool {
    match phase {
        HookPhase::AwaitSymbol => target is UnrealSymbol,
        HookPhase::AwaitOpen => !(target is UnrealSymbol),
        HookPhase::AwaitBase => !(target is UnrealSymbol),
        HookPhase::AwaitCloseThenInstall(addr) => target is UnrealOffset && addr != 0,
        HookPhase::AwaitCloseThenReport(outcome) => target is Eos || (target is UnrealOffset
            && outcome is BaseMissing),
        _ => true,
    }
}

/// The library handle is held: it was loaded and its release has not been
/// confirmed yet.
pub open spec fn library_held(target: HookTarget, phase: HookPhase) -> bool {
    match phase {
        HookPhase::AwaitBase => true,
        HookPhase::AwaitCloseThenInstall(_) => true,
        HookPhase::AwaitCloseThenReport(_) => true,
        HookPhase::AwaitInstall => target is Eos,
        _ => false,
    }
}

impl HookRun {
    /// A run that has not started, for `target`.
    pub fn new(target: HookTarget) -> (r: HookRun)
        ensures
            r.target == target,
            r.phase == HookPhase::Idle,
            reachable(r.target, r.phase),
    {
        HookRun { target, phase: HookPhase::Idle }
    }

    /// Whether the run waits for `event` now.
    pub fn accepts_event(&self, event: HookEvent) -> (b: bool)
        ensures
            b == accepts(self.phase, event),
    {
        match (self.phase, event) {
            (HookPhase::Idle, HookEvent::Begin) => true,
            (HookPhase::AwaitSymbol, HookEvent::SymbolResolved(_)) => true,
            (HookPhase::AwaitOpen, HookEvent::LibraryOpened(_)) => true,
            (HookPhase::AwaitBase, HookEvent::BaseFound(_)) => true,
            (HookPhase::AwaitCloseThenInstall(_), HookEvent::LibraryClosed) => true,
            (HookPhase::AwaitCloseThenReport(_), HookEvent::LibraryClosed) => true,
            (HookPhase::AwaitInstall, HookEvent::HookInstalled(_)) => true,
            _ => false,
        }
    }

    /// Takes the next step: moves to the next phase and says what to do.
    ///
    /// Adding the offset to a base address must not overflow.
    pub fn step(&mut self, event: HookEvent) -> (action: HookAction)
        requires
            accepts(old(self).phase, event),
            event matches HookEvent::BaseFound(base) ==> base + target_offset(old(self).target)
                <= usize::MAX,
        ensures
            final(self).target == old(self).target,
            (final(self).phase, action) == spec_hook_step(old(self).target, old(self).phase, event),
            reachable(old(self).target, old(self).phase) ==> reachable(
                final(self).target,
                final(self).phase,
            ),
    {
        let target = self.target;
        let (phase, action) = match (self.phase, event) {
            (HookPhase::Idle, HookEvent::Begin) => if target == HookTarget::UnrealSymbol {
                (HookPhase::AwaitSymbol, HookAction::ResolveSymbol)
            } else {
                (HookPhase::AwaitOpen, HookAction::OpenLibrary)
            },
            (HookPhase::AwaitSymbol, HookEvent::SymbolResolved(addr)) => if addr == 0 {
                (HookPhase::Done, HookAction::Report(HookOutcome::SymbolMissing))
            } else {
                (HookPhase::AwaitInstall, HookAction::InstallHook(addr))
            },
            (HookPhase::AwaitOpen, HookEvent::LibraryOpened(ok)) => if ok {
                (HookPhase::AwaitBase, HookAction::FindBase)
            } else {
                (HookPhase::Done, HookAction::Report(HookOutcome::LibraryNotLoaded))
            },
            (HookPhase::AwaitBase, HookEvent::BaseFound(base)) => if base == 0 {
                (
                    HookPhase::AwaitCloseThenReport(HookOutcome::BaseMissing),
                    HookAction::CloseLibrary,
                )
            } else if target == HookTarget::Eos {
                (HookPhase::AwaitInstall, HookAction::InstallHook(base + EOS_SETOPT_OFFSET))
            } else {
                (
                    HookPhase::AwaitCloseThenInstall(base + UNREAL_SETOPT_OFFSET),
                    HookAction::CloseLibrary,
                )
            },
            (HookPhase::AwaitCloseThenInstall(addr), HookEvent::LibraryClosed) => (
                HookPhase::AwaitInstall,
                HookAction::InstallHook(addr),
            ),
            (HookPhase::AwaitCloseThenReport(outcome), HookEvent::LibraryClosed) => (
                HookPhase::Done,
                HookAction::Report(outcome),
            ),
            (HookPhase::AwaitInstall, HookEvent::HookInstalled(code)) => {
                let outcome = if code == 0 {
                    HookOutcome::Hooked
                } else {
                    HookOutcome::HookRejected
                };
                if target == HookTarget::Eos {
                    (HookPhase::AwaitCloseThenReport(outcome), HookAction::CloseLibrary)
                } else {
                    (HookPhase::Done, HookAction::Report(outcome))
                }
            },
            _ => (self.phase, HookAction::Report(HookOutcome::HookRejected)),
        };
        self.phase = phase;
        action
    }
}

/// A loaded library is always released before the run reports: a step that
/// reports leaves no library held, and a held library stops being held only
/// through the event that confirms its release.
pub proof fn lemma_library_released_before_report(
    target: HookTarget,
    phase: HookPhase,
    event: HookEvent,
)
    requires
        reachable(target, phase),
        accepts(phase, event),
    ensures
        ({
            let (next, action) = spec_hook_step(target, phase, event);
            &&& action is Report ==> !library_held(target, next) && next is Done
            &&& library_held(target, phase) && !library_held(target, next) ==> event
                is LibraryClosed
            &&& !library_held(target, phase) && library_held(target, next) ==> event
                == HookEvent::LibraryOpened(true)
        }),
{
}

/// The hook goes where it should: at the resolved symbol, or at the library base
/// plus the target's offset, and never at address 0.
pub proof fn lemma_install_address(
    target: HookTarget,
    phase: HookPhase,
    event: HookEvent,
    addr: usize,
)
    requires
        reachable(target, phase),
        accepts(phase, event),
        event matches HookEvent::BaseFound(base) ==> base + target_offset(target) <= usize::MAX,
        spec_hook_step(target, phase, event).1 == HookAction::InstallHook(addr),
    ensures
        addr != 0,
        event matches HookEvent::SymbolResolved(a) ==> addr == a && target is UnrealSymbol,
        event matches HookEvent::BaseFound(b) ==> addr == b + target_offset(target)
            && target is Eos,
        phase matches HookPhase::AwaitCloseThenInstall(a) ==> addr == a && target is UnrealOffset,
{
}

/// The run reports success only when the hooking engine returned 0, for every
/// target: the outcome that follows the engine's result `code` (reported at once,
/// or after the library is released) is `Hooked` exactly when `code == 0`, and
/// `HookRejected` otherwise.
pub proof fn lemma_hooked_only_on_zero(target: HookTarget, code: i32)
    ensures
        ({
            let (next, action) = spec_hook_step(target, HookPhase::AwaitInstall, HookEvent::HookInstalled(code));
            let outcome = if action is Report {
                action->Report_0
            } else {
                spec_hook_step(target, next, HookEvent::LibraryClosed).1->Report_0
            };
            &&& action is Report || (action is CloseLibrary && next is AwaitCloseThenReport
                && spec_hook_step(target, next, HookEvent::LibraryClosed).1 is Report)
            &&& (outcome == HookOutcome::Hooked) == (code == 0)
            &&& (outcome == HookOutcome::HookRejected) == (code != 0)
        }),
{
}

/// Success is reported only after the engine returned 0: any step that reports
/// `Hooked`, or that moves to waiting to report `Hooked`, takes the event
/// `HookInstalled(0)` or comes from waiting to report `Hooked`.
pub proof fn lemma_hooked_needs_zero_code(target: HookTarget, phase: HookPhase, event: HookEvent)
    requires
        reachable(target, phase),
        accepts(phase, event),
    ensures
        ({
            let (next, action) = spec_hook_step(target, phase, event);
            (action == HookAction::Report(HookOutcome::Hooked) || next
                == HookPhase::AwaitCloseThenReport(HookOutcome::Hooked)) ==> (event
                == HookEvent::HookInstalled(0) || phase == HookPhase::AwaitCloseThenReport(
                HookOutcome::Hooked,
            ))
        }),
{
}

/// How each installation goes, step by step: by symbol it resolves the symbol
/// and installs there (a missing symbol fails); by offset it loads the library
/// (a failed load fails), reads its base (a missing base releases the library
/// and fails), and installs at the base plus the fixed offset of that library:
/// "libUnreal.so" after releasing it, "libEOSSDK.so" before.
pub proof fn lemma_installation_steps(target: HookTarget, addr: usize, base: usize)
    requires
        base != 0,
        base + UNREAL_SETOPT_OFFSET <= usize::MAX,
        base + EOS_SETOPT_OFFSET <= usize::MAX,
    ensures
        spec_hook_step(target, HookPhase::Idle, HookEvent::Begin).1 == (if target == HookTarget::UnrealSymbol {
            HookAction::ResolveSymbol
        } else {
            HookAction::OpenLibrary
        }),
        spec_hook_step(target, HookPhase::AwaitSymbol, HookEvent::SymbolResolved(0)).1
            == HookAction::Report(HookOutcome::SymbolMissing),
        addr != 0 ==> spec_hook_step(target, HookPhase::AwaitSymbol, HookEvent::SymbolResolved(addr)).1
            == HookAction::InstallHook(addr),
        spec_hook_step(target, HookPhase::AwaitOpen, HookEvent::LibraryOpened(false)).1
            == HookAction::Report(HookOutcome::LibraryNotLoaded),
        spec_hook_step(target, HookPhase::AwaitOpen, HookEvent::LibraryOpened(true)).1
            == HookAction::FindBase,
        ({
            let (p, a) = spec_hook_step(target, HookPhase::AwaitBase, HookEvent::BaseFound(0));
            &&& a == HookAction::CloseLibrary
            &&& spec_hook_step(target, p, HookEvent::LibraryClosed).1 == HookAction::Report(
                HookOutcome::BaseMissing,
            )
        }),
        target == HookTarget::Eos ==> spec_hook_step(target, HookPhase::AwaitBase, HookEvent::BaseFound(base)).1
            == HookAction::InstallHook((base + EOS_SETOPT_OFFSET) as usize),
        target == HookTarget::UnrealOffset ==> ({
            let (p, a) = spec_hook_step(target, HookPhase::AwaitBase, HookEvent::BaseFound(base));
            &&& a == HookAction::CloseLibrary
            &&& spec_hook_step(target, p, HookEvent::LibraryClosed).1 == HookAction::InstallHook(
                (base + UNREAL_SETOPT_OFFSET) as usize,
            )
        }),
{
}

} // verus!
