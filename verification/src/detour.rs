//! State of the installed detours and of the per-thread reentrancy guard.
//!
//! One record tracks each intercepted entry point: whether a detour has been
//! written over it, whether it is enabled, and how many scoped disables the
//! current thread holds on it. While a record is inactive on a thread, calls
//! to the target address on that thread run the original code; while it is
//! active they run the interception body.

use vstd::prelude::*;

verus! {

/// Record for one intercepted entry point.
#[derive(Clone, Copy, PartialEq, Eq, Structural, Debug)]
pub struct Detour {
    /// A detour has been written at the target address.
    pub installed: bool,
    /// The detour routes calls to the interception body when not disabled.
    pub enabled: bool,
    /// Resolved address of the intercepted code.
    pub target: u64,
    /// Number of scoped disables the current thread holds.
    pub disable_depth: u32,
}

/// Errors of the installation protocol.
#[derive(Clone, Copy, PartialEq, Eq, Structural, Debug)]
pub enum InstallError {
    /// A required system symbol could not be located.
    SymbolUnresolved,
    /// A detour is already present on the symbol; a second one is refused
    /// rather than chained.
    AlreadyInstalled,
}

/// Where a call to an intercepted address runs.
#[derive(Clone, Copy, PartialEq, Eq, Structural, Debug)]
pub enum Route {
    /// The interception body receives the call.
    Interceptor,
    /// The original code runs, via the trampoline when the hop comes from
    /// the interception body itself.
    Original,
}

impl Detour {
    /// No detour present on the symbol.
    pub open spec fn spec_uninstalled() -> Detour {
        Detour { installed: false, enabled: false, target: 0, disable_depth: 0 }
    }

    /// Detour written at `target`, enabled, with no scoped disable held.
    pub open spec fn spec_armed(target: u64) -> Detour {
        Detour { installed: true, enabled: true, target, disable_depth: 0 }
    }

    /// The record intercepts calls on the current thread.
    pub open spec fn active(self) -> bool {
        self.installed && self.enabled && self.disable_depth == 0
    }

    /// This record with one more scoped disable held.
    pub open spec fn spec_disabled_once(self) -> Detour {
        Detour { disable_depth: (self.disable_depth + 1) as u32, ..self }
    }

    /// Record for a symbol that has not been patched.
    pub fn uninstalled() -> (r: Detour)
        ensures
            r == Detour::spec_uninstalled(),
    {
        Detour { installed: false, enabled: false, target: 0, disable_depth: 0 }
    }

    /// Write a detour at `target`. Fails, leaving the record as it is, when
    /// one is already present: detours are never chained on a symbol.
    pub fn install(&mut self, target: u64) -> (r: Result<(), InstallError>)
        ensures
            old(self).installed ==> r == Err::<(), InstallError>(InstallError::AlreadyInstalled)
                && *final(self) == *old(self),
            !old(self).installed ==> r == Ok::<(), InstallError>(()) && *final(self) == (Detour {
                installed: true,
                enabled: false,
                target,
                disable_depth: 0,
            }),
    {
        if self.installed {
            Err(InstallError::AlreadyInstalled)
        } else {
            *self = Detour { installed: true, enabled: false, target, disable_depth: 0 };
            Ok(())
        }
    }

    /// Let the detour take effect. Interception starts only after this.
    pub fn enable(&mut self)
        requires
            old(self).installed,
        ensures
            *final(self) == (Detour { enabled: true, ..*old(self) }),
    {
        self.enabled = true;
    }

    /// Take one scoped disable on the current thread.
    pub fn push_disable(&mut self)
        requires
            old(self).disable_depth < u32::MAX,
        ensures
            *final(self) == old(self).spec_disabled_once(),
    {
        self.disable_depth = self.disable_depth + 1;
    }

    /// Release one scoped disable on the current thread.
    pub fn pop_disable(&mut self)
        requires
            old(self).disable_depth > 0,
        ensures
            *final(self) == (Detour {
                disable_depth: (old(self).disable_depth - 1) as u32,
                ..*old(self)
            }),
    {
        self.disable_depth = self.disable_depth - 1;
    }
}

/// Where a call to the record's target address runs on the current thread.
pub fn route(d: &Detour) -> (r: Route)
    ensures
        r == (if d.active() {
            Route::Interceptor
        } else {
            Route::Original
        }),
{
    if d.installed && d.enabled && d.disable_depth == 0 {
        Route::Interceptor
    } else {
        Route::Original
    }
}

/// The two file-open detours, as seen by the current thread.
#[derive(Clone, Copy, PartialEq, Eq, Structural, Debug)]
pub struct FileHooks {
    /// Detour on the wide-string file-open entry point.
    pub wide: Detour,
    /// Detour on the narrow-string file-open entry point.
    pub narrow: Detour,
}

impl FileHooks {
    /// Both records with one more scoped disable held: the state the
    /// interception body runs in.
    pub open spec fn spec_guarded(self) -> FileHooks {
        FileHooks {
            wide: self.wide.spec_disabled_once(),
            narrow: self.narrow.spec_disabled_once(),
        }
    }

    /// Room for one more scoped disable on both records.
    pub open spec fn guard_headroom(self) -> bool {
        self.wide.disable_depth < u32::MAX && self.narrow.disable_depth < u32::MAX
    }

    /// Runtime check of `guard_headroom`, for unverified callers that must
    /// establish it before entering the handler.
    pub fn has_guard_headroom(&self) -> (r: bool)
        ensures
            r == self.guard_headroom(),
    {
        self.wide.disable_depth < u32::MAX && self.narrow.disable_depth < u32::MAX
    }

    /// Both file-open detours uninstalled.
    pub fn new() -> (r: FileHooks)
        ensures
            r == (FileHooks {
                wide: Detour::spec_uninstalled(),
                narrow: Detour::spec_uninstalled(),
            }),
    {
        FileHooks { wide: Detour::uninstalled(), narrow: Detour::uninstalled() }
    }

    /// Disable both file-open detours for the current thread, so that every
    /// open issued while the guard is held reaches the original code.
    pub fn acquire_guard(&mut self)
        requires
            old(self).guard_headroom(),
        ensures
            *final(self) == old(self).spec_guarded(),
    {
        self.wide.push_disable();
        self.narrow.push_disable();
    }

    /// Re-arm both file-open detours for the current thread.
    pub fn release_guard(&mut self)
        requires
            old(self).wide.disable_depth > 0,
            old(self).narrow.disable_depth > 0,
        ensures
            final(self).wide == (Detour {
                disable_depth: (old(self).wide.disable_depth - 1) as u32,
                ..old(self).wide
            }),
            final(self).narrow == (Detour {
                disable_depth: (old(self).narrow.disable_depth - 1) as u32,
                ..old(self).narrow
            }),
    {
        self.wide.pop_disable();
        self.narrow.pop_disable();
    }
}

/// While the interception body holds the reentrancy guard, neither file-open
/// detour is active on the thread: an open issued from inside the body (by a
/// lookup, by logging, or by the trampoline itself) runs the original code
/// instead of re-entering the body.
pub proof fn lemma_guard_blocks_reentry(h: FileHooks)
    requires
        h.guard_headroom(),
    ensures
        !h.spec_guarded().wide.active(),
        !h.spec_guarded().narrow.active(),
{
}

} // verus!
