use vstd::prelude::*;

verus! {

/// Where the redirect of the controller-state query stands.
#[derive(Clone, Copy, Debug, PartialEq, Eq, Structural)]
pub enum HookPhase {
    /// No redirect has been prepared.
    Uninstalled,
    /// The redirect is prepared but calls reach the original function.
    Installed,
    /// Calls are diverted to the replacement.
    Enabled,
}

/// Why a hook operation was refused.
#[derive(Clone, Copy, Debug, PartialEq, Eq, Structural)]
pub enum HookError {
    /// The target address is null.
    NullAddress,
    /// A redirect is already prepared.
    AlreadyInstalled,
    /// `enable` was asked for before `install`.
    NotInstalled,
    /// The redirect is already enabled.
    AlreadyEnabled,
}

/// The single redirect of a process: its phase and the address it diverts.
pub struct HookState {
    phase: HookPhase,
    target: u64,
}

impl HookState {
    /// The phase of the redirect.
    pub closed spec fn phase_of(&self) -> HookPhase {
        self.phase
    }

    /// The diverted address; 0 before `install`.
    pub closed spec fn target_of(&self) -> u64 {
        self.target
    }

    /// A prepared redirect has a target, and only a prepared one has.
    pub open spec fn well_formed(&self) -> bool {
        (self.phase_of() == HookPhase::Uninstalled) == (self.target_of() == 0)
    }

    /// A state with no redirect prepared.
    pub fn new() -> (r: HookState)
        ensures
            r.phase_of() == HookPhase::Uninstalled,
            r.target_of() == 0,
            r.well_formed(),
    {
        HookState { phase: HookPhase::Uninstalled, target: 0 }
    }

    /// Prepares the redirect of `address`, without diverting calls yet.
    pub fn install(&mut self, address: u64) -> (r: Result<(), HookError>)
        requires
            old(self).well_formed(),
        ensures
            final(self).well_formed(),
            old(self).phase_of() != HookPhase::Uninstalled ==> r == Err::<(), HookError>(
                HookError::AlreadyInstalled,
            ),
            old(self).phase_of() == HookPhase::Uninstalled && address == 0 ==> r == Err::<
                (),
                HookError,
            >(HookError::NullAddress),
            old(self).phase_of() == HookPhase::Uninstalled && address != 0 ==> r is Ok,
            r is Ok ==> final(self).phase_of() == HookPhase::Installed && final(self).target_of()
                == address,
            r is Err ==> final(self).phase_of() == old(self).phase_of() && final(self).target_of()
                == old(self).target_of(),
    {
        if self.phase != HookPhase::Uninstalled {
            return Err(HookError::AlreadyInstalled);
        }
        if address == 0 {
            return Err(HookError::NullAddress);
        }
        self.phase = HookPhase::Installed;
        self.target = address;
        Ok(())
    }

    /// Starts diverting calls; refused before `install` and while enabled.
    pub fn enable(&mut self) -> (r: Result<(), HookError>)
        requires
            old(self).well_formed(),
        ensures
            final(self).well_formed(),
            final(self).target_of() == old(self).target_of(),
            old(self).phase_of() == HookPhase::Installed ==> r is Ok && final(self).phase_of()
                == HookPhase::Enabled,
            old(self).phase_of() == HookPhase::Uninstalled ==> r == Err::<(), HookError>(
                HookError::NotInstalled,
            ) && final(self).phase_of() == HookPhase::Uninstalled,
            old(self).phase_of() == HookPhase::Enabled ==> r == Err::<(), HookError>(
                HookError::AlreadyEnabled,
            ) && final(self).phase_of() == HookPhase::Enabled,
    {
        match self.phase {
            HookPhase::Installed => {
                self.phase = HookPhase::Enabled;
                Ok(())
            },
            HookPhase::Uninstalled => Err(HookError::NotInstalled),
            HookPhase::Enabled => Err(HookError::AlreadyEnabled),
        }
    }

    /// Stops diverting calls. Returns whether the redirect was enabled; where
    /// it was not, nothing changes.
    pub fn disable(&mut self) -> (r: bool)
        requires
            old(self).well_formed(),
        ensures
            final(self).well_formed(),
            final(self).target_of() == old(self).target_of(),
            r == (old(self).phase_of() == HookPhase::Enabled),
            r ==> final(self).phase_of() == HookPhase::Installed,
            !r ==> final(self).phase_of() == old(self).phase_of(),
    {
        if self.phase == HookPhase::Enabled {
            self.phase = HookPhase::Installed;
            true
        } else {
            false
        }
    }

    /// Whether calls are diverted.
    pub fn is_enabled(&self) -> (r: bool)
        ensures
            r == (self.phase_of() == HookPhase::Enabled),
    {
        self.phase == HookPhase::Enabled
    }

    /// The diverted address, once a redirect is prepared.
    pub fn target(&self) -> (r: Option<u64>)
        ensures
            self.phase_of() == HookPhase::Uninstalled ==> r is None,
            self.phase_of() != HookPhase::Uninstalled ==> r == Some(self.target_of()),
    {
        if self.phase == HookPhase::Uninstalled {
            None
        } else {
            Some(self.target)
        }
    }
}

/// Where the interception module stands in the life of its host process.
#[derive(Clone, Copy, Debug, PartialEq, Eq, Structural)]
pub enum LifecyclePhase {
    Unattached,
    Attaching,
    Active,
    Detaching,
    Detached,
}

/// What the host process or the outside work reports.
#[derive(Clone, Copy, Debug, PartialEq, Eq, Structural)]
pub enum LifecycleEvent {
    /// The module was loaded into the process.
    ProcessAttach,
    /// The resolver finished, with the query's address if it found one.
    Resolved(Option<u64>),
    /// Installing and enabling the redirect finished, successfully or not.
    HookReady(bool),
    /// The module is being unloaded from the process.
    ProcessDetach,
    /// Disabling the redirect finished.
    HookReleased,
}

/// The outside work to do next.
#[derive(Clone, Copy, Debug, PartialEq, Eq, Structural)]
pub enum LifecycleAction {
    /// Look for the controller-state query.
    Resolve,
    /// Install and enable the redirect of this address.
    InstallHook(u64),
    /// Disable the redirect.
    DisableHook,
    /// Nothing.
    Nothing,
}

/// The phase and action that follow `event` in `phase`. A failed
/// resolution or installation leaves the module inert; a detach while not
/// active changes nothing; events that do not fit the phase are ignored.
pub open spec fn lifecycle_next(phase: LifecyclePhase, event: LifecycleEvent) -> (
    LifecyclePhase,
    LifecycleAction,
) {
    match (phase, event) {
        (LifecyclePhase::Unattached, LifecycleEvent::ProcessAttach) => (
            LifecyclePhase::Attaching,
            LifecycleAction::Resolve,
        ),
        (LifecyclePhase::Attaching, LifecycleEvent::Resolved(Some(a))) => (
            LifecyclePhase::Attaching,
            LifecycleAction::InstallHook(a),
        ),
        (LifecyclePhase::Attaching, LifecycleEvent::Resolved(None)) => (
            LifecyclePhase::Detached,
            LifecycleAction::Nothing,
        ),
        (LifecyclePhase::Attaching, LifecycleEvent::HookReady(true)) => (
            LifecyclePhase::Active,
            LifecycleAction::Nothing,
        ),
        (LifecyclePhase::Attaching, LifecycleEvent::HookReady(false)) => (
            LifecyclePhase::Detached,
            LifecycleAction::Nothing,
        ),
        (LifecyclePhase::Active, LifecycleEvent::ProcessDetach) => (
            LifecyclePhase::Detaching,
            LifecycleAction::DisableHook,
        ),
        (LifecyclePhase::Detaching, LifecycleEvent::HookReleased) => (
            LifecyclePhase::Detached,
            LifecycleAction::Nothing,
        ),
        _ => (phase, LifecycleAction::Nothing),
    }
}

/// Decides what follows `event` in `phase`.
pub fn lifecycle_step(phase: LifecyclePhase, event: LifecycleEvent) -> (r: (
    LifecyclePhase,
    LifecycleAction,
))
    ensures
        r == lifecycle_next(phase, event),
{
    match (phase, event) {
        (LifecyclePhase::Unattached, LifecycleEvent::ProcessAttach) => (
            LifecyclePhase::Attaching,
            LifecycleAction::Resolve,
        ),
        (LifecyclePhase::Attaching, LifecycleEvent::Resolved(Some(a))) => (
            LifecyclePhase::Attaching,
            LifecycleAction::InstallHook(a),
        ),
        (LifecyclePhase::Attaching, LifecycleEvent::Resolved(None)) => (
            LifecyclePhase::Detached,
            LifecycleAction::Nothing,
        ),
        (LifecyclePhase::Attaching, LifecycleEvent::HookReady(ok)) => if ok {
            (LifecyclePhase::Active, LifecycleAction::Nothing)
        } else {
            (LifecyclePhase::Detached, LifecycleAction::Nothing)
        },
        (LifecyclePhase::Active, LifecycleEvent::ProcessDetach) => (
            LifecyclePhase::Detaching,
            LifecycleAction::DisableHook,
        ),
        (LifecyclePhase::Detaching, LifecycleEvent::HookReleased) => (
            LifecyclePhase::Detached,
            LifecycleAction::Nothing,
        ),
        _ => (phase, LifecycleAction::Nothing),
    }
}

/// A detach while the module is not active changes nothing and asks for
/// nothing.
pub proof fn lemma_detach_when_inactive_is_noop(phase: LifecyclePhase)
    requires
        phase != LifecyclePhase::Active,
    ensures
        lifecycle_next(phase, LifecycleEvent::ProcessDetach) == (phase, LifecycleAction::Nothing),
{
}

} // verus!
