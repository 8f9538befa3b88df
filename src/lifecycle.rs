//! The life of one target during a run, as the progress reporter sees it.
use vstd::prelude::*;
use crate::provider::TargetMode;

verus! {

#[derive(PartialEq, Eq, Structural, Clone, Copy, Debug)]
pub enum TargetState {
    New,
    Waiting,
    Installing,
    Already,
    Uninstalling,
    ReadyInstall,
    ReadyUninstall,
    DoneInstall,
    DoneUninstall,
    FailedInstall,
    FailedUninstall,
}

/// The lifecycle events a progress reporter receives.
#[derive(PartialEq, Eq, Structural, Clone, Copy, Debug)]
pub enum ProgressEvent {
    PrepareInstall,
    AlreadyInstalled,
    StartInstall,
    ReadyInstall,
    FailedInstall,
    DoneInstall,
    StartUninstall,
    ReadyUninstall,
    FailedUninstall,
    DoneUninstall,
}

/// The transitions a target may take; any other event is out of order.
pub open spec fn transition(s: TargetState, e: ProgressEvent) -> Option<TargetState> {
    match (s, e) {
        (TargetState::New, ProgressEvent::PrepareInstall) => Some(TargetState::Waiting),
        (TargetState::Waiting, ProgressEvent::StartInstall) => Some(TargetState::Installing),
        (TargetState::Waiting, ProgressEvent::AlreadyInstalled) => Some(TargetState::Already),
        (TargetState::Waiting, ProgressEvent::StartUninstall) => Some(TargetState::Uninstalling),
        (TargetState::Installing, ProgressEvent::ReadyInstall) => Some(TargetState::ReadyInstall),
        (TargetState::Installing, ProgressEvent::FailedInstall) => Some(TargetState::FailedInstall),
        (TargetState::Uninstalling, ProgressEvent::ReadyUninstall) => Some(TargetState::ReadyUninstall),
        (TargetState::Uninstalling, ProgressEvent::FailedUninstall) => Some(TargetState::FailedUninstall),
        (TargetState::ReadyInstall, ProgressEvent::DoneInstall) => Some(TargetState::DoneInstall),
        (TargetState::ReadyUninstall, ProgressEvent::DoneUninstall) => Some(TargetState::DoneUninstall),
        _ => None,
    }
}

impl TargetState {
    pub open spec fn is_terminal(self) -> bool {
        self == TargetState::Already || self == TargetState::DoneInstall || self == TargetState::DoneUninstall
            || self == TargetState::FailedInstall || self == TargetState::FailedUninstall
    }

    pub fn step(self, e: ProgressEvent) -> (r: Option<TargetState>)
        ensures
            r == transition(self, e),
    {
        match (self, e) {
            (TargetState::New, ProgressEvent::PrepareInstall) => Some(TargetState::Waiting),
            (TargetState::Waiting, ProgressEvent::StartInstall) => Some(TargetState::Installing),
            (TargetState::Waiting, ProgressEvent::AlreadyInstalled) => Some(TargetState::Already),
            (TargetState::Waiting, ProgressEvent::StartUninstall) => Some(TargetState::Uninstalling),
            (TargetState::Installing, ProgressEvent::ReadyInstall) => Some(TargetState::ReadyInstall),
            (TargetState::Installing, ProgressEvent::FailedInstall) => Some(TargetState::FailedInstall),
            (TargetState::Uninstalling, ProgressEvent::ReadyUninstall) => Some(TargetState::ReadyUninstall),
            (TargetState::Uninstalling, ProgressEvent::FailedUninstall) => Some(TargetState::FailedUninstall),
            (TargetState::ReadyInstall, ProgressEvent::DoneInstall) => Some(TargetState::DoneInstall),
            (TargetState::ReadyUninstall, ProgressEvent::DoneUninstall) => Some(TargetState::DoneUninstall),
            _ => None,
        }
    }
}

/// The event that opens a target's work: kept tools are reported at once.
pub fn start_event(mode: TargetMode) -> (r: ProgressEvent)
    ensures
        mode == TargetMode::Install ==> r == ProgressEvent::StartInstall,
        mode == TargetMode::AlreadyInstalled ==> r == ProgressEvent::AlreadyInstalled,
        mode == TargetMode::Uninstall ==> r == ProgressEvent::StartUninstall,
{
    match mode {
        TargetMode::Install => ProgressEvent::StartInstall,
        TargetMode::AlreadyInstalled => ProgressEvent::AlreadyInstalled,
        TargetMode::Uninstall => ProgressEvent::StartUninstall,
    }
}

/// The event that reports how the provider's operation ended, if there was one.
pub fn finish_event(mode: TargetMode, succeeded: bool) -> (r: Option<ProgressEvent>)
    ensures
        mode == TargetMode::Install ==> r == Some(
            if succeeded { ProgressEvent::ReadyInstall } else { ProgressEvent::FailedInstall },
        ),
        mode == TargetMode::Uninstall ==> r == Some(
            if succeeded { ProgressEvent::ReadyUninstall } else { ProgressEvent::FailedUninstall },
        ),
        mode == TargetMode::AlreadyInstalled ==> r is None,
{
    match mode {
        TargetMode::Install => Some(if succeeded { ProgressEvent::ReadyInstall } else { ProgressEvent::FailedInstall }),
        TargetMode::Uninstall => Some(
            if succeeded { ProgressEvent::ReadyUninstall } else { ProgressEvent::FailedUninstall },
        ),
        TargetMode::AlreadyInstalled => None,
    }
}

/// The event sent once the run has committed.
pub fn commit_event(mode: TargetMode) -> (r: Option<ProgressEvent>)
    ensures
        mode == TargetMode::Install ==> r == Some(ProgressEvent::DoneInstall),
        mode == TargetMode::Uninstall ==> r == Some(ProgressEvent::DoneUninstall),
        mode == TargetMode::AlreadyInstalled ==> r is None,
{
    match mode {
        TargetMode::Install => Some(ProgressEvent::DoneInstall),
        TargetMode::Uninstall => Some(ProgressEvent::DoneUninstall),
        TargetMode::AlreadyInstalled => None,
    }
}

pub open spec fn spec_start_event(mode: TargetMode) -> ProgressEvent {
    match mode {
        TargetMode::Install => ProgressEvent::StartInstall,
        TargetMode::AlreadyInstalled => ProgressEvent::AlreadyInstalled,
        TargetMode::Uninstall => ProgressEvent::StartUninstall,
    }
}

pub open spec fn spec_finish_event(mode: TargetMode, succeeded: bool) -> Option<ProgressEvent> {
    match mode {
        TargetMode::Install => Some(if succeeded { ProgressEvent::ReadyInstall } else { ProgressEvent::FailedInstall }),
        TargetMode::Uninstall => Some(
            if succeeded { ProgressEvent::ReadyUninstall } else { ProgressEvent::FailedUninstall },
        ),
        TargetMode::AlreadyInstalled => None,
    }
}

pub open spec fn spec_commit_event(mode: TargetMode) -> Option<ProgressEvent> {
    match mode {
        TargetMode::Install => Some(ProgressEvent::DoneInstall),
        TargetMode::Uninstall => Some(ProgressEvent::DoneUninstall),
        TargetMode::AlreadyInstalled => None,
    }
}

/// The state after `e`, where `e` is present; else `s` unchanged.
pub open spec fn after(s: Option<TargetState>, e: Option<ProgressEvent>) -> Option<TargetState> {
    match (s, e) {
        (Some(s), Some(e)) => transition(s, e),
        (Some(s), None) => Some(s),
        _ => None,
    }
}

/// The events a run sends for one target (prepare, start, finish, and on
/// success the commit) always follow the transition table, and leave the
/// target in a terminal state: kept, done, or failed.
pub proof fn law_target_events_follow_table(mode: TargetMode, succeeded: bool)
    ensures
        ({
            let prepared = transition(TargetState::New, ProgressEvent::PrepareInstall);
            let started = after(prepared, Some(spec_start_event(mode)));
            let finished = after(started, spec_finish_event(mode, succeeded));
            let settled = if succeeded { after(finished, spec_commit_event(mode)) } else { finished };
            &&& settled is Some
            &&& settled->0.is_terminal()
            &&& (settled->0 == TargetState::FailedInstall || settled->0 == TargetState::FailedUninstall) <==> !succeeded
                && mode != TargetMode::AlreadyInstalled
        }),
{
}

} // verus!
