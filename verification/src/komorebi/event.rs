//! The kinds of events that komorebi reports.

use vstd::prelude::*;
use vstd::string::*;
use crate::text::str_eq;

verus! {

/// The kinds of events after which the state is read anew: changes of focus,
/// moves of containers and workspaces, reloads of the configuration, and what
/// happens to single windows. A notification of any other kind is left aside.
#[derive(Clone, Copy, Debug, PartialEq, Eq, Structural)]
pub enum KSocketEvent {
    FocusWorkspaceNumber,
    FocusMonitorNumber,
    FocusMonitorWorkspaceNumber,
    FocusNamedWorkspace,
    FocusWorkspaceNumbers,
    CycleFocusMonitor,
    CycleFocusWorkspace,
    ReloadConfiguration,
    ReplaceConfiguration,
    CompleteConfiguration,
    ReloadStaticConfiguration,
    MoveContainerToMonitorNumber,
    MoveContainerToMonitorWorkspaceNumber,
    MoveContainerToNamedWorkspace,
    MoveContainerToWorkspaceNumber,
    MoveWorkspaceToMonitorNumber,
    CycleMoveContainerToMonitor,
    CycleMoveContainerToWorkspace,
    CycleMoveWorkspaceToMonitor,
    CloseWorkspace,
    SendContainerToMonitorNumber,
    SendContainerToMonitorWorkspaceNumber,
    SendContainerToNamedWorkspace,
    SendContainerToWorkspaceNumber,
    CycleSendContainerToMonitor,
    CycleSendContainerToWorkspace,
    Cloak,
    Uncloak,
    Destroy,
    FocusChange,
    Hide,
    Minimize,
    Show,
    TitleUpdate,
}

/// The event behind a notification.
#[derive(Clone, Copy, Debug, PartialEq, Eq, Structural)]
pub enum KNotificationEvent {
    Socket(KSocketEvent),
}

impl KSocketEvent {
    /// The name that komorebi gives the kind of event.
    pub open spec fn spec_name(self) -> Seq<char> {
        match self {
            KSocketEvent::FocusWorkspaceNumber => "FocusWorkspaceNumber"@,
            KSocketEvent::FocusMonitorNumber => "FocusMonitorNumber"@,
            KSocketEvent::FocusMonitorWorkspaceNumber => "FocusMonitorWorkspaceNumber"@,
            KSocketEvent::FocusNamedWorkspace => "FocusNamedWorkspace"@,
            KSocketEvent::FocusWorkspaceNumbers => "FocusWorkspaceNumbers"@,
            KSocketEvent::CycleFocusMonitor => "CycleFocusMonitor"@,
            KSocketEvent::CycleFocusWorkspace => "CycleFocusWorkspace"@,
            KSocketEvent::ReloadConfiguration => "ReloadConfiguration"@,
            KSocketEvent::ReplaceConfiguration => "ReplaceConfiguration"@,
            KSocketEvent::CompleteConfiguration => "CompleteConfiguration"@,
            KSocketEvent::ReloadStaticConfiguration => "ReloadStaticConfiguration"@,
            KSocketEvent::MoveContainerToMonitorNumber => "MoveContainerToMonitorNumber"@,
            KSocketEvent::MoveContainerToMonitorWorkspaceNumber => "MoveContainerToMonitorWorkspaceNumber"@,
            KSocketEvent::MoveContainerToNamedWorkspace => "MoveContainerToNamedWorkspace"@,
            KSocketEvent::MoveContainerToWorkspaceNumber => "MoveContainerToWorkspaceNumber"@,
            KSocketEvent::MoveWorkspaceToMonitorNumber => "MoveWorkspaceToMonitorNumber"@,
            KSocketEvent::CycleMoveContainerToMonitor => "CycleMoveContainerToMonitor"@,
            KSocketEvent::CycleMoveContainerToWorkspace => "CycleMoveContainerToWorkspace"@,
            KSocketEvent::CycleMoveWorkspaceToMonitor => "CycleMoveWorkspaceToMonitor"@,
            KSocketEvent::CloseWorkspace => "CloseWorkspace"@,
            KSocketEvent::SendContainerToMonitorNumber => "SendContainerToMonitorNumber"@,
            KSocketEvent::SendContainerToMonitorWorkspaceNumber => "SendContainerToMonitorWorkspaceNumber"@,
            KSocketEvent::SendContainerToNamedWorkspace => "SendContainerToNamedWorkspace"@,
            KSocketEvent::SendContainerToWorkspaceNumber => "SendContainerToWorkspaceNumber"@,
            KSocketEvent::CycleSendContainerToMonitor => "CycleSendContainerToMonitor"@,
            KSocketEvent::CycleSendContainerToWorkspace => "CycleSendContainerToWorkspace"@,
            KSocketEvent::Cloak => "Cloak"@,
            KSocketEvent::Uncloak => "Uncloak"@,
            KSocketEvent::Destroy => "Destroy"@,
            KSocketEvent::FocusChange => "FocusChange"@,
            KSocketEvent::Hide => "Hide"@,
            KSocketEvent::Minimize => "Minimize"@,
            KSocketEvent::Show => "Show"@,
            KSocketEvent::TitleUpdate => "TitleUpdate"@,
        }
    }

    /// The kind of event that komorebi calls `name`, if it is one of those
    /// listed.
    pub open spec fn of_name(name: Seq<char>) -> Option<KSocketEvent> {
        if name == "FocusWorkspaceNumber"@ {
            Some(KSocketEvent::FocusWorkspaceNumber)
        } else if name == "FocusMonitorNumber"@ {
            Some(KSocketEvent::FocusMonitorNumber)
        } else if name == "FocusMonitorWorkspaceNumber"@ {
            Some(KSocketEvent::FocusMonitorWorkspaceNumber)
        } else if name == "FocusNamedWorkspace"@ {
            Some(KSocketEvent::FocusNamedWorkspace)
        } else if name == "FocusWorkspaceNumbers"@ {
            Some(KSocketEvent::FocusWorkspaceNumbers)
        } else if name == "CycleFocusMonitor"@ {
            Some(KSocketEvent::CycleFocusMonitor)
        } else if name == "CycleFocusWorkspace"@ {
            Some(KSocketEvent::CycleFocusWorkspace)
        } else if name == "ReloadConfiguration"@ {
            Some(KSocketEvent::ReloadConfiguration)
        } else if name == "ReplaceConfiguration"@ {
            Some(KSocketEvent::ReplaceConfiguration)
        } else if name == "CompleteConfiguration"@ {
            Some(KSocketEvent::CompleteConfiguration)
        } else if name == "ReloadStaticConfiguration"@ {
            Some(KSocketEvent::ReloadStaticConfiguration)
        } else if name == "MoveContainerToMonitorNumber"@ {
            Some(KSocketEvent::MoveContainerToMonitorNumber)
        } else if name == "MoveContainerToMonitorWorkspaceNumber"@ {
            Some(KSocketEvent::MoveContainerToMonitorWorkspaceNumber)
        } else if name == "MoveContainerToNamedWorkspace"@ {
            Some(KSocketEvent::MoveContainerToNamedWorkspace)
        } else if name == "MoveContainerToWorkspaceNumber"@ {
            Some(KSocketEvent::MoveContainerToWorkspaceNumber)
        } else if name == "MoveWorkspaceToMonitorNumber"@ {
            Some(KSocketEvent::MoveWorkspaceToMonitorNumber)
        } else if name == "CycleMoveContainerToMonitor"@ {
            Some(KSocketEvent::CycleMoveContainerToMonitor)
        } else if name == "CycleMoveContainerToWorkspace"@ {
            Some(KSocketEvent::CycleMoveContainerToWorkspace)
        } else if name == "CycleMoveWorkspaceToMonitor"@ {
            Some(KSocketEvent::CycleMoveWorkspaceToMonitor)
        } else if name == "CloseWorkspace"@ {
            Some(KSocketEvent::CloseWorkspace)
        } else if name == "SendContainerToMonitorNumber"@ {
            Some(KSocketEvent::SendContainerToMonitorNumber)
        } else if name == "SendContainerToMonitorWorkspaceNumber"@ {
            Some(KSocketEvent::SendContainerToMonitorWorkspaceNumber)
        } else if name == "SendContainerToNamedWorkspace"@ {
            Some(KSocketEvent::SendContainerToNamedWorkspace)
        } else if name == "SendContainerToWorkspaceNumber"@ {
            Some(KSocketEvent::SendContainerToWorkspaceNumber)
        } else if name == "CycleSendContainerToMonitor"@ {
            Some(KSocketEvent::CycleSendContainerToMonitor)
        } else if name == "CycleSendContainerToWorkspace"@ {
            Some(KSocketEvent::CycleSendContainerToWorkspace)
        } else if name == "Cloak"@ {
            Some(KSocketEvent::Cloak)
        } else if name == "Uncloak"@ {
            Some(KSocketEvent::Uncloak)
        } else if name == "Destroy"@ {
            Some(KSocketEvent::Destroy)
        } else if name == "FocusChange"@ {
            Some(KSocketEvent::FocusChange)
        } else if name == "Hide"@ {
            Some(KSocketEvent::Hide)
        } else if name == "Minimize"@ {
            Some(KSocketEvent::Minimize)
        } else if name == "Show"@ {
            Some(KSocketEvent::Show)
        } else if name == "TitleUpdate"@ {
            Some(KSocketEvent::TitleUpdate)
        } else {
            None
        }
    }

    /// The name that komorebi gives the kind of event.
    pub fn name(&self) -> (r: &'static str)
        ensures
            r@ == self.spec_name(),
    {
        match self {
            KSocketEvent::FocusWorkspaceNumber => "FocusWorkspaceNumber",
            KSocketEvent::FocusMonitorNumber => "FocusMonitorNumber",
            KSocketEvent::FocusMonitorWorkspaceNumber => "FocusMonitorWorkspaceNumber",
            KSocketEvent::FocusNamedWorkspace => "FocusNamedWorkspace",
            KSocketEvent::FocusWorkspaceNumbers => "FocusWorkspaceNumbers",
            KSocketEvent::CycleFocusMonitor => "CycleFocusMonitor",
            KSocketEvent::CycleFocusWorkspace => "CycleFocusWorkspace",
            KSocketEvent::ReloadConfiguration => "ReloadConfiguration",
            KSocketEvent::ReplaceConfiguration => "ReplaceConfiguration",
            KSocketEvent::CompleteConfiguration => "CompleteConfiguration",
            KSocketEvent::ReloadStaticConfiguration => "ReloadStaticConfiguration",
            KSocketEvent::MoveContainerToMonitorNumber => "MoveContainerToMonitorNumber",
            KSocketEvent::MoveContainerToMonitorWorkspaceNumber => "MoveContainerToMonitorWorkspaceNumber",
            KSocketEvent::MoveContainerToNamedWorkspace => "MoveContainerToNamedWorkspace",
            KSocketEvent::MoveContainerToWorkspaceNumber => "MoveContainerToWorkspaceNumber",
            KSocketEvent::MoveWorkspaceToMonitorNumber => "MoveWorkspaceToMonitorNumber",
            KSocketEvent::CycleMoveContainerToMonitor => "CycleMoveContainerToMonitor",
            KSocketEvent::CycleMoveContainerToWorkspace => "CycleMoveContainerToWorkspace",
            KSocketEvent::CycleMoveWorkspaceToMonitor => "CycleMoveWorkspaceToMonitor",
            KSocketEvent::CloseWorkspace => "CloseWorkspace",
            KSocketEvent::SendContainerToMonitorNumber => "SendContainerToMonitorNumber",
            KSocketEvent::SendContainerToMonitorWorkspaceNumber => "SendContainerToMonitorWorkspaceNumber",
            KSocketEvent::SendContainerToNamedWorkspace => "SendContainerToNamedWorkspace",
            KSocketEvent::SendContainerToWorkspaceNumber => "SendContainerToWorkspaceNumber",
            KSocketEvent::CycleSendContainerToMonitor => "CycleSendContainerToMonitor",
            KSocketEvent::CycleSendContainerToWorkspace => "CycleSendContainerToWorkspace",
            KSocketEvent::Cloak => "Cloak",
            KSocketEvent::Uncloak => "Uncloak",
            KSocketEvent::Destroy => "Destroy",
            KSocketEvent::FocusChange => "FocusChange",
            KSocketEvent::Hide => "Hide",
            KSocketEvent::Minimize => "Minimize",
            KSocketEvent::Show => "Show",
            KSocketEvent::TitleUpdate => "TitleUpdate",
        }
    }

    /// The kind of event that komorebi calls `name`, if it is one of those
    /// listed.
    pub fn from_name(name: &str) -> (r: Option<KSocketEvent>)
        ensures
            r == KSocketEvent::of_name(name@),
    {
        if str_eq(name, "FocusWorkspaceNumber") {
            Some(KSocketEvent::FocusWorkspaceNumber)
        } else if str_eq(name, "FocusMonitorNumber") {
            Some(KSocketEvent::FocusMonitorNumber)
        } else if str_eq(name, "FocusMonitorWorkspaceNumber") {
            Some(KSocketEvent::FocusMonitorWorkspaceNumber)
        } else if str_eq(name, "FocusNamedWorkspace") {
            Some(KSocketEvent::FocusNamedWorkspace)
        } else if str_eq(name, "FocusWorkspaceNumbers") {
            Some(KSocketEvent::FocusWorkspaceNumbers)
        } else if str_eq(name, "CycleFocusMonitor") {
            Some(KSocketEvent::CycleFocusMonitor)
        } else if str_eq(name, "CycleFocusWorkspace") {
            Some(KSocketEvent::CycleFocusWorkspace)
        } else if str_eq(name, "ReloadConfiguration") {
            Some(KSocketEvent::ReloadConfiguration)
        } else if str_eq(name, "ReplaceConfiguration") {
            Some(KSocketEvent::ReplaceConfiguration)
        } else if str_eq(name, "CompleteConfiguration") {
            Some(KSocketEvent::CompleteConfiguration)
        } else if str_eq(name, "ReloadStaticConfiguration") {
            Some(KSocketEvent::ReloadStaticConfiguration)
        } else if str_eq(name, "MoveContainerToMonitorNumber") {
            Some(KSocketEvent::MoveContainerToMonitorNumber)
        } else if str_eq(name, "MoveContainerToMonitorWorkspaceNumber") {
            Some(KSocketEvent::MoveContainerToMonitorWorkspaceNumber)
        } else if str_eq(name, "MoveContainerToNamedWorkspace") {
            Some(KSocketEvent::MoveContainerToNamedWorkspace)
        } else if str_eq(name, "MoveContainerToWorkspaceNumber") {
            Some(KSocketEvent::MoveContainerToWorkspaceNumber)
        } else if str_eq(name, "MoveWorkspaceToMonitorNumber") {
            Some(KSocketEvent::MoveWorkspaceToMonitorNumber)
        } else if str_eq(name, "CycleMoveContainerToMonitor") {
            Some(KSocketEvent::CycleMoveContainerToMonitor)
        } else if str_eq(name, "CycleMoveContainerToWorkspace") {
            Some(KSocketEvent::CycleMoveContainerToWorkspace)
        } else if str_eq(name, "CycleMoveWorkspaceToMonitor") {
            Some(KSocketEvent::CycleMoveWorkspaceToMonitor)
        } else if str_eq(name, "CloseWorkspace") {
            Some(KSocketEvent::CloseWorkspace)
        } else if str_eq(name, "SendContainerToMonitorNumber") {
            Some(KSocketEvent::SendContainerToMonitorNumber)
        } else if str_eq(name, "SendContainerToMonitorWorkspaceNumber") {
            Some(KSocketEvent::SendContainerToMonitorWorkspaceNumber)
        } else if str_eq(name, "SendContainerToNamedWorkspace") {
            Some(KSocketEvent::SendContainerToNamedWorkspace)
        } else if str_eq(name, "SendContainerToWorkspaceNumber") {
            Some(KSocketEvent::SendContainerToWorkspaceNumber)
        } else if str_eq(name, "CycleSendContainerToMonitor") {
            Some(KSocketEvent::CycleSendContainerToMonitor)
        } else if str_eq(name, "CycleSendContainerToWorkspace") {
            Some(KSocketEvent::CycleSendContainerToWorkspace)
        } else if str_eq(name, "Cloak") {
            Some(KSocketEvent::Cloak)
        } else if str_eq(name, "Uncloak") {
            Some(KSocketEvent::Uncloak)
        } else if str_eq(name, "Destroy") {
            Some(KSocketEvent::Destroy)
        } else if str_eq(name, "FocusChange") {
            Some(KSocketEvent::FocusChange)
        } else if str_eq(name, "Hide") {
            Some(KSocketEvent::Hide)
        } else if str_eq(name, "Minimize") {
            Some(KSocketEvent::Minimize)
        } else if str_eq(name, "Show") {
            Some(KSocketEvent::Show)
        } else if str_eq(name, "TitleUpdate") {
            Some(KSocketEvent::TitleUpdate)
        } else {
            None
        }
    }
}

} // verus!
