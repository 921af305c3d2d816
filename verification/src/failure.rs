//! What can go wrong, and what the shell does about it.

use vstd::prelude::*;

verus! {

/// The operations of the shell that can fail.
#[derive(Clone, Copy, Debug, PartialEq, Eq, Structural)]
pub enum Failure {
    /// The operating system refused to bind a listener for the reservation.
    PortBind,
    /// The address of the bound listener could not be read back.
    PortReadback,
    /// The application's resource directory could not be found.
    ResourceDirectory,
    /// The backend's executable could not be made runnable.
    ExecutablePermissions,
    /// The backend could not be started.
    BackendSpawn,
    /// The backend could not be killed.
    BackendKill,
    /// Waiting for the backend's end failed.
    BackendWait,
}

/// What the shell does about a failure.
#[derive(Clone, Copy, Debug, PartialEq, Eq, Structural)]
pub enum Disposition {
    /// Give up starting the application: without its backend it is of no use.
    AbortStartup,
    /// Drop the failure: the application is on its way out anyway.
    Discard,
}

impl Failure {
    /// Whether the failure belongs to shutdown, where the shell only does
    /// its best.
    pub open spec fn is_teardown(self) -> bool {
        self == Failure::BackendKill || self == Failure::BackendWait
    }

    /// What the shell does about the failure: one at startup ends the
    /// application, one at shutdown is dropped. Nothing is tried again.
    pub open spec fn spec_disposition(self) -> Disposition {
        if self.is_teardown() {
            Disposition::Discard
        } else {
            Disposition::AbortStartup
        }
    }

    /// The words the application ends with after this failure, where it
    /// ends the application.
    pub open spec fn spec_message(self) -> Option<Seq<char>> {
        match self {
            Failure::PortBind => Some("failed to reserve backend port"@),
            Failure::PortReadback => Some("failed to read reserved backend port"@),
            Failure::ResourceDirectory | Failure::ExecutablePermissions | Failure::BackendSpawn
                => Some("error while running tauri application"@),
            Failure::BackendKill | Failure::BackendWait => None,
        }
    }

    /// What the shell does about the failure.
    #[verifier::when_used_as_spec(spec_disposition)]
    pub fn disposition(self) -> (disposition: Disposition)
        ensures
            disposition == self.spec_disposition(),
    {
        match self {
            Failure::BackendKill | Failure::BackendWait => Disposition::Discard,
            _ => Disposition::AbortStartup,
        }
    }

    /// The words to end the application with, or `None` for a failure that
    /// is dropped.
    pub fn message(self) -> (message: Option<&'static str>)
        ensures
            match self.spec_message() {
                Some(text) => message.is_some() && message.unwrap()@ == text,
                None => message.is_none(),
            },
    {
        match self {
            Failure::PortBind => Some("failed to reserve backend port"),
            Failure::PortReadback => Some("failed to read reserved backend port"),
            Failure::ResourceDirectory => Some("error while running tauri application"),
            Failure::ExecutablePermissions => Some("error while running tauri application"),
            Failure::BackendSpawn => Some("error while running tauri application"),
            Failure::BackendKill => None,
            Failure::BackendWait => None,
        }
    }
}

/// A failure has words to end the application with exactly where it ends the
/// application.
pub proof fn lemma_message_iff_fatal(failure: Failure)
    ensures
        failure.spec_message().is_some() <==> failure.spec_disposition() == Disposition::AbortStartup,
{
}

} // verus!
