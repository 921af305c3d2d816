//! The command that starts the backend.

use vstd::prelude::*;
use crate::decimal::{decimal, decimal_value, lemma_decimal_round_trip, port_to_string};
use crate::endpoint::{backend_url_text, BACKEND_PORT_VARIABLE};
use crate::platform::Platform;

verus! {

/// Everything the shell hands to the operating system to start the backend.
/// `P` is the caller's type for file paths; the command carries paths through
/// without looking into them.
#[derive(Debug)]
pub struct BackendCommand<P> {
    /// The executable to run.
    pub program: P,
    /// The one argument: the backend's entry script.
    pub script: P,
    /// Name of the one environment variable that is set for the backend.
    pub variable: &'static str,
    /// Value of that variable: the port, as a decimal numeral.
    pub value: String,
    /// Process creation flags, where the platform has any.
    pub creation_flags: Option<u32>,
}

impl<P> BackendCommand<P> {
    /// Whether this is the command that runs `program` on `script` for a
    /// backend that is to listen on `port`, on `platform`.
    pub open spec fn starts(self, program: P, script: P, port: u16, platform: Platform) -> bool {
        &&& self.program == program
        &&& self.script == script
        &&& self.variable@ == BACKEND_PORT_VARIABLE@
        &&& self.value@ == decimal(port as nat)
        &&& self.creation_flags == platform.creation_flags()
    }

    /// The command that runs `program` on `script` and tells the backend to
    /// listen on `port`.
    pub fn new(program: P, script: P, port: u16, platform: Platform) -> (command: Self)
        ensures
            command.starts(program, script, port, platform),
    {
        BackendCommand {
            program,
            script,
            variable: BACKEND_PORT_VARIABLE,
            value: port_to_string(port),
            creation_flags: platform.capabilities().creation_flags,
        }
    }
}

/// The backend and the pages agree on the port: the numeral that the command
/// hands to the backend reads back as `port`, and the URL that pages are
/// given for `port` ends in that same numeral.
pub proof fn lemma_backend_and_pages_agree<P>(
    command: BackendCommand<P>,
    program: P,
    script: P,
    port: u16,
    platform: Platform,
)
    requires
        command.starts(program, script, port, platform),
    ensures
        decimal_value(command.value@) == port,
        backend_url_text(port) == "http://127.0.0.1:"@ + command.value@,
{
    lemma_decimal_round_trip(port as nat);
}

} // verus!
