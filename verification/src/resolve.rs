//! The entry point of a resolution: the mode decides between the manual
//! locator and the automatic provisioning flow.

use vstd::prelude::*;
use crate::auto::{AutoResolver, StepOut, start_auto, start_rel};
use crate::command::{Command, manual_command, manual_spec};
use crate::config::{Mode, Settings, mode_spec, resolve_mode};
use crate::error::ProvisionError;
use crate::platform::{Os, Arch};
use crate::session::SessionState;

verus! {

/// How a resolution proceeds: manual mode is terminal, auto mode hands back
/// a state machine for the host to drive.
pub enum Resolution {
    Manual(Result<Command, ProvisionError>),
    Auto(AutoResolver, StepOut),
}

/// Dispatches on the configured mode: the literal `"manual"` runs the manual
/// locator, every other configuration starts the automatic flow.
pub fn begin_resolution(
    settings: &Settings,
    which_result: Option<String>,
    env: Vec<(String, String)>,
    os: Os,
    arch: Arch,
    session: &SessionState,
) -> (r: Resolution)
    ensures
        mode_spec(settings.mode) is Manual ==> (r matches Resolution::Manual(res)
            && manual_spec(*settings, which_result, env, res)),
        mode_spec(settings.mode) is Auto ==> (r matches Resolution::Auto(ar, out)
            && start_rel(os, arch, *session, ar, out)),
{
    match resolve_mode(&settings.mode) {
        Mode::Manual => Resolution::Manual(manual_command(settings, which_result, env)),
        Mode::Auto => {
            let (ar, out) = start_auto(os, arch, session);
            Resolution::Auto(ar, out)
        },
    }
}

} // verus!
