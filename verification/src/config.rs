//! Configuration model: the provisioning mode and the optional user-pinned
//! binary override, as plain values extracted from the host's settings.

use vstd::prelude::*;
use crate::text::str_eq;

verus! {

/// The two provisioning strategies.
#[derive(Clone, Copy, PartialEq, Eq, Structural, Debug)]
pub enum Mode {
    /// The engine acquires and updates the binary itself.
    Auto,
    /// The user supplies an explicit binary location.
    Manual,
}

/// The settings the engine reads, already reduced to plain values.
pub struct Settings {
    /// The raw `mode` value, absent when not configured.
    pub mode: Option<String>,
    /// An explicit binary path, used verbatim when present.
    pub binary_path: Option<String>,
    /// An explicit argument list that fully replaces the default.
    pub binary_arguments: Option<Vec<String>>,
}

/// A configured mode resolves to `Manual` exactly when it is the literal
/// `"manual"`; every other value, and an absent one, means `Auto`.
pub open spec fn mode_spec(mode: Option<String>) -> Mode {
    match mode {
        Some(m) => if m@ == "manual"@ {
            Mode::Manual
        } else {
            Mode::Auto
        },
        None => Mode::Auto,
    }
}

/// Normalizes the raw `mode` setting: unrecognized values intentionally fall
/// back to automatic provisioning rather than erroring.
pub fn resolve_mode(mode: &Option<String>) -> (r: Mode)
    ensures
        r == mode_spec(*mode),
{
    match mode {
        Some(m) => {
            if str_eq(m.as_str(), "manual") {
                Mode::Manual
            } else {
                Mode::Auto
            }
        },
        None => Mode::Auto,
    }
}

} // verus!
