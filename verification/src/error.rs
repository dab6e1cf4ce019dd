//! The error taxonomy of the provisioning engine.  Every failure is terminal
//! for the current resolution attempt and carries enough context to render an
//! actionable human-readable message.

use vstd::prelude::*;
use vstd::string::StringExecFns;
use crate::platform::{Os, Arch};
use crate::text::{join_comma, join_comma_spec, views_of};

verus! {

/// Why a resolution attempt failed.
#[derive(Debug)]
pub enum ProvisionError {
    /// The host platform is outside the fixed set with published assets.
    UnsupportedPlatform { os: Os, arch: Arch },
    /// Manual mode found no configured path and no match on the search PATH.
    BinaryNotFoundInPath,
    /// The latest-release lookup failed (network, not-found, or parse).
    ReleaseFetchFailed { cause: String },
    /// No asset of the release contains the platform suffix in its name.
    NoMatchingAsset { suffix: String, version: String, available: Vec<String> },
    /// The download of the selected asset failed in transport.
    DownloadFailed { asset_name: String, cause: String },
    /// After extraction the expected binary was not found.
    BinaryMissingAfterExtraction { expected_path: String, binary_name: String },
}

/// Display name of an operating system, used in diagnostics.
pub open spec fn os_name_spec(os: Os) -> Seq<char> {
    match os {
        Os::Mac => "Mac"@,
        Os::Linux => "Linux"@,
        Os::Windows => "Windows"@,
    }
}

/// Display name of a CPU architecture, used in diagnostics.
pub open spec fn arch_name_spec(arch: Arch) -> Seq<char> {
    match arch {
        Arch::Aarch64 => "Aarch64"@,
        Arch::X86 => "X86"@,
        Arch::X8664 => "X8664"@,
    }
}

/// The human-readable message of each error.
pub open spec fn message_spec(e: ProvisionError) -> Seq<char> {
    match e {
        ProvisionError::UnsupportedPlatform { os, arch } => "Unsupported platform: "@
            + os_name_spec(os) + "-"@ + arch_name_spec(arch)
            + ". Use manual mode and set lsp.flang.binary.path."@,
        ProvisionError::BinaryNotFoundInPath =>
            "flang not found in PATH. Install FLang or configure lsp.flang.binary.path, or switch to auto mode by removing lsp.flang.settings.mode"@,
        ProvisionError::ReleaseFetchFailed { cause } => "Failed to fetch latest release: "@
            + cause@,
        ProvisionError::NoMatchingAsset { suffix, version, available } =>
            "No release asset for platform '"@ + suffix@ + "' in "@ + version@
            + ". Available: "@ + join_comma_spec(views_of(available@)),
        ProvisionError::DownloadFailed { asset_name, cause } => "Failed to download "@
            + asset_name@ + ": "@ + cause@,
        ProvisionError::BinaryMissingAfterExtraction { expected_path, binary_name } =>
            "Binary not found at "@ + expected_path@
            + " after extraction. Check that the release archive contains '"@
            + binary_name@ + "'."@,
    }
}

fn os_name(os: Os) -> (r: String)
    ensures
        r@ == os_name_spec(os),
{
    match os {
        Os::Mac => String::from_str("Mac"),
        Os::Linux => String::from_str("Linux"),
        Os::Windows => String::from_str("Windows"),
    }
}

fn arch_name(arch: Arch) -> (r: String)
    ensures
        r@ == arch_name_spec(arch),
{
    match arch {
        Arch::Aarch64 => String::from_str("Aarch64"),
        Arch::X86 => String::from_str("X86"),
        Arch::X8664 => String::from_str("X8664"),
    }
}

impl ProvisionError {
    /// Renders the error as the message shown to the user and mirrored to the
    /// installation-status channel.
    pub fn message(&self) -> (r: String)
        ensures
            r@ == message_spec(*self),
    {
        match self {
            ProvisionError::UnsupportedPlatform { os, arch } => String::from_str(
                "Unsupported platform: ",
            ).concat(os_name(*os).as_str()).concat("-").concat(arch_name(*arch).as_str()).concat(
                ". Use manual mode and set lsp.flang.binary.path.",
            ),
            ProvisionError::BinaryNotFoundInPath => String::from_str(
                "flang not found in PATH. Install FLang or configure lsp.flang.binary.path, or switch to auto mode by removing lsp.flang.settings.mode",
            ),
            ProvisionError::ReleaseFetchFailed { cause } => String::from_str(
                "Failed to fetch latest release: ",
            ).concat(cause.as_str()),
            ProvisionError::NoMatchingAsset { suffix, version, available } => String::from_str(
                "No release asset for platform '",
            ).concat(suffix.as_str()).concat("' in ").concat(version.as_str()).concat(
                ". Available: ",
            ).concat(join_comma(available).as_str()),
            ProvisionError::DownloadFailed { asset_name, cause } => String::from_str(
                "Failed to download ",
            ).concat(asset_name.as_str()).concat(": ").concat(cause.as_str()),
            ProvisionError::BinaryMissingAfterExtraction { expected_path, binary_name } =>
                String::from_str("Binary not found at ").concat(expected_path.as_str()).concat(
                " after extraction. Check that the release archive contains '",
            ).concat(binary_name.as_str()).concat("'."),
        }
    }
}

} // verus!
