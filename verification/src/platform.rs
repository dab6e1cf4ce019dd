//! Mapping from host platform (operating system and CPU architecture) to the
//! release-asset suffix and the executable filename used by the backend.

use vstd::prelude::*;
use vstd::string::StringExecFns;
use crate::error::ProvisionError;

verus! {

/// Host operating system, as reported by the embedding host.
#[derive(Clone, Copy, PartialEq, Eq, Structural, Debug)]
pub enum Os {
    Mac,
    Linux,
    Windows,
}

/// Host CPU architecture, as reported by the embedding host.
#[derive(Clone, Copy, PartialEq, Eq, Structural, Debug)]
pub enum Arch {
    Aarch64,
    X86,
    X8664,
}

/// The fixed set of platforms for which release assets are published.
pub open spec fn platform_supported(os: Os, arch: Arch) -> bool {
    ||| (os == Os::Windows && arch == Arch::X8664)
    ||| (os == Os::Linux && arch == Arch::X8664)
    ||| (os == Os::Mac && arch == Arch::Aarch64)
    ||| (os == Os::Mac && arch == Arch::X8664)
}

/// The asset-name suffix published for a supported platform.
pub open spec fn suffix_spec(os: Os, arch: Arch) -> Seq<char> {
    if os == Os::Windows && arch == Arch::X8664 {
        "win-x64"@
    } else if os == Os::Linux && arch == Arch::X8664 {
        "linux-x64"@
    } else if os == Os::Mac && arch == Arch::Aarch64 {
        "macos-arm64"@
    } else {
        "macos-x64"@
    }
}

/// The executable filename for the platform: `.exe` only on Windows.
pub open spec fn binary_name_spec(os: Os) -> Seq<char> {
    if os == Os::Windows {
        "flang.exe"@
    } else {
        "flang"@
    }
}

/// Returns the asset suffix for the platform, or `UnsupportedPlatform` for
/// any pair outside the fixed supported set.
pub fn asset_suffix(os: Os, arch: Arch) -> (r: Result<String, ProvisionError>)
    ensures
        platform_supported(os, arch) ==> (r matches Ok(s) && s@ == suffix_spec(os, arch)),
        !platform_supported(os, arch) ==> r == Result::<String, ProvisionError>::Err(
            ProvisionError::UnsupportedPlatform { os, arch },
        ),
{
    match (os, arch) {
        (Os::Windows, Arch::X8664) => Ok(String::from_str("win-x64")),
        (Os::Linux, Arch::X8664) => Ok(String::from_str("linux-x64")),
        (Os::Mac, Arch::Aarch64) => Ok(String::from_str("macos-arm64")),
        (Os::Mac, Arch::X8664) => Ok(String::from_str("macos-x64")),
        _ => Err(ProvisionError::UnsupportedPlatform { os, arch }),
    }
}

/// Returns the executable filename for the platform.
pub fn binary_name(os: Os) -> (r: String)
    ensures
        r@ == binary_name_spec(os),
{
    match os {
        Os::Windows => String::from_str("flang.exe"),
        _ => String::from_str("flang"),
    }
}

/// Distinct supported platforms are given distinct asset suffixes, so an
/// asset selected for one platform can never be the asset of another.
pub proof fn lemma_suffix_unique(os1: Os, arch1: Arch, os2: Os, arch2: Arch)
    requires
        platform_supported(os1, arch1),
        platform_supported(os2, arch2),
        os1 != os2 || arch1 != arch2,
    ensures
        suffix_spec(os1, arch1) != suffix_spec(os2, arch2),
{
    reveal_strlit("win-x64");
    reveal_strlit("linux-x64");
    reveal_strlit("macos-arm64");
    reveal_strlit("macos-x64");
    assert("win-x64"@.len() == 7);
    assert("linux-x64"@.len() == 9);
    assert("macos-arm64"@.len() == 11);
    assert("macos-x64"@.len() == 9);
    assert("linux-x64"@[0] == 'l');
    assert("macos-x64"@[0] == 'm');
}

} // verus!
