//! Mapping of the host operating system and CPU architecture to the token
//! pair that names a micromamba release artifact.

use vstd::prelude::*;
use vstd::string::StringExecFns;

use crate::text::str_eq;

verus! {

/// Why a host could not be resolved to an artifact name. Both conditions are
/// fatal: no artifact exists for such a host, and nothing is retried. Each
/// variant carries the raw identifier that was rejected.
#[derive(Debug, PartialEq, Eq)]
pub enum ResolveError {
    UnsupportedPlatform(String),
    UnsupportedArchitecture(String),
}

/// The operating systems for which a release artifact exists.
#[derive(Clone, Copy, Debug, PartialEq, Eq, Structural)]
pub enum OperatingSystem {
    Windows,
    Macos,
    Linux,
}

impl OperatingSystem {
    /// The token that names this operating system in a release artifact.
    pub open spec fn token(self) -> Seq<char> {
        match self {
            OperatingSystem::Windows => "win"@,
            OperatingSystem::Macos => "osx"@,
            OperatingSystem::Linux => "linux"@,
        }
    }

    /// Convert the variant to the `String` that matches the naming
    /// convention of the micromamba release server.
    pub fn as_string(&self) -> (r: String)
        ensures
            r@ == self.token(),
    {
        match self {
            OperatingSystem::Windows => String::from_str("win"),
            OperatingSystem::Macos => String::from_str("osx"),
            OperatingSystem::Linux => String::from_str("linux"),
        }
    }
}

/// The operating system a raw identifier names, if it is one of the supported
/// set. Matching is exact and case-sensitive.
pub open spec fn platform_of(os: Seq<char>) -> Option<OperatingSystem> {
    if os == "windows"@ {
        Some(OperatingSystem::Windows)
    } else if os == "linux"@ {
        Some(OperatingSystem::Linux)
    } else if os == "macos"@ {
        Some(OperatingSystem::Macos)
    } else {
        None
    }
}

/// The artifact token a raw CPU-architecture identifier maps to, if it is one
/// of the supported set. Matching is exact.
pub open spec fn arch_token_of(arch: Seq<char>) -> Option<Seq<char>> {
    if arch == "x86_64"@ {
        Some("64"@)
    } else if arch == "arm"@ {
        Some("arm64"@)
    } else {
        None
    }
}

/// Map a raw operating-system identifier to its supported variant; any
/// identifier outside the supported set is a fatal `UnsupportedPlatform`.
pub fn platform_from(os: &str) -> (r: Result<OperatingSystem, ResolveError>)
    ensures
        platform_of(os@) matches Some(p) ==> r == Ok::<OperatingSystem, ResolveError>(p),
        platform_of(os@) is None ==> (r matches Err(ResolveError::UnsupportedPlatform(v))
            && v@ == os@),
{
    if str_eq(os, "windows") {
        Ok(OperatingSystem::Windows)
    } else if str_eq(os, "linux") {
        Ok(OperatingSystem::Linux)
    } else if str_eq(os, "macos") {
        Ok(OperatingSystem::Macos)
    } else {
        Err(ResolveError::UnsupportedPlatform(os.to_owned()))
    }
}

/// Map a raw CPU-architecture identifier to its artifact token; any
/// identifier outside the supported set is a fatal
/// `UnsupportedArchitecture`.
pub fn arch_token(arch: &str) -> (r: Result<&'static str, ResolveError>)
    ensures
        arch_token_of(arch@) matches Some(t) ==> (r matches Ok(s) && s@ == t),
        arch_token_of(arch@) is None ==> (r matches Err(ResolveError::UnsupportedArchitecture(v))
            && v@ == arch@),
{
    if str_eq(arch, "x86_64") {
        Ok("64")
    } else if str_eq(arch, "arm") {
        Ok("arm64")
    } else {
        Err(ResolveError::UnsupportedArchitecture(arch.to_owned()))
    }
}

/// Map the raw operating-system and CPU-architecture identifiers of the host
/// to the pair that names its release artifact. Any identifier outside the
/// supported sets is rejected; the operating system is checked first.
/// Deterministic and free of side effects.
pub fn resolve(os: &str, arch: &str) -> (r: Result<(OperatingSystem, String), ResolveError>)
    ensures
        platform_of(os@) is None ==> (r matches Err(ResolveError::UnsupportedPlatform(v))
            && v@ == os@),
        platform_of(os@) is Some && arch_token_of(arch@) is None ==> (r matches Err(
            ResolveError::UnsupportedArchitecture(v),
        ) && v@ == arch@),
        platform_of(os@) is Some && arch_token_of(arch@) is Some ==> (r matches Ok(pair)
            && pair.0 == platform_of(os@).unwrap() && pair.1@ == arch_token_of(arch@).unwrap()),
{
    let platform = match platform_from(os) {
        Ok(p) => p,
        Err(e) => {
            return Err(e);
        },
    };
    let token = match arch_token(arch) {
        Ok(t) => t,
        Err(e) => {
            return Err(e);
        },
    };
    Ok((platform, token.to_owned()))
}

/// Build the `<platform>-<architecture>` fragment of the download URL for
/// the given operating system and raw CPU-architecture identifier.
pub fn determine_os_arch(os: &OperatingSystem, arch: &str) -> (r: Result<String, ResolveError>)
    ensures
        arch_token_of(arch@) is Some ==> (r matches Ok(s) && s@ == os.token() + "-"@
            + arch_token_of(arch@).unwrap()),
        arch_token_of(arch@) is None ==> (r matches Err(ResolveError::UnsupportedArchitecture(v))
            && v@ == arch@),
{
    let token = match arch_token(arch) {
        Ok(t) => t,
        Err(e) => {
            return Err(e);
        },
    };
    let mut os_arch = os.as_string();
    os_arch.append("-");
    os_arch.append(token);
    Ok(os_arch)
}

} // verus!
