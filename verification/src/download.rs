//! The download URL for a release artifact and the validation of the final
//! HTTP status a transfer ended with.

use vstd::prelude::*;
use vstd::string::StringExecFns;

verus! {

/// Result of a finished transfer: the artifact was fully written and the
/// server answered 200, or the final status was some other code. There is no
/// partial-success state; bytes already written stay on disk either way.
#[derive(Clone, Copy, Debug, PartialEq, Eq, Structural)]
pub enum DownloadOutcome {
    Success,
    Failure(u32),
}

/// The fixed prefix of every artifact URL; the platform-architecture token
/// pair completes it.
pub open spec fn base_url() -> Seq<char> {
    "https://github.com/mamba-org/micromamba-releases/releases/latest/download/micromamba-"@
}

/// Build the URL the artifact is fetched from: the fixed release-server
/// prefix followed by the platform-architecture token pair.
pub fn artifact_url(os_arch: &str) -> (r: String)
    ensures
        r@ == base_url() + os_arch@,
{
    let mut url = String::from_str(
        "https://github.com/mamba-org/micromamba-releases/releases/latest/download/micromamba-",
    );
    url.append(os_arch);
    url
}

/// What a transfer that ended with the given status amounts to.
pub open spec fn outcome_of(code: u32) -> DownloadOutcome {
    if code == 200 {
        DownloadOutcome::Success
    } else {
        DownloadOutcome::Failure(code)
    }
}

/// Classify the final HTTP status of a transfer: exactly 200 is success,
/// any other code is a failure that keeps the code for diagnostics.
pub fn download_outcome(code: u32) -> (r: DownloadOutcome)
    ensures
        r == outcome_of(code),
        r == DownloadOutcome::Success <==> code == 200,
{
    if code == 200 {
        DownloadOutcome::Success
    } else {
        DownloadOutcome::Failure(code)
    }
}

} // verus!
