//! Platform version — what `RtlGetVersion` reports, not `GetVersionExW`.
//!
//! `GetVersionExW` lies unless the process carries a manifest declaring which Windows release it
//! was "designed for" — without one it reports Windows 8 regardless of the real OS, silently.
//! `RtlGetVersion` is the actual kernel-level answer and is not subject to that compatibility shim.
//! Reporting a wrong build is worse than reporting none: `S5_capture_excluded: unsupported` means
//! one thing on Windows 10 1809 (before `WDA_EXCLUDEFROMCAPTURE` existed) and something else
//! entirely on Windows 11, and a coverage report that got the version wrong would mislabel which
//! case applies.

use vstd::prelude::*;

use crate::text;
use crate::text::push_decimal;

verus! {

/// What the kernel reported. A status of zero is success.
#[derive(Debug, Clone, Copy)]
pub struct VersionReading {
    pub status: i32,
    pub major: u32,
    pub minor: u32,
    pub build: u32,
}

/// `(major.minor, build)` — e.g. `("10.0", "26200")`. `None` only if the kernel call itself failed;
/// that degrades the coverage report's `platform.os_version`/`os_build` to `null` rather than
/// reporting a guess.
pub fn version(reading: VersionReading) -> (r: Option<(String, String)>)
    ensures
        r is Some <==> reading.status == 0,
        r matches Some(v) ==> {
            &&& v.0@ == text::decimal(reading.major as nat) + "."@ + text::decimal(
                reading.minor as nat,
            )
            &&& v.1@ == text::decimal(reading.build as nat)
        },
{
    if reading.status != 0 {
        return None;
    }
    let mut release = String::new();
    push_decimal(&mut release, reading.major as u64);
    assert(release@ =~= text::decimal(reading.major as nat));
    release.append(".");
    push_decimal(&mut release, reading.minor as u64);
    let mut build = String::new();
    push_decimal(&mut build, reading.build as u64);
    assert(build@ =~= text::decimal(reading.build as nat));
    Some((release, build))
}

} // verus!
