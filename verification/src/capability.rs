//! The capability prober — "measured, not assumed".
//!
//! Every capability here is answered from **actually having called the API once and looking at the
//! result**, never by inferring from the platform or the build. That is why every entry below is
//! constructed with [`Capability::probed`] or [`Capability::degraded`], both of which stamp
//! `method: "probed"`; anything asserted from configuration would be `declared`, and the panel is
//! required to render that as unverified. Two entries ask no API: that a host agent is the host
//! machine is declared, and that it polls is what the collector itself does.
//!
//! This is the half of the contract that stops the other half from lying. An empty signal list from
//! a blind collector and an empty signal list from a clean machine are the same bytes. Only this
//! report tells them apart.

use vstd::prelude::*;

use crate::affinity::{SweepView, WindowSweep};
use crate::coverage;
use crate::coverage::{
    Capability, CapabilityKey, CapabilityReason, CapabilityState, CapabilityView, CoverageReason,
    CoverageReport, CoverageReportView, Platform, PlatformView,
};
use crate::detail::{DetailS2, DetailS2View};
use crate::envelope::{Signature, SignatureView};
use crate::ident::Uuid;
use crate::process;
use crate::process::{ProcessInfo, ProcessView};
use crate::table;
use crate::table::same_text;
use crate::text;
use crate::time;

verus! {

/// The name of an architecture on the wire.
pub open spec fn arch_name(arch: Seq<char>) -> Seq<char> {
    if arch == "x86_64"@ {
        "x86_64"@
    } else if arch == "aarch64"@ {
        "arm64"@
    } else {
        "other"@
    }
}

pub open spec fn platform_view(
    version: Option<(String, String)>,
    arch: Seq<char>,
) -> PlatformView {
    PlatformView {
        os: "windows"@,
        os_version: match version {
            Some(v) => Some(v.0@),
            None => None,
        },
        os_build: match version {
            Some(v) => Some(v.1@),
            None => None,
        },
        arch: arch_name(arch),
        locale: None,
    }
}

/// The platform, from what [`crate::platform::version`] told and the architecture's Rust name.
pub fn platform(version: Option<(String, String)>, arch: &str) -> (r: Platform)
    ensures
        r@ == platform_view(version, arch@),
{
    let (os_version, os_build) = match version {
        Some((version, build)) => (Some(version), Some(build)),
        None => (None, None),
    };
    Platform {
        os: "windows",
        os_version,
        os_build,
        arch: if same_text(arch, "x86_64") {
            "x86_64"
        } else if same_text(arch, "aarch64") {
            "arm64"
        } else {
            "other"
        },
        locale: None,
    }
}

pub const PATHS_CAPPED: &'static str = "Non-elevated: session-0 service images are unreadable. An \
    image that cannot be read cannot be hashed, so S2 coverage is capped at the readable set and \
    tier 1 cannot fire for the remainder.";

pub const HASHES_CAPPED: &'static str = "Hash and signer are only produced for images \
    process_paths can read. A protected or cross-bitness process is capped there, not here. \
    Revocation is never checked, to keep verification off the network.";

pub const NOT_HASHED: &'static str = "Could not hash the collector's own image: ";

pub const SESSIONS_CAPPED: &'static str = "Capture and render endpoints are both enumerated. A \
    render-endpoint session is shown as context only, never as a microphone finding — WASAPI has \
    no property that distinguishes a loopback capture from ordinary playback. Process-loopback \
    activation, exclusive-mode streams and kernel-streaming clients are not enumerated and will \
    not appear at all.";

pub const WINDOWS_UNREADABLE: &'static str =
    "Display affinity unreadable for some top-level windows.";

pub const TITLES_REFUSED: &'static str = "The title of an open window could not be read.";

pub const TITLES_UNTRIED: &'static str = "No window was open to read a title from.";

pub const POLLING_ONLY: &'static str =
    "Polling only. A process that starts and exits between samples is not observed.";

/// What reading the title of one window gave.
#[derive(Debug)]
pub enum TitleProbe {
    /// No window was open: `GetTopWindow` found none.
    NoWindow,
    /// What [`crate::affinity::read_title`] made of the window's title.
    Read(Option<String>),
}

/// What probing each capability once gave.
#[derive(Debug)]
pub struct Probes {
    pub processes: Result<Vec<ProcessInfo>, String>,
    /// What verifying the collector's own image gave, or why its path could not be told.
    pub own_image: Result<(Signature, DetailS2), String>,
    /// How many capture and how many render sessions were enumerated.
    pub sessions: Result<(u32, u32), String>,
    pub windows: Result<WindowSweep, String>,
    pub title: TitleProbe,
}

pub struct ProbesView {
    pub processes: Result<Seq<ProcessView>, Seq<char>>,
    pub own_image: Result<(SignatureView, DetailS2View), Seq<char>>,
    pub sessions: Result<(u32, u32), Seq<char>>,
    pub windows: Result<SweepView, Seq<char>>,
    /// The title that was read, if it could be, of a window, if one was open.
    pub title: Option<Option<Seq<char>>>,
}

impl View for Probes {
    type V = ProbesView;

    open spec fn view(&self) -> ProbesView {
        ProbesView {
            processes: match self.processes {
                Ok(p) => Ok(process::process_views(p@)),
                Err(e) => Err(e@),
            },
            own_image: match self.own_image {
                Ok(c) => Ok(process::check_view(c)),
                Err(e) => Err(e@),
            },
            sessions: match self.sessions {
                Ok(counts) => Ok(counts),
                Err(e) => Err(e@),
            },
            windows: match self.windows {
                Ok(w) => Ok(w@),
                Err(e) => Err(e@),
            },
            title: match self.title {
                TitleProbe::NoWindow => None,
                TitleProbe::Read(title) => Some(text::opt_text(title)),
            },
        }
    }
}

impl ProbesView {
    /// Whether processes can be listed.
    pub open spec fn process_list(self) -> CapabilityView {
        match self.processes {
            Ok(p) => CapabilityView::works(
                CapabilityKey::S1Processes,
                "CreateToolhelp32Snapshot"@,
                None,
            ).limit("processes_total"@, p.len() as u64),
            Err(e) => CapabilityView::limited(
                CapabilityKey::S1Processes,
                CapabilityState::Denied,
                CapabilityReason::ProbeFailed,
                "CreateToolhelp32Snapshot"@,
                None,
            ).detailed(e),
        }
    }

    /// Whether the images of listed processes can be read.
    pub open spec fn process_paths(self) -> CapabilityView {
        match self.processes {
            Ok(p) => if process::unreadable_paths(p) == 0 {
                CapabilityView::works(
                    CapabilityKey::ProcessPaths,
                    "QueryFullProcessImageNameW"@,
                    None,
                )
            } else {
                CapabilityView::limited(
                    CapabilityKey::ProcessPaths,
                    CapabilityState::Partial,
                    CapabilityReason::AccessDenied,
                    "QueryFullProcessImageNameW"@,
                    None,
                ).detailed(PATHS_CAPPED@).limit("processes_total"@, p.len() as u64).limit(
                    "paths_unreadable"@,
                    process::unreadable_paths(p) as u64,
                )
            },
            Err(e) => CapabilityView::limited(
                CapabilityKey::ProcessPaths,
                CapabilityState::Unknown,
                CapabilityReason::ProbeFailed,
                "QueryFullProcessImageNameW"@,
                None,
            ),
        }
    }

    /// Whether images can be verified.
    pub open spec fn signatures(self) -> CapabilityView {
        match self.own_image {
            Ok(c) => if c.1.hash_source != "none"@ {
                CapabilityView::limited(
                    CapabilityKey::S2Signature,
                    CapabilityState::Partial,
                    CapabilityReason::CollectorScope,
                    "WinVerifyTrust + CryptCATAdminCalcHashFromFileHandle2"@,
                    None,
                ).detailed(HASHES_CAPPED@)
            } else {
                CapabilityView::limited(
                    CapabilityKey::S2Signature,
                    CapabilityState::Denied,
                    CapabilityReason::ProbeFailed,
                    "WinVerifyTrust + CryptCATAdminCalcHashFromFileHandle2"@,
                    None,
                ).detailed(NOT_HASHED@ + c.0.debug())
            },
            Err(e) => CapabilityView::limited(
                CapabilityKey::S2Signature,
                CapabilityState::Unknown,
                CapabilityReason::ProbeFailed,
                "current_exe"@,
                None,
            ).detailed(e),
        }
    }

    /// Whether microphone owners can be told.
    pub open spec fn mic_owners(self) -> CapabilityView {
        match self.sessions {
            Ok(counts) => CapabilityView::limited(
                CapabilityKey::S3MicOwner,
                CapabilityState::Partial,
                CapabilityReason::CollectorScope,
                "IAudioSessionManager2::GetSessionEnumerator"@,
                None,
            ).detailed(SESSIONS_CAPPED@).limit("capture_sessions_visible"@, counts.0 as u64).limit(
                "render_sessions_visible"@,
                counts.1 as u64,
            ),
            Err(e) => CapabilityView::limited(
                CapabilityKey::S3MicOwner,
                CapabilityState::Denied,
                CapabilityReason::ProbeFailed,
                "IAudioSessionManager2::GetSessionEnumerator"@,
                None,
            ).detailed(e),
        }
    }

    /// Whether windows that hide from capture can be told.
    pub open spec fn capture_exclusion(self) -> CapabilityView {
        match self.windows {
            Ok(w) => if w.unreadable == 0 {
                CapabilityView::works(
                    CapabilityKey::S5CaptureExcluded,
                    "GetWindowDisplayAffinity"@,
                    None,
                ).limit("windows_total"@, w.total as u64)
            } else {
                CapabilityView::limited(
                    CapabilityKey::S5CaptureExcluded,
                    CapabilityState::Partial,
                    CapabilityReason::AccessDenied,
                    "GetWindowDisplayAffinity"@,
                    None,
                ).detailed(WINDOWS_UNREADABLE@).limit("windows_total"@, w.total as u64).limit(
                    "windows_unreadable"@,
                    w.unreadable as u64,
                )
            },
            Err(e) => CapabilityView::limited(
                CapabilityKey::S5CaptureExcluded,
                CapabilityState::Denied,
                CapabilityReason::ProbeFailed,
                "EnumWindows"@,
                None,
            ).detailed(e),
        }
    }

    /// Whether window titles can be read.
    pub open spec fn window_titles(self) -> CapabilityView {
        match self.title {
            Some(Some(_)) => CapabilityView::works(
                CapabilityKey::S6WindowTitles,
                "GetWindowTextW"@,
                None,
            ),
            Some(None) => CapabilityView::limited(
                CapabilityKey::S6WindowTitles,
                CapabilityState::Denied,
                CapabilityReason::ProbeFailed,
                "GetWindowTextW"@,
                None,
            ).detailed(TITLES_REFUSED@),
            None => CapabilityView::limited(
                CapabilityKey::S6WindowTitles,
                CapabilityState::Unknown,
                CapabilityReason::ProbeFailed,
                "GetTopWindow"@,
                None,
            ).detailed(TITLES_UNTRIED@),
        }
    }

    /// The answers for all capabilities, in order, but for the times at which they were got.
    pub open spec fn answers(self) -> Seq<CapabilityView> {
        seq![
            self.process_list(),
            self.process_paths(),
            self.signatures(),
            self.mic_owners(),
            self.capture_exclusion(),
            self.window_titles(),
            CapabilityView::meaningless(CapabilityKey::HostMachine),
            CapabilityView::limited(
                CapabilityKey::RealtimeEvents,
                CapabilityState::Partial,
                CapabilityReason::DegradedPolling,
                "polling"@,
                None,
            ).detailed(POLLING_ONLY@),
        ]
    }
}

/// Answers without their times.
pub open spec fn untimed(capabilities: Seq<CapabilityView>) -> Seq<CapabilityView> {
    capabilities.map_values(|c: CapabilityView| c.untimed())
}

/// What was probed says when.
pub open spec fn stamped(c: CapabilityView) -> bool {
    c.checked_at is Some <==> c.method is Probed
}

impl Probes {
    fn process_list(&self) -> (r: Capability)
        ensures
            r@.untimed() == self@.process_list(),
            stamped(r@),
    {
        match &self.processes {
            Ok(procs) => Capability::probed(
                CapabilityKey::S1Processes,
                "CreateToolhelp32Snapshot",
            ).with_limit("processes_total", procs.len() as u64),
            Err(e) => Capability::degraded(
                CapabilityKey::S1Processes,
                CapabilityState::Denied,
                CapabilityReason::ProbeFailed,
                "CreateToolhelp32Snapshot",
            ).with_detail(e.clone()),
        }
    }

    fn process_paths(&self) -> (r: Capability)
        ensures
            r@.untimed() == self@.process_paths(),
            stamped(r@),
    {
        match &self.processes {
            Ok(procs) => {
                let total: u64 = procs.len() as u64;
                let unreadable: usize = process::count_unreadable_paths(procs.as_slice());
                if unreadable == 0 {
                    Capability::probed(CapabilityKey::ProcessPaths, "QueryFullProcessImageNameW")
                } else {
                    // Expected, not exceptional: running non-elevated, every session-0 service refuses.
                    // Measured at 180 of 324 on a real machine. The panel needs permanent copy for this
                    // rather than an exception state, which is what the numbers below are for.
                    Capability::degraded(
                        CapabilityKey::ProcessPaths,
                        CapabilityState::Partial,
                        CapabilityReason::AccessDenied,
                        "QueryFullProcessImageNameW",
                    ).with_detail(String::from_str(PATHS_CAPPED)).with_limit(
                        "processes_total",
                        total,
                    ).with_limit("paths_unreadable", unreadable as u64)
                }
            },
            Err(_) => Capability::degraded(
                CapabilityKey::ProcessPaths,
                CapabilityState::Unknown,
                CapabilityReason::ProbeFailed,
                "QueryFullProcessImageNameW",
            ),
        }
    }

    fn signatures(&self) -> (r: Capability)
        ensures
            r@.untimed() == self@.signatures(),
            stamped(r@),
    {
        match &self.own_image {
            Ok(c) => {
                if !same_text(c.1.hash_source, "none") {
                    Capability::degraded(
                        CapabilityKey::S2Signature,
                        CapabilityState::Partial,
                        CapabilityReason::CollectorScope,
                        "WinVerifyTrust + CryptCATAdminCalcHashFromFileHandle2",
                    ).with_detail(String::from_str(HASHES_CAPPED))
                } else {
                    let mut message = String::from_str(NOT_HASHED);
                    message.append(c.0.debug().as_str());
                    Capability::degraded(
                        CapabilityKey::S2Signature,
                        CapabilityState::Denied,
                        CapabilityReason::ProbeFailed,
                        "WinVerifyTrust + CryptCATAdminCalcHashFromFileHandle2",
                    ).with_detail(message)
                }
            },
            Err(e) => Capability::degraded(
                CapabilityKey::S2Signature,
                CapabilityState::Unknown,
                CapabilityReason::ProbeFailed,
                "current_exe",
            ).with_detail(e.clone()),
        }
    }

    fn mic_owners(&self) -> (r: Capability)
        ensures
            r@.untimed() == self@.mic_owners(),
            stamped(r@),
    {
        match &self.sessions {
            Ok(counts) => Capability::degraded(
                CapabilityKey::S3MicOwner,
                CapabilityState::Partial,
                CapabilityReason::CollectorScope,
                "IAudioSessionManager2::GetSessionEnumerator",
            ).with_detail(String::from_str(SESSIONS_CAPPED)).with_limit(
                "capture_sessions_visible",
                counts.0 as u64,
            ).with_limit("render_sessions_visible", counts.1 as u64),
            Err(e) => Capability::degraded(
                CapabilityKey::S3MicOwner,
                CapabilityState::Denied,
                CapabilityReason::ProbeFailed,
                "IAudioSessionManager2::GetSessionEnumerator",
            ).with_detail(e.clone()),
        }
    }

    fn capture_exclusion(&self) -> (r: Capability)
        ensures
            r@.untimed() == self@.capture_exclusion(),
            stamped(r@),
    {
        match &self.windows {
            Ok(sweep) => {
                if sweep.unreadable == 0 {
                    Capability::probed(
                        CapabilityKey::S5CaptureExcluded,
                        "GetWindowDisplayAffinity",
                    ).with_limit("windows_total", sweep.total as u64)
                } else {
                    // Some windows refuse the read. Not evidence of cleanliness — a coverage number.
                    Capability::degraded(
                        CapabilityKey::S5CaptureExcluded,
                        CapabilityState::Partial,
                        CapabilityReason::AccessDenied,
                        "GetWindowDisplayAffinity",
                    ).with_detail(String::from_str(WINDOWS_UNREADABLE)).with_limit(
                        "windows_total",
                        sweep.total as u64,
                    ).with_limit("windows_unreadable", sweep.unreadable as u64)
                }
            },
            Err(e) => Capability::degraded(
                CapabilityKey::S5CaptureExcluded,
                CapabilityState::Denied,
                CapabilityReason::ProbeFailed,
                "EnumWindows",
            ).with_detail(e.clone()),
        }
    }

    fn window_titles(&self) -> (r: Capability)
        ensures
            r@.untimed() == self@.window_titles(),
            stamped(r@),
    {
        match &self.title {
            TitleProbe::Read(Some(_)) => Capability::probed(
                CapabilityKey::S6WindowTitles,
                "GetWindowTextW",
            ),
            TitleProbe::Read(None) => Capability::degraded(
                CapabilityKey::S6WindowTitles,
                CapabilityState::Denied,
                CapabilityReason::ProbeFailed,
                "GetWindowTextW",
            ).with_detail(String::from_str(TITLES_REFUSED)),
            TitleProbe::NoWindow => Capability::degraded(
                CapabilityKey::S6WindowTitles,
                CapabilityState::Unknown,
                CapabilityReason::ProbeFailed,
                "GetTopWindow",
            ).with_detail(String::from_str(TITLES_UNTRIED)),
        }
    }
}

/// Answer every capability from one probe of each. Called at handshake and again on any permission
/// or device change.
pub fn probe_all(probes: &Probes) -> (r: Vec<Capability>)
    ensures
        untimed(r@.map_values(|c: Capability| c@)) == probes@.answers(),
        forall|i: int| 0 <= i < r@.len() ==> stamped((#[trigger] r@[i])@),
{
    let mut out: Vec<Capability> = Vec::new();

    // One call answers two capabilities, and they are deliberately separate keys: enumerating
    // processes and being able to read their images are different powers, and the second is what
    // gates S2.
    out.push(probes.process_list());
    out.push(probes.process_paths());

    // Measured against the collector's own image, which is guaranteed readable, so this answers
    // "can the verification APIs be called at all" independent of any other process's path — that
    // ceiling is `process_paths`, reported above, not this one.
    out.push(probes.signatures());

    // Never `full`, and this is not pessimism. eRender closed the biggest gap — a loopback session
    // on a render endpoint now appears at all, as context. What still does not appear:
    //
    //   * process-loopback activation (AUDIOCLIENT_ACTIVATION_TYPE_PROCESS_LOOPBACK);
    //   * exclusive-mode streams and kernel-streaming clients.
    //
    // Reporting `full` here would mean an interviewer reads "microphone ✓" beside an empty finding
    // list while a class of tool is structurally invisible. An unstated blind spot is a coverage
    // lie; a stated one is a product fact.
    out.push(probes.mic_owners());

    out.push(probes.capture_exclusion());

    // Windows needs no permission for window titles. On macOS this is the capability most often
    // denied, which is exactly why it is a separate key rather than folded into S1.
    out.push(probes.window_titles());

    // A host agent *is* the host machine, so it cannot observe one from outside. Collector C
    // reports the mirror image, and that asymmetry is precisely why A and C pair.
    out.push(Capability::not_applicable(CapabilityKey::HostMachine));

    // ETW is available on Windows immediately, but a sample cadence that can miss a short-lived
    // process is a coverage fact, not an implementation detail.
    out.push(
        Capability::degraded(
            CapabilityKey::RealtimeEvents,
            CapabilityState::Partial,
            CapabilityReason::DegradedPolling,
            "polling",
        ).with_detail(String::from_str(POLLING_ONLY)),
    );

    proof {
        let ghost p = probes@;
        assert(out@[0]@.untimed() == p.process_list());
        assert(out@[1]@.untimed() == p.process_paths());
        assert(out@[2]@.untimed() == p.signatures());
        assert(out@[3]@.untimed() == p.mic_owners());
        assert(out@[4]@.untimed() == p.capture_exclusion());
        assert(out@[5]@.untimed() == p.window_titles());
        assert(untimed(out@.map_values(|c: Capability| c@)) =~= p.answers());
    }
    out
}

/// The coverage report at handshake.
pub fn report(
    session_id: Uuid,
    collector_instance_id: Uuid,
    seq: u64,
    platform: Platform,
    probes: &Probes,
) -> (r: CoverageReport)
    ensures
        exists|capabilities: Seq<CapabilityView>|
            {
                &&& untimed(capabilities) == probes@.answers()
                &&& forall|i: int|
                    0 <= i < capabilities.len() ==> stamped(#[trigger] capabilities[i])
                &&& r@ == #[trigger] CoverageReportView::of(
                    session_id@,
                    collector_instance_id@,
                    seq,
                    CoverageReason::Handshake,
                    platform@,
                    capabilities,
                    r@.ts,
                )
            },
        time::nameable(r@.ts.secs, r@.ts.nanos),
        table::ascending(r@.capabilities),
{
    let capabilities = probe_all(probes);
    let ghost views = capabilities@.map_values(|c: Capability| c@);
    assert forall|i: int| 0 <= i < views.len() implies stamped(#[trigger] views[i]) by {
        assert(stamped(capabilities@[i]@));
    }
    CoverageReport::new(
        session_id,
        collector_instance_id,
        seq,
        CoverageReason::Handshake,
        platform,
        capabilities,
    )
}

// ---------------------------------------------------------------------------------------------
// Laws
// ---------------------------------------------------------------------------------------------

/// Every capability is answered, once.
pub proof fn law_every_key_once(probes: ProbesView, key: CapabilityKey)
    ensures
        exists|i: int| 0 <= i < probes.answers().len() && (#[trigger] probes.answers()[i]).key == key,
        forall|i: int, j: int|
            0 <= i < probes.answers().len() && 0 <= j < probes.answers().len() && (
            #[trigger] probes.answers()[i]).key == (#[trigger] probes.answers()[j]).key ==> i == j,
{
    let all = probes.answers();
    assert(all[0].key == CapabilityKey::S1Processes);
    assert(all[1].key == CapabilityKey::ProcessPaths);
    assert(all[2].key == CapabilityKey::S2Signature);
    assert(all[3].key == CapabilityKey::S3MicOwner);
    assert(all[4].key == CapabilityKey::S5CaptureExcluded);
    assert(all[5].key == CapabilityKey::S6WindowTitles);
    assert(all[6].key == CapabilityKey::HostMachine);
    assert(all[7].key == CapabilityKey::RealtimeEvents);
}

/// The report lists an answer under every capability's name.
pub proof fn law_report_names_every_key(
    probes: ProbesView,
    capabilities: Seq<CapabilityView>,
    key: CapabilityKey,
)
    requires
        untimed(capabilities) == probes.answers(),
    ensures
        ({
            let listed = table::dict(coverage::by_name(capabilities));
            &&& listed.dom().contains(key.name())
            &&& listed[key.name()].key == key
            &&& probes.answers().contains(listed[key.name()].untimed())
        }),
{
    law_every_key_once(probes, key);
    let all = probes.answers();
    let i = choose|i: int| 0 <= i < all.len() && (#[trigger] all[i]).key == key;
    assert(untimed(capabilities)[i].key == capabilities[i].key);
    assert forall|j: int| 0 <= j < capabilities.len() && j != i implies (
    #[trigger] capabilities[j]).key != capabilities[i].key by {
        assert(untimed(capabilities)[j].key == capabilities[j].key);
        assert(all[j].key != all[i].key);
    }
    coverage::law_report_keeps_answers(capabilities, i);
    assert(all[i] == capabilities[i].untimed());
}

/// Every answer that is less than good gives its reason, and every answer but the one that has no
/// meaning for a host agent was probed.
pub proof fn law_answers_are_measured(probes: ProbesView, i: int)
    requires
        0 <= i < probes.answers().len(),
    ensures
        probes.answers()[i].explained(),
        probes.answers()[i].method is Probed <==> probes.answers()[i].key
            != CapabilityKey::HostMachine,
{
}

/// A probe that could not run never reads as full coverage, and microphone coverage never does.
pub proof fn law_no_false_full(probes: ProbesView)
    ensures
        !(probes.mic_owners().state is Full),
        !(probes.signatures().state is Full),
        probes.process_list().state is Full <==> probes.processes is Ok,
        probes.process_paths().state is Full <==> (probes.processes matches Ok(p)
            && process::unreadable_paths(p) == 0),
        probes.capture_exclusion().state is Full <==> (probes.windows matches Ok(w) && w.unreadable
            == 0),
        probes.window_titles().state is Full <==> (probes.title matches Some(t) && t is Some),
{
}

/// What is probed is what was read: nothing of a probe's result is lost on the way to its answer.
pub proof fn law_answers_go_by_the_probes(probes: Probes)
    ensures
        probes.processes matches Ok(p) ==> probes@.processes == Ok::<Seq<ProcessView>, Seq<char>>(
            process::process_views(p@),
        ),
        probes.processes matches Err(e) ==> probes@.processes == Err::<Seq<ProcessView>, Seq<char>>(
            e@,
        ),
        probes.own_image matches Ok(c) ==> probes@.own_image == Ok::<
            (SignatureView, DetailS2View),
            Seq<char>,
        >((c.0@, c.1@)),
        probes.own_image matches Err(e) ==> probes@.own_image == Err::<
            (SignatureView, DetailS2View),
            Seq<char>,
        >(e@),
        probes.sessions matches Ok(n) ==> probes@.sessions == Ok::<(u32, u32), Seq<char>>(n),
        probes.sessions matches Err(e) ==> probes@.sessions == Err::<(u32, u32), Seq<char>>(e@),
        probes.windows matches Ok(w) ==> probes@.windows == Ok::<SweepView, Seq<char>>(w@),
        probes.windows matches Err(e) ==> probes@.windows == Err::<SweepView, Seq<char>>(e@),
        probes.title is NoWindow <==> probes@.title is None,
        probes.title matches TitleProbe::Read(Some(t)) ==> probes@.title == Some(Some(t@)),
        probes.title matches TitleProbe::Read(None) ==> probes@.title == Some(None::<Seq<char>>),
{
}

/// The machine's name for an architecture: two are known, and anything else is `other`.
pub proof fn law_architecture_names(arch: Seq<char>)
    ensures
        arch_name(arch) == "x86_64"@ <==> arch == "x86_64"@,
        arch_name(arch) == "arm64"@ <==> arch == "aarch64"@,
        arch_name(arch) == "other"@ <==> arch != "x86_64"@ && arch != "aarch64"@,
{
    reveal_strlit("x86_64");
    reveal_strlit("arm64");
    reveal_strlit("other");
    reveal_strlit("aarch64");
    assert("x86_64"@.len() == 6 && "arm64"@.len() == 5 && "other"@.len() == 5 && "aarch64"@.len()
        == 7);
    assert("arm64"@[0] != "other"@[0]);
}

/// The platform is reported as it was told, and a version that could not be had is left out whole.
pub proof fn law_platform_is_as_told(version: Option<(String, String)>, arch: Seq<char>)
    ensures
        ({
            let p = platform_view(version, arch);
            &&& p.os == "windows"@
            &&& p.arch == arch_name(arch)
            &&& p.locale is None
            &&& version is None ==> p.os_version is None && p.os_build is None
            &&& version matches Some(v) ==> p.os_version == Some(v.0@) && p.os_build == Some(v.1@)
        }),
{
}

proof fn lemma_one_limit(name: Seq<char>, n: u64)
    ensures
        table::dict(table::put_row(Seq::empty(), name, n)) == map![name => n],
        table::ascending(table::put_row(Seq::<(Seq<char>, u64)>::empty(), name, n)),
{
    let none = Seq::<(Seq<char>, u64)>::empty();
    table::law_put_row(none, name, n);
    assert(table::dict(none) =~= Map::empty());
    assert(table::dict(table::put_row(none, name, n)) =~= map![name => n]);
}

proof fn lemma_two_limits(a: Seq<char>, m: u64, b: Seq<char>, n: u64)
    ensures
        table::dict(table::put_row(table::put_row(Seq::empty(), a, m), b, n)) == map![
            a => m,
            b => n,
        ],
{
    lemma_one_limit(a, m);
    let one = table::put_row(Seq::<(Seq<char>, u64)>::empty(), a, m);
    table::law_put_row(one, b, n);
    assert(table::dict(table::put_row(one, b, n)) =~= map![a => m, b => n]);
}

/// Listing processes works or it does not: with a list, it says how many it holds; without one, it is
/// denied, and says why.
pub proof fn law_process_list_answer(probes: ProbesView)
    ensures
        ({
            let c = probes.process_list();
            &&& c.key is S1Processes
            &&& c.platform_api == Some("CreateToolhelp32Snapshot"@)
            &&& probes.processes matches Ok(p) ==> {
                &&& c.state is Full && c.reason is None && c.detail is None
                &&& table::dict(c.limits) == map!["processes_total"@ => p.len() as u64]
            }
            &&& probes.processes matches Err(e) ==> {
                &&& c.state is Denied && c.reason == Some(CapabilityReason::ProbeFailed)
                &&& c.detail == Some(e) && c.limits.len() == 0
            }
        }),
{
    if let Ok(p) = probes.processes {
        lemma_one_limit("processes_total"@, p.len() as u64);
    }
}

/// Reading images is full coverage only where every one of them could be read; otherwise it is partial
/// and gives both numbers, and where there is no list it is unknown.
pub proof fn law_process_paths_answer(probes: ProbesView)
    ensures
        ({
            let c = probes.process_paths();
            &&& c.key is ProcessPaths
            &&& c.platform_api == Some("QueryFullProcessImageNameW"@)
            &&& c.state is Full <==> (probes.processes matches Ok(p) && forall|i: int|
                0 <= i < p.len() ==> (#[trigger] p[i]).path is Readable)
            &&& c.state is Unknown <==> probes.processes is Err
            &&& c.state is Full || c.state is Unknown || c.state is Partial
            &&& c.state is Full ==> c.reason is None && c.detail is None && c.limits.len() == 0
            &&& c.state is Unknown ==> c.reason == Some(CapabilityReason::ProbeFailed)
                && c.detail is None && c.limits.len() == 0
            &&& c.state is Partial ==> {
                let p = probes.processes->Ok_0;
                &&& c.reason == Some(CapabilityReason::AccessDenied)
                &&& c.detail == Some(PATHS_CAPPED@)
                &&& table::dict(c.limits) == map![
                    "processes_total"@ => p.len() as u64,
                    "paths_unreadable"@ => process::unreadable_paths(p) as u64,
                ]
            }
        }),
{
    if let Ok(p) = probes.processes {
        if p.len() > 0 {
            process::law_unreadable_images_are_counted(p, p[0]);
        } else {
            assert(p =~= Seq::empty());
            reveal(Seq::filter);
        }
        lemma_two_limits(
            "processes_total"@,
            p.len() as u64,
            "paths_unreadable"@,
            process::unreadable_paths(p) as u64,
        );
    }
}

/// Verification is measured on the collector's own image: partial where it gave a hash, denied where
/// it gave none, unknown where the image could not be told.
pub proof fn law_signatures_answer(probes: ProbesView)
    ensures
        ({
            let c = probes.signatures();
            &&& c.key is S2Signature
            &&& c.limits.len() == 0
            &&& c.state is Partial <==> (probes.own_image matches Ok(o) && o.1.hash_source
                != "none"@)
            &&& c.state is Denied <==> (probes.own_image matches Ok(o) && o.1.hash_source
                == "none"@)
            &&& c.state is Unknown <==> probes.own_image is Err
            &&& c.state is Partial ==> c.reason == Some(CapabilityReason::CollectorScope)
                && c.detail == Some(
                    "Hash and signer are only produced for images \
                    process_paths can read. A protected or cross-bitness process is capped there, not here. \
                    Revocation is never checked, to keep verification off the network."@,
                )
            &&& c.state is Denied ==> c.reason == Some(CapabilityReason::ProbeFailed) && c.detail
                == Some(
                "Could not hash the collector's own image: "@ + probes.own_image->Ok_0.0.debug(),
            )
            &&& c.state is Unknown ==> c.reason == Some(CapabilityReason::ProbeFailed) && c.detail
                == Some(probes.own_image->Err_0) && c.platform_api == Some("current_exe"@)
            &&& probes.own_image is Ok ==> c.platform_api == Some(
                "WinVerifyTrust + CryptCATAdminCalcHashFromFileHandle2"@,
            )
        }),
{
}

/// Microphone coverage gives the number of sessions on either side, apart from each other.
pub proof fn law_mic_owners_answer(probes: ProbesView)
    ensures
        ({
            let c = probes.mic_owners();
            &&& c.key is S3MicOwner
            &&& c.platform_api == Some("IAudioSessionManager2::GetSessionEnumerator"@)
            &&& probes.sessions matches Ok(n) ==> {
                &&& c.state is Partial && c.reason == Some(CapabilityReason::CollectorScope)
                &&& c.detail == Some(
                    "Capture and render endpoints are both enumerated. A \
                    render-endpoint session is shown as context only, never as a microphone finding — WASAPI has \
                    no property that distinguishes a loopback capture from ordinary playback. Process-loopback \
                    activation, exclusive-mode streams and kernel-streaming clients are not enumerated and will \
                    not appear at all."@,
                )
                &&& table::dict(c.limits) == map![
                    "capture_sessions_visible"@ => n.0 as u64,
                    "render_sessions_visible"@ => n.1 as u64,
                ]
            }
            &&& probes.sessions matches Err(e) ==> {
                &&& c.state is Denied && c.reason == Some(CapabilityReason::ProbeFailed)
                &&& c.detail == Some(e) && c.limits.len() == 0
            }
        }),
{
    if let Ok(n) = probes.sessions {
        lemma_two_limits(
            "capture_sessions_visible"@,
            n.0 as u64,
            "render_sessions_visible"@,
            n.1 as u64,
        );
    }
}

/// Capture exclusion is full coverage only where every window could be read; otherwise it is partial
/// and says how many could not, and a sweep that failed is denied.
pub proof fn law_capture_exclusion_answer(probes: ProbesView)
    ensures
        ({
            let c = probes.capture_exclusion();
            &&& c.key is S5CaptureExcluded
            &&& (probes.windows matches Ok(w) && w.unreadable == 0) ==> {
                let w = probes.windows->Ok_0;
                &&& c.state is Full && c.reason is None && c.detail is None
                &&& table::dict(c.limits) == map!["windows_total"@ => w.total as u64]
            }
            &&& (probes.windows matches Ok(w) && w.unreadable > 0) ==> {
                let w = probes.windows->Ok_0;
                &&& c.state is Partial && c.reason == Some(CapabilityReason::AccessDenied)
                &&& c.detail == Some("Display affinity unreadable for some top-level windows."@)
                &&& table::dict(c.limits) == map![
                    "windows_total"@ => w.total as u64,
                    "windows_unreadable"@ => w.unreadable as u64,
                ]
            }
            &&& probes.windows is Ok ==> c.platform_api == Some("GetWindowDisplayAffinity"@)
            &&& probes.windows matches Err(e) ==> {
                &&& c.state is Denied && c.reason == Some(CapabilityReason::ProbeFailed)
                &&& c.detail == Some(e) && c.limits.len() == 0
                &&& c.platform_api == Some("EnumWindows"@)
            }
        }),
{
    if let Ok(w) = probes.windows {
        lemma_one_limit("windows_total"@, w.total as u64);
        lemma_two_limits(
            "windows_total"@,
            w.total as u64,
            "windows_unreadable"@,
            w.unreadable as u64,
        );
    }
}

/// Titles can be read where one was, cannot where one was refused, and nothing is known where there
/// was none to read.
pub proof fn law_window_titles_answer(probes: ProbesView)
    ensures
        ({
            let c = probes.window_titles();
            &&& c.key is S6WindowTitles
            &&& c.limits.len() == 0
            &&& c.state is Full <==> (probes.title matches Some(t) && t is Some)
            &&& c.state is Denied <==> (probes.title matches Some(t) && t is None)
            &&& c.state is Unknown <==> probes.title is None
            &&& c.state is Full ==> c.reason is None && c.detail is None
            &&& !(c.state is Full) ==> c.reason == Some(CapabilityReason::ProbeFailed)
            &&& c.state is Denied ==> c.detail == Some(
                "The title of an open window could not be read."@,
            )
            &&& c.state is Unknown ==> c.detail == Some("No window was open to read a title from."@)
            &&& c.platform_api == Some(
                if probes.title is None {
                    "GetTopWindow"@
                } else {
                    "GetWindowTextW"@
                },
            )
        }),
{
}

/// All eight answers are in the report's list, and the two that ask no API say what the collector is
/// and does.
pub proof fn law_what_is_answered(probes: ProbesView)
    ensures
        probes.answers().len() == 8,
        probes.answers().contains(probes.process_list()),
        probes.answers().contains(probes.process_paths()),
        probes.answers().contains(probes.signatures()),
        probes.answers().contains(probes.mic_owners()),
        probes.answers().contains(probes.capture_exclusion()),
        probes.answers().contains(probes.window_titles()),
        exists|i: int|
            0 <= i < 8 && {
                let c = #[trigger] probes.answers()[i];
                &&& c.key is HostMachine && c.state is NotApplicable && c.method is Declared
                &&& c.reason is None && c.detail is None && c.platform_api is None
            },
        exists|i: int|
            0 <= i < 8 && {
                let c = #[trigger] probes.answers()[i];
                &&& c.key is RealtimeEvents && c.state is Partial
                &&& c.reason == Some(CapabilityReason::DegradedPolling)
                &&& c.platform_api == Some("polling"@)
                &&& c.detail == Some(POLLING_ONLY@)
            },
{
    let all = probes.answers();
    assert(all[0] == probes.process_list());
    assert(all[1] == probes.process_paths());
    assert(all[2] == probes.signatures());
    assert(all[3] == probes.mic_owners());
    assert(all[4] == probes.capture_exclusion());
    assert(all[5] == probes.window_titles());
    assert(all[6].key is HostMachine);
    assert(all[7].key is RealtimeEvents);
}

/// Taking the time off an answer takes off nothing else, from none of them; an answer says when it was
/// got exactly when it was probed.
pub proof fn law_untimed_answers(capabilities: Seq<CapabilityView>, i: int, c: CapabilityView)
    ensures
        untimed(capabilities).len() == capabilities.len(),
        0 <= i < capabilities.len() ==> untimed(capabilities)[i] == (CapabilityView {
            checked_at: None,
            ..capabilities[i]
        }),
        c.method is Probed ==> (stamped(c) <==> c.checked_at is Some),
        !(c.method is Probed) ==> (stamped(c) <==> c.checked_at is None),
{
}

} // verus!
