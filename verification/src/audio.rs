//! S3 — which process holds an active microphone capture session.
//!
//! The only signal that catches audio-only assistants. They render no window and set no capture
//! flag, but they cannot listen to the candidate without opening a capture session, and that
//! session names its owning pid.
//!
//! # The rule
//!
//! **Enumerate sessions. Never open a capture stream.** Enumeration is a read of the session list
//! and is silent. Opening a stream trips the Windows microphone consent prompt, and would mean a
//! transparency product had itself started listening to the candidate.
//!
//! # The path
//!
//! ```text
//! CoCreateInstance(MMDeviceEnumerator)
//!   -> IMMDeviceEnumerator::EnumAudioEndpoints(eCapture, DEVICE_STATE_ACTIVE)
//!   -> IMMDevice::Activate::<IAudioSessionManager2>()
//!   -> IAudioSessionManager2::GetSessionEnumerator()
//!   -> IAudioSessionControl2::{GetState, GetProcessId, IsSystemSoundsSession}
//! ```
//!
//! The caller walks that path and hands over what each step gave, as an [`AudioReading`]; this
//! module decides what it means. Every active capture endpoint is walked, not just the default one:
//! a candidate routing audio through a second or virtual device would otherwise be invisible.
//!
//! # The eRender pass
//!
//! A loopback-capturing tool — recording the *interviewer* — opens its session on a **render**
//! (playback) endpoint via `AUDCLNT_STREAMFLAGS_LOOPBACK`, not a capture endpoint. Without also
//! walking `eRender`, that process holds no session on anything this probe looks at and is
//! invisible — not degraded, not tier 3, simply absent.
//!
//! This does **not** turn into a mic-owner detector. `IAudioSessionControl2` exposes no property
//! that tells a loopback-capturing session apart from an ordinary one playing music: both are just
//! "this pid owns a session on a render endpoint, state active." So a render-endpoint row is emitted
//! as context only — [`DetailS3::render_session`] is the only constructor that can produce one, and
//! it is the only one that forces `holds_microphone: false`. What eRender buys is visibility, not
//! classification: the process that was invisible now appears in front of the interviewer, who can
//! read the process name and decide for themselves.

use std::collections::HashMap;

use vstd::prelude::*;
use vstd::utf8::*;

use crate::affinity::{SweepView, WindowSweep};
use crate::detail::{DetailS3, DetailS3View, Observation, ObservationView};
use crate::digest;
use crate::digest::hmac_sha256_code;
use crate::envelope::{
    AudioDevice, AudioDeviceView, DeviceKind, ImagePath, ImagePathView, Subject, SubjectView,
};
use crate::ident::Uuid;
use crate::process;
use crate::process::{ProcessInfo, ProcessView};
use crate::text;
use crate::text::{copy_text, hex, non_empty, push_hex};

verus! {

broadcast use vstd::std_specs::hash::group_hash_axioms;

/// Someone already initialised this thread with a different apartment model.
pub const RPC_E_CHANGED_MODE: i32 = -2_147_417_850;

pub const AUDIO_SESSION_STATE_INACTIVE: i32 = 0;

pub const AUDIO_SESSION_STATE_ACTIVE: i32 = 1;

pub const AUDIO_SESSION_STATE_EXPIRED: i32 = 2;

/// Whether COM is usable on a thread, from what initialising it returned. `RPC_E_CHANGED_MODE` is
/// not a failure here, since only in-proc objects are ever read.
pub fn com_ready(hr: i32) -> (b: bool)
    ensures
        b == (hr >= 0 || hr == RPC_E_CHANGED_MODE),
        b == (hr >= 0 || hr == -2_147_417_850),
{
    hr >= 0 || hr == RPC_E_CHANGED_MODE
}

#[derive(Debug, Clone, Copy, PartialEq, Eq, Structural)]
pub enum Flow {
    Capture,
    Render,
}

#[derive(Debug, Clone, Copy, PartialEq, Eq, Structural)]
pub enum SessionState {
    Active,
    Inactive,
    Expired,
    Unknown,
}

impl SessionState {
    pub open spec fn name(self) -> Seq<char> {
        match self {
            SessionState::Active => "active"@,
            SessionState::Inactive => "inactive"@,
            SessionState::Expired => "expired"@,
            SessionState::Unknown => "unknown"@,
        }
    }

    pub fn as_str(self) -> (r: &'static str)
        ensures
            r@ == self.name(),
    {
        match self {
            SessionState::Active => "active",
            SessionState::Inactive => "inactive",
            SessionState::Expired => "expired",
            SessionState::Unknown => "unknown",
        }
    }

    /// The state for the number that the session gave, if it gave one.
    pub open spec fn of(raw: Option<i32>) -> SessionState {
        if raw == Some(AUDIO_SESSION_STATE_ACTIVE) {
            SessionState::Active
        } else if raw == Some(AUDIO_SESSION_STATE_INACTIVE) {
            SessionState::Inactive
        } else if raw == Some(AUDIO_SESSION_STATE_EXPIRED) {
            SessionState::Expired
        } else {
            SessionState::Unknown
        }
    }
}

/// The state for the number that the session gave, if it gave one.
pub fn session_state(raw: Option<i32>) -> (r: SessionState)
    ensures
        r == SessionState::of(raw),
{
    match raw {
        Some(n) => if n == AUDIO_SESSION_STATE_ACTIVE {
            SessionState::Active
        } else if n == AUDIO_SESSION_STATE_INACTIVE {
            SessionState::Inactive
        } else if n == AUDIO_SESSION_STATE_EXPIRED {
            SessionState::Expired
        } else {
            SessionState::Unknown
        },
        None => SessionState::Unknown,
    }
}

/// Read `IsSystemSoundsSession` as the tri-state HRESULT it actually is.
///
/// `S_OK` (0) means yes, `S_FALSE` (1) means no. Both are success codes, so a wrapper that only
/// tells success from failure throws the answer away — and getting it wrong makes Windows' own
/// system sounds appear as findings.
pub fn is_system_sounds(hr: i32) -> (b: bool)
    ensures
        b == (hr == 0),
{
    hr == 0
}

/// A device's friendly name, where its property store gave one that is not empty.
pub fn friendly_name(value: &Option<String>) -> (r: Option<String>)
    ensures
        text::opt_text(r) == friendly(text::opt_text(*value)),
{
    match value {
        Some(s) => non_empty(s.clone()),
        None => None,
    }
}

pub open spec fn friendly(value: Option<Seq<char>>) -> Option<Seq<char>> {
    match value {
        Some(s) => if s.len() == 0 {
            None
        } else {
            Some(s)
        },
        None => None,
    }
}

/// An HRESULT as messages show it: `0x` and eight upper-case hexadecimal digits.
pub open spec fn hresult_text(hr: i32) -> Seq<char> {
    "0x"@ + text::padded(text::hexadecimal(hr as u32 as nat, true), 8)
}

// ---------------------------------------------------------------------------------------------
// What the walk gave
// ---------------------------------------------------------------------------------------------

/// What one session gave when it was asked.
#[derive(Debug, Clone, Copy)]
pub struct SessionReading {
    pub state: Option<i32>,
    pub pid: Option<u32>,
    /// The raw HRESULT of `IsSystemSoundsSession`.
    pub system_sounds: i32,
}

/// What one endpoint gave when it was asked.
#[derive(Debug)]
pub enum DeviceReading {
    /// Some step up to the session list failed.
    Failed,
    Opened {
        native_id: String,
        name: Option<String>,
        /// Nothing for a session that could not be had.
        sessions: Vec<Option<SessionReading>>,
    },
}

/// What the active endpoints of one flow gave.
#[derive(Debug)]
pub enum FlowReading {
    /// The endpoint collection itself could not be had.
    Failed,
    Devices(Vec<DeviceReading>),
}

/// What the whole walk gave.
#[derive(Debug)]
pub enum AudioReading {
    /// COM could not be initialised.
    NotReady,
    /// The device enumerator could not be made; the HRESULT.
    NoEnumerator(i32),
    Endpoints { capture: FlowReading, render: FlowReading },
}

/// One process holding one session on one device — capture or render. See the module doc's "eRender
/// pass" section for why render is here at all and why it never implies mic possession.
#[derive(Debug, Clone)]
pub struct MicHolder {
    pub pid: u32,
    pub device_native_id: String,
    pub device_name: Option<String>,
    pub state: SessionState,
    pub is_system_sounds: bool,
    pub flow: Flow,
}

#[verifier::ext_equal]
pub struct MicHolderView {
    pub pid: u32,
    pub device_native_id: Seq<char>,
    pub device_name: Option<Seq<char>>,
    pub state: SessionState,
    pub is_system_sounds: bool,
    pub flow: Flow,
}

impl View for MicHolder {
    type V = MicHolderView;

    open spec fn view(&self) -> MicHolderView {
        MicHolderView {
            pid: self.pid,
            device_native_id: self.device_native_id@,
            device_name: text::opt_text(self.device_name),
            state: self.state,
            is_system_sounds: self.is_system_sounds,
            flow: self.flow,
        }
    }
}

pub open spec fn holder_views(holders: Seq<MicHolder>) -> Seq<MicHolderView> {
    holders.map_values(|h: MicHolder| h@)
}

/// Whether a session makes a row: it could be had, it is not dead, and it names its owner.
pub open spec fn live(s: Option<SessionReading>) -> bool {
    s is Some && !(SessionState::of(s.unwrap().state) is Expired) && s.unwrap().pid is Some
}

/// The rows for the sessions of one device, in order.
pub open spec fn session_holders(
    native_id: Seq<char>,
    name: Option<Seq<char>>,
    flow: Flow,
    sessions: Seq<Option<SessionReading>>,
) -> Seq<MicHolderView> {
    sessions.filter(|s: Option<SessionReading>| live(s)).map_values(
        |s: Option<SessionReading>|
            MicHolderView {
                pid: s.unwrap().pid.unwrap(),
                device_native_id: native_id,
                device_name: name,
                state: SessionState::of(s.unwrap().state),
                is_system_sounds: s.unwrap().system_sounds == 0,
                flow,
            },
    )
}

impl DeviceReading {
    pub open spec fn holders(self, flow: Flow) -> Seq<MicHolderView> {
        match self {
            DeviceReading::Failed => Seq::empty(),
            DeviceReading::Opened { native_id, name, sessions } => session_holders(
                native_id@,
                friendly(text::opt_text(name)),
                flow,
                sessions@,
            ),
        }
    }
}

/// The rows for devices, in order.
pub open spec fn device_holders(devices: Seq<DeviceReading>, flow: Flow) -> Seq<MicHolderView>
    decreases devices.len(),
{
    if devices.len() == 0 {
        Seq::empty()
    } else {
        device_holders(devices.drop_last(), flow) + devices.last().holders(flow)
    }
}

/// How many devices failed.
pub open spec fn device_failures(devices: Seq<DeviceReading>) -> nat {
    devices.filter(|d: DeviceReading| d is Failed).len()
}

impl FlowReading {
    pub open spec fn holders(self, flow: Flow) -> Seq<MicHolderView> {
        match self {
            FlowReading::Failed => Seq::empty(),
            FlowReading::Devices(devices) => device_holders(devices@, flow),
        }
    }

    /// A flow that failed as a whole counts like one device that did.
    pub open spec fn failures(self) -> nat {
        match self {
            FlowReading::Failed => 1,
            FlowReading::Devices(devices) => device_failures(devices@),
        }
    }

    /// How many failures there can be at most.
    pub open spec fn size(self) -> nat {
        match self {
            FlowReading::Failed => 1,
            FlowReading::Devices(devices) => devices@.len(),
        }
    }
}

/// What an enumeration came to: rows and a number of failures, or a message.
pub open spec fn enumerated_view(e: Result<(Vec<MicHolder>, u32), String>) -> Result<
    (Seq<MicHolderView>, u32),
    Seq<char>,
> {
    match e {
        Ok(found) => Ok((holder_views(found.0@), found.1)),
        Err(message) => Err(message@),
    }
}

impl AudioReading {
    pub open spec fn enumerated(self) -> Result<(Seq<MicHolderView>, u32), Seq<char>> {
        match self {
            AudioReading::NotReady => Err("CoInitializeEx failed"@),
            AudioReading::NoEnumerator(hr) => Err(
                "CoCreateInstance(MMDeviceEnumerator): "@ + hresult_text(hr),
            ),
            AudioReading::Endpoints { capture, render } => Ok(
                (
                    capture.holders(Flow::Capture) + render.holders(Flow::Render),
                    (capture.failures() + render.failures()) as u32,
                ),
            ),
        }
    }
}

/// Add the rows for one device. Returns whether its sessions could be listed at all.
pub fn scan_device(device: &DeviceReading, flow: Flow, out: &mut Vec<MicHolder>) -> (ok: bool)
    ensures
        ok == !(device is Failed),
        holder_views(final(out)@) == holder_views(old(out)@) + device.holders(flow),
{
    let ghost start = holder_views(out@);
    match device {
        DeviceReading::Failed => {
            assert(holder_views(out@) =~= start + device.holders(flow));
            false
        },
        DeviceReading::Opened { native_id, name, sessions } => {
            let device_name = friendly_name(name);
            let ghost shown = text::opt_text(device_name);
            let mut i: usize = 0;
            proof {
                reveal(Seq::filter);
                assert(sessions@.take(0) =~= Seq::<Option<SessionReading>>::empty());
                assert(session_holders(native_id@, shown, flow, sessions@.take(0)) =~= Seq::<
                    MicHolderView,
                >::empty());
                assert(start + Seq::<MicHolderView>::empty() =~= start);
            }
            while i < sessions.len()
                invariant
                    i <= sessions@.len(),
                    shown == text::opt_text(device_name),
                    holder_views(out@) == start + session_holders(
                        native_id@,
                        shown,
                        flow,
                        sessions@.take(i as int),
                    ),
                decreases sessions@.len() - i,
            {
                let ghost before = out@;
                let ghost now = sessions@.take(i + 1);
                proof {
                    reveal(Seq::filter);
                    assert(now.drop_last() =~= sessions@.take(i as int));
                    assert(now.last() == sessions@[i as int]);
                }
                if let Some(s) = &sessions[i] {
                    let state = session_state(s.state);
                    // Expired sessions are dead; reporting them as mic holders would be a lie.
                    // Inactive ones are kept deliberately: a session lingers inactive after a tool
                    // stops listening, and that interval is itself worth showing.
                    if state != SessionState::Expired {
                        if let Some(pid) = s.pid {
                            out.push(
                                MicHolder {
                                    pid,
                                    device_native_id: native_id.clone(),
                                    device_name: copy_text(&device_name),
                                    state,
                                    is_system_sounds: is_system_sounds(s.system_sounds),
                                    flow,
                                },
                            );
                            assert(holder_views(out@) =~= holder_views(before).push(out@.last()@));
                        }
                    }
                }
                proof {
                    let past = session_holders(native_id@, shown, flow, now.drop_last());
                    let all = session_holders(native_id@, shown, flow, now);
                    if live(now.last()) {
                        assert(all =~= past.push(all.last()));
                    } else {
                        assert(all =~= past);
                    }
                    assert(holder_views(out@) =~= start + all);
                }
                i = i + 1;
            }
            assert(sessions@.take(i as int) =~= sessions@);
            true
        },
    }
}

/// Add the rows for the devices of one flow, and return how many failed.
fn scan_flow(reading: &FlowReading, flow: Flow, out: &mut Vec<MicHolder>) -> (failed: u32)
    requires
        reading.size() <= u32::MAX,
    ensures
        failed == reading.failures(),
        failed <= reading.size(),
        holder_views(final(out)@) == holder_views(old(out)@) + reading.holders(flow),
{
    let ghost start = holder_views(out@);
    match reading {
        // A flow-level failure (not a single device — the whole endpoint collection) is counted the
        // same way a single failed device is. A render-endpoint outage must not cost the
        // capture-endpoint results already gathered.
        FlowReading::Failed => {
            assert(holder_views(out@) =~= start + reading.holders(flow));
            1
        },
        FlowReading::Devices(devices) => {
            let mut failed: u32 = 0;
            let mut i: usize = 0;
            proof {
                reveal(Seq::filter);
                assert(devices@.take(0) =~= Seq::<DeviceReading>::empty());
                assert(start + device_holders(devices@.take(0), flow) =~= start);
            }
            while i < devices.len()
                invariant
                    failed <= i <= devices@.len() <= u32::MAX,
                    failed == device_failures(devices@.take(i as int)),
                    holder_views(out@) == start + device_holders(devices@.take(i as int), flow),
                decreases devices@.len() - i,
            {
                let ghost so_far = device_holders(devices@.take(i as int), flow);
                proof {
                    reveal(Seq::filter);
                    let now = devices@.take(i + 1);
                    assert(now.drop_last() =~= devices@.take(i as int));
                    assert(now.last() == devices@[i as int]);
                }
                if !scan_device(&devices[i], flow, out) {
                    failed = failed + 1;
                }
                assert((start + so_far) + devices@[i as int].holders(flow) =~= start + (so_far
                    + devices@[i as int].holders(flow)));
                i = i + 1;
            }
            assert(devices@.take(i as int) =~= devices@);
            failed
        },
    }
}

/// The session owners across every active capture endpoint, and — see the module doc — every active
/// render endpoint too.
///
/// An error only when the *whole* probe could not run. A single device that fails is skipped and
/// counted — a partial answer is still an answer, but the caller must mark the sample incomplete so
/// it cannot read as a clean machine.
pub fn enumerate(reading: &AudioReading) -> (r: Result<(Vec<MicHolder>, u32), String>)
    requires
        reading matches AudioReading::Endpoints { capture, render } ==> capture.size()
            + render.size() <= u32::MAX,
    ensures
        enumerated_view(r) == reading.enumerated(),
        r matches Ok(found) ==> {
            &&& reading is Endpoints
            &&& found.1 == reading->capture.failures() + reading->render.failures()
        },
{
    match reading {
        AudioReading::NotReady => Err(String::from_str("CoInitializeEx failed")),
        AudioReading::NoEnumerator(hr) => {
            let mut message = String::from_str("CoCreateInstance(MMDeviceEnumerator): ");
            let ghost call = message@;
            message.append("0x");
            push_hex(&mut message, *hr as u32 as u64, 8, true);
            assert(message@ =~= call + hresult_text(*hr));
            Err(message)
        },
        AudioReading::Endpoints { capture, render } => {
            let mut holders: Vec<MicHolder> = Vec::new();
            assert(holder_views(holders@) =~= Seq::<MicHolderView>::empty());
            let capture_failed: u32 = scan_flow(capture, Flow::Capture, &mut holders);
            let render_failed: u32 = scan_flow(render, Flow::Render, &mut holders);
            assert(holder_views(holders@) =~= capture.holders(Flow::Capture) + render.holders(
                Flow::Render,
            ));
            Ok((holders, capture_failed + render_failed))
        },
    }
}

// ---------------------------------------------------------------------------------------------
// Observations
// ---------------------------------------------------------------------------------------------

/// The identifier of a device within a session: the first half of a keyed digest, in hexadecimal.
pub open spec fn scoped_id(native_id: Seq<char>, session_id: Seq<u8>) -> Seq<char> {
    text::hex_of(digest::hmac_sha256(session_id, encode_utf8(native_id)).take(16))
}

/// Session-scoped device identifier.
///
/// **Never the raw endpoint id.** The MMDevice string embeds a per-machine GUID that is a stable
/// cross-session hardware fingerprint; shipping it would turn a proctoring signal into a tracking
/// one, and the schema rejects it outright. `HMAC-SHA256(native_id, key = session_id)` truncated to
/// 32 hex is stable *within* an interview — enough to correlate two sessions on one device — and
/// useless outside it.
pub fn scoped_device_id(native_id: &str, session_id: &Uuid) -> (r: String)
    ensures
        r@ == scoped_id(native_id@, session_id@),
        r@.len() == 32,
{
    let code = hmac_sha256_code(session_id.bytes.as_slice(), native_id.as_bytes());
    assert(code@.subrange(0, 16) =~= code@.take(16));
    hex(vstd::slice::slice_subrange(code.as_slice(), 0, 16))
}

/// Classify the endpoint. Deliberately conservative: `unknown` rather than a guess, because
/// "virtual audio device" is a tier-3 finding and an inference dressed as an observation is exactly
/// what the coverage model exists to prevent.
pub fn device_kind(_native_id: &str) -> (r: DeviceKind)
    ensures
        r == DeviceKind::Unknown,
{
    DeviceKind::Unknown
}

/// The last process of a list with a pid.
pub open spec fn last_with_pid(processes: Seq<ProcessView>, pid: u32) -> Option<ProcessView>
    decreases processes.len(),
{
    if processes.len() == 0 {
        None
    } else if processes.last().pid == pid {
        Some(processes.last())
    } else {
        last_with_pid(processes.drop_last(), pid)
    }
}

impl MicHolderView {
    /// The owner, as the process list tells it. The session is live, so an owner that the list does
    /// not hold exists and could not be opened.
    pub open spec fn owner(self, processes: Seq<ProcessView>) -> SubjectView {
        match last_with_pid(processes, self.pid) {
            Some(p) => p.subject(),
            None => SubjectView::found(self.pid, None, ImagePathView::AccessDenied),
        }
    }

    pub open spec fn detail(self, windows: SweepView, session_id: Seq<u8>) -> DetailS3View {
        let has_window = windows.pids_with_windows.contains(self.pid);
        let has_visible_window = windows.pids_with_visible_windows.contains(self.pid);
        let device = Some(
            AudioDeviceView::scoped(
                scoped_id(self.device_native_id, session_id),
                self.device_name,
                DeviceKind::Unknown,
            ),
        );
        match self.flow {
            Flow::Capture => DetailS3View {
                holds_microphone: true,
                has_window,
                has_visible_window,
                device,
                session_state: self.state.name(),
                is_system_sounds: self.is_system_sounds,
                pre_existing: None,
                endpoint_flow: "capture"@,
            },
            Flow::Render => DetailS3View::rendering(
                has_window,
                has_visible_window,
                device,
                self.state.name(),
                self.is_system_sounds,
                None,
            ),
        }
    }

    pub open spec fn observed(
        self,
        windows: SweepView,
        processes: Seq<ProcessView>,
        session_id: Seq<u8>,
    ) -> ObservationView {
        ObservationView::Microphone {
            subject: self.owner(processes).windowed(windows.pids_with_windows.contains(self.pid)),
            detail: self.detail(windows, session_id),
        }
    }
}

/// The rows' observations, in order.
pub open spec fn observed_holders(
    holders: Seq<MicHolderView>,
    windows: SweepView,
    processes: Seq<ProcessView>,
    session_id: Seq<u8>,
) -> Seq<ObservationView> {
    holders.map_values(|h: MicHolderView| h.observed(windows, processes, session_id))
}

/// Where in a list the last process with each pid stands.
fn index_by_pid(processes: &[ProcessInfo]) -> (r: HashMap<u32, usize>)
    ensures
        forall|pid: u32| #[trigger]
            r@.dom().contains(pid) ==> r@[pid] < processes@.len() && last_with_pid(
                process::process_views(processes@),
                pid,
            ) == Some(processes@[r@[pid] as int]@),
        forall|pid: u32|
            !#[trigger] r@.dom().contains(pid) ==> last_with_pid(
                process::process_views(processes@),
                pid,
            ) is None,
{
    let ghost views = process::process_views(processes@);
    let mut by_pid: HashMap<u32, usize> = HashMap::new();
    let mut i: usize = 0;
    while i < processes.len()
        invariant
            i <= processes@.len(),
            views == process::process_views(processes@),
            forall|pid: u32| #[trigger]
                by_pid@.dom().contains(pid) ==> by_pid@[pid] < i && last_with_pid(
                    views.take(i as int),
                    pid,
                ) == Some(processes@[by_pid@[pid] as int]@),
            forall|pid: u32|
                !#[trigger] by_pid@.dom().contains(pid) ==> last_with_pid(
                    views.take(i as int),
                    pid,
                ) is None,
        decreases processes@.len() - i,
    {
        proof {
            let now = views.take(i + 1);
            assert(now.drop_last() =~= views.take(i as int));
            assert(now.last() == processes@[i as int]@);
        }
        by_pid.insert(processes[i].pid, i);
        i = i + 1;
    }
    assert(views.take(i as int) =~= views);
    by_pid
}

/// Build the S3 observations from what [`enumerate`] gave.
///
/// `windows` is passed in rather than re-swept so that `has_window` comes from the same cycle as
/// the microphone reading. That cross-reference is the whole signal: a mic holder with **no
/// window** is the audio-assistant signature, while a meeting client holds the mic and has one.
pub fn probe(
    windows: &WindowSweep,
    processes: &[ProcessInfo],
    session_id: &Uuid,
    enumerated: Result<(Vec<MicHolder>, u32), String>,
) -> (r: Result<(Vec<Observation>, u32), String>)
    ensures
        (match r {
            Ok(found) => Ok((found.0@.map_values(|o: Observation| o@), found.1)),
            Err(message) => Err(message@),
        }) == (match enumerated_view(enumerated) {
            Ok(found) => Ok(
                (
                    observed_holders(
                        found.0,
                        windows@,
                        process::process_views(processes@),
                        session_id@,
                    ),
                    found.1,
                ),
            ),
            Err(message) => Err(message),
        }),
{
    let (holders, failed_devices) = match enumerated {
        Ok(found) => found,
        Err(message) => {
            return Err(message);
        },
    };
    let ghost views = process::process_views(processes@);
    let ghost rows = holder_views(holders@);
    let ghost all = observed_holders(rows, windows@, views, session_id@);

    let by_pid = index_by_pid(processes);
    let mut out: Vec<Observation> = Vec::new();
    assert(out@.map_values(|o: Observation| o@) =~= all.take(0));

    for h in it: holders
        invariant
            views == process::process_views(processes@),
            rows == holder_views(it.seq()),
            all == observed_holders(rows, windows@, views, session_id@),
            out@.map_values(|o: Observation| o@) == all.take(it.index() as int),
            forall|pid: u32| #[trigger]
                by_pid@.dom().contains(pid) ==> by_pid@[pid] < processes@.len() && last_with_pid(
                    views,
                    pid,
                ) == Some(processes@[by_pid@[pid] as int]@),
            forall|pid: u32|
                !#[trigger] by_pid@.dom().contains(pid) ==> last_with_pid(views, pid) is None,
    {
        let ghost before = out@;
        let ghost row = h@;
        assert(rows[it.index() as int] == row);
        let has_window = windows.pids_with_windows.contains(&h.pid);
        let has_visible_window = windows.pids_with_visible_windows.contains(&h.pid);

        let subject = match by_pid.get(&h.pid) {
            Some(i) => processes[*i].to_subject(),
            // A session whose process could not be resolved. `access_denied` rather than `exited`:
            // the session is live, so the process exists — it simply could not be opened, which is
            // the non-elevated case and a coverage fact, not an absence.
            None => Subject::new(h.pid, None, ImagePath::AccessDenied),
        };

        let device = Some(
            AudioDevice::session_scoped(
                scoped_device_id(h.device_native_id.as_str(), session_id),
                h.device_name,
                device_kind(h.device_native_id.as_str()),
            ),
        );

        let detail = match h.flow {
            Flow::Capture => DetailS3 {
                // Possession, per the contract — this process owns a non-expired capture session.
                // Expired sessions never reach here, so every emitted row owns one by construction.
                //
                // Deliberately NOT `state == Active`. A push-to-talk or VAD-gated assistant is
                // inactive between utterances while still owning the stream and the endpoint;
                // deriving possession from activity would drop it to tier 3 mid-sentence and make
                // the panel row flicker at the poll rate. Activity lives in `session_state`.
                holds_microphone: true,
                has_window,
                has_visible_window,
                device,
                session_state: h.state.as_str(),
                is_system_sounds: h.is_system_sounds,
                pre_existing: None,
                endpoint_flow: "capture",
            },
            // A render-endpoint session is context, never a mic-possession claim, and this is the
            // only constructor that can produce one.
            Flow::Render => DetailS3::render_session(
                has_window,
                has_visible_window,
                device,
                h.state.as_str(),
                h.is_system_sounds,
                None,
            ),
        };

        out.push(Observation::Microphone { subject: subject.with_has_window(has_window), detail });
        proof {
            assert(out@.last()@ == row.observed(windows@, views, session_id@));
            assert(out@.map_values(|o: Observation| o@) =~= before.map_values(
                |o: Observation| o@,
            ).push(out@.last()@));
            assert(all.take(it.index() + 1) =~= all.take(it.index() as int).push(
                all[it.index() as int],
            ));
        }
    }
    assert(all.take(rows.len() as int) =~= all);
    Ok((out, failed_devices))
}

/// How many rows have a flow.
pub open spec fn flow_count(holders: Seq<MicHolderView>, flow: Flow) -> nat {
    holders.filter(|h: MicHolderView| h.flow == flow).len()
}

fn count_flow(holders: &[MicHolder], flow: Flow) -> (n: usize)
    ensures
        n == flow_count(holder_views(holders@), flow),
{
    let ghost views = holder_views(holders@);
    let mut n: usize = 0;
    let mut i: usize = 0;
    proof {
        reveal(Seq::filter);
        assert(views.take(0) =~= Seq::<MicHolderView>::empty());
    }
    while i < holders.len()
        invariant
            n <= i <= holders@.len(),
            views == holder_views(holders@),
            n == flow_count(views.take(i as int), flow),
        decreases holders@.len() - i,
    {
        proof {
            reveal(Seq::filter);
            assert(views.take(i + 1).drop_last() =~= views.take(i as int));
            assert(views.take(i + 1).last() == holders@[i as int]@);
        }
        if holders[i].flow == flow {
            n = n + 1;
        }
        i = i + 1;
    }
    assert(views.take(i as int) =~= views);
    n
}

/// Capability probe: can this collector enumerate capture and render sessions at all? Returns
/// `(capture_sessions, render_sessions)` separately so the coverage report can state each honestly
/// — a render count of zero should read as "nothing was playing", not as "the eRender pass didn't
/// run".
///
/// Works on the real enumeration rather than asserting from the platform — "measured, not assumed"
/// is only true if something actually called the API and looked at the result.
pub fn probe_capability(enumerated: &Result<(Vec<MicHolder>, u32), String>) -> (r: Result<
    (u32, u32),
    String,
>)
    ensures
        (match r {
            Ok(counts) => Ok(counts),
            Err(message) => Err(message@),
        }) == (match enumerated_view(*enumerated) {
            Ok(found) => Ok(
                (
                    flow_count(found.0, Flow::Capture) as u32,
                    flow_count(found.0, Flow::Render) as u32,
                ),
            ),
            Err(message) => Err(message),
        }),
{
    match enumerated {
        Ok(found) => {
            let capture: usize = count_flow(found.0.as_slice(), Flow::Capture);
            let render: usize = count_flow(found.0.as_slice(), Flow::Render);
            Ok((capture as u32, render as u32))
        },
        Err(message) => Err(message.clone()),
    }
}

// ---------------------------------------------------------------------------------------------
// Laws
// ---------------------------------------------------------------------------------------------

proof fn lemma_session_rows(
    native_id: Seq<char>,
    name: Option<Seq<char>>,
    flow: Flow,
    sessions: Seq<Option<SessionReading>>,
)
    ensures
        forall|i: int|
            #![trigger session_holders(native_id, name, flow, sessions)[i]]
            0 <= i < session_holders(native_id, name, flow, sessions).len() ==> {
                &&& !(session_holders(native_id, name, flow, sessions)[i].state is Expired)
                &&& session_holders(native_id, name, flow, sessions)[i].flow == flow
            },
{
    let kept = sessions.filter(|s: Option<SessionReading>| live(s));
    assert forall|i: int|
        #![trigger session_holders(native_id, name, flow, sessions)[i]]
        0 <= i < session_holders(native_id, name, flow, sessions).len() implies {
        &&& !(session_holders(native_id, name, flow, sessions)[i].state is Expired)
        &&& session_holders(native_id, name, flow, sessions)[i].flow == flow
    } by {
        sessions.lemma_filter_pred(|s: Option<SessionReading>| live(s), i);
    }
}

proof fn lemma_device_rows(devices: Seq<DeviceReading>, flow: Flow)
    ensures
        forall|i: int|
            #![trigger device_holders(devices, flow)[i]]
            0 <= i < device_holders(devices, flow).len() ==> {
                &&& !(device_holders(devices, flow)[i].state is Expired)
                &&& device_holders(devices, flow)[i].flow == flow
            },
    decreases devices.len(),
{
    if devices.len() > 0 {
        lemma_device_rows(devices.drop_last(), flow);
        let front = device_holders(devices.drop_last(), flow);
        match devices.last() {
            DeviceReading::Failed => (),
            DeviceReading::Opened { native_id, name, sessions } => {
                lemma_session_rows(native_id@, friendly(text::opt_text(name)), flow, sessions@);
            },
        }
        assert forall|i: int|
            #![trigger device_holders(devices, flow)[i]]
            0 <= i < device_holders(devices, flow).len() implies {
            &&& !(device_holders(devices, flow)[i].state is Expired)
            &&& device_holders(devices, flow)[i].flow == flow
        } by {
            if i < front.len() {
                assert(device_holders(devices, flow)[i] == front[i]);
            } else {
                assert(device_holders(devices, flow)[i] == devices.last().holders(flow)[i
                    - front.len()]);
            }
        }
    }
}

proof fn lemma_flow_rows(reading: FlowReading, flow: Flow)
    ensures
        forall|i: int|
            #![trigger reading.holders(flow)[i]]
            0 <= i < reading.holders(flow).len() ==> {
                &&& !(reading.holders(flow)[i].state is Expired)
                &&& reading.holders(flow)[i].flow == flow
            },
{
    match reading {
        FlowReading::Failed => (),
        FlowReading::Devices(devices) => lemma_device_rows(devices@, flow),
    }
}

/// An expired session is dead, and never makes a row.
pub proof fn law_expired_never_reported(reading: AudioReading, i: int)
    requires
        reading.enumerated() is Ok,
        0 <= i < reading.enumerated()->Ok_0.0.len(),
    ensures
        !(reading.enumerated()->Ok_0.0[i].state is Expired),
{
    match reading {
        AudioReading::Endpoints { capture, render } => {
            lemma_flow_rows(capture, Flow::Capture);
            lemma_flow_rows(render, Flow::Render);
            let front = capture.holders(Flow::Capture);
            if i >= front.len() {
                assert(reading.enumerated()->Ok_0.0[i] == render.holders(Flow::Render)[i
                    - front.len()]);
            } else {
                assert(reading.enumerated()->Ok_0.0[i] == front[i]);
            }
        },
        _ => (),
    }
}

proof fn lemma_filter_all(rows: Seq<MicHolderView>, flow: Flow, wanted: Flow)
    requires
        forall|i: int| 0 <= i < rows.len() ==> (#[trigger] rows[i]).flow == flow,
    ensures
        rows.filter(|h: MicHolderView| h.flow == wanted) == (if flow == wanted {
            rows
        } else {
            Seq::empty()
        }),
    decreases rows.len(),
{
    reveal(Seq::filter);
    if rows.len() > 0 {
        lemma_filter_all(rows.drop_last(), flow, wanted);
        assert(rows =~= rows.drop_last().push(rows.last()));
    } else {
        assert(rows =~= Seq::empty());
    }
}

/// The flows do not cost each other anything: whatever became of the other one, even its failing as
/// a whole, the rows of a flow are those of its own endpoints.
pub proof fn law_flows_are_independent(capture: FlowReading, render: FlowReading)
    ensures
        ({
            let rows = (AudioReading::Endpoints { capture, render }).enumerated()->Ok_0.0;
            &&& rows.filter(|h: MicHolderView| h.flow == Flow::Capture) == capture.holders(
                Flow::Capture,
            )
            &&& rows.filter(|h: MicHolderView| h.flow == Flow::Render) == render.holders(
                Flow::Render,
            )
        }),
{
    let a = capture.holders(Flow::Capture);
    let b = render.holders(Flow::Render);
    lemma_flow_rows(capture, Flow::Capture);
    lemma_flow_rows(render, Flow::Render);
    lemma_filter_all(a, Flow::Capture, Flow::Capture);
    lemma_filter_all(a, Flow::Capture, Flow::Render);
    lemma_filter_all(b, Flow::Render, Flow::Capture);
    lemma_filter_all(b, Flow::Render, Flow::Render);
    Seq::filter_distributes_over_add(a, b, |h: MicHolderView| h.flow == Flow::Capture);
    Seq::filter_distributes_over_add(a, b, |h: MicHolderView| h.flow == Flow::Render);
    assert(a + Seq::<MicHolderView>::empty() =~= a);
    assert(Seq::<MicHolderView>::empty() + b =~= b);
}

proof fn lemma_no_failures(devices: Seq<DeviceReading>)
    ensures
        device_failures(devices) == 0 <==> forall|i: int|
            0 <= i < devices.len() ==> !((#[trigger] devices[i]) is Failed),
    decreases devices.len(),
{
    reveal(Seq::filter);
    if devices.len() > 0 {
        let front = devices.drop_last();
        lemma_no_failures(front);
        if device_failures(devices) == 0 {
            assert forall|i: int| 0 <= i < devices.len() implies !((#[trigger] devices[i])
                is Failed) by {
                if i < front.len() {
                    assert(!(front[i] is Failed));
                }
            }
        } else if device_failures(front) > 0 {
            let i = choose|i: int| 0 <= i < front.len() && (#[trigger] front[i]) is Failed;
            assert(devices[i] is Failed);
        } else {
            assert(devices[devices.len() - 1] is Failed);
        }
    }
}

/// A flow without failures is one whose endpoints could all be asked.
pub proof fn law_failures_are_counted(reading: FlowReading)
    ensures
        reading.failures() == 0 <==> (reading matches FlowReading::Devices(devices) && forall|
            i: int,
        |
            0 <= i < devices@.len() ==> !((#[trigger] devices@[i]) is Failed)),
{
    match reading {
        FlowReading::Failed => (),
        FlowReading::Devices(devices) => lemma_no_failures(devices@),
    }
}

/// Owning a capture session is holding the microphone, whether or not the session is active just
/// now; a session on a playback endpoint never is.
pub proof fn law_possession_not_activity(
    h: MicHolderView,
    windows: SweepView,
    processes: Seq<ProcessView>,
    session_id: Seq<u8>,
    other: SessionState,
)
    ensures
        h.detail(windows, session_id).holds_microphone <==> h.flow == Flow::Capture,
        h.observed(windows, processes, session_id).tier() == (MicHolderView {
            state: other,
            ..h
        }).observed(windows, processes, session_id).tier(),
{
}

/// The audio-assistant signature: exactly a capture session whose owner has no window at all, and
/// which is not the system's own sounds, is tier 2.
pub proof fn law_windowless_holder_is_notable(
    h: MicHolderView,
    windows: SweepView,
    processes: Seq<ProcessView>,
    session_id: Seq<u8>,
)
    ensures
        h.observed(windows, processes, session_id).tier() == 2 <==> {
            &&& h.flow == Flow::Capture
            &&& !h.is_system_sounds
            &&& !windows.pids_with_windows.contains(h.pid)
        },
{
}

/// The wire tells devices of one session by their scoped identifiers alone: of a row's native
/// identifier nothing but the scoped one reaches the observation.
pub proof fn law_native_id_stays_here(
    a: MicHolderView,
    b: MicHolderView,
    windows: SweepView,
    processes: Seq<ProcessView>,
    session_id: Seq<u8>,
)
    requires
        b == (MicHolderView { device_native_id: b.device_native_id, ..a }),
        scoped_id(a.device_native_id, session_id) == scoped_id(b.device_native_id, session_id),
    ensures
        a.observed(windows, processes, session_id) == b.observed(windows, processes, session_id),
{
}

/// Each session state has a name of its own: a session that is silent never reads like a dead one.
pub proof fn law_session_state_names(x: SessionState)
    ensures
        x.name() == "active"@ <==> x is Active,
        x.name() == "inactive"@ <==> x is Inactive,
        x.name() == "expired"@ <==> x is Expired,
        x.name() == "unknown"@ <==> x is Unknown,
{
    reveal_strlit("active");
    reveal_strlit("inactive");
    reveal_strlit("expired");
    reveal_strlit("unknown");
    assert("active"@.len() == 6);
    assert("inactive"@.len() == 8);
    assert("expired"@.len() == 7);
    assert("unknown"@.len() == 7);
    assert("expired"@[0] != "unknown"@[0]);
}

/// The state of a session is what its number says, and unknown for a number without a meaning or none
/// at all.
pub proof fn law_state_of_a_number(raw: Option<i32>)
    ensures
        SessionState::of(raw) is Inactive <==> raw == Some(0i32),
        SessionState::of(raw) is Active <==> raw == Some(1i32),
        SessionState::of(raw) is Expired <==> raw == Some(2i32),
        SessionState::of(raw) is Unknown <==> raw is None || raw.unwrap() < 0 || raw.unwrap() > 2,
{
}

/// A device's name is shown as it was read, unless there is nothing to show.
pub proof fn law_friendly_name_is_shown(value: Option<Seq<char>>)
    ensures
        friendly(value) is Some <==> (value matches Some(s) && s.len() > 0),
        friendly(value) is Some ==> friendly(value) == value,
{
}

/// The rows for sessions are the rows for the first of them and then for the rest: none is lost where
/// there are many.
pub proof fn law_sessions_add_up(
    native_id: Seq<char>,
    name: Option<Seq<char>>,
    flow: Flow,
    a: Seq<Option<SessionReading>>,
    b: Seq<Option<SessionReading>>,
)
    ensures
        session_holders(native_id, name, flow, a + b) == session_holders(native_id, name, flow, a)
            + session_holders(native_id, name, flow, b),
{
    Seq::filter_distributes_over_add(a, b, |s: Option<SessionReading>| live(s));
    assert(session_holders(native_id, name, flow, a + b) =~= session_holders(
        native_id,
        name,
        flow,
        a,
    ) + session_holders(native_id, name, flow, b));
}

/// One session makes one row, with its owner, its device and its state; one that could not be had, is
/// expired or does not name its owner makes none.
pub proof fn law_one_session_one_row(
    native_id: Seq<char>,
    name: Option<Seq<char>>,
    flow: Flow,
    s: Option<SessionReading>,
)
    ensures
        session_holders(native_id, name, flow, seq![s]) == (match s {
            Some(r) => if r.pid is Some && r.state != Some(2i32) {
                seq![
                    MicHolderView {
                        pid: r.pid.unwrap(),
                        device_native_id: native_id,
                        device_name: name,
                        state: SessionState::of(r.state),
                        is_system_sounds: r.system_sounds == 0,
                        flow,
                    },
                ]
            } else {
                Seq::empty()
            },
            None => Seq::empty(),
        }),
        session_holders(native_id, name, flow, Seq::empty()).len() == 0,
{
    reveal_with_fuel(Seq::filter, 2);
    let rows = session_holders(native_id, name, flow, seq![s]);
    assert(seq![s].drop_last() =~= Seq::<Option<SessionReading>>::empty());
    assert(seq![s].last() == s);
    if live(s) {
        assert(rows =~= seq![rows[0]]);
    } else {
        assert(rows =~= Seq::empty());
    }
}

/// The rows for devices are the rows for the first of them and then for the rest: no device hides
/// another.
pub proof fn law_devices_add_up(a: Seq<DeviceReading>, b: Seq<DeviceReading>, flow: Flow)
    ensures
        device_holders(a + b, flow) == device_holders(a, flow) + device_holders(b, flow),
        device_failures(a + b) == device_failures(a) + device_failures(b),
    decreases b.len(),
{
    Seq::filter_distributes_over_add(a, b, |d: DeviceReading| d is Failed);
    if b.len() == 0 {
        assert(a + b =~= a);
    } else {
        law_devices_add_up(a, b.drop_last(), flow);
        assert((a + b).drop_last() =~= a + b.drop_last());
        assert(device_holders(a + b, flow) =~= device_holders(a, flow) + device_holders(b, flow));
    }
}

/// A device that was opened gives the rows of all of its sessions under its own identifier and name; a
/// device that failed gives none and counts as one failure.
pub proof fn law_one_device(d: DeviceReading, flow: Flow)
    ensures
        d matches DeviceReading::Opened { native_id, name, sessions } ==> {
            &&& name is None || name.unwrap()@.len() == 0 ==> device_holders(seq![d], flow)
                == session_holders(native_id@, None, flow, sessions@)
            &&& (name matches Some(n) && n@.len() > 0) ==> device_holders(seq![d], flow)
                == session_holders(native_id@, Some(name.unwrap()@), flow, sessions@)
            &&& device_failures(seq![d]) == 0
        },
        d is Failed ==> device_holders(seq![d], flow).len() == 0 && device_failures(seq![d]) == 1,
{
    reveal_with_fuel(Seq::filter, 2);
    reveal_with_fuel(device_holders, 2);
    assert(seq![d].drop_last() =~= Seq::<DeviceReading>::empty());
    assert(device_holders(seq![d], flow) =~= d.holders(flow));
}

proof fn lemma_live_session_has_its_row(
    devices: Seq<DeviceReading>,
    flow: Flow,
    d: int,
    s: int,
    row: MicHolderView,
)
    requires
        0 <= d < devices.len(),
        devices[d] matches DeviceReading::Opened { native_id, name, sessions } && 0 <= s
            < sessions@.len() && (sessions@[s] matches Some(r) && r.pid == Some(row.pid) && r.state
            != Some(2i32) && row == (MicHolderView {
            pid: row.pid,
            device_native_id: native_id@,
            device_name: friendly(text::opt_text(name)),
            state: SessionState::of(r.state),
            is_system_sounds: r.system_sounds == 0,
            flow,
        })),
    ensures
        device_holders(devices, flow).contains(row),
{
    match devices[d] {
        DeviceReading::Failed => (),
        DeviceReading::Opened { native_id, name, sessions } => {
            let shown = friendly(text::opt_text(name));
            let all = sessions@;
            let before = all.take(s);
            let behind = all.skip(s + 1);
            law_sessions_add_up(native_id@, shown, flow, before, seq![all[s]]);
            law_sessions_add_up(native_id@, shown, flow, before + seq![all[s]], behind);
            law_one_session_one_row(native_id@, shown, flow, all[s]);
            assert(before + seq![all[s]] + behind =~= all);
            let k = session_holders(native_id@, shown, flow, before).len() as int;
            let mine = devices[d].holders(flow);
            assert(mine[k] == row);
            let first = devices.take(d);
            law_devices_add_up(first, seq![devices[d]], flow);
            law_devices_add_up(first + seq![devices[d]], devices.skip(d + 1), flow);
            assert(first + seq![devices[d]] + devices.skip(d + 1) =~= devices);
            law_one_device(devices[d], flow);
            assert(device_holders(devices, flow)[device_holders(first, flow).len() + k] == row);
        },
    }
}

/// Nobody who holds a session goes unseen: whichever device of whichever flow was opened, every one of
/// its sessions that could be had, is not expired and names its owner has a row with that owner, that
/// device, that state and that flow.
pub proof fn law_live_session_has_its_row(
    capture: FlowReading,
    render: FlowReading,
    flow: Flow,
    devices: Vec<DeviceReading>,
    d: int,
    s: int,
)
    requires
        flow is Capture ==> capture == FlowReading::Devices(devices),
        flow is Render ==> render == FlowReading::Devices(devices),
        0 <= d < devices@.len(),
        devices@[d] matches DeviceReading::Opened { native_id, name, sessions } && 0 <= s
            < sessions@.len() && (sessions@[s] matches Some(r) && r.pid is Some && r.state != Some(
            2i32,
        )),
    ensures
        (AudioReading::Endpoints { capture, render }).enumerated() is Ok,
        ({
            let rows = (AudioReading::Endpoints { capture, render }).enumerated()->Ok_0.0;
            let r = devices@[d]->sessions@[s].unwrap();
            exists|k: int|
                0 <= k < rows.len() && {
                    &&& Some((#[trigger] rows[k]).pid) == r.pid
                    &&& rows[k].device_native_id == devices@[d]->native_id@
                    &&& rows[k].device_name == (match devices@[d]->name {
                        Some(n) => if n@.len() > 0 { Some(n@) } else { None },
                        None => None,
                    })
                    &&& rows[k].state == SessionState::of(r.state)
                    &&& rows[k].is_system_sounds == (r.system_sounds == 0)
                    &&& rows[k].flow == flow
                }
        }),
{
    let r = devices@[d]->sessions@[s].unwrap();
    let row = MicHolderView {
        pid: r.pid.unwrap(),
        device_native_id: devices@[d]->native_id@,
        device_name: friendly(text::opt_text(devices@[d]->name)),
        state: SessionState::of(r.state),
        is_system_sounds: r.system_sounds == 0,
        flow,
    };
    lemma_live_session_has_its_row(devices@, flow, d, s, row);
    let rows = (AudioReading::Endpoints { capture, render }).enumerated()->Ok_0.0;
    let own = device_holders(devices@, flow);
    let i = choose|i: int| 0 <= i < own.len() && own[i] == row;
    match flow {
        Flow::Capture => {
            assert(rows[i] == row);
        },
        Flow::Render => {
            assert(rows[capture.holders(Flow::Capture).len() + i] == row);
        },
    }
}

proof fn lemma_rows_are_as_many(devices: Seq<DeviceReading>, flow: Flow)
    ensures
        device_holders(devices, flow).len() == devices.fold_left(
            0int,
            |n: int, d: DeviceReading|
                match d {
                    DeviceReading::Failed => n,
                    DeviceReading::Opened { sessions, .. } => n + sessions@.filter(
                        |s: Option<SessionReading>|
                            s matches Some(r) && r.pid is Some && r.state != Some(2i32),
                    ).len(),
                },
        ),
    decreases devices.len(),
{
    if devices.len() > 0 {
        lemma_rows_are_as_many(devices.drop_last(), flow);
        match devices.last() {
            DeviceReading::Failed => (),
            DeviceReading::Opened { native_id, name, sessions } => {
                lemma_as_many_as_live(
                    native_id@,
                    friendly(text::opt_text(name)),
                    flow,
                    sessions@,
                );
            },
        }
    }
}

proof fn lemma_as_many_as_live(
    native_id: Seq<char>,
    name: Option<Seq<char>>,
    flow: Flow,
    sessions: Seq<Option<SessionReading>>,
)
    ensures
        session_holders(native_id, name, flow, sessions).len() == sessions.filter(
            |s: Option<SessionReading>|
                s matches Some(r) && r.pid is Some && r.state != Some(2i32),
        ).len(),
    decreases sessions.len(),
{
    reveal(Seq::filter);
    if sessions.len() > 0 {
        lemma_as_many_as_live(native_id, name, flow, sessions.drop_last());
    }
}

/// There are as many rows as live sessions: those of all opened devices of both flows, summed.
pub proof fn law_as_many_rows_as_live_sessions(
    capture: Vec<DeviceReading>,
    render: Vec<DeviceReading>,
)
    ensures
        ({
            let reading = AudioReading::Endpoints {
                capture: FlowReading::Devices(capture),
                render: FlowReading::Devices(render),
            };
            let live_too = |n: int, d: DeviceReading|
                match d {
                    DeviceReading::Failed => n,
                    DeviceReading::Opened { sessions, .. } => n + sessions@.filter(
                        |s: Option<SessionReading>|
                            s matches Some(r) && r.pid is Some && r.state != Some(2i32),
                    ).len(),
                };
            reading.enumerated()->Ok_0.0.len() == capture@.fold_left(0int, live_too)
                + render@.fold_left(0int, live_too)
        }),
{
    lemma_rows_are_as_many(capture@, Flow::Capture);
    lemma_rows_are_as_many(render@, Flow::Render);
}

/// What an enumeration comes to: an answer wherever there were endpoints to ask, with the failures of
/// both flows, and otherwise the message of the step that failed.
pub proof fn law_when_there_is_an_answer(reading: AudioReading)
    ensures
        reading.enumerated() is Ok <==> reading is Endpoints,
        reading is NotReady ==> reading.enumerated() == Err::<(Seq<MicHolderView>, u32), _>(
            "CoInitializeEx failed"@,
        ),
        reading matches AudioReading::NoEnumerator(hr) ==> reading.enumerated() == Err::<
            (Seq<MicHolderView>, u32),
            _,
        >("CoCreateInstance(MMDeviceEnumerator): "@ + hresult_text(hr)),
        reading matches AudioReading::Endpoints { capture, render } ==> {
            capture.size() + render.size() <= u32::MAX ==> reading.enumerated()->Ok_0.1
                == capture.failures() + render.failures()
        },
        FlowReading::Failed.failures() == 1 && FlowReading::Failed.size() == 1,
        FlowReading::Failed.holders(Flow::Capture).len() == 0,
        FlowReading::Failed.holders(Flow::Render).len() == 0,
{
    if let AudioReading::Endpoints { capture, render } = reading {
        lemma_failures_fit(capture);
        lemma_failures_fit(render);
    }
}

proof fn lemma_failures_fit(reading: FlowReading)
    ensures
        reading.failures() <= reading.size(),
{
    if let FlowReading::Devices(devices) = reading {
        lemma_at_most_all_fail(devices@);
    }
}

proof fn lemma_at_most_all_fail(devices: Seq<DeviceReading>)
    ensures
        device_failures(devices) <= devices.len(),
    decreases devices.len(),
{
    reveal(Seq::filter);
    if devices.len() > 0 {
        lemma_at_most_all_fail(devices.drop_last());
    }
}

/// A flow that could be asked has the rows and the failures of all of its devices.
pub proof fn law_flow_is_its_devices(devices: Vec<DeviceReading>, flow: Flow)
    ensures
        FlowReading::Devices(devices).holders(flow) == device_holders(devices@, flow),
        FlowReading::Devices(devices).failures() == device_failures(devices@),
        FlowReading::Devices(devices).size() == devices@.len(),
{
}

/// An HRESULT is shown in full: behind its mark stand eight upper-case hexadecimal digits.
pub proof fn law_hresult_is_shown_in_full(hr: i32)
    ensures
        hresult_text(hr) == "0x"@ + text::padded(text::hexadecimal(hr as u32 as nat, true), 8),
        hresult_text(hr).len() == 10,
{
    reveal_strlit("0x");
    text::lemma_eight_digits(hr as u32);
    text::law_hexadecimal_case(hr as u32 as nat);
    text::law_padding(text::hexadecimal(hr as u32 as nat, true), 8);
}

/// A device is known on the wire by half of a keyed digest of its identifier, the key being the
/// session: sixteen bytes, in 32 hexadecimal digits.
pub proof fn law_scoped_id_is_half_a_code(native_id: Seq<char>, session_id: Seq<u8>)
    ensures
        ({
            let code = digest::hmac_sha256(session_id, encode_utf8(native_id));
            scoped_id(native_id, session_id) == text::hex_of(code.take(16))
        }),
{
}

/// An owner is looked up by its pid: what is found is the last of the list with that pid, and nothing
/// is found only where the list holds none.
pub proof fn law_last_of_its_pid(processes: Seq<ProcessView>, pid: u32)
    ensures
        last_with_pid(processes, pid) is None <==> (forall|i: int|
            0 <= i < processes.len() ==> (#[trigger] processes[i]).pid != pid),
        forall|i: int|
            #![trigger processes[i]]
            0 <= i < processes.len() && processes[i].pid == pid && (forall|j: int|
                i < j < processes.len() ==> (#[trigger] processes[j]).pid != pid) ==> last_with_pid(
                processes,
                pid,
            ) == Some(processes[i]),
        last_with_pid(processes, pid) matches Some(p) ==> p.pid == pid && processes.contains(p),
    decreases processes.len(),
{
    if processes.len() > 0 {
        let front = processes.drop_last();
        let n = processes.len() - 1;
        law_last_of_its_pid(front, pid);
        if processes.last().pid == pid {
            assert(processes[n].pid == pid);
        } else {
            assert forall|i: int|
                #![trigger processes[i]]
                0 <= i < processes.len() && processes[i].pid == pid && (forall|j: int|
                    i < j < processes.len() ==> (#[trigger] processes[j]).pid
                        != pid) implies last_with_pid(processes, pid) == Some(processes[i]) by {
                assert(front[i].pid == pid);
                assert forall|j: int| i < j < front.len() implies (#[trigger] front[j]).pid
                    != pid by {
                    assert(processes[j].pid != pid);
                }
            }
            if last_with_pid(front, pid) is None {
                assert forall|i: int| 0 <= i < processes.len() implies (
                #[trigger] processes[i]).pid != pid by {
                    if i < n {
                        assert(front[i].pid != pid);
                    }
                }
            } else {
                let p = last_with_pid(front, pid).unwrap();
                let k = choose|k: int| 0 <= k < front.len() && front[k] == p;
                assert(processes[k] == p);
            }
        }
    }
}

/// A row is reported as it is: its owner, its device under the scoped identifier, its state and its
/// flow, with what the sweep of the same cycle tells of the owner's windows.
pub proof fn law_row_is_reported_as_it_is(
    h: MicHolderView,
    windows: SweepView,
    processes: Seq<ProcessView>,
    session_id: Seq<u8>,
)
    ensures
        ({
            let o = h.observed(windows, processes, session_id);
            &&& o matches ObservationView::Microphone { subject, detail }
            &&& subject.pid == h.pid
            &&& subject.has_window == Some(windows.pids_with_windows.contains(h.pid))
            &&& detail.has_window == windows.pids_with_windows.contains(h.pid)
            &&& detail.has_visible_window == windows.pids_with_visible_windows.contains(h.pid)
            &&& detail.device matches Some(d)
            &&& d.id == scoped_id(h.device_native_id, session_id)
            &&& d.name == h.device_name
            &&& d.kind is Unknown
            &&& detail.session_state == h.state.name()
            &&& detail.is_system_sounds == h.is_system_sounds
            &&& detail.pre_existing is None
            &&& h.flow is Capture ==> detail.holds_microphone && detail.endpoint_flow
                == "capture"@
            &&& h.flow is Render ==> !detail.holds_microphone && detail.endpoint_flow
                == "render"@
            &&& (forall|i: int|
                0 <= i < processes.len() ==> (#[trigger] processes[i]).pid != h.pid)
                ==> subject.path is AccessDenied && subject.name is None && subject.parent_pid
                is None
            &&& forall|i: int|
                #![trigger processes[i]]
                0 <= i < processes.len() && processes[i].pid == h.pid && (forall|j: int|
                    i < j < processes.len() ==> (#[trigger] processes[j]).pid != h.pid)
                    ==> subject.path == processes[i].path && subject.name == processes[i].name
                    && subject.parent_pid == Some(processes[i].parent_pid)
        }),
{
    law_last_of_its_pid(processes, h.pid);
}

/// Every row is reported, in order, once.
pub proof fn law_every_row_is_reported(
    holders: Seq<MicHolderView>,
    windows: SweepView,
    processes: Seq<ProcessView>,
    session_id: Seq<u8>,
    i: int,
)
    ensures
        observed_holders(holders, windows, processes, session_id).len() == holders.len(),
        0 <= i < holders.len() ==> observed_holders(holders, windows, processes, session_id)[i]
            == holders[i].observed(windows, processes, session_id),
{
}

/// The rows of a flow are counted one by one.
pub proof fn law_rows_of_a_flow_are_counted(holders: Seq<MicHolderView>, h: MicHolderView, flow: Flow)
    ensures
        flow_count(Seq::empty(), flow) == 0,
        flow_count(holders.push(h), flow) == flow_count(holders, flow) + (if h.flow == flow {
            1int
        } else {
            0int
        }),
{
    reveal(Seq::filter);
    assert(holders.push(h).drop_last() =~= holders);
}

/// The view of a [`MicHolder`] shows all of it, and each part as it is.
pub proof fn law_view_of_mic_holder(x: MicHolder)
    ensures
        x@.pid == x.pid,
        x@.device_native_id == x.device_native_id@,
        x@.device_name is Some <==> x.device_name is Some,
        x.device_name matches Some(v) ==> x@.device_name == Some(v@),
        x@.state == x.state,
        x@.is_system_sounds == x.is_system_sounds,
        x@.flow == x.flow,
{
}

/// The views of rows are those of all of them, in order, and an enumeration is viewed whole.
pub proof fn law_views_of_rows(
    holders: Seq<MicHolder>,
    i: int,
    e: Result<(Vec<MicHolder>, u32), String>,
)
    ensures
        holder_views(holders).len() == holders.len(),
        0 <= i < holders.len() ==> holder_views(holders)[i] == holders[i]@,
        e matches Ok(found) ==> enumerated_view(e) == Ok::<(Seq<MicHolderView>, u32), Seq<char>>(
            (holder_views(found.0@), found.1),
        ),
        e matches Err(message) ==> enumerated_view(e) == Err::<
            (Seq<MicHolderView>, u32),
            Seq<char>,
        >(message@),
{
}

} // verus!
