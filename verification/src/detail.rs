//! Per-signal `detail` payloads, and the [`Observation`] enum that binds each one to its code.
//!
//! The schema types `detail` by conditional dispatch (`if`/`then` per code) rather than `oneOf`, so
//! an unknown `S11` still validates and an older pipeline forwards it intact. On the producing side
//! the risk is the mirror image: emitting `code: "S5"` beside an S3-shaped detail. [`Observation`]
//! makes that unrepresentable — you construct the variant, and the code comes with it.

use vstd::prelude::*;

use crate::envelope::{
    AudioDevice, AudioDeviceView, Signal, SignalView, Subject, SubjectView, WindowRef, WindowRefView,
};
use crate::json;
use crate::json::{in_key_order, Json, JsonView, Members};
use crate::text;
use crate::text::{copy_text, push_decimal};

verus! {

#[derive(Debug, Clone)]
pub struct DetailS1 {
    pub present: bool,
    pub has_window: bool,
    pub window_count: u32,
    pub session_kind: &'static str,
}

#[verifier::ext_equal]
pub struct DetailS1View {
    pub present: bool,
    pub has_window: bool,
    pub window_count: u32,
    pub session_kind: Seq<char>,
}

impl View for DetailS1 {
    type V = DetailS1View;

    open spec fn view(&self) -> DetailS1View {
        DetailS1View {
            present: self.present,
            has_window: self.has_window,
            window_count: self.window_count,
            session_kind: self.session_kind@,
        }
    }
}

impl DetailS1View {
    /// The members of the value alone, in order.
    pub open spec fn members(self) -> Seq<(Seq<char>, JsonView)> {
        seq![
            ("present"@, JsonView::Bool(self.present)),
            ("has_window"@, JsonView::Bool(self.has_window)),
            ("window_count"@, JsonView::Number(self.window_count as int)),
            ("session_kind"@, JsonView::Text(self.session_kind)),
        ]
    }
}

impl DetailS1 {
    /// The value alone. Inside a signal its members are in the order of their names.
    pub fn to_json(&self) -> (r: Json)
        ensures
            r@ == JsonView::Object(self@.members()),
    {
        let mut m = Members::new();
        m.put("present", Json::Bool(self.present));
        m.put("has_window", Json::Bool(self.has_window));
        m.put("window_count", Json::Number(self.window_count as u64));
        m.put_text("session_kind", self.session_kind);
        assert(m@ =~= self@.members());
        m.finish()
    }
}

/// S3 — the microphone session owner. One of the two signals the product exists for.
///
/// `holds_microphone` stays a boolean *and* carries the device, rather than being overloaded into a
/// nullable device string. S7 (virtual audio devices) is "is the mic owner attached to a
/// non-physical endpoint" and needs something to correlate on; without `device` here, S7 forces a
/// schema v2 the day it ships.
#[derive(Debug, Clone)]
pub struct DetailS3 {
    /// **Possession, not activity.** True when the process owns a non-expired capture session, per
    /// the contract. Whether it is capturing *right now* is [`Self::session_state`].
    ///
    /// The distinction is load-bearing: a VAD-gated or push-to-talk assistant goes inactive between
    /// utterances while still owning the stream and the endpoint. Deriving this from "active" would
    /// make the same observation flap between tiers at the poll rate, and flicker in the panel.
    pub holds_microphone: bool,
    /// Owns at least one top-level window — **including hidden ones**, which is what the schema
    /// defines this field to mean. Do not narrow it; use [`Self::has_visible_window`] instead.
    pub has_window: bool,
    /// The actual tell. An audio assistant renders nothing the candidate can see but must open the
    /// microphone to listen, so "holds the mic **and** shows no visible UI" is its signature.
    ///
    /// Separate from [`Self::has_window`] because `EnumWindows` returns hidden top-level windows and
    /// almost every tray application owns several — measured on one machine, 235 of 268 top-level
    /// windows were invisible, and 47 of 60 window-owning processes owned only invisible ones. A
    /// tray-resident assistant therefore looks windowed unless visibility is tested.
    pub has_visible_window: bool,
    pub device: Option<AudioDevice>,
    /// A session lingers `inactive` after a tool stops listening, so reporting "listening now" from
    /// mere presence would be a lie.
    pub session_state: &'static str,
    /// The `S_OK` (0) / `S_FALSE` (1) inversion. If system sounds start appearing as findings, this
    /// is where to look.
    pub is_system_sounds: bool,
    /// True when the process already held the mic before the collector started. Detection lag is
    /// meaningless for these, and the panel must not imply it caught something starting.
    pub pre_existing: Option<bool>,
    /// `"capture"` or `"render"`. A loopback-capturing tool (recording the *interviewer*, e.g. via a
    /// desktop-SDK loopback client) opens its session on a **render** endpoint, not a capture one —
    /// this is the eRender pass, and the only way that tool's process becomes visible at all.
    ///
    /// WASAPI exposes no session property that tells a loopback capture apart from ordinary
    /// playback, so a `render` row is context, never a mic-possession claim. Always construct it
    /// through [`Self::render_session`] rather than setting this field directly — that constructor
    /// is what keeps `holds_microphone` from ever being true here, which the schema's `allOf` also
    /// enforces at the wire.
    pub endpoint_flow: &'static str,
}

#[verifier::ext_equal]
pub struct DetailS3View {
    pub holds_microphone: bool,
    pub has_window: bool,
    pub has_visible_window: bool,
    pub device: Option<AudioDeviceView>,
    pub session_state: Seq<char>,
    pub is_system_sounds: bool,
    pub pre_existing: Option<bool>,
    pub endpoint_flow: Seq<char>,
}

pub open spec fn opt_device(o: Option<AudioDevice>) -> Option<AudioDeviceView> {
    match o {
        Some(d) => Some(d@),
        None => None,
    }
}

pub open spec fn opt_window(o: Option<WindowRef>) -> Option<WindowRefView> {
    match o {
        Some(w) => Some(w@),
        None => None,
    }
}

pub open spec fn window_member_if(o: Option<WindowRefView>) -> Seq<(Seq<char>, JsonView)> {
    json::member_if(
        "window"@,
        match o {
            Some(w) => Some(w.json()),
            None => None,
        },
    )
}

impl View for DetailS3 {
    type V = DetailS3View;

    open spec fn view(&self) -> DetailS3View {
        DetailS3View {
            holds_microphone: self.holds_microphone,
            has_window: self.has_window,
            has_visible_window: self.has_visible_window,
            device: opt_device(self.device),
            session_state: self.session_state@,
            is_system_sounds: self.is_system_sounds,
            pre_existing: self.pre_existing,
            endpoint_flow: self.endpoint_flow@,
        }
    }
}

impl DetailS3View {
    /// A session on a playback endpoint, which never claims the microphone.
    pub open spec fn rendering(
        has_window: bool,
        has_visible_window: bool,
        device: Option<AudioDeviceView>,
        session_state: Seq<char>,
        is_system_sounds: bool,
        pre_existing: Option<bool>,
    ) -> DetailS3View {
        DetailS3View {
            holds_microphone: false,
            has_window,
            has_visible_window,
            device,
            session_state,
            is_system_sounds,
            pre_existing,
            endpoint_flow: "render"@,
        }
    }

    /// The members of the value alone, in order.
    pub open spec fn members(self) -> Seq<(Seq<char>, JsonView)> {
        seq![
            ("holds_microphone"@, JsonView::Bool(self.holds_microphone)),
            ("has_window"@, JsonView::Bool(self.has_window)),
            ("has_visible_window"@, JsonView::Bool(self.has_visible_window)),
        ] + json::member_if(
            "device"@,
            match self.device {
                Some(d) => Some(d.json()),
                None => None,
            },
        ) + seq![
            ("session_state"@, JsonView::Text(self.session_state)),
            ("is_system_sounds"@, JsonView::Bool(self.is_system_sounds)),
        ] + json::bool_member_if("pre_existing"@, self.pre_existing) + seq![
            ("endpoint_flow"@, JsonView::Text(self.endpoint_flow)),
        ]
    }
}

impl DetailS3 {
    /// The only constructor that produces an `endpoint_flow: "render"` row, and the only one that
    /// forces `holds_microphone: false` — see the field's own doc for why that pairing is
    /// load-bearing rather than incidental.
    pub fn render_session(
        has_window: bool,
        has_visible_window: bool,
        device: Option<AudioDevice>,
        session_state: &'static str,
        is_system_sounds: bool,
        pre_existing: Option<bool>,
    ) -> (r: Self)
        ensures
            r@ == DetailS3View::rendering(
                has_window,
                has_visible_window,
                opt_device(device),
                session_state@,
                is_system_sounds,
                pre_existing,
            ),
    {
        DetailS3 {
            holds_microphone: false,
            has_window,
            has_visible_window,
            device,
            session_state,
            is_system_sounds,
            pre_existing,
            endpoint_flow: "render",
        }
    }

    /// The value alone. Inside a signal its members are in the order of their names.
    pub fn to_json(&self) -> (r: Json)
        ensures
            r@ == JsonView::Object(self@.members()),
    {
        let mut m = Members::new();
        m.put("holds_microphone", Json::Bool(self.holds_microphone));
        m.put("has_window", Json::Bool(self.has_window));
        m.put("has_visible_window", Json::Bool(self.has_visible_window));
        match &self.device {
            Some(d) => m.put("device", d.to_json()),
            None => (),
        }
        m.put_text("session_state", self.session_state);
        m.put("is_system_sounds", Json::Bool(self.is_system_sounds));
        m.put_bool_if("pre_existing", self.pre_existing);
        m.put_text("endpoint_flow", self.endpoint_flow);
        assert(m@ =~= self@.members());
        m.finish()
    }
}

/// S5 — a window flagged to hide from screen capture.
///
/// Structurally rename-proof: the exclusion flag *is* the feature the overlay tools sell, so they
/// cannot stop setting it. Cheap, too — `GetWindowDisplayAffinity` succeeded on every top-level
/// window on a real machine, non-elevated, with zero failures.
#[derive(Debug, Clone)]
pub struct DetailS5 {
    pub capture_excluded: bool,
    pub affinity_raw: Option<u32>,
    /// `WDA_NONE` | `WDA_MONITOR` | `WDA_EXCLUDEFROMCAPTURE` | `WDA_UNKNOWN_<n>`. Only
    /// `WDA_EXCLUDEFROMCAPTURE` is the overlay signature; `WDA_MONITOR` is the older, weaker flag
    /// and must not be reported as the same thing.
    pub affinity_name: String,
    pub window: Option<WindowRef>,
}

#[verifier::ext_equal]
pub struct DetailS5View {
    pub capture_excluded: bool,
    pub affinity_raw: Option<u32>,
    pub affinity_name: Seq<char>,
    pub window: Option<WindowRefView>,
}

impl View for DetailS5 {
    type V = DetailS5View;

    open spec fn view(&self) -> DetailS5View {
        DetailS5View {
            capture_excluded: self.capture_excluded,
            affinity_raw: self.affinity_raw,
            affinity_name: self.affinity_name@,
            window: opt_window(self.window),
        }
    }
}

impl DetailS5View {
    /// The members of the value alone, in order.
    pub open spec fn members(self) -> Seq<(Seq<char>, JsonView)> {
        seq![
            ("capture_excluded"@, JsonView::Bool(self.capture_excluded)),
            (
                "affinity_raw"@,
                match self.affinity_raw {
                    Some(n) => JsonView::Number(n as int),
                    None => JsonView::Null,
                },
            ),
            ("affinity_name"@, JsonView::Text(self.affinity_name)),
        ] + window_member_if(self.window)
    }
}

impl DetailS5 {
    /// The value alone. Inside a signal its members are in the order of their names.
    pub fn to_json(&self) -> (r: Json)
        ensures
            r@ == JsonView::Object(self@.members()),
    {
        let mut m = Members::new();
        m.put("capture_excluded", Json::Bool(self.capture_excluded));
        m.put(
            "affinity_raw",
            match self.affinity_raw {
                Some(n) => Json::Number(n as u64),
                None => Json::Null,
            },
        );
        m.put_text("affinity_name", self.affinity_name.as_str());
        match &self.window {
            Some(w) => m.put("window", w.to_json()),
            None => (),
        }
        assert(m@ =~= self@.members());
        m.finish()
    }
}

#[derive(Debug, Clone)]
pub struct DetailS6 {
    pub is_foreground: bool,
    pub window: Option<WindowRef>,
}

#[verifier::ext_equal]
pub struct DetailS6View {
    pub is_foreground: bool,
    pub window: Option<WindowRefView>,
}

impl View for DetailS6 {
    type V = DetailS6View;

    open spec fn view(&self) -> DetailS6View {
        DetailS6View { is_foreground: self.is_foreground, window: opt_window(self.window) }
    }
}

impl DetailS6View {
    /// The members of the value alone, in order.
    pub open spec fn members(self) -> Seq<(Seq<char>, JsonView)> {
        seq![("is_foreground"@, JsonView::Bool(self.is_foreground))] + window_member_if(self.window)
    }
}

impl DetailS6 {
    /// The value alone. Inside a signal its members are in the order of their names.
    pub fn to_json(&self) -> (r: Json)
        ensures
            r@ == JsonView::Object(self@.members()),
    {
        let mut m = Members::new();
        m.put("is_foreground", Json::Bool(self.is_foreground));
        match &self.window {
            Some(w) => m.put("window", w.to_json()),
            None => (),
        }
        assert(m@ =~= self@.members());
        m.finish()
    }
}

/// S2 — the verification result. The hash and signer strings themselves live on [`Subject`]
/// (every signal carries them, not just this one); this says how much that verification is worth.
///
/// This collector ships no tool database, so [`Observation::tier`] never reads this above 3 — the
/// central tool-database match against `subject.sha256` is the server's job. What this signal earns
/// is the join key: a rename defeats `subject.name`, and `sha256` is the half that survives it.
#[derive(Debug)]
pub struct DetailS2 {
    pub verified: Option<bool>,
    pub chain_trusted: Option<bool>,
    pub revocation_checked: Option<bool>,
    pub timestamped: Option<bool>,
    pub hash_algorithm: &'static str,
    /// `authenticode` hashes the signed regions of the PE image (checksum field and certificate
    /// table excluded) via `CryptCATAdminCalcHashFromFileHandle2` — the same digest Authenticode
    /// itself signs, and what the tool database must be keyed on to ever match. `full_file` is the
    /// fallback when that call fails; the tool database MUST know which one it is comparing against,
    /// which is exactly why this field exists instead of assuming one.
    pub hash_source: &'static str,
    pub platform_status: Option<String>,
}

#[verifier::ext_equal]
pub struct DetailS2View {
    pub verified: Option<bool>,
    pub chain_trusted: Option<bool>,
    pub revocation_checked: Option<bool>,
    pub timestamped: Option<bool>,
    pub hash_algorithm: Seq<char>,
    pub hash_source: Seq<char>,
    pub platform_status: Option<Seq<char>>,
}

impl View for DetailS2 {
    type V = DetailS2View;

    open spec fn view(&self) -> DetailS2View {
        DetailS2View {
            verified: self.verified,
            chain_trusted: self.chain_trusted,
            revocation_checked: self.revocation_checked,
            timestamped: self.timestamped,
            hash_algorithm: self.hash_algorithm@,
            hash_source: self.hash_source@,
            platform_status: text::opt_text(self.platform_status),
        }
    }
}

impl DetailS2View {
    /// The members of the value alone, in order.
    pub open spec fn members(self) -> Seq<(Seq<char>, JsonView)> {
        seq![
            ("verified"@, json::bool_or_null(self.verified)),
            ("chain_trusted"@, json::bool_or_null(self.chain_trusted)),
            ("revocation_checked"@, json::bool_or_null(self.revocation_checked)),
            ("timestamped"@, json::bool_or_null(self.timestamped)),
            ("hash_algorithm"@, JsonView::Text(self.hash_algorithm)),
            ("hash_source"@, JsonView::Text(self.hash_source)),
        ] + json::text_member_if("platform_status"@, self.platform_status)
    }
}

impl Clone for DetailS2 {
    fn clone(&self) -> (r: Self)
        ensures
            r == *self,
    {
        DetailS2 {
            verified: self.verified,
            chain_trusted: self.chain_trusted,
            revocation_checked: self.revocation_checked,
            timestamped: self.timestamped,
            hash_algorithm: self.hash_algorithm,
            hash_source: self.hash_source,
            platform_status: copy_text(&self.platform_status),
        }
    }
}

impl DetailS2 {
    /// The value alone. Inside a signal its members are in the order of their names.
    pub fn to_json(&self) -> (r: Json)
        ensures
            r@ == JsonView::Object(self@.members()),
    {
        let mut m = Members::new();
        m.put("verified", Json::bool_or_null(self.verified));
        m.put("chain_trusted", Json::bool_or_null(self.chain_trusted));
        m.put("revocation_checked", Json::bool_or_null(self.revocation_checked));
        m.put("timestamped", Json::bool_or_null(self.timestamped));
        m.put_text("hash_algorithm", self.hash_algorithm);
        m.put_text("hash_source", self.hash_source);
        m.put_text_if("platform_status", &self.platform_status);
        assert(m@ =~= self@.members());
        m.finish()
    }
}

/// One observation, with its code and detail bound together.
///
/// `tier` is derived here and is deliberately limited to 2 and 3: a collector with no local tool
/// database **must not** emit tier 1, and this one ships none. Tier 1 is the server's call, because
/// the tool database updates centrally and any collector's copy is stale by construction.
#[derive(Debug, Clone)]
#[allow(inconsistent_fields)]
pub enum Observation {
    /// Tier 3 — context. Everything is running something; the process list is the join key the
    /// other signals resolve against, not a finding on its own.
    Process { subject: Subject, detail: DetailS1 },
    /// Tier 3, always — a collector with no local tool database cannot know "known-bad" from
    /// "known-good", so it never escalates its own hash match. The escalation to tier 1 happens
    /// server-side, against `subject.sha256`, which is why this signal exists at all.
    Signature { subject: Subject, detail: DetailS2 },
    /// Tier 2 when the mic holder shows no window; tier 3 otherwise.
    Microphone { subject: Subject, detail: DetailS3 },
    /// Tier 2 when actually capture-excluded; tier 3 for a non-default affinity that is not the
    /// exclusion flag.
    CaptureExcluded { subject: Subject, detail: DetailS5 },
    /// Tier 3 — never a finding, only context for what the candidate was doing.
    Foreground { subject: Subject, detail: DetailS6 },
}

#[verifier::ext_equal]
#[allow(inconsistent_fields)]
pub enum ObservationView {
    Process { subject: SubjectView, detail: DetailS1View },
    Signature { subject: SubjectView, detail: DetailS2View },
    Microphone { subject: SubjectView, detail: DetailS3View },
    CaptureExcluded { subject: SubjectView, detail: DetailS5View },
    Foreground { subject: SubjectView, detail: DetailS6View },
}

impl View for Observation {
    type V = ObservationView;

    open spec fn view(&self) -> ObservationView {
        match self {
            Observation::Process { subject, detail } => ObservationView::Process {
                subject: subject@,
                detail: detail@,
            },
            Observation::Signature { subject, detail } => ObservationView::Signature {
                subject: subject@,
                detail: detail@,
            },
            Observation::Microphone { subject, detail } => ObservationView::Microphone {
                subject: subject@,
                detail: detail@,
            },
            Observation::CaptureExcluded { subject, detail } => ObservationView::CaptureExcluded {
                subject: subject@,
                detail: detail@,
            },
            Observation::Foreground { subject, detail } => ObservationView::Foreground {
                subject: subject@,
                detail: detail@,
            },
        }
    }
}

/// The thing that an observation is of, by what tells it from the others.
#[verifier::ext_equal]
pub enum Thing {
    Process(u32),
    Image(u32),
    /// A process's hold on an audio device, or on one that has no identifier.
    AudioSession(u32, Option<Seq<char>>),
    Window(Seq<char>),
    Foreground,
}

impl Thing {
    /// The key under which a panel keeps one row for the thing.
    pub open spec fn key(self) -> Seq<char> {
        match self {
            Thing::Process(pid) => "S1:pid:"@ + text::decimal(pid as nat),
            Thing::Image(pid) => "S2:pid:"@ + text::decimal(pid as nat),
            Thing::AudioSession(pid, device) => match device {
                Some(id) => "S3:pid:"@ + text::decimal(pid as nat) + ":dev:"@ + id,
                None => "S3:pid:"@ + text::decimal(pid as nat),
            },
            Thing::Window(id) => "S5:"@ + id,
            Thing::Foreground => "S6:foreground"@,
        }
    }
}

impl ObservationView {
    pub open spec fn subject(self) -> SubjectView {
        match self {
            ObservationView::Process { subject, detail } => subject,
            ObservationView::Signature { subject, detail } => subject,
            ObservationView::Microphone { subject, detail } => subject,
            ObservationView::CaptureExcluded { subject, detail } => subject,
            ObservationView::Foreground { subject, detail } => subject,
        }
    }

    pub open spec fn code(self) -> Seq<char> {
        match self {
            ObservationView::Process { .. } => "S1"@,
            ObservationView::Signature { .. } => "S2"@,
            ObservationView::Microphone { .. } => "S3"@,
            ObservationView::CaptureExcluded { .. } => "S5"@,
            ObservationView::Foreground { .. } => "S6"@,
        }
    }

    pub open spec fn scope(self) -> Seq<char> {
        if self is CaptureExcluded || self is Foreground {
            "window"@
        } else {
            "process"@
        }
    }

    /// Whether the observation is worth a second look: someone other than the system's own sounds
    /// holds the microphone with no window at all, or a window hides from screen capture.
    pub open spec fn notable(self) -> bool {
        match self {
            ObservationView::Microphone { subject, detail } => {
                !detail.is_system_sounds && detail.holds_microphone && !detail.has_window
            },
            ObservationView::CaptureExcluded { subject, detail } => detail.capture_excluded,
            _ => false,
        }
    }

    pub open spec fn tier(self) -> u8 {
        if self.notable() {
            2
        } else {
            3
        }
    }

    /// What the observation is of. A window without an identifier cannot be told from another.
    pub open spec fn thing(self) -> Option<Thing> {
        match self {
            ObservationView::Process { subject, detail } => Some(Thing::Process(subject.pid)),
            ObservationView::Signature { subject, detail } => Some(Thing::Image(subject.pid)),
            ObservationView::Microphone { subject, detail } => Some(
                Thing::AudioSession(
                    subject.pid,
                    match detail.device {
                        Some(d) => Some(d.id),
                        None => None,
                    },
                ),
            ),
            ObservationView::CaptureExcluded { subject, detail } => match detail.window {
                Some(w) => match w.id {
                    Some(id) => Some(Thing::Window(id)),
                    None => None,
                },
                None => None,
            },
            ObservationView::Foreground { subject, detail } => Some(Thing::Foreground),
        }
    }

    pub open spec fn observation_key(self) -> Option<Seq<char>> {
        match self.thing() {
            Some(t) => Some(t.key()),
            None => None,
        }
    }

    /// The detail as a signal carries it, with its members in the order of their names.
    pub open spec fn detail_json(self) -> JsonView {
        json::key_ordered(
            JsonView::Object(
                match self {
                    ObservationView::Process { subject, detail } => detail.members(),
                    ObservationView::Signature { subject, detail } => detail.members(),
                    ObservationView::Microphone { subject, detail } => detail.members(),
                    ObservationView::CaptureExcluded { subject, detail } => detail.members(),
                    ObservationView::Foreground { subject, detail } => detail.members(),
                },
            ),
        )
    }

    /// The signal that reports the observation.
    pub open spec fn signal(self) -> SignalView {
        SignalView {
            code: self.code(),
            tier: self.tier(),
            scope: self.scope(),
            subject: Some(self.subject()),
            detail: self.detail_json(),
            observation_key: self.observation_key(),
            first_observed_ts: None,
        }
    }
}

fn pid_key(prefix: &str, pid: u32) -> (r: String)
    ensures
        r@ == prefix@ + text::decimal(pid as nat),
{
    let mut key = prefix.to_owned();
    push_decimal(&mut key, pid as u64);
    key
}

impl Observation {
    pub fn code(&self) -> (r: &'static str)
        ensures
            r@ == self@.code(),
    {
        match self {
            Observation::Process { .. } => "S1",
            Observation::Signature { .. } => "S2",
            Observation::Microphone { .. } => "S3",
            Observation::CaptureExcluded { .. } => "S5",
            Observation::Foreground { .. } => "S6",
        }
    }

    pub fn scope(&self) -> (r: &'static str)
        ensures
            r@ == self@.scope(),
    {
        match self {
            Observation::Process { .. } => "process",
            Observation::Signature { .. } => "process",
            Observation::Microphone { .. } => "process",
            Observation::CaptureExcluded { .. } => "window",
            Observation::Foreground { .. } => "window",
        }
    }

    pub fn tier(&self) -> (r: u8)
        ensures
            r == self@.tier(),
            r == 2 || r == 3,
    {
        match self {
            Observation::Process { .. } => 3,
            Observation::Signature { .. } => 3,
            Observation::Foreground { .. } => 3,
            Observation::Microphone { detail, .. } => {
                // Windows' own system-sounds session owns a capture session and has no window. It
                // is not a finding, and tiering it would put Windows itself in front of the
                // interviewer every session.
                if detail.is_system_sounds {
                    return 3;
                }
                // `has_visible_window` would be the sharper discriminator — a tray-resident
                // assistant owns only hidden windows and is demoted to tier 3 here. An idle meeting
                // client also owns only hidden windows, though, and a false tier 2 against the
                // meeting client is worse than the miss.
                if detail.holds_microphone && !detail.has_window {
                    2
                } else {
                    3
                }
            },
            Observation::CaptureExcluded { detail, .. } => {
                if detail.capture_excluded {
                    2
                } else {
                    3
                }
            },
        }
    }

    /// Stable while the underlying thing is the same, different when it is not — so the panel
    /// renders one persistent row rather than a new row every second.
    pub fn observation_key(&self) -> (r: Option<String>)
        ensures
            text::opt_text(r) == self@.observation_key(),
    {
        match self {
            Observation::Process { subject, .. } => Some(pid_key("S1:pid:", subject.pid)),
            Observation::Signature { subject, .. } => Some(pid_key("S2:pid:", subject.pid)),
            Observation::Microphone { subject, detail } => {
                let mut key = pid_key("S3:pid:", subject.pid);
                match &detail.device {
                    Some(d) => {
                        key.append(":dev:");
                        key.append(d.id.as_str());
                    },
                    None => (),
                }
                Some(key)
            },
            Observation::CaptureExcluded { detail, .. } => match &detail.window {
                Some(w) => match &w.id {
                    Some(id) => {
                        let mut key = String::from_str("S5:");
                        key.append(id.as_str());
                        Some(key)
                    },
                    None => None,
                },
                None => None,
            },
            Observation::Foreground { .. } => Some(String::from_str("S6:foreground")),
        }
    }

    /// The signal that reports the observation: code, scope, tier and key all come from the variant.
    pub fn into_signal(self) -> (r: Signal)
        ensures
            r@ == self@.signal(),
    {
        let code = self.code();
        let scope = self.scope();
        let tier = self.tier();
        let observation_key = self.observation_key();

        let (subject, detail) = match self {
            Observation::Process { subject, detail } => (subject, detail.to_json()),
            Observation::Signature { subject, detail } => (subject, detail.to_json()),
            Observation::Microphone { subject, detail } => (subject, detail.to_json()),
            Observation::CaptureExcluded { subject, detail } => (subject, detail.to_json()),
            Observation::Foreground { subject, detail } => (subject, detail.to_json()),
        };

        Signal {
            code,
            tier,
            scope,
            subject: Some(subject),
            detail: in_key_order(&detail),
            observation_key,
            first_observed_ts: None,
        }
    }
}

// ---------------------------------------------------------------------------------------------
// Laws
// ---------------------------------------------------------------------------------------------

/// No signal is of tier 1: a collector without a tool database cannot name a known tool.
pub proof fn law_never_tier_one(o: ObservationView)
    ensures
        o.signal().tier == 2 || o.signal().tier == 3,
{
}

impl ObservationView {
    /// The same observation of another subject.
    pub open spec fn about(self, subject: SubjectView) -> ObservationView {
        match self {
            ObservationView::Process { detail, .. } => ObservationView::Process { subject, detail },
            ObservationView::Signature { detail, .. } => ObservationView::Signature {
                subject,
                detail,
            },
            ObservationView::Microphone { detail, .. } => ObservationView::Microphone {
                subject,
                detail,
            },
            ObservationView::CaptureExcluded { detail, .. } => ObservationView::CaptureExcluded {
                subject,
                detail,
            },
            ObservationView::Foreground { detail, .. } => ObservationView::Foreground {
                subject,
                detail,
            },
        }
    }
}

/// There is no list of tools: what an observation is worth does not depend on who it is of. Its
/// subject's name, path, hash and signer change neither tier nor code, and a rename leaves the row
/// under its key.
pub proof fn law_identity_is_not_judged(o: ObservationView, subject: SubjectView)
    ensures
        o.about(subject).subject() == subject,
        o.about(subject).signal().tier == o.signal().tier,
        o.about(subject).signal().code == o.signal().code,
        o.about(subject).signal().scope == o.signal().scope,
        o.about(subject).signal().detail == o.signal().detail,
        subject.pid == o.subject().pid ==> o.about(subject).observation_key()
            == o.observation_key(),
{
}

/// Two signals of one code have details of one shape: the code is told by the kind of observation
/// and by nothing else.
pub proof fn law_code_tells_detail(a: ObservationView, b: ObservationView)
    ensures
        a.signal().code == b.signal().code <==> {
            ||| a is Process && b is Process
            ||| a is Signature && b is Signature
            ||| a is Microphone && b is Microphone
            ||| a is CaptureExcluded && b is CaptureExcluded
            ||| a is Foreground && b is Foreground
        },
{
    reveal_strlit("S1");
    reveal_strlit("S2");
    reveal_strlit("S3");
    reveal_strlit("S5");
    reveal_strlit("S6");
    assert(a.code()[1] == (if a is Process { '1' } else if a is Signature { '2' } else if a is
        Microphone { '3' } else if a is CaptureExcluded { '5' } else { '6' }));
    assert(b.code()[1] == (if b is Process { '1' } else if b is Signature { '2' } else if b is
        Microphone { '3' } else if b is CaptureExcluded { '5' } else { '6' }));
}

/// A session on a playback endpoint is context, whatever its owner shows: it never claims the
/// microphone and never rises above tier 3.
pub proof fn law_render_is_context(
    subject: SubjectView,
    has_window: bool,
    has_visible_window: bool,
    device: Option<AudioDeviceView>,
    session_state: Seq<char>,
    is_system_sounds: bool,
    pre_existing: Option<bool>,
)
    ensures
        ({
            let detail = DetailS3View::rendering(
                has_window,
                has_visible_window,
                device,
                session_state,
                is_system_sounds,
                pre_existing,
            );
            !detail.holds_microphone && (ObservationView::Microphone { subject, detail }).tier()
                == 3
        }),
{
}

/// The system's own sounds are never a finding.
pub proof fn law_system_sounds_are_context(subject: SubjectView, detail: DetailS3View)
    requires
        detail.is_system_sounds,
    ensures
        (ObservationView::Microphone { subject, detail }).tier() == 3,
{
}

/// Observations have one key exactly when they are of one thing, so a panel keeps one row per thing
/// and never merges two.
pub proof fn law_key_tells_thing(a: ObservationView, b: ObservationView)
    requires
        a.thing() is Some,
        b.thing() is Some,
    ensures
        a.observation_key() == b.observation_key() <==> a.thing() == b.thing(),
{
    if a.observation_key() == b.observation_key() {
        lemma_key_injective(a.thing().unwrap(), b.thing().unwrap());
    }
}

/// The second character of a key is the number of the signal.
proof fn lemma_key_code(t: Thing)
    ensures
        t.key()[1] == (match t {
            Thing::Process(_) => '1',
            Thing::Image(_) => '2',
            Thing::AudioSession(_, _) => '3',
            Thing::Window(_) => '5',
            Thing::Foreground => '6',
        }),
{
    reveal_strlit("S1:pid:");
    reveal_strlit("S2:pid:");
    reveal_strlit("S3:pid:");
    reveal_strlit("S5:");
    reveal_strlit("S6:foreground");
}

proof fn lemma_key_injective(a: Thing, b: Thing)
    requires
        a.key() == b.key(),
    ensures
        a == b,
{
    reveal_strlit(":dev:");
    reveal_strlit("S5:");
    lemma_key_code(a);
    lemma_key_code(b);
    match (a, b) {
        (Thing::Process(p), Thing::Process(q)) => {
            lemma_numbered("S1:pid:"@, p, Seq::empty(), q, Seq::empty());
        },
        (Thing::Image(p), Thing::Image(q)) => {
            lemma_numbered("S2:pid:"@, p, Seq::empty(), q, Seq::empty());
        },
        (Thing::AudioSession(p, d), Thing::AudioSession(q, e)) => {
            let x = match d {
                Some(id) => ":dev:"@ + id,
                None => Seq::empty(),
            };
            let y = match e {
                Some(id) => ":dev:"@ + id,
                None => Seq::empty(),
            };
            assert(a.key() =~= "S3:pid:"@ + text::decimal(p as nat) + x);
            assert(b.key() =~= "S3:pid:"@ + text::decimal(q as nat) + y);
            lemma_numbered("S3:pid:"@, p, x, q, y);
            assert(x.len() == 0 <==> d is None);
            assert(y.len() == 0 <==> e is None);
            if d is Some && e is Some {
                assert(x.skip(5) =~= d.unwrap());
                assert(y.skip(5) =~= e.unwrap());
            }
        },
        (Thing::Window(i), Thing::Window(j)) => {
            assert(a.key().skip(3) =~= i);
            assert(b.key().skip(3) =~= j);
        },
        _ => {},
    }
}

/// A prefix, a decimal number, and a tail that does not begin with a digit come apart in one way.
proof fn lemma_numbered(prefix: Seq<char>, p: u32, x: Seq<char>, q: u32, y: Seq<char>)
    requires
        prefix + text::decimal(p as nat) + x == prefix + text::decimal(q as nat) + y,
        x.len() == 0 || x[0] == ':',
        y.len() == 0 || y[0] == ':',
    ensures
        p == q,
        x == y,
{
    let m = text::decimal(p as nat);
    let n = text::decimal(q as nat);
    let left = prefix + m + x;
    let right = prefix + n + y;
    text::law_decimal_digits(p as nat);
    text::law_decimal_digits(q as nat);
    if m.len() < n.len() {
        let at = prefix.len() + m.len();
        assert(right[at as int] == n[m.len() as int]);
        assert(left.len() == right.len());
        assert(x.len() > 0);
        assert(left[at as int] == x[0]);
    }
    if n.len() < m.len() {
        let at = prefix.len() + n.len();
        assert(left[at as int] == m[n.len() as int]);
        assert(left.len() == right.len());
        assert(y.len() > 0);
        assert(right[at as int] == y[0]);
    }
    assert(left.subrange(prefix.len() as int, (prefix.len() + m.len()) as int) =~= m);
    assert(right.subrange(prefix.len() as int, (prefix.len() + n.len()) as int) =~= n);
    text::law_decimal_value(p as nat);
    text::law_decimal_value(q as nat);
    assert(left.skip((prefix.len() + m.len()) as int) =~= x);
    assert(right.skip((prefix.len() + n.len()) as int) =~= y);
}

/// All of a process detail is in its value, each thing once.
pub proof fn law_process_detail_on_the_wire(x: DetailS1View)
    ensures
        x.members().len() == 4,
        x.members().contains(("present"@, JsonView::Bool(x.present))),
        x.members().contains(("has_window"@, JsonView::Bool(x.has_window))),
        x.members().contains(("window_count"@, JsonView::Number(x.window_count as int))),
        x.members().contains(("session_kind"@, JsonView::Text(x.session_kind))),
{
    let m = x.members();
    let p0: int = 0;
    assert(m[p0] == ("present"@, JsonView::Bool(x.present)));
    let p1 = p0 + 1;
    assert(m[p1] == ("has_window"@, JsonView::Bool(x.has_window)));
    let p2 = p1 + 1;
    assert(m[p2] == ("window_count"@, JsonView::Number(x.window_count as int)));
    let p3 = p2 + 1;
    assert(m[p3] == ("session_kind"@, JsonView::Text(x.session_kind)));
}

/// All of a signature detail is in its value, each thing once: what was not checked is `null`, never
/// absent and never `true`.
pub proof fn law_signature_detail_on_the_wire(x: DetailS2View)
    ensures
        x.members().len() == 6 + (if x.platform_status is Some { 1int } else { 0int }),
        x.members().contains(("verified"@, json::bool_or_null(x.verified))),
        x.members().contains(("chain_trusted"@, json::bool_or_null(x.chain_trusted))),
        x.members().contains(("revocation_checked"@, json::bool_or_null(x.revocation_checked))),
        x.members().contains(("timestamped"@, json::bool_or_null(x.timestamped))),
        x.members().contains(("hash_algorithm"@, JsonView::Text(x.hash_algorithm))),
        x.members().contains(("hash_source"@, JsonView::Text(x.hash_source))),
        x.platform_status is Some
            ==> x.members().contains(("platform_status"@, JsonView::Text(x.platform_status.unwrap()))),
{
    let m = x.members();
    let p0: int = 0;
    assert(m[p0] == ("verified"@, json::bool_or_null(x.verified)));
    let p1 = p0 + 1;
    assert(m[p1] == ("chain_trusted"@, json::bool_or_null(x.chain_trusted)));
    let p2 = p1 + 1;
    assert(m[p2] == ("revocation_checked"@, json::bool_or_null(x.revocation_checked)));
    let p3 = p2 + 1;
    assert(m[p3] == ("timestamped"@, json::bool_or_null(x.timestamped)));
    let p4 = p3 + 1;
    assert(m[p4] == ("hash_algorithm"@, JsonView::Text(x.hash_algorithm)));
    let p5 = p4 + 1;
    assert(m[p5] == ("hash_source"@, JsonView::Text(x.hash_source)));
    let p6 = p5 + 1;
    if x.platform_status is Some {
        assert(m[p6] == ("platform_status"@, JsonView::Text(x.platform_status.unwrap())));
    }
}

/// All of a microphone detail is in its value, each thing once.
pub proof fn law_microphone_detail_on_the_wire(x: DetailS3View)
    ensures
        x.members().len() == 6
            + (if x.device is Some { 1int } else { 0int })
            + (if x.pre_existing is Some { 1int } else { 0int }),
        x.members().contains(("holds_microphone"@, JsonView::Bool(x.holds_microphone))),
        x.members().contains(("has_window"@, JsonView::Bool(x.has_window))),
        x.members().contains(("has_visible_window"@, JsonView::Bool(x.has_visible_window))),
        x.device is Some ==> x.members().contains(("device"@, x.device.unwrap().json())),
        x.members().contains(("session_state"@, JsonView::Text(x.session_state))),
        x.members().contains(("is_system_sounds"@, JsonView::Bool(x.is_system_sounds))),
        x.pre_existing is Some
            ==> x.members().contains(("pre_existing"@, JsonView::Bool(x.pre_existing.unwrap()))),
        x.members().contains(("endpoint_flow"@, JsonView::Text(x.endpoint_flow))),
{
    let m = x.members();
    let p0: int = 0;
    assert(m[p0] == ("holds_microphone"@, JsonView::Bool(x.holds_microphone)));
    let p1 = p0 + 1;
    assert(m[p1] == ("has_window"@, JsonView::Bool(x.has_window)));
    let p2 = p1 + 1;
    assert(m[p2] == ("has_visible_window"@, JsonView::Bool(x.has_visible_window)));
    let p3 = p2 + 1;
    if x.device is Some {
        assert(m[p3] == ("device"@, x.device.unwrap().json()));
    }
    let p4 = p3 + (if x.device is Some { 1int } else { 0int });
    assert(m[p4] == ("session_state"@, JsonView::Text(x.session_state)));
    let p5 = p4 + 1;
    assert(m[p5] == ("is_system_sounds"@, JsonView::Bool(x.is_system_sounds)));
    let p6 = p5 + 1;
    if x.pre_existing is Some {
        assert(m[p6] == ("pre_existing"@, JsonView::Bool(x.pre_existing.unwrap())));
    }
    let p7 = p6 + (if x.pre_existing is Some { 1int } else { 0int });
    assert(m[p7] == ("endpoint_flow"@, JsonView::Text(x.endpoint_flow)));
}

/// All of a capture-exclusion detail is in its value, each thing once.
pub proof fn law_exclusion_detail_on_the_wire(x: DetailS5View)
    ensures
        x.members().len() == 3 + (if x.window is Some { 1int } else { 0int }),
        x.members().contains(("capture_excluded"@, JsonView::Bool(x.capture_excluded))),
        x.members().contains(("affinity_raw"@, (match x.affinity_raw { Some(n) => JsonView::Number(n as int), None => JsonView::Null }))),
        x.members().contains(("affinity_name"@, JsonView::Text(x.affinity_name))),
        x.window is Some ==> x.members().contains(("window"@, x.window.unwrap().json())),
{
    let m = x.members();
    let p0: int = 0;
    assert(m[p0] == ("capture_excluded"@, JsonView::Bool(x.capture_excluded)));
    let p1 = p0 + 1;
    assert(m[p1] == ("affinity_raw"@, (match x.affinity_raw { Some(n) => JsonView::Number(n as int), None => JsonView::Null })));
    let p2 = p1 + 1;
    assert(m[p2] == ("affinity_name"@, JsonView::Text(x.affinity_name)));
    let p3 = p2 + 1;
    if x.window is Some {
        assert(m[p3] == ("window"@, x.window.unwrap().json()));
    }
}

/// All of a foreground detail is in its value, each thing once.
pub proof fn law_foreground_detail_on_the_wire(x: DetailS6View)
    ensures
        x.members().len() == 1 + (if x.window is Some { 1int } else { 0int }),
        x.members().contains(("is_foreground"@, JsonView::Bool(x.is_foreground))),
        x.window is Some ==> x.members().contains(("window"@, x.window.unwrap().json())),
{
    let m = x.members();
    let p0: int = 0;
    assert(m[p0] == ("is_foreground"@, JsonView::Bool(x.is_foreground)));
    let p1 = p0 + 1;
    if x.window is Some {
        assert(m[p1] == ("window"@, x.window.unwrap().json()));
    }
}

/// A session on a playback endpoint keeps all that was said of it, and says that it is one.
pub proof fn law_render_row_keeps_what_it_was_told(
    has_window: bool,
    has_visible_window: bool,
    device: Option<AudioDeviceView>,
    session_state: Seq<char>,
    is_system_sounds: bool,
    pre_existing: Option<bool>,
)
    ensures
        ({
            let d = DetailS3View::rendering(
                has_window,
                has_visible_window,
                device,
                session_state,
                is_system_sounds,
                pre_existing,
            );
            &&& d.has_window == has_window && d.has_visible_window == has_visible_window
            &&& d.device == device && d.session_state == session_state
            &&& d.is_system_sounds == is_system_sounds && d.pre_existing == pre_existing
            &&& d.endpoint_flow == "render"@
        }),
{
}

/// Tier 2 is two shapes and nothing else: a process other than the system's own sounds that holds the
/// microphone and has no window, and a window that is hidden from capture.
pub proof fn law_tier_two_is_two_shapes(o: ObservationView)
    ensures
        o.tier() == 2 <==> {
            ||| o matches ObservationView::Microphone { detail, .. } && detail.holds_microphone
                && !detail.has_window && !detail.is_system_sounds
            ||| o matches ObservationView::CaptureExcluded { detail, .. } && detail.capture_excluded
        },
        o.tier() != 2 ==> o.tier() == 3,
{
}

/// An observation reports under the code and the scope of its kind.
pub proof fn law_code_and_scope(o: ObservationView)
    ensures
        o is Process ==> o.signal().code == "S1"@ && o.signal().scope == "process"@,
        o is Signature ==> o.signal().code == "S2"@ && o.signal().scope == "process"@,
        o is Microphone ==> o.signal().code == "S3"@ && o.signal().scope == "process"@,
        o is CaptureExcluded ==> o.signal().code == "S5"@ && o.signal().scope == "window"@,
        o is Foreground ==> o.signal().code == "S6"@ && o.signal().scope == "window"@,
{
}

/// A signal carries its observation whole: the subject as it is, and every part of the detail under
/// its name.
pub proof fn law_signal_carries_the_observation(o: ObservationView)
    ensures
        o.signal().subject == Some(o.subject()),
        o.signal().tier == o.tier(),
        o.signal().observation_key == o.observation_key(),
        o.signal().first_observed_ts is None,
        o matches ObservationView::Process { subject, detail } ==> o.subject() == subject
            && o.signal().detail == JsonView::Object(json::ordered_members(detail.members())),
        o matches ObservationView::Signature { subject, detail } ==> o.subject() == subject
            && o.signal().detail == JsonView::Object(json::ordered_members(detail.members())),
        o matches ObservationView::Microphone { subject, detail } ==> o.subject() == subject
            && o.signal().detail == JsonView::Object(json::ordered_members(detail.members())),
        o matches ObservationView::CaptureExcluded { subject, detail } ==> o.subject() == subject
            && o.signal().detail == JsonView::Object(json::ordered_members(detail.members())),
        o matches ObservationView::Foreground { subject, detail } ==> o.subject() == subject
            && o.signal().detail == JsonView::Object(json::ordered_members(detail.members())),
{
}

/// A row is found again by what tells its thing from others: the process, the process and the device,
/// or the window.
pub proof fn law_what_a_key_says(o: ObservationView)
    ensures
        o is Process ==> o.observation_key() == Some(
            "S1:pid:"@ + text::decimal(o.subject().pid as nat),
        ),
        o is Signature ==> o.observation_key() == Some(
            "S2:pid:"@ + text::decimal(o.subject().pid as nat),
        ),
        o matches ObservationView::Microphone { subject, detail } ==> match detail.device {
            Some(d) => o.observation_key() == Some(
                "S3:pid:"@ + text::decimal(subject.pid as nat) + ":dev:"@ + d.id,
            ),
            None => o.observation_key() == Some("S3:pid:"@ + text::decimal(subject.pid as nat)),
        },
        o matches ObservationView::CaptureExcluded { subject, detail } ==> match detail.window {
            Some(w) => match w.id {
                Some(id) => o.observation_key() == Some("S5:"@ + id),
                None => o.observation_key() is None,
            },
            None => o.observation_key() is None,
        },
        o is Foreground ==> o.observation_key() == Some("S6:foreground"@),
{
}

/// The view of a [`DetailS1`] shows all of it, and each part as it is.
pub proof fn law_view_of_detail_s1(x: DetailS1)
    ensures
        x@.present == x.present,
        x@.has_window == x.has_window,
        x@.window_count == x.window_count,
        x@.session_kind == x.session_kind@,
{
}

/// The view of a [`DetailS3`] shows all of it, and each part as it is.
pub proof fn law_view_of_detail_s3(x: DetailS3)
    ensures
        x@.holds_microphone == x.holds_microphone,
        x@.has_window == x.has_window,
        x@.has_visible_window == x.has_visible_window,
        x@.device is Some <==> x.device is Some,
        x.device matches Some(v) ==> x@.device == Some(v@),
        x@.session_state == x.session_state@,
        x@.is_system_sounds == x.is_system_sounds,
        x@.pre_existing == x.pre_existing,
        x@.endpoint_flow == x.endpoint_flow@,
{
}

/// The view of a [`DetailS5`] shows all of it, and each part as it is.
pub proof fn law_view_of_detail_s5(x: DetailS5)
    ensures
        x@.capture_excluded == x.capture_excluded,
        x@.affinity_raw == x.affinity_raw,
        x@.affinity_name == x.affinity_name@,
        x@.window is Some <==> x.window is Some,
        x.window matches Some(v) ==> x@.window == Some(v@),
{
}

/// The view of a [`DetailS6`] shows all of it, and each part as it is.
pub proof fn law_view_of_detail_s6(x: DetailS6)
    ensures
        x@.is_foreground == x.is_foreground,
        x@.window is Some <==> x.window is Some,
        x.window matches Some(v) ==> x@.window == Some(v@),
{
}

/// The view of a [`DetailS2`] shows all of it, and each part as it is.
pub proof fn law_view_of_detail_s2(x: DetailS2)
    ensures
        x@.verified == x.verified,
        x@.chain_trusted == x.chain_trusted,
        x@.revocation_checked == x.revocation_checked,
        x@.timestamped == x.timestamped,
        x@.hash_algorithm == x.hash_algorithm@,
        x@.hash_source == x.hash_source@,
        x@.platform_status is Some <==> x.platform_status is Some,
        x.platform_status matches Some(v) ==> x@.platform_status == Some(v@),
{
}

/// The view of an [`Observation`] tells its kinds apart and shows its subject and its detail.
pub proof fn law_view_of_observation(x: Observation)
    ensures
        x matches Observation::Process { subject, detail } ==> x@ == (ObservationView::Process {
            subject: subject@,
            detail: detail@,
        }),
        x matches Observation::Signature { subject, detail } ==> x@ == (ObservationView::Signature {
            subject: subject@,
            detail: detail@,
        }),
        x matches Observation::Microphone { subject, detail } ==> x@ == (
        ObservationView::Microphone { subject: subject@, detail: detail@ }),
        x matches Observation::CaptureExcluded { subject, detail } ==> x@ == (
        ObservationView::CaptureExcluded { subject: subject@, detail: detail@ }),
        x matches Observation::Foreground { subject, detail } ==> x@ == (
        ObservationView::Foreground { subject: subject@, detail: detail@ }),
{
}

} // verus!
