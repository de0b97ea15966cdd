//! The coverage report — what this collector can and cannot see.
//!
//! This is the half of the contract that stops the other half from lying. A degraded collector and
//! a genuinely clean machine both produce an empty signal list; they render identically and mean
//! opposite things. "Nothing flagged" is only meaningful next to a coverage line.
//!
//! Two rules:
//!
//! * The shorthand string form exists only for `full` and `not_applicable`. Every degraded state
//!   must carry a machine-readable [`CapabilityReason`], so "denied, and nobody said why" cannot be
//!   expressed. See [`Capability::to_json`].
//! * [`CapabilityMethod::Probed`] means the collector *called the API and looked at the result*.
//!   Anything else must render as unverified in the panel. "Measured, not assumed" is only true if
//!   the wire can tell the difference — so [`Capability::probed`] and [`Capability::degraded`] are
//!   the only constructors that produce it.

use vstd::prelude::*;

use crate::envelope;
use crate::ident;
use crate::ident::Uuid;
use crate::json;
use crate::json::{Items, Json, JsonView, Members};
use crate::table;
use crate::table::Table;
use crate::text;
use crate::time;
use crate::time::{Timestamp, TimestampView};

verus! {

#[derive(Debug, Clone, Copy, PartialEq, Eq, Structural)]
pub enum CapabilityState {
    /// Probed and works completely.
    Full,
    /// Works, with a stated limit. Must carry a reason.
    Partial,
    /// The platform or the user refused. **Fixable by the candidate** — which is the whole reason
    /// it is distinct from [`Unsupported`](Self::Unsupported).
    Denied,
    /// This OS build or this collector has no such capability. Not fixable, and must never be
    /// rendered with a "grant permission" prompt.
    Unsupported,
    /// Meaningless for this collector — an in-guest collector and `host_machine`, for instance.
    NotApplicable,
    Unknown,
}

impl CapabilityState {
    pub open spec fn name(self) -> Seq<char> {
        match self {
            CapabilityState::Full => "full"@,
            CapabilityState::Partial => "partial"@,
            CapabilityState::Denied => "denied"@,
            CapabilityState::Unsupported => "unsupported"@,
            CapabilityState::NotApplicable => "not_applicable"@,
            CapabilityState::Unknown => "unknown"@,
        }
    }

    /// The states that need no excuse.
    pub open spec fn good(self) -> bool {
        self is Full || self is NotApplicable
    }

    /// The name on the wire.
    pub fn as_str(self) -> (r: &'static str)
        ensures
            r@ == self.name(),
    {
        match self {
            CapabilityState::Full => "full",
            CapabilityState::Partial => "partial",
            CapabilityState::Denied => "denied",
            CapabilityState::Unsupported => "unsupported",
            CapabilityState::NotApplicable => "not_applicable",
            CapabilityState::Unknown => "unknown",
        }
    }

    /// Whether the shorthand string form is permitted. Only the two states that need no excuse.
    pub fn is_shorthandable(self) -> (b: bool)
        ensures
            b == self.good(),
    {
        match self {
            CapabilityState::Full => true,
            CapabilityState::NotApplicable => true,
            _ => false,
        }
    }
}

#[derive(Debug, Clone, Copy, PartialEq, Eq, Structural)]
pub enum CapabilityMethod {
    /// The collector actually called the API at startup and looked at the result. The only method
    /// accepted for the core capabilities.
    Probed,
    /// Asserted from build configuration or platform version.
    Declared,
    /// Derived from another probe's outcome.
    Inferred,
}

impl CapabilityMethod {
    pub open spec fn name(self) -> Seq<char> {
        match self {
            CapabilityMethod::Probed => "probed"@,
            CapabilityMethod::Declared => "declared"@,
            CapabilityMethod::Inferred => "inferred"@,
        }
    }

    /// The name on the wire.
    pub fn as_str(self) -> (r: &'static str)
        ensures
            r@ == self.name(),
    {
        match self {
            CapabilityMethod::Probed => "probed",
            CapabilityMethod::Declared => "declared",
            CapabilityMethod::Inferred => "inferred",
        }
    }
}

#[derive(Debug, Clone, Copy, PartialEq, Eq, Structural)]
pub enum CapabilityReason {
    PermissionNotGranted,
    PermissionRevoked,
    PermissionNotRequested,
    AccessDenied,
    ApiUnavailable,
    OsVersionTooOld,
    EntitlementMissing,
    NotImplemented,
    CollectorScope,
    PolicyDisabled,
    ProbeFailed,
    ProbeTimeout,
    DegradedPolling,
    HardwareAbsent,
    NotProbedYet,
    Other,
}

impl CapabilityReason {
    pub open spec fn name(self) -> Seq<char> {
        match self {
            CapabilityReason::PermissionNotGranted => "permission_not_granted"@,
            CapabilityReason::PermissionRevoked => "permission_revoked"@,
            CapabilityReason::PermissionNotRequested => "permission_not_requested"@,
            CapabilityReason::AccessDenied => "access_denied"@,
            CapabilityReason::ApiUnavailable => "api_unavailable"@,
            CapabilityReason::OsVersionTooOld => "os_version_too_old"@,
            CapabilityReason::EntitlementMissing => "entitlement_missing"@,
            CapabilityReason::NotImplemented => "not_implemented"@,
            CapabilityReason::CollectorScope => "collector_scope"@,
            CapabilityReason::PolicyDisabled => "policy_disabled"@,
            CapabilityReason::ProbeFailed => "probe_failed"@,
            CapabilityReason::ProbeTimeout => "probe_timeout"@,
            CapabilityReason::DegradedPolling => "degraded_polling"@,
            CapabilityReason::HardwareAbsent => "hardware_absent"@,
            CapabilityReason::NotProbedYet => "not_probed_yet"@,
            CapabilityReason::Other => "other"@,
        }
    }

    /// The name on the wire.
    pub fn as_str(self) -> (r: &'static str)
        ensures
            r@ == self.name(),
    {
        match self {
            CapabilityReason::PermissionNotGranted => "permission_not_granted",
            CapabilityReason::PermissionRevoked => "permission_revoked",
            CapabilityReason::PermissionNotRequested => "permission_not_requested",
            CapabilityReason::AccessDenied => "access_denied",
            CapabilityReason::ApiUnavailable => "api_unavailable",
            CapabilityReason::OsVersionTooOld => "os_version_too_old",
            CapabilityReason::EntitlementMissing => "entitlement_missing",
            CapabilityReason::NotImplemented => "not_implemented",
            CapabilityReason::CollectorScope => "collector_scope",
            CapabilityReason::PolicyDisabled => "policy_disabled",
            CapabilityReason::ProbeFailed => "probe_failed",
            CapabilityReason::ProbeTimeout => "probe_timeout",
            CapabilityReason::DegradedPolling => "degraded_polling",
            CapabilityReason::HardwareAbsent => "hardware_absent",
            CapabilityReason::NotProbedYet => "not_probed_yet",
            CapabilityReason::Other => "other",
        }
    }
}

#[derive(Debug, Clone, Copy, PartialEq, Eq, Structural)]
pub enum CoverageReason {
    Handshake,
    PermissionChanged,
    DeviceChanged,
    ProbeFailure,
    ProbeRecovered,
    PeriodicRecheck,
    CollectorUpgraded,
    Requested,
    Other,
}

impl CoverageReason {
    pub open spec fn name(self) -> Seq<char> {
        match self {
            CoverageReason::Handshake => "handshake"@,
            CoverageReason::PermissionChanged => "permission_changed"@,
            CoverageReason::DeviceChanged => "device_changed"@,
            CoverageReason::ProbeFailure => "probe_failure"@,
            CoverageReason::ProbeRecovered => "probe_recovered"@,
            CoverageReason::PeriodicRecheck => "periodic_recheck"@,
            CoverageReason::CollectorUpgraded => "collector_upgraded"@,
            CoverageReason::Requested => "requested"@,
            CoverageReason::Other => "other"@,
        }
    }

    /// The name on the wire.
    pub fn as_str(self) -> (r: &'static str)
        ensures
            r@ == self.name(),
    {
        match self {
            CoverageReason::Handshake => "handshake",
            CoverageReason::PermissionChanged => "permission_changed",
            CoverageReason::DeviceChanged => "device_changed",
            CoverageReason::ProbeFailure => "probe_failure",
            CoverageReason::ProbeRecovered => "probe_recovered",
            CoverageReason::PeriodicRecheck => "periodic_recheck",
            CoverageReason::CollectorUpgraded => "collector_upgraded",
            CoverageReason::Requested => "requested",
            CoverageReason::Other => "other",
        }
    }
}

/// Capability keys. Open vocabulary — this enum exists so two independent implementations of the
/// contract choose the same names, not to constrain them.
#[derive(Debug, Clone, Copy, PartialEq, Eq, PartialOrd, Ord, Structural)]
pub enum CapabilityKey {
    S1Processes,
    S2Signature,
    S3MicOwner,
    S5CaptureExcluded,
    S6WindowTitles,
    /// Gates S2 rather than S1: an image you cannot read is an image you cannot hash. Its own key
    /// because that distinction decides whether tier 1 can ever fire.
    ProcessPaths,
    /// `not_applicable` for a host agent — it *is* the host. The in-guest collector reports this
    /// as its blind spot, which is why A and C pair.
    HostMachine,
    RealtimeEvents,
}

impl CapabilityKey {
    pub open spec fn name(self) -> Seq<char> {
        match self {
            CapabilityKey::S1Processes => "S1_processes"@,
            CapabilityKey::S2Signature => "S2_signature"@,
            CapabilityKey::S3MicOwner => "S3_mic_owner"@,
            CapabilityKey::S5CaptureExcluded => "S5_capture_excluded"@,
            CapabilityKey::S6WindowTitles => "S6_window_titles"@,
            CapabilityKey::ProcessPaths => "process_paths"@,
            CapabilityKey::HostMachine => "host_machine"@,
            CapabilityKey::RealtimeEvents => "realtime_events"@,
        }
    }

    /// The signal codes that the capability gates.
    pub open spec fn gated(self) -> Seq<Seq<char>> {
        match self {
            CapabilityKey::S1Processes => seq!["S1"@],
            CapabilityKey::S2Signature => seq!["S2"@],
            CapabilityKey::S3MicOwner => seq!["S3"@],
            CapabilityKey::S5CaptureExcluded => seq!["S5"@],
            CapabilityKey::S6WindowTitles => seq!["S6"@],
            CapabilityKey::ProcessPaths => seq!["S2"@],
            CapabilityKey::HostMachine => Seq::empty(),
            CapabilityKey::RealtimeEvents => Seq::empty(),
        }
    }

    pub fn as_str(self) -> (r: &'static str)
        ensures
            r@ == self.name(),
    {
        match self {
            CapabilityKey::S1Processes => "S1_processes",
            CapabilityKey::S2Signature => "S2_signature",
            CapabilityKey::S3MicOwner => "S3_mic_owner",
            CapabilityKey::S5CaptureExcluded => "S5_capture_excluded",
            CapabilityKey::S6WindowTitles => "S6_window_titles",
            CapabilityKey::ProcessPaths => "process_paths",
            CapabilityKey::HostMachine => "host_machine",
            CapabilityKey::RealtimeEvents => "realtime_events",
        }
    }

    /// Which signal code this capability gates, so a consumer need not parse the key name. Parsing
    /// `S6_window_titles` into `S6` by string prefix works by luck, and `host_machine` and
    /// `realtime_events` have no code at all.
    pub fn signals(self) -> (r: &'static [&'static str])
        ensures
            r@.map_values(|code: &'static str| code@) == self.gated(),
    {
        let r: &'static [&'static str] = match self {
            CapabilityKey::S1Processes => &["S1"],
            CapabilityKey::S2Signature => &["S2"],
            CapabilityKey::S3MicOwner => &["S3"],
            CapabilityKey::S5CaptureExcluded => &["S5"],
            CapabilityKey::S6WindowTitles => &["S6"],
            CapabilityKey::ProcessPaths => &["S2"],
            CapabilityKey::HostMachine => &[],
            CapabilityKey::RealtimeEvents => &[],
        };
        assert(r@.map_values(|code: &'static str| code@) =~= self.gated());
        r
    }
}

#[derive(Debug, Clone)]
pub struct Capability {
    pub key: CapabilityKey,
    pub state: CapabilityState,
    pub method: CapabilityMethod,
    pub reason: Option<CapabilityReason>,
    pub detail: Option<String>,
    /// The Win32/CoreAudio entry point actually called, so a coverage answer can be audited against
    /// the code that produced it.
    pub platform_api: Option<&'static str>,
    pub checked_at: Option<Timestamp>,
    /// Quantified limits — e.g. `{"processes_total": 324, "paths_unreadable": 180}`. This is where
    /// the real numbers go rather than into prose.
    pub limits: Table<u64>,
}

#[verifier::ext_equal]
pub struct CapabilityView {
    pub key: CapabilityKey,
    pub state: CapabilityState,
    pub method: CapabilityMethod,
    pub reason: Option<CapabilityReason>,
    pub detail: Option<Seq<char>>,
    pub platform_api: Option<Seq<char>>,
    pub checked_at: Option<TimestampView>,
    pub limits: Seq<(Seq<char>, u64)>,
}

impl View for Capability {
    type V = CapabilityView;

    open spec fn view(&self) -> CapabilityView {
        CapabilityView {
            key: self.key,
            state: self.state,
            method: self.method,
            reason: self.reason,
            detail: text::opt_text(self.detail),
            platform_api: text::opt_str(self.platform_api),
            checked_at: time::opt_time(self.checked_at),
            limits: self.limits@,
        }
    }
}

/// Limits as object members.
pub open spec fn limit_members(rows: Seq<(Seq<char>, u64)>) -> Seq<(Seq<char>, JsonView)> {
    rows.map_values(|row: (Seq<char>, u64)| (row.0, JsonView::Number(row.1 as int)))
}

/// Signal codes as list items.
pub open spec fn code_items(codes: Seq<Seq<char>>) -> Seq<JsonView> {
    codes.map_values(|code: Seq<char>| JsonView::Text(code))
}

impl CapabilityView {
    /// An answer from calling an API, which `at` some time worked completely.
    pub open spec fn works(key: CapabilityKey, api: Seq<char>, at: Option<TimestampView>) -> Self {
        CapabilityView {
            key,
            state: CapabilityState::Full,
            method: CapabilityMethod::Probed,
            reason: None,
            detail: None,
            platform_api: Some(api),
            checked_at: at,
            limits: Seq::empty(),
        }
    }

    /// An answer from calling an API, which `at` some time did not work, or only partly.
    pub open spec fn limited(
        key: CapabilityKey,
        state: CapabilityState,
        reason: CapabilityReason,
        api: Seq<char>,
        at: Option<TimestampView>,
    ) -> Self {
        CapabilityView {
            key,
            state,
            method: CapabilityMethod::Probed,
            reason: Some(reason),
            detail: None,
            platform_api: Some(api),
            checked_at: at,
            limits: Seq::empty(),
        }
    }

    /// A capability without meaning for this collector.
    pub open spec fn meaningless(key: CapabilityKey) -> Self {
        CapabilityView {
            key,
            state: CapabilityState::NotApplicable,
            method: CapabilityMethod::Declared,
            reason: None,
            detail: None,
            platform_api: None,
            checked_at: None,
            limits: Seq::empty(),
        }
    }

    pub open spec fn detailed(self, detail: Seq<char>) -> Self {
        CapabilityView { detail: Some(detail), ..self }
    }

    pub open spec fn limit(self, name: Seq<char>, value: u64) -> Self {
        CapabilityView { limits: table::put_row(self.limits, name, value), ..self }
    }

    /// The answer without the time at which it was got.
    pub open spec fn untimed(self) -> Self {
        CapabilityView { checked_at: None, ..self }
    }

    /// A state that needs an excuse has one.
    pub open spec fn explained(self) -> bool {
        self.state.good() || self.reason is Some
    }

    /// A good state, nothing to explain, and no quantified limits worth carrying.
    pub open spec fn shorthandable(self) -> bool {
        &&& self.state.good()
        &&& self.reason is None
        &&& self.detail is None
        &&& self.limits.len() == 0
        &&& !(self.method is Probed)
    }

    /// The members on the wire, in order, of the long form.
    pub open spec fn members(self) -> Seq<(Seq<char>, JsonView)> {
        seq![
            ("state"@, JsonView::Text(self.state.name())),
            ("method"@, JsonView::Text(self.method.name())),
        ] + json::text_member_if(
            "reason"@,
            match self.reason {
                Some(r) => Some(r.name()),
                None => None,
            },
        ) + json::text_member_if("detail"@, self.detail) + json::member_if(
            "signals"@,
            if self.key.gated().len() == 0 {
                None
            } else {
                Some(JsonView::List(code_items(self.key.gated())))
            },
        ) + json::text_member_if("platform_api"@, self.platform_api) + json::text_member_if(
            "checked_at"@,
            time::opt_time_text(self.checked_at),
        ) + json::member_if(
            "limits"@,
            if self.limits.len() == 0 {
                None
            } else {
                Some(JsonView::Object(limit_members(self.limits)))
            },
        )
    }

    pub open spec fn json(self) -> JsonView {
        if self.shorthandable() {
            JsonView::Text(self.state.name())
        } else {
            JsonView::Object(self.members())
        }
    }
}

impl Capability {
    /// The collector called the API and it worked completely.
    pub fn probed(key: CapabilityKey, platform_api: &'static str) -> (r: Self)
        ensures
            r@ == CapabilityView::works(key, platform_api@, r@.checked_at),
            r@.checked_at is Some,
            r@.explained(),
    {
        Capability {
            key,
            state: CapabilityState::Full,
            method: CapabilityMethod::Probed,
            reason: None,
            detail: None,
            platform_api: Some(platform_api),
            checked_at: Some(Timestamp::now()),
            limits: Table::new(),
        }
    }

    /// The collector called the API and it did not work, or worked only partly. A reason is
    /// mandatory at the type level, because it is mandatory on the wire.
    pub fn degraded(
        key: CapabilityKey,
        state: CapabilityState,
        reason: CapabilityReason,
        platform_api: &'static str,
    ) -> (r: Self)
        requires
            !(state is Full),
        ensures
            r@ == CapabilityView::limited(key, state, reason, platform_api@, r@.checked_at),
            r@.checked_at is Some,
            r@.explained(),
    {
        Capability {
            key,
            state,
            method: CapabilityMethod::Probed,
            reason: Some(reason),
            detail: None,
            platform_api: Some(platform_api),
            checked_at: Some(Timestamp::now()),
            limits: Table::new(),
        }
    }

    /// Meaningless for this collector. A host agent *is* the host machine, so it cannot observe one.
    pub fn not_applicable(key: CapabilityKey) -> (r: Self)
        ensures
            r@ == CapabilityView::meaningless(key),
            r@.explained(),
    {
        Capability {
            key,
            state: CapabilityState::NotApplicable,
            method: CapabilityMethod::Declared,
            reason: None,
            detail: None,
            platform_api: None,
            checked_at: None,
            limits: Table::new(),
        }
    }

    pub fn with_detail(self, detail: String) -> (r: Self)
        ensures
            r@ == self@.detailed(detail@),
            self@.explained() ==> r@.explained(),
    {
        let mut c = self;
        c.detail = Some(detail);
        c
    }

    pub fn with_limit(self, name: &str, value: u64) -> (r: Self)
        ensures
            r@ == self@.limit(name@, value),
            table::dict(r@.limits) == table::dict(self@.limits).insert(name@, value),
            self@.explained() ==> r@.explained(),
    {
        let mut c = self;
        c.limits.insert(name.to_owned(), value);
        c
    }

    /// True when the report may use the bare-string form: a good state, nothing to explain, and no
    /// quantified limits worth carrying.
    pub fn shorthandable(&self) -> (b: bool)
        ensures
            b == self@.shorthandable(),
    {
        self.state.is_shorthandable() && self.reason.is_none() && self.detail.is_none()
            && self.limits.is_empty() && self.method != CapabilityMethod::Probed
    }

    /// The value on the wire.
    pub fn to_json(&self) -> (r: Json)
        ensures
            r@ == self@.json(),
    {
        if self.shorthandable() {
            return match self.state {
                CapabilityState::Full => Json::text("full"),
                _ => Json::text("not_applicable"),
            };
        }
        let mut m = Members::new();
        m.put_text("state", self.state.as_str());
        m.put_text("method", self.method.as_str());
        assert(m@ =~= seq![
            ("state"@, JsonView::Text(self.state.name())),
            ("method"@, JsonView::Text(self.method.name())),
        ]);
        let reason: Option<&str> = match self.reason {
            Some(r) => Some(r.as_str()),
            None => None,
        };
        m.put_str_if("reason", reason);
        m.put_text_if("detail", &self.detail);
        m.put_if("signals", signals_json(self.key));
        m.put_str_if("platform_api", self.platform_api);
        let checked_at: Option<String> = match &self.checked_at {
            Some(t) => Some(t.to_text()),
            None => None,
        };
        m.put_text_if("checked_at", &checked_at);
        m.put_if("limits", limits_json(&self.limits));
        m.finish()
    }
}

/// The list of the signal codes that a capability gates, if it gates any.
fn signals_json(key: CapabilityKey) -> (r: Option<Json>)
    ensures
        r is Some <==> key.gated().len() > 0,
        r matches Some(j) ==> j@ == JsonView::List(code_items(key.gated())),
{
    let codes = key.signals();
    let ghost all = code_items(key.gated());
    assert(codes@.len() == key.gated().len());
    if codes.len() == 0 {
        return None;
    }
    let mut items = Items::new();
    let mut i: usize = 0;
    while i < codes.len()
        invariant
            i <= codes@.len(),
            codes@.map_values(|code: &'static str| code@) == key.gated(),
            all == code_items(key.gated()),
            items@ == all.take(i as int),
        decreases codes@.len() - i,
    {
        assert(codes@.map_values(|code: &'static str| code@)[i as int] == codes@[i as int]@);
        items.add_item(Json::text(codes[i]));
        i = i + 1;
        assert(items@ =~= all.take(i as int));
    }
    assert(all.take(i as int) =~= all);
    Some(items.finish())
}

/// The object of limits, if there are any.
fn limits_json(limits: &Table<u64>) -> (r: Option<Json>)
    ensures
        r is Some <==> limits@.len() > 0,
        r matches Some(j) ==> j@ == JsonView::Object(limit_members(limits@)),
{
    if limits.is_empty() {
        return None;
    }
    let mut m = Members::new();
    let mut i: usize = 0;
    while i < limits.len()
        invariant
            i <= limits@.len(),
            m@ == limit_members(limits@.take(i as int)),
        decreases limits@.len() - i,
    {
        m.put(limits.key(i), Json::Number(*limits.value(i)));
        i = i + 1;
        assert(m@ =~= limit_members(limits@.take(i as int)));
    }
    assert(limits@.take(i as int) =~= limits@);
    Some(m.finish())
}

#[derive(Debug, Clone)]
pub struct Platform {
    pub os: &'static str,
    pub os_version: Option<String>,
    pub os_build: Option<String>,
    pub arch: &'static str,
    pub locale: Option<String>,
}

#[verifier::ext_equal]
pub struct PlatformView {
    pub os: Seq<char>,
    pub os_version: Option<Seq<char>>,
    pub os_build: Option<Seq<char>>,
    pub arch: Seq<char>,
    pub locale: Option<Seq<char>>,
}

impl View for Platform {
    type V = PlatformView;

    open spec fn view(&self) -> PlatformView {
        PlatformView {
            os: self.os@,
            os_version: text::opt_text(self.os_version),
            os_build: text::opt_text(self.os_build),
            arch: self.arch@,
            locale: text::opt_text(self.locale),
        }
    }
}

impl PlatformView {
    /// The members on the wire, in order.
    pub open spec fn members(self) -> Seq<(Seq<char>, JsonView)> {
        seq![
            ("os"@, JsonView::Text(self.os)),
            envelope::nullable("os_version"@, self.os_version),
            envelope::nullable("os_build"@, self.os_build),
            ("arch"@, JsonView::Text(self.arch)),
            envelope::nullable("locale"@, self.locale),
        ]
    }
}

impl Platform {
    /// The value on the wire.
    pub fn to_json(&self) -> (r: Json)
        ensures
            r@ == JsonView::Object(self@.members()),
    {
        let mut m = Members::new();
        m.put_text("os", self.os);
        m.put("os_version", Json::text_or_null(&self.os_version));
        m.put("os_build", Json::text_or_null(&self.os_build));
        m.put_text("arch", self.arch);
        m.put("locale", Json::text_or_null(&self.locale));
        assert(m@ =~= self@.members());
        m.finish()
    }
}

#[derive(Debug, Clone)]
pub struct CoverageReport {
    pub schema_version: &'static str,
    pub message_type: &'static str,
    pub collector_id: &'static str,
    pub collector_instance_id: Uuid,
    pub session_id: Uuid,
    /// Shares the envelope's `seq` space so the relative order of a coverage change and the samples
    /// around it is provable.
    pub seq: u64,
    pub ts: Timestamp,
    pub reason: CoverageReason,
    pub supersedes_seq: Option<u64>,
    pub platform: Platform,
    pub capabilities: Table<Capability>,
    pub notes: Option<String>,
}

#[verifier::ext_equal]
pub struct CoverageReportView {
    pub schema_version: Seq<char>,
    pub message_type: Seq<char>,
    pub collector_id: Seq<char>,
    pub collector_instance_id: Seq<u8>,
    pub session_id: Seq<u8>,
    pub seq: u64,
    pub ts: TimestampView,
    pub reason: CoverageReason,
    pub supersedes_seq: Option<u64>,
    pub platform: PlatformView,
    pub capabilities: Seq<(Seq<char>, CapabilityView)>,
    pub notes: Option<Seq<char>>,
}

impl View for CoverageReport {
    type V = CoverageReportView;

    open spec fn view(&self) -> CoverageReportView {
        CoverageReportView {
            schema_version: self.schema_version@,
            message_type: self.message_type@,
            collector_id: self.collector_id@,
            collector_instance_id: self.collector_instance_id@,
            session_id: self.session_id@,
            seq: self.seq,
            ts: self.ts@,
            reason: self.reason,
            supersedes_seq: self.supersedes_seq,
            platform: self.platform@,
            capabilities: table::map_rows(self.capabilities@, |c: Capability| c@),
            notes: text::opt_text(self.notes),
        }
    }
}

/// Capabilities under the names of their keys. Of two with one key the later stands.
pub open spec fn by_name(capabilities: Seq<CapabilityView>) -> Seq<(Seq<char>, CapabilityView)>
    decreases capabilities.len(),
{
    if capabilities.len() == 0 {
        Seq::empty()
    } else {
        table::put_row(
            by_name(capabilities.drop_last()),
            capabilities.last().key.name(),
            capabilities.last(),
        )
    }
}

/// Capabilities as object members.
pub open spec fn capability_members(rows: Seq<(Seq<char>, CapabilityView)>) -> Seq<
    (Seq<char>, JsonView),
> {
    table::map_rows(rows, |c: CapabilityView| c.json())
}

impl CoverageReportView {
    /// A first report on the given capabilities.
    pub open spec fn of(
        session_id: Seq<u8>,
        collector_instance_id: Seq<u8>,
        seq: u64,
        reason: CoverageReason,
        platform: PlatformView,
        capabilities: Seq<CapabilityView>,
        ts: TimestampView,
    ) -> CoverageReportView {
        CoverageReportView {
            schema_version: crate::SCHEMA_VERSION@,
            message_type: "coverage_report"@,
            collector_id: crate::COLLECTOR_ID@,
            collector_instance_id,
            session_id,
            seq,
            ts,
            reason,
            supersedes_seq: None,
            platform,
            capabilities: by_name(capabilities),
            notes: None,
        }
    }

    /// The members on the wire, in order.
    pub open spec fn members(self) -> Seq<(Seq<char>, JsonView)> {
        seq![
            ("schema_version"@, JsonView::Text(self.schema_version)),
            ("type"@, JsonView::Text(self.message_type)),
            ("collector_id"@, JsonView::Text(self.collector_id)),
            (
                "collector_instance_id"@,
                JsonView::Text(ident::hyphenated_text(self.collector_instance_id)),
            ),
            ("session_id"@, JsonView::Text(ident::hyphenated_text(self.session_id))),
            ("seq"@, JsonView::Number(self.seq as int)),
            ("ts"@, JsonView::Text(self.ts.text())),
            ("reason"@, JsonView::Text(self.reason.name())),
        ] + json::number_member_if("supersedes_seq"@, text::opt_int(self.supersedes_seq)) + seq![
            ("platform"@, JsonView::Object(self.platform.members())),
            ("capabilities"@, JsonView::Object(capability_members(self.capabilities))),
        ] + json::text_member_if("notes"@, self.notes)
    }

    pub open spec fn json(self) -> JsonView {
        JsonView::Object(self.members())
    }
}

impl CoverageReport {
    pub fn new(
        session_id: Uuid,
        collector_instance_id: Uuid,
        seq: u64,
        reason: CoverageReason,
        platform: Platform,
        capabilities: Vec<Capability>,
    ) -> (r: Self)
        ensures
            r@ == CoverageReportView::of(
                session_id@,
                collector_instance_id@,
                seq,
                reason,
                platform@,
                capabilities@.map_values(|c: Capability| c@),
                r@.ts,
            ),
            time::nameable(r@.ts.secs, r@.ts.nanos),
            table::ascending(r@.capabilities),
    {
        let ghost views = capabilities@.map_values(|c: Capability| c@);
        let mut rows: Table<Capability> = Table::new();
        assert(views.take(0) =~= Seq::<CapabilityView>::empty());
        assert(table::map_rows(rows@, |c: Capability| c@) =~= by_name(views.take(0)));
        for c in it: capabilities
            invariant
                views == it.seq().map_values(|c: Capability| c@),
                table::map_rows(rows@, |c: Capability| c@) == by_name(
                    views.take(it.index() as int),
                ),
        {
            proof {
                table::lemma_put_row_mapped(rows@, c.key.name(), c, |c: Capability| c@);
                let now = views.take(it.index() + 1);
                assert(now.drop_last() =~= views.take(it.index() as int));
                assert(now.last() == c@);
            }
            rows.insert(c.key.as_str().to_owned(), c);
        }
        assert(views.take(views.len() as int) =~= views);
        proof {
            law_names_ascend(views);
        }
        CoverageReport {
            schema_version: crate::SCHEMA_VERSION,
            message_type: "coverage_report",
            collector_id: crate::COLLECTOR_ID,
            collector_instance_id,
            session_id,
            seq,
            ts: Timestamp::now(),
            reason,
            supersedes_seq: None,
            platform,
            capabilities: rows,
            notes: None,
        }
    }

    /// The value on the wire.
    pub fn to_json(&self) -> (r: Json)
        ensures
            r@ == self@.json(),
    {
        let mut m = Members::new();
        m.put_text("schema_version", self.schema_version);
        m.put_text("type", self.message_type);
        m.put_text("collector_id", self.collector_id);
        m.put("collector_instance_id", Json::Text(self.collector_instance_id.to_text()));
        m.put("session_id", Json::Text(self.session_id.to_text()));
        m.put("seq", Json::Number(self.seq));
        m.put("ts", Json::Text(self.ts.to_text()));
        m.put_text("reason", self.reason.as_str());
        m.put_number_if("supersedes_seq", self.supersedes_seq);
        m.put("platform", self.platform.to_json());
        m.put("capabilities", capabilities_json(&self.capabilities));
        m.put_text_if("notes", &self.notes);
        assert(m@ =~= self@.members());
        m.finish()
    }
}

fn capabilities_json(rows: &Table<Capability>) -> (r: Json)
    ensures
        r@ == JsonView::Object(
            capability_members(table::map_rows(rows@, |c: Capability| c@)),
        ),
{
    let ghost all = capability_members(table::map_rows(rows@, |c: Capability| c@));
    let mut m = Members::new();
    let mut i: usize = 0;
    while i < rows.len()
        invariant
            i <= rows@.len(),
            all == capability_members(table::map_rows(rows@, |c: Capability| c@)),
            m@ == all.take(i as int),
        decreases rows@.len() - i,
    {
        m.put(rows.key(i), rows.value(i).to_json());
        i = i + 1;
        assert(m@ =~= all.take(i as int));
    }
    assert(all.take(i as int) =~= all);
    m.finish()
}

// ---------------------------------------------------------------------------------------------
// Laws
// ---------------------------------------------------------------------------------------------

/// The shorthand form says `full` or `not_applicable` and nothing else, and never of an answer that
/// came from calling an API.
pub proof fn law_shorthand_needs_no_excuse(c: CapabilityView)
    requires
        c.json() is Text,
    ensures
        c.state.good(),
        c.reason is None,
        !(c.method is Probed),
        c.json() == JsonView::Text("full"@) || c.json() == JsonView::Text("not_applicable"@),
{
}

/// An explained capability in a state that needs an excuse gives its reason on the wire.
pub proof fn law_degraded_gives_reason(c: CapabilityView)
    requires
        c.explained(),
        !c.state.good(),
    ensures
        c.json() == JsonView::Object(c.members()),
        c.reason is Some,
        c.members()[2] == ("reason"@, JsonView::Text(c.reason.unwrap().name())),
{
}

/// A report lists capabilities in the order of their names, each name once.
pub proof fn law_names_ascend(capabilities: Seq<CapabilityView>)
    ensures
        table::ascending(by_name(capabilities)),
    decreases capabilities.len(),
{
    if capabilities.len() > 0 {
        law_names_ascend(capabilities.drop_last());
        table::law_put_row(
            by_name(capabilities.drop_last()),
            capabilities.last().key.name(),
            capabilities.last(),
        );
    }
}

/// A report lists every capability that it was given whose key no other one has.
pub proof fn law_report_keeps_answers(capabilities: Seq<CapabilityView>, i: int)
    requires
        0 <= i < capabilities.len(),
        forall|j: int|
            0 <= j < capabilities.len() && j != i ==> (#[trigger] capabilities[j]).key
                != capabilities[i].key,
    ensures
        table::dict(by_name(capabilities)).dom().contains(capabilities[i].key.name()),
        table::dict(by_name(capabilities))[capabilities[i].key.name()] == capabilities[i],
    decreases capabilities.len(),
{
    let front = capabilities.drop_last();
    let last = capabilities.last();
    law_names_ascend(front);
    table::law_put_row(by_name(front), last.key.name(), last);
    if i < front.len() {
        law_report_keeps_answers(front, i);
        law_key_names_differ(capabilities[capabilities.len() - 1].key, capabilities[i].key);
    }
}

/// No two capability keys share a name.
pub proof fn law_key_names_differ(a: CapabilityKey, b: CapabilityKey)
    ensures
        a.name() == b.name() <==> a == b,
{
    reveal_strlit("S1_processes");
    reveal_strlit("S2_signature");
    reveal_strlit("S3_mic_owner");
    reveal_strlit("S5_capture_excluded");
    reveal_strlit("S6_window_titles");
    reveal_strlit("process_paths");
    reveal_strlit("host_machine");
    reveal_strlit("realtime_events");
    assert(a.name()[0] == b.name()[0] || a.name() != b.name());
    assert(a.name()[1] == b.name()[1] || a.name() != b.name());
}

/// Each capability state has a name of its own: nothing but full coverage ever reads as `full`.
pub proof fn law_state_names(x: CapabilityState)
    ensures
        x.name() == "full"@ <==> x is Full,
        x.name() == "partial"@ <==> x is Partial,
        x.name() == "denied"@ <==> x is Denied,
        x.name() == "unsupported"@ <==> x is Unsupported,
        x.name() == "not_applicable"@ <==> x is NotApplicable,
        x.name() == "unknown"@ <==> x is Unknown,
{
    reveal_strlit("full");
    reveal_strlit("partial");
    reveal_strlit("denied");
    reveal_strlit("unsupported");
    reveal_strlit("not_applicable");
    reveal_strlit("unknown");
    assert("full"@.len() == 4);
    assert("partial"@.len() == 7);
    assert("denied"@.len() == 6);
    assert("unsupported"@.len() == 11);
    assert("not_applicable"@.len() == 14);
    assert("unknown"@.len() == 7);
    assert("partial"@[0] != "unknown"@[0]);
}

/// What was probed never reads like what was only declared or inferred.
pub proof fn law_method_names(x: CapabilityMethod)
    ensures
        x.name() == "probed"@ <==> x is Probed,
        x.name() == "declared"@ <==> x is Declared,
        x.name() == "inferred"@ <==> x is Inferred,
{
    reveal_strlit("probed");
    reveal_strlit("declared");
    reveal_strlit("inferred");
    assert("probed"@.len() == 6);
    assert("declared"@.len() == 8);
    assert("inferred"@.len() == 8);
    assert("declared"@[0] != "inferred"@[0]);
}

/// Each reason for less than full coverage has a name of its own.
pub proof fn law_reason_names(x: CapabilityReason)
    ensures
        x.name() == "permission_not_granted"@ <==> x is PermissionNotGranted,
        x.name() == "permission_revoked"@ <==> x is PermissionRevoked,
        x.name() == "permission_not_requested"@ <==> x is PermissionNotRequested,
        x.name() == "access_denied"@ <==> x is AccessDenied,
        x.name() == "api_unavailable"@ <==> x is ApiUnavailable,
        x.name() == "os_version_too_old"@ <==> x is OsVersionTooOld,
        x.name() == "entitlement_missing"@ <==> x is EntitlementMissing,
        x.name() == "not_implemented"@ <==> x is NotImplemented,
        x.name() == "collector_scope"@ <==> x is CollectorScope,
        x.name() == "policy_disabled"@ <==> x is PolicyDisabled,
        x.name() == "probe_failed"@ <==> x is ProbeFailed,
        x.name() == "probe_timeout"@ <==> x is ProbeTimeout,
        x.name() == "degraded_polling"@ <==> x is DegradedPolling,
        x.name() == "hardware_absent"@ <==> x is HardwareAbsent,
        x.name() == "not_probed_yet"@ <==> x is NotProbedYet,
        x.name() == "other"@ <==> x is Other,
{
    reveal_strlit("permission_not_granted");
    reveal_strlit("permission_revoked");
    reveal_strlit("permission_not_requested");
    reveal_strlit("access_denied");
    reveal_strlit("api_unavailable");
    reveal_strlit("os_version_too_old");
    reveal_strlit("entitlement_missing");
    reveal_strlit("not_implemented");
    reveal_strlit("collector_scope");
    reveal_strlit("policy_disabled");
    reveal_strlit("probe_failed");
    reveal_strlit("probe_timeout");
    reveal_strlit("degraded_polling");
    reveal_strlit("hardware_absent");
    reveal_strlit("not_probed_yet");
    reveal_strlit("other");
    assert("permission_not_granted"@.len() == 22);
    assert("permission_revoked"@.len() == 18);
    assert("permission_not_requested"@.len() == 24);
    assert("access_denied"@.len() == 13);
    assert("api_unavailable"@.len() == 15);
    assert("os_version_too_old"@.len() == 18);
    assert("entitlement_missing"@.len() == 19);
    assert("not_implemented"@.len() == 15);
    assert("collector_scope"@.len() == 15);
    assert("policy_disabled"@.len() == 15);
    assert("probe_failed"@.len() == 12);
    assert("probe_timeout"@.len() == 13);
    assert("degraded_polling"@.len() == 16);
    assert("hardware_absent"@.len() == 15);
    assert("not_probed_yet"@.len() == 14);
    assert("other"@.len() == 5);
    assert("permission_revoked"@[0] != "os_version_too_old"@[0]);
    assert("access_denied"@[0] != "probe_timeout"@[0]);
    assert("api_unavailable"@[0] != "not_implemented"@[0]);
    assert("api_unavailable"@[0] != "collector_scope"@[0]);
    assert("api_unavailable"@[0] != "policy_disabled"@[0]);
    assert("api_unavailable"@[0] != "hardware_absent"@[0]);
    assert("not_implemented"@[0] != "collector_scope"@[0]);
    assert("not_implemented"@[0] != "policy_disabled"@[0]);
    assert("not_implemented"@[0] != "hardware_absent"@[0]);
    assert("collector_scope"@[0] != "policy_disabled"@[0]);
    assert("collector_scope"@[0] != "hardware_absent"@[0]);
    assert("policy_disabled"@[0] != "hardware_absent"@[0]);
}

/// Each reason for a report has a name of its own.
pub proof fn law_report_reason_names(x: CoverageReason)
    ensures
        x.name() == "handshake"@ <==> x is Handshake,
        x.name() == "permission_changed"@ <==> x is PermissionChanged,
        x.name() == "device_changed"@ <==> x is DeviceChanged,
        x.name() == "probe_failure"@ <==> x is ProbeFailure,
        x.name() == "probe_recovered"@ <==> x is ProbeRecovered,
        x.name() == "periodic_recheck"@ <==> x is PeriodicRecheck,
        x.name() == "collector_upgraded"@ <==> x is CollectorUpgraded,
        x.name() == "requested"@ <==> x is Requested,
        x.name() == "other"@ <==> x is Other,
{
    reveal_strlit("handshake");
    reveal_strlit("permission_changed");
    reveal_strlit("device_changed");
    reveal_strlit("probe_failure");
    reveal_strlit("probe_recovered");
    reveal_strlit("periodic_recheck");
    reveal_strlit("collector_upgraded");
    reveal_strlit("requested");
    reveal_strlit("other");
    assert("handshake"@.len() == 9);
    assert("permission_changed"@.len() == 18);
    assert("device_changed"@.len() == 14);
    assert("probe_failure"@.len() == 13);
    assert("probe_recovered"@.len() == 15);
    assert("periodic_recheck"@.len() == 16);
    assert("collector_upgraded"@.len() == 18);
    assert("requested"@.len() == 9);
    assert("other"@.len() == 5);
    assert("handshake"@[0] != "requested"@[0]);
    assert("permission_changed"@[0] != "collector_upgraded"@[0]);
}

/// Each capability has a name of its own.
pub proof fn law_key_names(x: CapabilityKey)
    ensures
        x.name() == "S1_processes"@ <==> x is S1Processes,
        x.name() == "S2_signature"@ <==> x is S2Signature,
        x.name() == "S3_mic_owner"@ <==> x is S3MicOwner,
        x.name() == "S5_capture_excluded"@ <==> x is S5CaptureExcluded,
        x.name() == "S6_window_titles"@ <==> x is S6WindowTitles,
        x.name() == "process_paths"@ <==> x is ProcessPaths,
        x.name() == "host_machine"@ <==> x is HostMachine,
        x.name() == "realtime_events"@ <==> x is RealtimeEvents,
{
    reveal_strlit("S1_processes");
    reveal_strlit("S2_signature");
    reveal_strlit("S3_mic_owner");
    reveal_strlit("S5_capture_excluded");
    reveal_strlit("S6_window_titles");
    reveal_strlit("process_paths");
    reveal_strlit("host_machine");
    reveal_strlit("realtime_events");
    assert("S1_processes"@.len() == 12);
    assert("S2_signature"@.len() == 12);
    assert("S3_mic_owner"@.len() == 12);
    assert("S5_capture_excluded"@.len() == 19);
    assert("S6_window_titles"@.len() == 16);
    assert("process_paths"@.len() == 13);
    assert("host_machine"@.len() == 12);
    assert("realtime_events"@.len() == 15);
    assert("S1_processes"@[1] != "S2_signature"@[1]);
    assert("S1_processes"@[1] != "S3_mic_owner"@[1]);
    assert("S1_processes"@[0] != "host_machine"@[0]);
    assert("S2_signature"@[1] != "S3_mic_owner"@[1]);
    assert("S2_signature"@[0] != "host_machine"@[0]);
    assert("S3_mic_owner"@[0] != "host_machine"@[0]);
}

/// A capability that gates a signal names its code, and paths gate the signatures; the other two
/// gate none.
pub proof fn law_what_a_key_gates(key: CapabilityKey)
    ensures
        key is S1Processes ==> key.gated() == seq!["S1"@],
        key is S2Signature || key is ProcessPaths ==> key.gated() == seq!["S2"@],
        key is S3MicOwner ==> key.gated() == seq!["S3"@],
        key is S5CaptureExcluded ==> key.gated() == seq!["S5"@],
        key is S6WindowTitles ==> key.gated() == seq!["S6"@],
        key is HostMachine || key is RealtimeEvents ==> key.gated().len() == 0,
{
}

/// Only full coverage and coverage without meaning need no excuse.
pub proof fn law_what_needs_no_excuse(state: CapabilityState)
    ensures
        state.good() <==> state is Full || state is NotApplicable,
{
}

/// An answer is what was asked and what came of it: the key, the state, the reason and the call are
/// the given ones, and a detail or a limit is added to it without losing anything.
pub proof fn law_answer_keeps_what_it_was_told(
    key: CapabilityKey,
    state: CapabilityState,
    reason: CapabilityReason,
    api: Seq<char>,
    at: Option<TimestampView>,
    c: CapabilityView,
    detail: Seq<char>,
)
    ensures
        ({
            let w = CapabilityView::works(key, api, at);
            &&& w.key == key && w.state is Full && w.method is Probed && w.reason is None
            &&& w.detail is None && w.platform_api == Some(api) && w.checked_at == at
            &&& w.limits.len() == 0
        }),
        ({
            let l = CapabilityView::limited(key, state, reason, api, at);
            &&& l.key == key && l.state == state && l.method is Probed && l.reason == Some(reason)
            &&& l.detail is None && l.platform_api == Some(api) && l.checked_at == at
            &&& l.limits.len() == 0
        }),
        ({
            let m = CapabilityView::meaningless(key);
            &&& m.key == key && m.state is NotApplicable && m.method is Declared
            &&& m.reason is None && m.detail is None && m.platform_api is None
            &&& m.checked_at is None && m.limits.len() == 0
        }),
        c.detailed(detail) == (CapabilityView { detail: Some(detail), ..c }),
        c.untimed() == (CapabilityView { checked_at: None, ..c }),
        c.explained() <==> c.state is Full || c.state is NotApplicable || c.reason is Some,
{
}

/// A limit is kept under its name, and no other limit is lost.
pub proof fn law_limits_accumulate(
    c: CapabilityView,
    name: Seq<char>,
    value: u64,
    other: Seq<char>,
)
    requires
        table::ascending(c.limits),
    ensures
        c.limit(name, value) == (CapabilityView { limits: c.limit(name, value).limits, ..c }),
        table::ascending(c.limit(name, value).limits),
        c.limit(name, value).limits.contains((name, value)),
        other != name && table::dict(c.limits).dom().contains(other) ==> table::dict(
            c.limit(name, value).limits,
        ).dom().contains(other) && table::dict(c.limit(name, value).limits)[other] == table::dict(
            c.limits,
        )[other],
{
    table::law_put_row(c.limits, name, value);
    table::law_put_row_keeps_others(c.limits, name, value, other);
}

/// The short form is for an answer without anything to say: good, declared, without reason, detail or
/// limits. Every other answer is written out.
pub proof fn law_when_the_short_form_is_used(c: CapabilityView)
    ensures
        c.json() is Text <==> {
            &&& c.state is Full || c.state is NotApplicable
            &&& c.reason is None
            &&& c.detail is None
            &&& c.limits.len() == 0
            &&& !(c.method is Probed)
        },
        c.json() is Text ==> c.json() == JsonView::Text(c.state.name()),
        !(c.json() is Text) ==> c.json() == JsonView::Object(c.members()),
{
}

/// All of an answer is in its long form, each thing once.
#[verifier::spinoff_prover]
pub proof fn law_answer_on_the_wire(x: CapabilityView)
    ensures
        x.members().len() == 2
            + (if x.reason is Some { 1int } else { 0int })
            + (if x.detail is Some { 1int } else { 0int })
            + (if x.key.gated().len() > 0 { 1int } else { 0int })
            + (if x.platform_api is Some { 1int } else { 0int })
            + (if x.checked_at is Some { 1int } else { 0int })
            + (if x.limits.len() > 0 { 1int } else { 0int }),
        x.members().contains(("state"@, JsonView::Text(x.state.name()))),
        x.members().contains(("method"@, JsonView::Text(x.method.name()))),
        x.reason is Some
            ==> x.members().contains(("reason"@, JsonView::Text(x.reason.unwrap().name()))),
        x.detail is Some ==> x.members().contains(("detail"@, JsonView::Text(x.detail.unwrap()))),
        x.key.gated().len() > 0
            ==> x.members().contains(("signals"@, JsonView::List(code_items(x.key.gated())))),
        x.platform_api is Some
            ==> x.members().contains(("platform_api"@, JsonView::Text(x.platform_api.unwrap()))),
        x.checked_at is Some
            ==> x.members().contains(("checked_at"@, JsonView::Text(x.checked_at.unwrap().text()))),
        x.limits.len() > 0
            ==> x.members().contains(("limits"@, JsonView::Object(limit_members(x.limits)))),
{
    let m = x.members();
    let p0: int = 0;
    assert(m[p0] == ("state"@, JsonView::Text(x.state.name())));
    let p1 = p0 + 1;
    assert(m[p1] == ("method"@, JsonView::Text(x.method.name())));
    let p2 = p1 + 1;
    if x.reason is Some {
        assert(m[p2] == ("reason"@, JsonView::Text(x.reason.unwrap().name())));
    }
    let p3 = p2 + (if x.reason is Some { 1int } else { 0int });
    if x.detail is Some {
        assert(m[p3] == ("detail"@, JsonView::Text(x.detail.unwrap())));
    }
    let p4 = p3 + (if x.detail is Some { 1int } else { 0int });
    if x.key.gated().len() > 0 {
        assert(m[p4] == ("signals"@, JsonView::List(code_items(x.key.gated()))));
    }
    let p5 = p4 + (if x.key.gated().len() > 0 { 1int } else { 0int });
    if x.platform_api is Some {
        assert(m[p5] == ("platform_api"@, JsonView::Text(x.platform_api.unwrap())));
    }
    let p6 = p5 + (if x.platform_api is Some { 1int } else { 0int });
    if x.checked_at is Some {
        assert(m[p6] == ("checked_at"@, JsonView::Text(x.checked_at.unwrap().text())));
    }
    let p7 = p6 + (if x.checked_at is Some { 1int } else { 0int });
    if x.limits.len() > 0 {
        assert(m[p7] == ("limits"@, JsonView::Object(limit_members(x.limits))));
    }
}

/// Codes, limits and capabilities are written one for one.
pub proof fn law_lists_on_the_wire(
    codes: Seq<Seq<char>>,
    limits: Seq<(Seq<char>, u64)>,
    rows: Seq<(Seq<char>, CapabilityView)>,
    i: int,
)
    ensures
        code_items(codes).len() == codes.len(),
        limit_members(limits).len() == limits.len(),
        capability_members(rows).len() == rows.len(),
        0 <= i < codes.len() ==> code_items(codes)[i] == JsonView::Text(codes[i]),
        0 <= i < limits.len() ==> limit_members(limits)[i] == (
            limits[i].0,
            JsonView::Number(limits[i].1 as int),
        ),
        0 <= i < rows.len() ==> capability_members(rows)[i] == (rows[i].0, rows[i].1.json()),
{
}

/// All of the platform is on the wire, `null` where it is not known.
pub proof fn law_platform_on_the_wire(x: PlatformView)
    ensures
        x.members().len() == 5,
        x.members().contains(("os"@, JsonView::Text(x.os))),
        x.members().contains(("os_version"@, json::text_or_null(x.os_version))),
        x.members().contains(("os_build"@, json::text_or_null(x.os_build))),
        x.members().contains(("arch"@, JsonView::Text(x.arch))),
        x.members().contains(("locale"@, json::text_or_null(x.locale))),
{
    let m = x.members();
    let p0: int = 0;
    assert(m[p0] == ("os"@, JsonView::Text(x.os)));
    let p1 = p0 + 1;
    assert(m[p1] == ("os_version"@, json::text_or_null(x.os_version)));
    let p2 = p1 + 1;
    assert(m[p2] == ("os_build"@, json::text_or_null(x.os_build)));
    let p3 = p2 + 1;
    assert(m[p3] == ("arch"@, JsonView::Text(x.arch)));
    let p4 = p3 + 1;
    assert(m[p4] == ("locale"@, json::text_or_null(x.locale)));
}

/// A report is addressed as it was asked to be and says why it was made and on what platform.
pub proof fn law_report_is_addressed(
    session_id: Seq<u8>,
    instance_id: Seq<u8>,
    seq: u64,
    reason: CoverageReason,
    platform: PlatformView,
    capabilities: Seq<CapabilityView>,
    ts: TimestampView,
)
    ensures
        ({
            let r = CoverageReportView::of(
                session_id,
                instance_id,
                seq,
                reason,
                platform,
                capabilities,
                ts,
            );
            &&& r.session_id == session_id && r.collector_instance_id == instance_id
            &&& r.seq == seq && r.ts == ts && r.reason == reason && r.platform == platform
            &&& r.schema_version == "1.0"@ && r.collector_id == "host-agent/0.1.0"@
            &&& r.message_type == "coverage_report"@
            &&& r.supersedes_seq is None && r.notes is None
            &&& r.capabilities == by_name(capabilities)
        }),
{
}

/// Every row of a report is a capability that it was given, under the name of its key.
pub proof fn law_report_invents_nothing(capabilities: Seq<CapabilityView>, k: int)
    requires
        0 <= k < by_name(capabilities).len(),
    ensures
        capabilities.contains(by_name(capabilities)[k].1),
        by_name(capabilities)[k].0 == by_name(capabilities)[k].1.key.name(),
    decreases capabilities.len(),
{
    let front = capabilities.drop_last();
    let last = capabilities.last();
    let was = by_name(front);
    let rows = by_name(capabilities);
    law_names_ascend(front);
    law_names_ascend(capabilities);
    table::law_put_row(was, last.key.name(), last);
    table::law_map_of_rows(rows);
    table::law_map_of_rows(was);
    assert(table::dict(rows)[rows[k].0] == rows[k].1);
    if rows[k].0 == last.key.name() {
        assert(capabilities[capabilities.len() - 1] == last);
    } else {
        assert(table::dict(was).dom().contains(rows[k].0));
        let j = choose|j: int| 0 <= j < was.len() && (#[trigger] was[j]).0 == rows[k].0;
        law_report_invents_nothing(front, j);
        let i = choose|i: int| 0 <= i < front.len() && front[i] == was[j].1;
        assert(capabilities[i] == was[j].1);
    }
}

/// All of a report is on the wire, each thing once.
pub proof fn law_report_on_the_wire(x: CoverageReportView)
    ensures
        x.json() == JsonView::Object(x.members()),
        x.members().len() == 10
            + (if x.supersedes_seq is Some { 1int } else { 0int })
            + (if x.notes is Some { 1int } else { 0int }),
        x.members().contains(("schema_version"@, JsonView::Text(x.schema_version))),
        x.members().contains(("type"@, JsonView::Text(x.message_type))),
        x.members().contains(("collector_id"@, JsonView::Text(x.collector_id))),
        x.members().contains(("collector_instance_id"@, JsonView::Text(ident::hyphenated_text(x.collector_instance_id)))),
        x.members().contains(("session_id"@, JsonView::Text(ident::hyphenated_text(x.session_id)))),
        x.members().contains(("seq"@, JsonView::Number(x.seq as int))),
        x.members().contains(("ts"@, JsonView::Text(x.ts.text()))),
        x.members().contains(("reason"@, JsonView::Text(x.reason.name()))),
        x.supersedes_seq is Some
            ==> x.members().contains(("supersedes_seq"@, JsonView::Number(x.supersedes_seq.unwrap() as int))),
        x.members().contains(("platform"@, JsonView::Object(x.platform.members()))),
        x.members().contains(("capabilities"@, JsonView::Object(capability_members(x.capabilities)))),
        x.notes is Some ==> x.members().contains(("notes"@, JsonView::Text(x.notes.unwrap()))),
{
    let m = x.members();
    let p0: int = 0;
    assert(m[p0] == ("schema_version"@, JsonView::Text(x.schema_version)));
    let p1 = p0 + 1;
    assert(m[p1] == ("type"@, JsonView::Text(x.message_type)));
    let p2 = p1 + 1;
    assert(m[p2] == ("collector_id"@, JsonView::Text(x.collector_id)));
    let p3 = p2 + 1;
    assert(m[p3] == ("collector_instance_id"@, JsonView::Text(ident::hyphenated_text(x.collector_instance_id))));
    let p4 = p3 + 1;
    assert(m[p4] == ("session_id"@, JsonView::Text(ident::hyphenated_text(x.session_id))));
    let p5 = p4 + 1;
    assert(m[p5] == ("seq"@, JsonView::Number(x.seq as int)));
    let p6 = p5 + 1;
    assert(m[p6] == ("ts"@, JsonView::Text(x.ts.text())));
    let p7 = p6 + 1;
    assert(m[p7] == ("reason"@, JsonView::Text(x.reason.name())));
    let p8 = p7 + 1;
    if x.supersedes_seq is Some {
        assert(m[p8] == ("supersedes_seq"@, JsonView::Number(x.supersedes_seq.unwrap() as int)));
    }
    let p9 = p8 + (if x.supersedes_seq is Some { 1int } else { 0int });
    assert(m[p9] == ("platform"@, JsonView::Object(x.platform.members())));
    let p10 = p9 + 1;
    assert(m[p10] == ("capabilities"@, JsonView::Object(capability_members(x.capabilities))));
    let p11 = p10 + 1;
    if x.notes is Some {
        assert(m[p11] == ("notes"@, JsonView::Text(x.notes.unwrap())));
    }
}

/// The view of a [`Capability`] shows all of it, and each part as it is.
pub proof fn law_view_of_capability(x: Capability)
    ensures
        x@.key == x.key,
        x@.state == x.state,
        x@.method == x.method,
        x@.reason == x.reason,
        x@.detail is Some <==> x.detail is Some,
        x.detail matches Some(v) ==> x@.detail == Some(v@),
        x@.platform_api is Some <==> x.platform_api is Some,
        x.platform_api matches Some(v) ==> x@.platform_api == Some(v@),
        x@.checked_at is Some <==> x.checked_at is Some,
        x.checked_at matches Some(v) ==> x@.checked_at == Some(v@),
        x@.limits == x.limits@,
{
}

/// The view of a [`Platform`] shows all of it, and each part as it is.
pub proof fn law_view_of_platform(x: Platform)
    ensures
        x@.os == x.os@,
        x@.os_version is Some <==> x.os_version is Some,
        x.os_version matches Some(v) ==> x@.os_version == Some(v@),
        x@.os_build is Some <==> x.os_build is Some,
        x.os_build matches Some(v) ==> x@.os_build == Some(v@),
        x@.arch == x.arch@,
        x@.locale is Some <==> x.locale is Some,
        x.locale matches Some(v) ==> x@.locale == Some(v@),
{
}

/// The view of a [`CoverageReport`] shows all of it, and each part as it is.
pub proof fn law_view_of_coverage_report(x: CoverageReport)
    ensures
        x@.schema_version == x.schema_version@,
        x@.message_type == x.message_type@,
        x@.collector_id == x.collector_id@,
        x@.collector_instance_id == x.collector_instance_id@,
        x@.session_id == x.session_id@,
        x@.seq == x.seq,
        x@.ts == x.ts@,
        x@.reason == x.reason,
        x@.supersedes_seq == x.supersedes_seq,
        x@.platform == x.platform@,
        x@.capabilities.len() == x.capabilities@.len(),
        forall|i: int|
            0 <= i < x.capabilities@.len()
                ==> #[trigger] x@.capabilities[i] == (x.capabilities@[i].0, x.capabilities@[i].1@),
        x@.notes is Some <==> x.notes is Some,
        x.notes matches Some(v) ==> x@.notes == Some(v@),
{
}

/// Capability states are never taken for one another on the wire, in the long form or in the short:
/// different states have different names, and an answer reads `full` exactly when its coverage is.
pub proof fn law_full_is_said_of_full_alone(a: CapabilityState, b: CapabilityState, c: CapabilityView)
    ensures
        a.name() == b.name() <==> a == b,
        c.members().contains(("state"@, JsonView::Text("full"@))) <==> c.state is Full,
        c.json() == JsonView::Text("full"@) ==> c.state is Full,
        c.json() is Text && c.state is Full ==> c.json() == JsonView::Text("full"@),
{
    law_state_names(a);
    law_state_names(b);
    law_state_names(c.state);
    lemma_only_the_first_is_the_state(c);
    let said = ("state"@, JsonView::Text("full"@));
    assert(c.members()[0] == ("state"@, JsonView::Text(c.state.name())));
    if c.members().contains(said) {
        let k = choose|k: int| 0 <= k < c.members().len() && c.members()[k] == said;
        assert(k == 0);
    }
}

#[verifier::spinoff_prover]
proof fn lemma_only_the_first_is_the_state(c: CapabilityView)
    ensures
        c.members().len() > 0,
        c.members()[0] == ("state"@, JsonView::Text(c.state.name())),
        forall|k: int|
            0 <= k < c.members().len() && (#[trigger] c.members()[k]).0 == "state"@ ==> k == 0,
{
    reveal_strlit("state");
    reveal_strlit("method");
    reveal_strlit("reason");
    reveal_strlit("detail");
    reveal_strlit("signals");
    reveal_strlit("platform_api");
    reveal_strlit("checked_at");
    reveal_strlit("limits");
    assert("state"@.len() == 5 && "method"@.len() == 6 && "reason"@.len() == 6 && "detail"@.len()
        == 6);
    assert("signals"@.len() == 7 && "platform_api"@.len() == 12 && "checked_at"@.len() == 10
        && "limits"@.len() == 6);
    let m = c.members();
    assert(m[0] == ("state"@, JsonView::Text(c.state.name())));
    assert(m[1].0 == "method"@);
    let tail = m.skip(2);
    assert forall|k: int| 0 <= k < tail.len() implies (#[trigger] tail[k]).0.len() > 5 by {
        let p1: int = if c.reason is Some { 1 } else { 0 };
        let p2: int = p1 + if c.detail is Some { 1int } else { 0 };
        let p3: int = p2 + if c.key.gated().len() > 0 { 1int } else { 0 };
        let p4: int = p3 + if c.platform_api is Some { 1int } else { 0 };
        let p5: int = p4 + if c.checked_at is Some { 1int } else { 0 };
        if k < p1 {
            assert(tail[k].0 == "reason"@);
        } else if k < p2 {
            assert(tail[k].0 == "detail"@);
        } else if k < p3 {
            assert(tail[k].0 == "signals"@);
        } else if k < p4 {
            assert(tail[k].0 == "platform_api"@);
        } else if k < p5 {
            assert(tail[k].0 == "checked_at"@);
        } else {
            assert(tail[k].0 == "limits"@);
        }
    }
    assert forall|k: int| 0 <= k < m.len() && (#[trigger] m[k]).0 == "state"@ implies k == 0 by {
        if k >= 2 {
            assert(tail[k - 2] == m[k]);
        }
    }
}

} // verus!
