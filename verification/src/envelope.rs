//! The envelope, its header, and the subject/window/device value types.

use vstd::prelude::*;

use crate::detail::Observation;
use crate::ident;
use crate::ident::Uuid;
use crate::json;
use crate::json::{Items, Json, JsonView, Members};
use crate::table;
use crate::table::Table;
use crate::text;
use crate::text::{copy_text, debug_str, push_hex};
use crate::time;
use crate::time::{Timestamp, TimestampView};

verus! {

#[derive(Debug, Clone, Copy, PartialEq, Eq, Structural)]
pub enum MessageType {
    SignalSample,
    SessionEvent,
}

impl MessageType {
    pub open spec fn name(self) -> Seq<char> {
        match self {
            MessageType::SignalSample => "signal_sample"@,
            MessageType::SessionEvent => "session_event"@,
        }
    }

    /// The name on the wire.
    pub fn as_str(self) -> (r: &'static str)
        ensures
            r@ == self.name(),
    {
        match self {
            MessageType::SignalSample => "signal_sample",
            MessageType::SessionEvent => "session_event",
        }
    }
}

/// Snapshot vs delta. Getting this wrong is unrecoverable in the other direction — a consumer that
/// reads a delta stream as snapshots silently interprets "absent" as "gone", so a consumer without
/// delta support must **reject the session** rather than degrade.
#[derive(Debug, Clone, Copy, PartialEq, Eq, Structural)]
pub enum Emission {
    Snapshot,
    Delta,
}

impl Emission {
    pub open spec fn name(self) -> Seq<char> {
        match self {
            Emission::Snapshot => "snapshot"@,
            Emission::Delta => "delta"@,
        }
    }

    /// The name on the wire.
    pub fn as_str(self) -> (r: &'static str)
        ensures
            r@ == self.name(),
    {
        match self {
            Emission::Snapshot => "snapshot",
            Emission::Delta => "delta",
        }
    }
}

// ---------------------------------------------------------------------------------------------
// Subject
// ---------------------------------------------------------------------------------------------

/// Whether the process image path was readable, and if so what it was.
///
/// Modelled as one value rather than a `path: Option<String>` beside a `path_state: enum`, because
/// the two can disagree and the schema spends an `if`/`then` block forbidding it. Here they cannot.
///
/// The distinction between [`AccessDenied`](Self::AccessDenied) and [`Exited`](Self::Exited) is
/// load-bearing: the first is a permanent capability limit (a protected process — S2 can *never*
/// hash it), the second is a one-cycle race. Collapsing them into `null` loses the difference the
/// whole S2 coverage story turns on.
#[derive(Debug, PartialEq, Eq)]
pub enum ImagePath {
    /// `OpenProcess` + `QueryFullProcessImageName` succeeded.
    Readable(String),
    /// `OpenProcess` returned ERROR_ACCESS_DENIED. Expect this for every session-0 service when
    /// running non-elevated — on a real machine that was 180 of 324 processes.
    AccessDenied,
    /// The subject legitimately has no image path.
    NotApplicable,
    /// The process died between enumeration and resolution.
    Exited,
    Unknown,
}

#[verifier::ext_equal]
pub enum ImagePathView {
    Readable(Seq<char>),
    AccessDenied,
    NotApplicable,
    Exited,
    Unknown,
}

impl View for ImagePath {
    type V = ImagePathView;

    open spec fn view(&self) -> ImagePathView {
        match self {
            ImagePath::Readable(p) => ImagePathView::Readable(p@),
            ImagePath::AccessDenied => ImagePathView::AccessDenied,
            ImagePath::NotApplicable => ImagePathView::NotApplicable,
            ImagePath::Exited => ImagePathView::Exited,
            ImagePath::Unknown => ImagePathView::Unknown,
        }
    }
}

impl ImagePathView {
    pub open spec fn path(self) -> Option<Seq<char>> {
        match self {
            ImagePathView::Readable(p) => Some(p),
            _ => None,
        }
    }

    pub open spec fn state_name(self) -> Seq<char> {
        match self {
            ImagePathView::Readable(_) => "readable"@,
            ImagePathView::AccessDenied => "access_denied"@,
            ImagePathView::NotApplicable => "not_applicable"@,
            ImagePathView::Exited => "exited"@,
            ImagePathView::Unknown => "unknown"@,
        }
    }
}

impl Clone for ImagePath {
    fn clone(&self) -> (r: Self)
        ensures
            r == *self,
    {
        match self {
            ImagePath::Readable(p) => ImagePath::Readable(p.clone()),
            ImagePath::AccessDenied => ImagePath::AccessDenied,
            ImagePath::NotApplicable => ImagePath::NotApplicable,
            ImagePath::Exited => ImagePath::Exited,
            ImagePath::Unknown => ImagePath::Unknown,
        }
    }
}

impl ImagePath {
    /// The path, where there is one, and the state beside it.
    pub fn wire(&self) -> (r: (Option<&str>, &'static str))
        ensures
            text::opt_str(r.0) == self@.path(),
            r.1@ == self@.state_name(),
    {
        match self {
            ImagePath::Readable(p) => (Some(p.as_str()), "readable"),
            ImagePath::AccessDenied => (None, "access_denied"),
            ImagePath::NotApplicable => (None, "not_applicable"),
            ImagePath::Exited => (None, "exited"),
            ImagePath::Unknown => (None, "unknown"),
        }
    }

    pub fn is_readable(&self) -> (b: bool)
        ensures
            b == (self@ is Readable),
    {
        match self {
            ImagePath::Readable(_) => true,
            _ => false,
        }
    }
}

/// Authenticode result. The variants carrying a hash are only reachable from a readable image
/// (see [`Subject::with_signature`]), so a producer cannot invent a hash for a file it could not
/// open — which is exactly what the schema's `if`/`then` rules forbid at the far end.
#[derive(Debug, PartialEq, Eq)]
#[allow(inconsistent_fields)]
pub enum Signature {
    /// S2 has not run for this subject yet. The default: hashing is lazy and bounded.
    NotChecked,
    /// S2 cannot run — no readable image.
    Unavailable,
    Unsigned { sha256: String },
    Valid { signer: String, sha256: String },
    Invalid { signer: Option<String>, sha256: String },
}

#[verifier::ext_equal]
#[allow(inconsistent_fields)]
pub enum SignatureView {
    NotChecked,
    Unavailable,
    Unsigned { sha256: Seq<char> },
    Valid { signer: Seq<char>, sha256: Seq<char> },
    Invalid { signer: Option<Seq<char>>, sha256: Seq<char> },
}

impl View for Signature {
    type V = SignatureView;

    open spec fn view(&self) -> SignatureView {
        match self {
            Signature::NotChecked => SignatureView::NotChecked,
            Signature::Unavailable => SignatureView::Unavailable,
            Signature::Unsigned { sha256 } => SignatureView::Unsigned { sha256: sha256@ },
            Signature::Valid { signer, sha256 } => SignatureView::Valid {
                signer: signer@,
                sha256: sha256@,
            },
            Signature::Invalid { signer, sha256 } => SignatureView::Invalid {
                signer: text::opt_text(*signer),
                sha256: sha256@,
            },
        }
    }
}

impl SignatureView {
    pub open spec fn signer(self) -> Option<Seq<char>> {
        match self {
            SignatureView::Valid { signer, sha256 } => Some(signer),
            SignatureView::Invalid { signer, sha256 } => signer,
            _ => None,
        }
    }

    pub open spec fn state_name(self) -> Seq<char> {
        match self {
            SignatureView::NotChecked => "not_checked"@,
            SignatureView::Unavailable => "unavailable"@,
            SignatureView::Unsigned { sha256 } => "unsigned"@,
            SignatureView::Valid { signer, sha256 } => "valid"@,
            SignatureView::Invalid { signer, sha256 } => "invalid"@,
        }
    }

    pub open spec fn sha256(self) -> Option<Seq<char>> {
        match self {
            SignatureView::Unsigned { sha256 } => Some(sha256),
            SignatureView::Valid { signer, sha256 } => Some(sha256),
            SignatureView::Invalid { signer, sha256 } => Some(sha256),
            _ => None,
        }
    }
}

impl SignatureView {
    /// The form that `{:?}` shows.
    pub open spec fn debug(self) -> Seq<char> {
        match self {
            SignatureView::NotChecked => "NotChecked"@,
            SignatureView::Unavailable => "Unavailable"@,
            SignatureView::Unsigned { sha256 } => "Unsigned { sha256: "@ + text::debug_text(sha256)
                + " }"@,
            SignatureView::Valid { signer, sha256 } => "Valid { signer: "@ + text::debug_text(
                signer,
            ) + ", sha256: "@ + text::debug_text(sha256) + " }"@,
            SignatureView::Invalid { signer, sha256 } => match signer {
                Some(s) => "Invalid { signer: Some("@ + text::debug_text(s) + "), sha256: "@
                    + text::debug_text(sha256) + " }"@,
                None => "Invalid { signer: None, sha256: "@ + text::debug_text(sha256) + " }"@,
            },
        }
    }
}

impl Clone for Signature {
    fn clone(&self) -> (r: Self)
        ensures
            r == *self,
    {
        match self {
            Signature::NotChecked => Signature::NotChecked,
            Signature::Unavailable => Signature::Unavailable,
            Signature::Unsigned { sha256 } => Signature::Unsigned { sha256: sha256.clone() },
            Signature::Valid { signer, sha256 } => Signature::Valid {
                signer: signer.clone(),
                sha256: sha256.clone(),
            },
            Signature::Invalid { signer, sha256 } => Signature::Invalid {
                signer: copy_text(signer),
                sha256: sha256.clone(),
            },
        }
    }
}

impl Signature {
    /// The form that `{:?}` shows.
    pub fn debug(&self) -> (r: String)
        ensures
            r@ == self@.debug(),
    {
        match self {
            Signature::NotChecked => String::from_str("NotChecked"),
            Signature::Unavailable => String::from_str("Unavailable"),
            Signature::Unsigned { sha256 } => {
                let mut out = String::from_str("Unsigned { sha256: ");
                out.append(debug_str(sha256.as_str()).as_str());
                out.append(" }");
                out
            },
            Signature::Valid { signer, sha256 } => {
                let mut out = String::from_str("Valid { signer: ");
                out.append(debug_str(signer.as_str()).as_str());
                out.append(", sha256: ");
                out.append(debug_str(sha256.as_str()).as_str());
                out.append(" }");
                out
            },
            Signature::Invalid { signer, sha256 } => {
                let mut out = match signer {
                    Some(s) => {
                        let mut named = String::from_str("Invalid { signer: Some(");
                        named.append(debug_str(s.as_str()).as_str());
                        named.append("), sha256: ");
                        named
                    },
                    None => String::from_str("Invalid { signer: None, sha256: "),
                };
                out.append(debug_str(sha256.as_str()).as_str());
                out.append(" }");
                out
            },
        }
    }

    /// The signer, the state, and the hash.
    pub fn wire(&self) -> (r: (Option<&str>, &'static str, Option<&str>))
        ensures
            text::opt_str(r.0) == self@.signer(),
            r.1@ == self@.state_name(),
            text::opt_str(r.2) == self@.sha256(),
    {
        match self {
            Signature::NotChecked => (None, "not_checked", None),
            Signature::Unavailable => (None, "unavailable", None),
            Signature::Unsigned { sha256 } => (None, "unsigned", Some(sha256.as_str())),
            Signature::Valid { signer, sha256 } => (
                Some(signer.as_str()),
                "valid",
                Some(sha256.as_str()),
            ),
            Signature::Invalid { signer, sha256 } => {
                let s: Option<&str> = match signer {
                    Some(s) => Some(s.as_str()),
                    None => None,
                };
                (s, "invalid", Some(sha256.as_str()))
            },
        }
    }
}

#[derive(Debug, PartialEq, Eq)]
pub struct Subject {
    pub pid: u32,
    pub name: Option<String>,
    pub path: ImagePath,
    pub signature: Signature,
    pub start_ts: Option<Timestamp>,
    pub has_window: Option<bool>,
    pub parent_pid: Option<u32>,
    pub elevated: Option<bool>,
}

#[verifier::ext_equal]
pub struct SubjectView {
    pub pid: u32,
    pub name: Option<Seq<char>>,
    pub path: ImagePathView,
    pub signature: SignatureView,
    pub start_ts: Option<TimestampView>,
    pub has_window: Option<bool>,
    pub parent_pid: Option<u32>,
    pub elevated: Option<bool>,
}

impl View for Subject {
    type V = SubjectView;

    open spec fn view(&self) -> SubjectView {
        SubjectView {
            pid: self.pid,
            name: text::opt_text(self.name),
            path: self.path@,
            signature: self.signature@,
            start_ts: time::opt_time(self.start_ts),
            has_window: self.has_window,
            parent_pid: self.parent_pid,
            elevated: self.elevated,
        }
    }
}

/// A nullable text member.
pub open spec fn nullable(name: Seq<char>, value: Option<Seq<char>>) -> (Seq<char>, JsonView) {
    (name, json::text_or_null(value))
}

pub open spec fn opt_u32(o: Option<u32>) -> Option<int> {
    match o {
        Some(n) => Some(n as int),
        None => None,
    }
}

impl SubjectView {
    /// What is known of a process that was found with this name and this image.
    pub open spec fn found(pid: u32, name: Option<Seq<char>>, path: ImagePathView) -> SubjectView {
        SubjectView {
            pid,
            name,
            path,
            signature: if path is Readable {
                SignatureView::NotChecked
            } else {
                SignatureView::Unavailable
            },
            start_ts: None,
            has_window: None,
            parent_pid: None,
            elevated: None,
        }
    }

    /// The subject with a signature result, which an unreadable image cannot have.
    pub open spec fn signed(self, sig: SignatureView) -> SubjectView {
        SubjectView {
            signature: if self.path is Readable {
                sig
            } else {
                SignatureView::Unavailable
            },
            ..self
        }
    }

    /// The subject with what is known of its windows.
    pub open spec fn windowed(self, has_window: bool) -> SubjectView {
        SubjectView { has_window: Some(has_window), ..self }
    }

    /// No signature result without a readable image.
    pub open spec fn consistent(self) -> bool {
        !(self.path is Readable) ==> self.signature is Unavailable
    }

    /// The members on the wire, in order.
    pub open spec fn members(self) -> Seq<(Seq<char>, JsonView)> {
        seq![
            ("pid"@, JsonView::Number(self.pid as int)),
            nullable("name"@, self.name),
            nullable("path"@, self.path.path()),
            ("path_state"@, JsonView::Text(self.path.state_name())),
            ("signature_state"@, JsonView::Text(self.signature.state_name())),
            nullable("signer"@, self.signature.signer()),
            nullable("sha256"@, self.signature.sha256()),
        ] + json::text_member_if("start_ts"@, time::opt_time_text(self.start_ts)) + json::bool_member_if(
            "has_window"@,
            self.has_window,
        ) + json::number_member_if("parent_pid"@, opt_u32(self.parent_pid)) + json::bool_member_if(
            "elevated"@,
            self.elevated,
        )
    }

    pub open spec fn json(self) -> JsonView {
        JsonView::Object(self.members())
    }
}

impl Clone for Subject {
    fn clone(&self) -> (r: Self)
        ensures
            r == *self,
    {
        Subject {
            pid: self.pid,
            name: copy_text(&self.name),
            path: self.path.clone(),
            signature: self.signature.clone(),
            start_ts: self.start_ts,
            has_window: self.has_window,
            parent_pid: self.parent_pid,
            elevated: self.elevated,
        }
    }
}

fn str_or_null(o: Option<&str>) -> (r: Json)
    ensures
        r@ == json::text_or_null(text::opt_str(o)),
{
    match o {
        Some(s) => Json::text(s),
        None => Json::Null,
    }
}

fn widen(o: Option<u32>) -> (r: Option<u64>)
    ensures
        text::opt_int(r) == opt_u32(o),
{
    match o {
        Some(n) => Some(n as u64),
        None => None,
    }
}

fn time_text(o: &Option<Timestamp>) -> (r: Option<String>)
    ensures
        text::opt_text(r) == time::opt_time_text(time::opt_time(*o)),
{
    match o {
        Some(t) => Some(t.to_text()),
        None => None,
    }
}

impl Subject {
    pub fn new(pid: u32, name: Option<String>, path: ImagePath) -> (r: Self)
        ensures
            r@ == SubjectView::found(pid, text::opt_text(name), path@),
            r@.consistent(),
    {
        let signature = if path.is_readable() {
            Signature::NotChecked
        } else {
            // No readable image, so S2 can never run for this subject. Encoded at construction so
            // it cannot be forgotten at emission.
            Signature::Unavailable
        };
        Subject {
            pid,
            name,
            path,
            signature,
            start_ts: None,
            has_window: None,
            parent_pid: None,
            elevated: None,
        }
    }

    /// Attach an S2 result. Rejected — silently, by clamping to [`Signature::Unavailable`] — if the
    /// image was not readable, because a hash of an unreadable file did not come from that file.
    pub fn with_signature(self, sig: Signature) -> (r: Self)
        ensures
            r@ == self@.signed(sig@),
            r@.consistent(),
    {
        let mut s = self;
        s.signature = if s.path.is_readable() {
            sig
        } else {
            Signature::Unavailable
        };
        s
    }

    pub fn with_has_window(self, has_window: bool) -> (r: Self)
        ensures
            r@ == self@.windowed(has_window),
            self@.consistent() ==> r@.consistent(),
    {
        let mut s = self;
        s.has_window = Some(has_window);
        s
    }

    pub fn with_start_ts(self, ts: Timestamp) -> (r: Self)
        ensures
            r@ == (SubjectView { start_ts: Some(ts@), ..self@ }),
            self@.consistent() ==> r@.consistent(),
    {
        let mut s = self;
        s.start_ts = Some(ts);
        s
    }

    /// The value on the wire.
    pub fn to_json(&self) -> (r: Json)
        ensures
            r@ == self@.json(),
    {
        let (path, path_state) = self.path.wire();
        let (signer, sig_state, sha256) = self.signature.wire();
        let mut m = Members::new();
        m.put("pid", Json::Number(self.pid as u64));
        m.put("name", Json::text_or_null(&self.name));
        m.put("path", str_or_null(path));
        m.put_text("path_state", path_state);
        m.put_text("signature_state", sig_state);
        m.put("signer", str_or_null(signer));
        m.put("sha256", str_or_null(sha256));
        m.put_text_if("start_ts", &time_text(&self.start_ts));
        m.put_bool_if("has_window", self.has_window);
        m.put_number_if("parent_pid", widen(self.parent_pid));
        m.put_bool_if("elevated", self.elevated);
        assert(m@ =~= self@.members());
        m.finish()
    }
}

// ---------------------------------------------------------------------------------------------
// Window and device value types
// ---------------------------------------------------------------------------------------------

#[derive(Debug, Clone, Copy, PartialEq, Eq, Structural)]
pub enum TitleState {
    /// Read successfully and non-empty.
    Captured,
    /// Read successfully; the window genuinely has no title.
    Empty,
    /// The OS refused. macOS Accessibility denied — reserved, unreachable on Windows.
    NotPermitted,
    /// Withheld by policy before leaving the machine.
    Redacted,
    Unavailable,
}

impl TitleState {
    pub open spec fn name(self) -> Seq<char> {
        match self {
            TitleState::Captured => "captured"@,
            TitleState::Empty => "empty"@,
            TitleState::NotPermitted => "not_permitted"@,
            TitleState::Redacted => "redacted"@,
            TitleState::Unavailable => "unavailable"@,
        }
    }

    /// The name on the wire.
    pub fn as_str(self) -> (r: &'static str)
        ensures
            r@ == self.name(),
    {
        match self {
            TitleState::Captured => "captured",
            TitleState::Empty => "empty",
            TitleState::NotPermitted => "not_permitted",
            TitleState::Redacted => "redacted",
            TitleState::Unavailable => "unavailable",
        }
    }
}

#[derive(Debug, Clone, PartialEq, Eq)]
pub struct WindowRef {
    pub id: Option<String>,
    pub title: Option<String>,
    pub title_state: TitleState,
    pub visible: Option<bool>,
    pub on_screen: Option<bool>,
}

#[verifier::ext_equal]
pub struct WindowRefView {
    pub id: Option<Seq<char>>,
    pub title: Option<Seq<char>>,
    pub title_state: TitleState,
    pub visible: Option<bool>,
    pub on_screen: Option<bool>,
}

impl View for WindowRef {
    type V = WindowRefView;

    open spec fn view(&self) -> WindowRefView {
        WindowRefView {
            id: text::opt_text(self.id),
            title: text::opt_text(self.title),
            title_state: self.title_state,
            visible: self.visible,
            on_screen: self.on_screen,
        }
    }
}

/// The identifier of a window: its handle in hexadecimal, at least eight digits.
pub open spec fn window_id(hwnd: isize) -> Seq<char> {
    "hwnd:0x"@ + text::padded(text::hexadecimal(hwnd as usize as nat, false), 8)
}

impl WindowRefView {
    /// What is known of a window that was read with this title.
    pub open spec fn read(hwnd: isize, title: Option<Seq<char>>, visible: bool) -> WindowRefView {
        WindowRefView {
            id: Some(window_id(hwnd)),
            title: match title {
                Some(t) => if t.len() > 0 { Some(t) } else { None },
                None => None,
            },
            title_state: match title {
                Some(t) => if t.len() > 0 { TitleState::Captured } else { TitleState::Empty },
                None => TitleState::Unavailable,
            },
            visible: Some(visible),
            on_screen: None,
        }
    }

    /// The members of the value alone, in order.
    pub open spec fn members(self) -> Seq<(Seq<char>, JsonView)> {
        json::text_member_if("id"@, self.id) + seq![
            nullable("title"@, self.title),
            ("title_state"@, JsonView::Text(self.title_state.name())),
        ] + json::bool_member_if("visible"@, self.visible) + json::bool_member_if(
            "on_screen"@,
            self.on_screen,
        )
    }

    pub open spec fn json(self) -> JsonView {
        JsonView::Object(self.members())
    }
}

impl WindowRef {
    /// Titles only, never contents (NG3). An empty title is a fact, not a missing value.
    pub fn new(hwnd: isize, title: Option<String>, visible: bool) -> (r: Self)
        ensures
            r@ == WindowRefView::read(hwnd, text::opt_text(title), visible),
    {
        let (title, title_state) = match title {
            Some(t) => {
                if t.as_str().is_empty() {
                    (None, TitleState::Empty)
                } else {
                    (Some(t), TitleState::Captured)
                }
            },
            None => (None, TitleState::Unavailable),
        };
        let mut id = String::from_str("hwnd:0x");
        push_hex(&mut id, hwnd as usize as u64, 8, false);
        WindowRef { id: Some(id), title, title_state, visible: Some(visible), on_screen: None }
    }

    /// The value alone. Inside a signal its members are in the order of their names.
    pub fn to_json(&self) -> (r: Json)
        ensures
            r@ == self@.json(),
    {
        let mut m = Members::new();
        m.put_text_if("id", &self.id);
        m.put("title", Json::text_or_null(&self.title));
        m.put_text("title_state", self.title_state.as_str());
        m.put_bool_if("visible", self.visible);
        m.put_bool_if("on_screen", self.on_screen);
        assert(m@ =~= self@.members());
        m.finish()
    }
}

#[derive(Debug, Clone, Copy, PartialEq, Eq, Structural)]
pub enum DeviceKind {
    Physical,
    Virtual,
    Loopback,
    Unknown,
}

impl DeviceKind {
    pub open spec fn name(self) -> Seq<char> {
        match self {
            DeviceKind::Physical => "physical"@,
            DeviceKind::Virtual => "virtual"@,
            DeviceKind::Loopback => "loopback"@,
            DeviceKind::Unknown => "unknown"@,
        }
    }

    /// The name on the wire.
    pub fn as_str(self) -> (r: &'static str)
        ensures
            r@ == self.name(),
    {
        match self {
            DeviceKind::Physical => "physical",
            DeviceKind::Virtual => "virtual",
            DeviceKind::Loopback => "loopback",
            DeviceKind::Unknown => "unknown",
        }
    }
}

#[derive(Debug, Clone, PartialEq, Eq)]
pub struct AudioDevice {
    /// **Never the raw endpoint id.** The MMDevice string embeds a per-machine GUID that is a
    /// cross-session hardware fingerprint; this is `HMAC-SHA256(native_id, key = session_id)`
    /// truncated to 32 hex. A producer shipping a raw endpoint id fails schema validation.
    pub id: String,
    pub id_scope: &'static str,
    pub name: Option<String>,
    pub kind: DeviceKind,
    pub is_default: Option<bool>,
}

#[verifier::ext_equal]
pub struct AudioDeviceView {
    pub id: Seq<char>,
    pub id_scope: Seq<char>,
    pub name: Option<Seq<char>>,
    pub kind: DeviceKind,
    pub is_default: Option<bool>,
}

impl View for AudioDevice {
    type V = AudioDeviceView;

    open spec fn view(&self) -> AudioDeviceView {
        AudioDeviceView {
            id: self.id@,
            id_scope: self.id_scope@,
            name: text::opt_text(self.name),
            kind: self.kind,
            is_default: self.is_default,
        }
    }
}

impl AudioDeviceView {
    /// A device under an identifier that only its session gives meaning to.
    pub open spec fn scoped(id: Seq<char>, name: Option<Seq<char>>, kind: DeviceKind) -> Self {
        AudioDeviceView { id, id_scope: "session"@, name, kind, is_default: None }
    }

    /// The members of the value alone, in order.
    pub open spec fn members(self) -> Seq<(Seq<char>, JsonView)> {
        seq![("id"@, JsonView::Text(self.id)), ("id_scope"@, JsonView::Text(self.id_scope))]
            + json::text_member_if("name"@, self.name) + seq![
            ("kind"@, JsonView::Text(self.kind.name())),
        ] + json::bool_member_if("is_default"@, self.is_default)
    }

    pub open spec fn json(self) -> JsonView {
        JsonView::Object(self.members())
    }
}

impl AudioDevice {
    pub fn session_scoped(id: String, name: Option<String>, kind: DeviceKind) -> (r: Self)
        ensures
            r@ == AudioDeviceView::scoped(id@, text::opt_text(name), kind),
    {
        AudioDevice { id, id_scope: "session", name, kind, is_default: None }
    }

    /// The value alone. Inside a signal its members are in the order of their names.
    pub fn to_json(&self) -> (r: Json)
        ensures
            r@ == self@.json(),
    {
        let mut m = Members::new();
        m.put_text("id", self.id.as_str());
        m.put_text("id_scope", self.id_scope);
        m.put_text_if("name", &self.name);
        m.put_text("kind", self.kind.as_str());
        m.put_bool_if("is_default", self.is_default);
        assert(m@ =~= self@.members());
        m.finish()
    }
}

// ---------------------------------------------------------------------------------------------
// Signal
// ---------------------------------------------------------------------------------------------

#[derive(Debug, Clone)]
pub struct Signal {
    pub code: &'static str,
    /// The collector's **local** triage hint, never a verdict, never aggregated into a score
    /// (NG4 / EU AI Act Annex III). The server's rules engine is authoritative because the tool
    /// database updates centrally and a collector's copy is always stale.
    ///
    /// This collector ships no tool database, so it never emits tier 1.
    pub tier: u8,
    pub scope: &'static str,
    pub subject: Option<Subject>,
    pub detail: Json,
    pub observation_key: Option<String>,
    pub first_observed_ts: Option<Timestamp>,
}

#[verifier::ext_equal]
pub struct SignalView {
    pub code: Seq<char>,
    pub tier: u8,
    pub scope: Seq<char>,
    pub subject: Option<SubjectView>,
    pub detail: JsonView,
    pub observation_key: Option<Seq<char>>,
    pub first_observed_ts: Option<TimestampView>,
}

impl View for Signal {
    type V = SignalView;

    open spec fn view(&self) -> SignalView {
        SignalView {
            code: self.code@,
            tier: self.tier,
            scope: self.scope@,
            subject: match self.subject {
                Some(s) => Some(s@),
                None => None,
            },
            detail: self.detail@,
            observation_key: text::opt_text(self.observation_key),
            first_observed_ts: time::opt_time(self.first_observed_ts),
        }
    }
}

impl SignalView {
    /// The members on the wire, in order.
    pub open spec fn members(self) -> Seq<(Seq<char>, JsonView)> {
        seq![
            ("code"@, JsonView::Text(self.code)),
            ("tier"@, JsonView::Number(self.tier as int)),
            ("scope"@, JsonView::Text(self.scope)),
        ] + json::member_if(
            "subject"@,
            match self.subject {
                Some(s) => Some(s.json()),
                None => None,
            },
        ) + seq![("detail"@, self.detail)] + json::text_member_if(
            "observation_key"@,
            self.observation_key,
        ) + json::text_member_if("first_observed_ts"@, time::opt_time_text(self.first_observed_ts))
    }

    pub open spec fn json(self) -> JsonView {
        JsonView::Object(self.members())
    }
}

impl vstd::std_specs::convert::FromSpecImpl<Observation> for Signal {
    /// The signal is told by its view, which `from` fixes.
    open spec fn obeys_from_spec() -> bool {
        false
    }

    open spec fn from_spec(o: Observation) -> Signal {
        choose|s: Signal| #[trigger] s@ == o@.signal()
    }
}

impl From<Observation> for Signal {
    fn from(o: Observation) -> (r: Signal)
        ensures
            r@ == o@.signal(),
    {
        o.into_signal()
    }
}

impl Signal {
    /// The value on the wire.
    pub fn into_json(self) -> (r: Json)
        ensures
            r@ == self@.json(),
    {
        let mut m = Members::new();
        m.put_text("code", self.code);
        m.put("tier", Json::Number(self.tier as u64));
        m.put_text("scope", self.scope);
        match &self.subject {
            Some(s) => m.put("subject", s.to_json()),
            None => (),
        }
        m.put("detail", self.detail);
        m.put_text_if("observation_key", &self.observation_key);
        m.put_text_if("first_observed_ts", &time_text(&self.first_observed_ts));
        assert(m@ =~= self@.members());
        m.finish()
    }
}

// ---------------------------------------------------------------------------------------------
// Sample metadata
// ---------------------------------------------------------------------------------------------

#[derive(Debug, Clone, Copy, PartialEq, Eq, Structural)]
pub enum ProbeErrorKind {
    PermissionDenied,
    ApiFailure,
    Timeout,
    NotSupported,
    Internal,
    Other,
}

impl ProbeErrorKind {
    pub open spec fn name(self) -> Seq<char> {
        match self {
            ProbeErrorKind::PermissionDenied => "permission_denied"@,
            ProbeErrorKind::ApiFailure => "api_failure"@,
            ProbeErrorKind::Timeout => "timeout"@,
            ProbeErrorKind::NotSupported => "not_supported"@,
            ProbeErrorKind::Internal => "internal"@,
            ProbeErrorKind::Other => "other"@,
        }
    }

    /// The name on the wire.
    pub fn as_str(self) -> (r: &'static str)
        ensures
            r@ == self.name(),
    {
        match self {
            ProbeErrorKind::PermissionDenied => "permission_denied",
            ProbeErrorKind::ApiFailure => "api_failure",
            ProbeErrorKind::Timeout => "timeout",
            ProbeErrorKind::NotSupported => "not_supported",
            ProbeErrorKind::Internal => "internal",
            ProbeErrorKind::Other => "other",
        }
    }
}

#[derive(Debug, Clone)]
pub struct ProbeError {
    /// The signal code this probe serves, or `*` for a cross-cutting failure.
    pub code: &'static str,
    pub kind: ProbeErrorKind,
    /// Raw HRESULT / errno, diagnostic only.
    pub platform_status: Option<String>,
    /// Human-readable and non-authoritative. **Must not contain a file path, a window title, or any
    /// other candidate data** — a diagnostic string is not an exemption from NG3, and these travel
    /// the same wire as everything else.
    pub message: Option<String>,
}

#[verifier::ext_equal]
pub struct ProbeErrorView {
    pub code: Seq<char>,
    pub kind: ProbeErrorKind,
    pub platform_status: Option<Seq<char>>,
    pub message: Option<Seq<char>>,
}

impl View for ProbeError {
    type V = ProbeErrorView;

    open spec fn view(&self) -> ProbeErrorView {
        ProbeErrorView {
            code: self.code@,
            kind: self.kind,
            platform_status: text::opt_text(self.platform_status),
            message: text::opt_text(self.message),
        }
    }
}

impl ProbeErrorView {
    /// A failure of the probe that serves a signal code.
    pub open spec fn failed(code: Seq<char>, kind: ProbeErrorKind, message: Seq<char>) -> Self {
        ProbeErrorView { code, kind, platform_status: None, message: Some(message) }
    }

    /// The members on the wire, in order.
    pub open spec fn members(self) -> Seq<(Seq<char>, JsonView)> {
        seq![("code"@, JsonView::Text(self.code)), ("kind"@, JsonView::Text(self.kind.name()))]
            + json::text_member_if("platform_status"@, self.platform_status) + seq![
            nullable("message"@, self.message),
        ]
    }

    pub open spec fn json(self) -> JsonView {
        JsonView::Object(self.members())
    }
}

impl ProbeError {
    /// The value on the wire.
    pub fn to_json(&self) -> (r: Json)
        ensures
            r@ == self@.json(),
    {
        let mut m = Members::new();
        m.put_text("code", self.code);
        m.put_text("kind", self.kind.as_str());
        m.put_text_if("platform_status", &self.platform_status);
        m.put("message", Json::text_or_null(&self.message));
        assert(m@ =~= self@.members());
        m.finish()
    }
}

/// The coverage principle applied per sample: a scan whose window sweep threw is not a clean scan,
/// and `signals: []` only means "I looked and saw nothing" when `complete` is true.
#[derive(Debug, Clone)]
pub struct SampleMeta {
    pub emission: Emission,
    pub complete: bool,
    /// Whole milliseconds. The only `type: number` in the contract — see `schemas/README.md` §6 on
    /// why producers should keep it integral: it is the sole float that would enter the evidence
    /// chain, and ES6 double formatting is the part of RFC 8785 implementations most often wrong.
    pub scan_duration_ms: Option<u64>,
    pub poll_interval_ms: Option<u32>,
    pub truncated: Option<bool>,
    pub unreadable_counts: Table<u32>,
    pub probe_errors: Vec<ProbeError>,
}

#[verifier::ext_equal]
pub struct SampleMetaView {
    pub emission: Emission,
    pub complete: bool,
    pub scan_duration_ms: Option<u64>,
    pub poll_interval_ms: Option<u32>,
    pub truncated: Option<bool>,
    pub unreadable_counts: Seq<(Seq<char>, u32)>,
    pub probe_errors: Seq<ProbeErrorView>,
}

impl View for SampleMeta {
    type V = SampleMetaView;

    open spec fn view(&self) -> SampleMetaView {
        SampleMetaView {
            emission: self.emission,
            complete: self.complete,
            scan_duration_ms: self.scan_duration_ms,
            poll_interval_ms: self.poll_interval_ms,
            truncated: self.truncated,
            unreadable_counts: self.unreadable_counts@,
            probe_errors: self.probe_errors@.map_values(|e: ProbeError| e@),
        }
    }
}

/// The value of a count under a key, zero where there is none.
pub open spec fn count_at(rows: Seq<(Seq<char>, u32)>, key: Seq<char>) -> u32 {
    if table::dict(rows).dom().contains(key) {
        table::dict(rows)[key]
    } else {
        0
    }
}

impl SampleMetaView {
    /// The record of a snapshot with nothing amiss.
    pub open spec fn fresh(scan_duration_ms: u64, poll_interval_ms: u32) -> SampleMetaView {
        SampleMetaView {
            emission: Emission::Snapshot,
            complete: true,
            scan_duration_ms: Some(scan_duration_ms),
            poll_interval_ms: Some(poll_interval_ms),
            truncated: None,
            unreadable_counts: Seq::empty(),
            probe_errors: Seq::empty(),
        }
    }

    /// The record with one more failed probe.
    pub open spec fn failed(
        self,
        code: Seq<char>,
        kind: ProbeErrorKind,
        message: Seq<char>,
    ) -> SampleMetaView {
        SampleMetaView {
            complete: false,
            probe_errors: self.probe_errors.push(ProbeErrorView::failed(code, kind, message)),
            ..self
        }
    }

    /// The record with more unreadable things under a key.
    pub open spec fn counted(self, key: Seq<char>, n: u32) -> SampleMetaView {
        if n > 0 {
            SampleMetaView {
                unreadable_counts: table::put_row(
                    self.unreadable_counts,
                    key,
                    (count_at(self.unreadable_counts, key) + n) as u32,
                ),
                ..self
            }
        } else {
            self
        }
    }

    /// A sample is complete exactly when no probe failed.
    pub open spec fn honest(self) -> bool {
        self.complete <==> self.probe_errors.len() == 0
    }

    /// The members on the wire, in order.
    pub open spec fn members(self) -> Seq<(Seq<char>, JsonView)> {
        seq![
            ("emission"@, JsonView::Text(self.emission.name())),
            ("complete"@, JsonView::Bool(self.complete)),
        ] + json::number_member_if("scan_duration_ms"@, text::opt_int(self.scan_duration_ms))
            + json::number_member_if("poll_interval_ms"@, opt_u32(self.poll_interval_ms))
            + json::bool_member_if("truncated"@, self.truncated) + json::member_if(
            "unreadable_counts"@,
            if self.unreadable_counts.len() == 0 {
                None
            } else {
                Some(JsonView::Object(count_members(self.unreadable_counts)))
            },
        ) + json::member_if(
            "probe_errors"@,
            if self.probe_errors.len() == 0 {
                None
            } else {
                Some(JsonView::List(self.probe_errors.map_values(|e: ProbeErrorView| e.json())))
            },
        )
    }

    pub open spec fn json(self) -> JsonView {
        JsonView::Object(self.members())
    }
}

/// Counts as object members.
pub open spec fn count_members(rows: Seq<(Seq<char>, u32)>) -> Seq<(Seq<char>, JsonView)> {
    rows.map_values(|row: (Seq<char>, u32)| (row.0, JsonView::Number(row.1 as int)))
}

impl SampleMeta {
    pub fn snapshot(scan_duration_ms: u64, poll_interval_ms: u32) -> (r: Self)
        ensures
            r@ == SampleMetaView::fresh(scan_duration_ms, poll_interval_ms),
            r@.honest(),
    {
        let r = SampleMeta {
            emission: Emission::Snapshot,
            complete: true,
            scan_duration_ms: Some(scan_duration_ms),
            poll_interval_ms: Some(poll_interval_ms),
            truncated: None,
            unreadable_counts: Table::new(),
            probe_errors: Vec::new(),
        };
        assert(r@.probe_errors =~= Seq::<ProbeErrorView>::empty());
        r
    }

    /// Record a probe failure. This is the only place `complete` becomes false — a partial scan
    /// must never present as a clean one.
    pub fn record_error(&mut self, code: &'static str, kind: ProbeErrorKind, message: String)
        ensures
            final(self)@ == old(self)@.failed(code@, kind, message@),
            final(self)@.honest(),
    {
        self.complete = false;
        self.probe_errors.push(
            ProbeError { code, kind, platform_status: None, message: Some(message) },
        );
        assert(self@.probe_errors =~= old(self)@.failed(code@, kind, message@).probe_errors);
    }

    /// Add to the number of things of a kind that could not be read. Not adding any leaves no entry.
    pub fn count_unreadable(&mut self, key: &str, n: u32)
        requires
            count_at(old(self)@.unreadable_counts, key@) + n <= u32::MAX,
        ensures
            final(self)@ == old(self)@.counted(key@, n),
            n > 0 ==> table::dict(final(self)@.unreadable_counts) == table::dict(
                old(self)@.unreadable_counts,
            ).insert(key@, (count_at(old(self)@.unreadable_counts, key@) + n) as u32),
            old(self)@.honest() ==> final(self)@.honest(),
    {
        if n > 0 {
            let so_far: u32 = match self.unreadable_counts.get(key) {
                Some(c) => *c,
                None => 0,
            };
            self.unreadable_counts.insert(key.to_owned(), so_far + n);
        }
    }

    /// The value on the wire.
    pub fn to_json(&self) -> (r: Json)
        ensures
            r@ == self@.json(),
    {
        let mut m = Members::new();
        m.put_text("emission", self.emission.as_str());
        m.put("complete", Json::Bool(self.complete));
        m.put_number_if("scan_duration_ms", self.scan_duration_ms);
        m.put_number_if("poll_interval_ms", widen(self.poll_interval_ms));
        m.put_bool_if("truncated", self.truncated);
        if !self.unreadable_counts.is_empty() {
            m.put("unreadable_counts", counts_json(&self.unreadable_counts));
        }
        if self.probe_errors.len() > 0 {
            m.put("probe_errors", errors_json(&self.probe_errors));
        }
        assert(m@ =~= self@.members());
        m.finish()
    }
}

fn counts_json(counts: &Table<u32>) -> (r: Json)
    ensures
        r@ == JsonView::Object(count_members(counts@)),
{
    let mut m = Members::new();
    let mut i: usize = 0;
    while i < counts.len()
        invariant
            i <= counts@.len(),
            m@ == count_members(counts@.take(i as int)),
        decreases counts@.len() - i,
    {
        m.put(counts.key(i), Json::Number(*counts.value(i) as u64));
        i = i + 1;
        assert(m@ =~= count_members(counts@.take(i as int)));
    }
    assert(counts@.take(i as int) =~= counts@);
    m.finish()
}

fn errors_json(errors: &Vec<ProbeError>) -> (r: Json)
    ensures
        r@ == JsonView::List(
            errors@.map_values(|e: ProbeError| e@).map_values(|e: ProbeErrorView| e.json()),
        ),
{
    let mut items = Items::new();
    let ghost all = errors@.map_values(|e: ProbeError| e@).map_values(
        |e: ProbeErrorView| e.json(),
    );
    let mut i: usize = 0;
    while i < errors.len()
        invariant
            i <= errors@.len(),
            all == errors@.map_values(|e: ProbeError| e@).map_values(
                |e: ProbeErrorView| e.json(),
            ),
            items@ == all.take(i as int),
        decreases errors@.len() - i,
    {
        items.add_item(errors[i].to_json());
        i = i + 1;
        assert(items@ =~= all.take(i as int));
    }
    assert(all.take(i as int) =~= all);
    items.finish()
}

// ---------------------------------------------------------------------------------------------
// Session events
// ---------------------------------------------------------------------------------------------

/// Lifecycle events share the connection and the `seq` counter with samples, but are a distinct
/// message type carrying **no tier**. Giving "candidate declined monitoring" a risk tier is exactly
/// the verdict this product refuses to render.
#[derive(Debug, Clone)]
pub struct SessionEvent {
    pub code: &'static str,
    pub initiator: &'static str,
    /// Explicit rather than derived from `code`, so an older pipeline receiving a *future* terminal
    /// event still closes the session instead of waiting on a heartbeat that never comes.
    pub terminal: bool,
    pub occurred_at: Timestamp,
    pub message: Option<String>,
}

#[verifier::ext_equal]
pub struct SessionEventView {
    pub code: Seq<char>,
    pub initiator: Seq<char>,
    pub terminal: bool,
    pub occurred_at: TimestampView,
    pub message: Option<Seq<char>>,
}

impl View for SessionEvent {
    type V = SessionEventView;

    open spec fn view(&self) -> SessionEventView {
        SessionEventView {
            code: self.code@,
            initiator: self.initiator@,
            terminal: self.terminal,
            occurred_at: self.occurred_at@,
            message: text::opt_text(self.message),
        }
    }
}

impl SessionEventView {
    /// Something the candidate did.
    pub open spec fn by_candidate(
        code: Seq<char>,
        terminal: bool,
        at: TimestampView,
    ) -> SessionEventView {
        SessionEventView { code, initiator: "candidate"@, terminal, occurred_at: at, message: None }
    }

    /// The members on the wire, in order.
    pub open spec fn members(self) -> Seq<(Seq<char>, JsonView)> {
        seq![
            ("code"@, JsonView::Text(self.code)),
            ("initiator"@, JsonView::Text(self.initiator)),
            ("terminal"@, JsonView::Bool(self.terminal)),
            ("occurred_at"@, JsonView::Text(self.occurred_at.text())),
        ] + json::text_member_if("message"@, self.message)
    }

    pub open spec fn json(self) -> JsonView {
        JsonView::Object(self.members())
    }
}

impl SessionEvent {
    pub fn consent_granted() -> (r: Self)
        ensures
            r@ == SessionEventView::by_candidate("consent_granted"@, false, r@.occurred_at),
            time::nameable(r@.occurred_at.secs, r@.occurred_at.nanos),
    {
        SessionEvent::candidate("consent_granted", false)
    }

    /// A supported outcome, not an error. The panel shows "candidate declined monitoring" and the
    /// interview proceeds; what that means is the customer's decision.
    pub fn consent_declined() -> (r: Self)
        ensures
            r@ == SessionEventView::by_candidate("consent_declined"@, true, r@.occurred_at),
            time::nameable(r@.occurred_at.secs, r@.occurred_at.nanos),
    {
        SessionEvent::candidate("consent_declined", true)
    }

    /// Ending the session cleanly and saying so is correct behaviour. "Quit at minute 14" is
    /// information, not a failure.
    pub fn candidate_quit() -> (r: Self)
        ensures
            r@ == SessionEventView::by_candidate("candidate_quit"@, true, r@.occurred_at),
            time::nameable(r@.occurred_at.secs, r@.occurred_at.nanos),
    {
        SessionEvent::candidate("candidate_quit", true)
    }

    fn candidate(code: &'static str, terminal: bool) -> (r: Self)
        ensures
            r@ == SessionEventView::by_candidate(code@, terminal, r@.occurred_at),
            time::nameable(r@.occurred_at.secs, r@.occurred_at.nanos),
    {
        SessionEvent {
            code,
            initiator: "candidate",
            terminal,
            occurred_at: Timestamp::now(),
            message: None,
        }
    }

    /// The value on the wire.
    pub fn to_json(&self) -> (r: Json)
        ensures
            r@ == self@.json(),
    {
        let mut m = Members::new();
        m.put_text("code", self.code);
        m.put_text("initiator", self.initiator);
        m.put("terminal", Json::Bool(self.terminal));
        m.put("occurred_at", Json::Text(self.occurred_at.to_text()));
        m.put_text_if("message", &self.message);
        assert(m@ =~= self@.members());
        m.finish()
    }
}

// ---------------------------------------------------------------------------------------------
// Envelope
// ---------------------------------------------------------------------------------------------

#[derive(Debug, Clone)]
pub struct Envelope {
    pub schema_version: &'static str,
    pub message_type: MessageType,
    pub collector_id: &'static str,
    /// One continuous run of one collector process. `seq` is monotonic within *this*, not within
    /// the session — the enterprise tier runs two collectors under one `session_id`, and crash
    /// recovery legitimately restarts `seq` at 1.
    pub collector_instance_id: Uuid,
    pub session_id: Uuid,
    pub seq: u64,
    pub ts: Timestamp,
    pub uptime_ms: Option<u64>,
    pub signals: Option<Vec<Signal>>,
    pub sample_meta: Option<SampleMeta>,
    pub event: Option<SessionEvent>,
}

#[verifier::ext_equal]
pub struct EnvelopeView {
    pub schema_version: Seq<char>,
    pub message_type: MessageType,
    pub collector_id: Seq<char>,
    pub collector_instance_id: Seq<u8>,
    pub session_id: Seq<u8>,
    pub seq: u64,
    pub ts: TimestampView,
    pub uptime_ms: Option<u64>,
    pub signals: Option<Seq<SignalView>>,
    pub sample_meta: Option<SampleMetaView>,
    pub event: Option<SessionEventView>,
}

impl View for Envelope {
    type V = EnvelopeView;

    open spec fn view(&self) -> EnvelopeView {
        EnvelopeView {
            schema_version: self.schema_version@,
            message_type: self.message_type,
            collector_id: self.collector_id@,
            collector_instance_id: self.collector_instance_id@,
            session_id: self.session_id@,
            seq: self.seq,
            ts: self.ts@,
            uptime_ms: self.uptime_ms,
            signals: match self.signals {
                Some(s) => Some(s@.map_values(|x: Signal| x@)),
                None => None,
            },
            sample_meta: match self.sample_meta {
                Some(m) => Some(m@),
                None => None,
            },
            event: match self.event {
                Some(e) => Some(e@),
                None => None,
            },
        }
    }
}

impl EnvelopeView {
    /// An envelope around one sample.
    pub open spec fn of_sample(
        session_id: Seq<u8>,
        collector_instance_id: Seq<u8>,
        seq: u64,
        signals: Seq<SignalView>,
        sample_meta: SampleMetaView,
        ts: TimestampView,
    ) -> EnvelopeView {
        EnvelopeView {
            schema_version: crate::SCHEMA_VERSION@,
            message_type: MessageType::SignalSample,
            collector_id: crate::COLLECTOR_ID@,
            collector_instance_id,
            session_id,
            seq,
            ts,
            uptime_ms: None,
            signals: Some(signals),
            sample_meta: Some(sample_meta),
            event: None,
        }
    }

    /// An envelope around one session event.
    pub open spec fn of_event(
        session_id: Seq<u8>,
        collector_instance_id: Seq<u8>,
        seq: u64,
        event: SessionEventView,
        ts: TimestampView,
    ) -> EnvelopeView {
        EnvelopeView {
            schema_version: crate::SCHEMA_VERSION@,
            message_type: MessageType::SessionEvent,
            collector_id: crate::COLLECTOR_ID@,
            collector_instance_id,
            session_id,
            seq,
            ts,
            uptime_ms: None,
            signals: None,
            sample_meta: None,
            event: Some(event),
        }
    }

    /// The members on the wire, in order.
    pub open spec fn members(self) -> Seq<(Seq<char>, JsonView)> {
        seq![
            ("schema_version"@, JsonView::Text(self.schema_version)),
            ("type"@, JsonView::Text(self.message_type.name())),
            ("collector_id"@, JsonView::Text(self.collector_id)),
            (
                "collector_instance_id"@,
                JsonView::Text(ident::hyphenated_text(self.collector_instance_id)),
            ),
            ("session_id"@, JsonView::Text(ident::hyphenated_text(self.session_id))),
            ("seq"@, JsonView::Number(self.seq as int)),
            ("ts"@, JsonView::Text(self.ts.text())),
        ] + json::number_member_if("uptime_ms"@, text::opt_int(self.uptime_ms)) + json::member_if(
            "signals"@,
            match self.signals {
                Some(s) => Some(JsonView::List(s.map_values(|x: SignalView| x.json()))),
                None => None,
            },
        ) + json::member_if(
            "sample_meta"@,
            match self.sample_meta {
                Some(m) => Some(m.json()),
                None => None,
            },
        ) + json::member_if(
            "event"@,
            match self.event {
                Some(e) => Some(e.json()),
                None => None,
            },
        )
    }

    pub open spec fn json(self) -> JsonView {
        JsonView::Object(self.members())
    }
}

impl Envelope {
    pub fn sample(
        session_id: Uuid,
        collector_instance_id: Uuid,
        seq: u64,
        signals: Vec<Signal>,
        sample_meta: SampleMeta,
    ) -> (r: Self)
        ensures
            r@ == EnvelopeView::of_sample(
                session_id@,
                collector_instance_id@,
                seq,
                signals@.map_values(|x: Signal| x@),
                sample_meta@,
                r@.ts,
            ),
            time::nameable(r@.ts.secs, r@.ts.nanos),
    {
        Envelope {
            schema_version: crate::SCHEMA_VERSION,
            message_type: MessageType::SignalSample,
            collector_id: crate::COLLECTOR_ID,
            collector_instance_id,
            session_id,
            seq,
            ts: Timestamp::now(),
            uptime_ms: None,
            signals: Some(signals),
            sample_meta: Some(sample_meta),
            event: None,
        }
    }

    pub fn event(
        session_id: Uuid,
        collector_instance_id: Uuid,
        seq: u64,
        event: SessionEvent,
    ) -> (r: Self)
        ensures
            r@ == EnvelopeView::of_event(
                session_id@,
                collector_instance_id@,
                seq,
                event@,
                r@.ts,
            ),
            time::nameable(r@.ts.secs, r@.ts.nanos),
    {
        Envelope {
            schema_version: crate::SCHEMA_VERSION,
            message_type: MessageType::SessionEvent,
            collector_id: crate::COLLECTOR_ID,
            collector_instance_id,
            session_id,
            seq,
            ts: Timestamp::now(),
            uptime_ms: None,
            signals: None,
            sample_meta: None,
            event: Some(event),
        }
    }

    /// The value on the wire.
    pub fn into_json(self) -> (r: Json)
        ensures
            r@ == self@.json(),
    {
        let ghost whole = self@;
        let mut m = Members::new();
        m.put_text("schema_version", self.schema_version);
        m.put_text("type", self.message_type.as_str());
        m.put_text("collector_id", self.collector_id);
        m.put("collector_instance_id", Json::Text(self.collector_instance_id.to_text()));
        m.put("session_id", Json::Text(self.session_id.to_text()));
        m.put("seq", Json::Number(self.seq));
        m.put("ts", Json::Text(self.ts.to_text()));
        m.put_number_if("uptime_ms", self.uptime_ms);
        match self.signals {
            Some(signals) => m.put("signals", signals_json(signals)),
            None => (),
        }
        match &self.sample_meta {
            Some(meta) => m.put("sample_meta", meta.to_json()),
            None => (),
        }
        match &self.event {
            Some(event) => m.put("event", event.to_json()),
            None => (),
        }
        assert(m@ =~= whole.members());
        m.finish()
    }
}

fn signals_json(signals: Vec<Signal>) -> (r: Json)
    ensures
        r@ == JsonView::List(
            signals@.map_values(|x: Signal| x@).map_values(|x: SignalView| x.json()),
        ),
{
    let ghost all = signals@.map_values(|x: Signal| x@).map_values(|x: SignalView| x.json());
    let mut items = Items::new();
    for signal in it: signals
        invariant
            all == it.seq().map_values(|x: Signal| x@).map_values(|x: SignalView| x.json()),
            items@ == all.take(it.index() as int),
    {
        items.add_item(signal.into_json());
        assert(items@ =~= all.take(it.index() + 1));
    }
    assert(all.take(all.len() as int) =~= all);
    items.finish()
}

// ---------------------------------------------------------------------------------------------
// Laws
// ---------------------------------------------------------------------------------------------

/// A path exists exactly when the image was readable.
pub proof fn law_path_iff_readable(path: ImagePathView)
    ensures
        path.path() is Some <==> path is Readable,
        path.path() is Some <==> path.state_name() == "readable"@,
{
    reveal_strlit("readable");
    reveal_strlit("access_denied");
    reveal_strlit("not_applicable");
    reveal_strlit("exited");
    reveal_strlit("unknown");
    assert("readable"@[0] == 'r');
    assert("access_denied"@[0] == 'a');
    assert("not_applicable"@[0] == 'n');
    assert("exited"@[0] == 'e');
    assert("unknown"@[0] == 'u');
}

/// A subject found with an image keeps its promise through every step that builds it up: no hash and
/// no signer without a readable image.
pub proof fn law_no_hash_without_image(
    pid: u32,
    name: Option<Seq<char>>,
    path: ImagePathView,
    sig: SignatureView,
    has_window: bool,
)
    ensures
        SubjectView::found(pid, name, path).consistent(),
        SubjectView::found(pid, name, path).signed(sig).consistent(),
        SubjectView::found(pid, name, path).signed(sig).windowed(has_window).consistent(),
        SubjectView::found(pid, name, path).signed(sig).signature.sha256() is Some ==> path
            is Readable,
        SubjectView::found(pid, name, path).signed(sig).signature.signer() is Some ==> path
            is Readable,
        path is Readable ==> SubjectView::found(pid, name, path).signed(sig).signature == sig,
{
}

/// On the wire a consistent subject gives a hash or a signer only beside a path.
pub proof fn law_wire_hash_needs_path(s: SubjectView)
    requires
        s.consistent(),
    ensures
        s.members()[2].0 == "path"@,
        s.members()[5].0 == "signer"@,
        s.members()[6].0 == "sha256"@,
        s.members()[2].1 == JsonView::Null ==> s.members()[5].1 == JsonView::Null
            && s.members()[6].1 == JsonView::Null,
{
}

/// An envelope carries a sample or an event, never both: a sample has signals and its honesty
/// record, an event has neither, and so no tier.
pub proof fn law_sample_or_event(
    session_id: Seq<u8>,
    instance_id: Seq<u8>,
    seq: u64,
    signals: Seq<SignalView>,
    meta: SampleMetaView,
    event: SessionEventView,
    ts: TimestampView,
)
    ensures
        ({
            let e = EnvelopeView::of_sample(session_id, instance_id, seq, signals, meta, ts);
            &&& e.message_type is SignalSample
            &&& e.signals == Some(signals)
            &&& e.sample_meta == Some(meta)
            &&& e.event is None
        }),
        ({
            let e = EnvelopeView::of_event(session_id, instance_id, seq, event, ts);
            &&& e.message_type is SessionEvent
            &&& e.signals is None
            &&& e.sample_meta is None
            &&& e.event == Some(event)
        }),
{
}

/// A record that was honest stays so, whatever is added to it, and one error is enough to make a
/// sample incomplete for good.
pub proof fn law_errors_stick(
    m: SampleMetaView,
    code: Seq<char>,
    kind: ProbeErrorKind,
    message: Seq<char>,
    key: Seq<char>,
    n: u32,
)
    ensures
        !m.failed(code, kind, message).complete,
        m.failed(code, kind, message).honest(),
        m.honest() ==> m.counted(key, n).honest(),
        m.counted(key, n).complete == m.complete,
        m.failed(code, kind, message).probe_errors.last().code == code,
{
}

/// The name of a message type tells it from the other.
pub proof fn law_message_type_names(x: MessageType)
    ensures
        x.name() == "signal_sample"@ <==> x is SignalSample,
        x.name() == "session_event"@ <==> x is SessionEvent,
{
    reveal_strlit("signal_sample");
    reveal_strlit("session_event");
    assert("signal_sample"@.len() == 13);
    assert("session_event"@.len() == 13);
    assert("signal_sample"@[1] != "session_event"@[1]);
}

/// A snapshot never reads as a delta.
pub proof fn law_emission_names(x: Emission)
    ensures
        x.name() == "snapshot"@ <==> x is Snapshot,
        x.name() == "delta"@ <==> x is Delta,
{
    reveal_strlit("snapshot");
    reveal_strlit("delta");
    assert("snapshot"@.len() == 8);
    assert("delta"@.len() == 5);
}

/// Why a path is missing is told on the wire: each state has a name of its own.
pub proof fn law_path_state_names(x: ImagePathView)
    ensures
        x.state_name() == "readable"@ <==> x is Readable,
        x.state_name() == "access_denied"@ <==> x is AccessDenied,
        x.state_name() == "not_applicable"@ <==> x is NotApplicable,
        x.state_name() == "exited"@ <==> x is Exited,
        x.state_name() == "unknown"@ <==> x is Unknown,
{
    reveal_strlit("readable");
    reveal_strlit("access_denied");
    reveal_strlit("not_applicable");
    reveal_strlit("exited");
    reveal_strlit("unknown");
    assert("readable"@.len() == 8);
    assert("access_denied"@.len() == 13);
    assert("not_applicable"@.len() == 14);
    assert("exited"@.len() == 6);
    assert("unknown"@.len() == 7);
}

/// Each signature state has a name of its own: an invalid signature never reads as a missing one.
pub proof fn law_signature_state_names(x: SignatureView)
    ensures
        x.state_name() == "not_checked"@ <==> x is NotChecked,
        x.state_name() == "unavailable"@ <==> x is Unavailable,
        x.state_name() == "unsigned"@ <==> x is Unsigned,
        x.state_name() == "valid"@ <==> x is Valid,
        x.state_name() == "invalid"@ <==> x is Invalid,
{
    reveal_strlit("not_checked");
    reveal_strlit("unavailable");
    reveal_strlit("unsigned");
    reveal_strlit("valid");
    reveal_strlit("invalid");
    assert("not_checked"@.len() == 11);
    assert("unavailable"@.len() == 11);
    assert("unsigned"@.len() == 8);
    assert("valid"@.len() == 5);
    assert("invalid"@.len() == 7);
    assert("not_checked"@[0] != "unavailable"@[0]);
}

/// Each title state has a name of its own.
pub proof fn law_title_state_names(x: TitleState)
    ensures
        x.name() == "captured"@ <==> x is Captured,
        x.name() == "empty"@ <==> x is Empty,
        x.name() == "not_permitted"@ <==> x is NotPermitted,
        x.name() == "redacted"@ <==> x is Redacted,
        x.name() == "unavailable"@ <==> x is Unavailable,
{
    reveal_strlit("captured");
    reveal_strlit("empty");
    reveal_strlit("not_permitted");
    reveal_strlit("redacted");
    reveal_strlit("unavailable");
    assert("captured"@.len() == 8);
    assert("empty"@.len() == 5);
    assert("not_permitted"@.len() == 13);
    assert("redacted"@.len() == 8);
    assert("unavailable"@.len() == 11);
    assert("captured"@[0] != "redacted"@[0]);
}

/// Each device kind has a name of its own.
pub proof fn law_device_kind_names(x: DeviceKind)
    ensures
        x.name() == "physical"@ <==> x is Physical,
        x.name() == "virtual"@ <==> x is Virtual,
        x.name() == "loopback"@ <==> x is Loopback,
        x.name() == "unknown"@ <==> x is Unknown,
{
    reveal_strlit("physical");
    reveal_strlit("virtual");
    reveal_strlit("loopback");
    reveal_strlit("unknown");
    assert("physical"@.len() == 8);
    assert("virtual"@.len() == 7);
    assert("loopback"@.len() == 8);
    assert("unknown"@.len() == 7);
    assert("physical"@[0] != "loopback"@[0]);
    assert("virtual"@[0] != "unknown"@[0]);
}

/// Each kind of probe error has a name of its own.
pub proof fn law_probe_error_kind_names(x: ProbeErrorKind)
    ensures
        x.name() == "permission_denied"@ <==> x is PermissionDenied,
        x.name() == "api_failure"@ <==> x is ApiFailure,
        x.name() == "timeout"@ <==> x is Timeout,
        x.name() == "not_supported"@ <==> x is NotSupported,
        x.name() == "internal"@ <==> x is Internal,
        x.name() == "other"@ <==> x is Other,
{
    reveal_strlit("permission_denied");
    reveal_strlit("api_failure");
    reveal_strlit("timeout");
    reveal_strlit("not_supported");
    reveal_strlit("internal");
    reveal_strlit("other");
    assert("permission_denied"@.len() == 17);
    assert("api_failure"@.len() == 11);
    assert("timeout"@.len() == 7);
    assert("not_supported"@.len() == 13);
    assert("internal"@.len() == 8);
    assert("other"@.len() == 5);
}

/// A readable image gives its own path and no other state gives one.
pub proof fn law_path_is_the_image_s(p: Seq<char>, path: ImagePathView)
    ensures
        ImagePathView::Readable(p).path() == Some(p),
        path.path() == Some(p) <==> path == ImagePathView::Readable(p),
{
}

/// What a signature carries is what it was given: hash and signer where there are any.
pub proof fn law_signature_carries(signer: Seq<char>, named: Option<Seq<char>>, sha256: Seq<char>)
    ensures
        ({
            let s = SignatureView::Valid { signer, sha256 };
            s.signer() == Some(signer) && s.sha256() == Some(sha256)
        }),
        ({
            let s = SignatureView::Invalid { signer: named, sha256 };
            s.signer() == named && s.sha256() == Some(sha256)
        }),
        ({
            let s = SignatureView::Unsigned { sha256 };
            s.signer() is None && s.sha256() == Some(sha256)
        }),
        SignatureView::NotChecked.signer() is None && SignatureView::NotChecked.sha256() is None,
        SignatureView::Unavailable.signer() is None && SignatureView::Unavailable.sha256() is None,
{
}

/// A subject is the process that was found, and nothing is claimed of it that was not looked at; a
/// signature result or a window count changes nothing else.
pub proof fn law_subject_is_what_was_found(
    pid: u32,
    name: Option<Seq<char>>,
    path: ImagePathView,
    sig: SignatureView,
    has_window: bool,
)
    ensures
        ({
            let s = SubjectView::found(pid, name, path);
            &&& s.pid == pid && s.name == name && s.path == path
            &&& path is Readable ==> s.signature is NotChecked
            &&& s.start_ts is None && s.has_window is None && s.parent_pid is None && s.elevated
                is None
            &&& s.signed(sig) == (SubjectView { signature: s.signed(sig).signature, ..s })
            &&& s.windowed(has_window).has_window == Some(has_window)
            &&& s.windowed(has_window) == (SubjectView { has_window: Some(has_window), ..s })
        }),
{
}

/// All that is known of a subject is on the wire, each thing once: what a subject must say is always
/// there, `null` where it is not known, and what it may say is there where it is known.
pub proof fn law_subject_on_the_wire(x: SubjectView)
    ensures
        x.json() == JsonView::Object(x.members()),
        x.members().len() == 7
            + (if x.start_ts is Some { 1int } else { 0int })
            + (if x.has_window is Some { 1int } else { 0int })
            + (if x.parent_pid is Some { 1int } else { 0int })
            + (if x.elevated is Some { 1int } else { 0int }),
        x.members().contains(("pid"@, JsonView::Number(x.pid as int))),
        x.members().contains(("name"@, json::text_or_null(x.name))),
        x.members().contains(("path"@, json::text_or_null(x.path.path()))),
        x.members().contains(("path_state"@, JsonView::Text(x.path.state_name()))),
        x.members().contains(("signature_state"@, JsonView::Text(x.signature.state_name()))),
        x.members().contains(("signer"@, json::text_or_null(x.signature.signer()))),
        x.members().contains(("sha256"@, json::text_or_null(x.signature.sha256()))),
        x.start_ts is Some
            ==> x.members().contains(("start_ts"@, JsonView::Text(x.start_ts.unwrap().text()))),
        x.has_window is Some
            ==> x.members().contains(("has_window"@, JsonView::Bool(x.has_window.unwrap()))),
        x.parent_pid is Some
            ==> x.members().contains(("parent_pid"@, JsonView::Number(x.parent_pid.unwrap() as int))),
        x.elevated is Some
            ==> x.members().contains(("elevated"@, JsonView::Bool(x.elevated.unwrap()))),
{
    let m = x.members();
    let p0: int = 0;
    assert(m[p0] == ("pid"@, JsonView::Number(x.pid as int)));
    let p1 = p0 + 1;
    assert(m[p1] == ("name"@, json::text_or_null(x.name)));
    let p2 = p1 + 1;
    assert(m[p2] == ("path"@, json::text_or_null(x.path.path())));
    let p3 = p2 + 1;
    assert(m[p3] == ("path_state"@, JsonView::Text(x.path.state_name())));
    let p4 = p3 + 1;
    assert(m[p4] == ("signature_state"@, JsonView::Text(x.signature.state_name())));
    let p5 = p4 + 1;
    assert(m[p5] == ("signer"@, json::text_or_null(x.signature.signer())));
    let p6 = p5 + 1;
    assert(m[p6] == ("sha256"@, json::text_or_null(x.signature.sha256())));
    let p7 = p6 + 1;
    if x.start_ts is Some {
        assert(m[p7] == ("start_ts"@, JsonView::Text(x.start_ts.unwrap().text())));
    }
    let p8 = p7 + (if x.start_ts is Some { 1int } else { 0int });
    if x.has_window is Some {
        assert(m[p8] == ("has_window"@, JsonView::Bool(x.has_window.unwrap())));
    }
    let p9 = p8 + (if x.has_window is Some { 1int } else { 0int });
    if x.parent_pid is Some {
        assert(m[p9] == ("parent_pid"@, JsonView::Number(x.parent_pid.unwrap() as int)));
    }
    let p10 = p9 + (if x.parent_pid is Some { 1int } else { 0int });
    if x.elevated is Some {
        assert(m[p10] == ("elevated"@, JsonView::Bool(x.elevated.unwrap())));
    }
}

/// A window shows the title that was read: one that is not empty is carried as it is, an empty one is
/// a fact of its own, and no title is claimed where none could be read.
pub proof fn law_window_shows_its_title(hwnd: isize, title: Option<Seq<char>>, visible: bool)
    ensures
        ({
            let w = WindowRefView::read(hwnd, title, visible);
            &&& w.title_state is Captured <==> (title matches Some(t) && t.len() > 0)
            &&& w.title_state is Captured ==> w.title == title
            &&& w.title_state is Empty <==> (title matches Some(t) && t.len() == 0)
            &&& w.title_state is Unavailable <==> title is None
            &&& !(w.title_state is Captured) ==> w.title is None
            &&& w.visible == Some(visible)
            &&& w.on_screen is None
        }),
{
}

/// A window's identifier is its handle in hexadecimal, behind a fixed mark: different windows have
/// different identifiers.
pub proof fn law_window_id_is_the_handle(a: isize, b: isize, title: Option<Seq<char>>, visible: bool)
    ensures
        WindowRefView::read(a, title, visible).id == Some(window_id(a)),
        "hwnd:0x"@.is_prefix_of(window_id(a)),
        window_id(a).len() >= 15,
        text::value_of(window_id(a).skip(7), 16) == a as usize,
        a as usize != b as usize ==> window_id(a) != window_id(b),
{
    reveal_strlit("hwnd:0x");
    let da = text::padded(text::hexadecimal(a as usize as nat, false), 8);
    let db = text::padded(text::hexadecimal(b as usize as nat, false), 8);
    text::law_hexadecimal_value(a as usize as nat, 8);
    text::law_hexadecimal_value(b as usize as nat, 8);
    text::law_padding(text::hexadecimal(a as usize as nat, false), 8);
    assert(window_id(a).skip(7) =~= da);
    assert(window_id(b).skip(7) =~= db);
    assert(window_id(a).take(7) =~= "hwnd:0x"@);
}

/// All that is known of a window is in its value, each thing once.
pub proof fn law_window_on_the_wire(x: WindowRefView)
    ensures
        x.json() == JsonView::Object(x.members()),
        x.members().len() == 2
            + (if x.id is Some { 1int } else { 0int })
            + (if x.visible is Some { 1int } else { 0int })
            + (if x.on_screen is Some { 1int } else { 0int }),
        x.id is Some ==> x.members().contains(("id"@, JsonView::Text(x.id.unwrap()))),
        x.members().contains(("title"@, json::text_or_null(x.title))),
        x.members().contains(("title_state"@, JsonView::Text(x.title_state.name()))),
        x.visible is Some
            ==> x.members().contains(("visible"@, JsonView::Bool(x.visible.unwrap()))),
        x.on_screen is Some
            ==> x.members().contains(("on_screen"@, JsonView::Bool(x.on_screen.unwrap()))),
{
    let m = x.members();
    let p0: int = 0;
    if x.id is Some {
        assert(m[p0] == ("id"@, JsonView::Text(x.id.unwrap())));
    }
    let p1 = p0 + (if x.id is Some { 1int } else { 0int });
    assert(m[p1] == ("title"@, json::text_or_null(x.title)));
    let p2 = p1 + 1;
    assert(m[p2] == ("title_state"@, JsonView::Text(x.title_state.name())));
    let p3 = p2 + 1;
    if x.visible is Some {
        assert(m[p3] == ("visible"@, JsonView::Bool(x.visible.unwrap())));
    }
    let p4 = p3 + (if x.visible is Some { 1int } else { 0int });
    if x.on_screen is Some {
        assert(m[p4] == ("on_screen"@, JsonView::Bool(x.on_screen.unwrap())));
    }
}

/// A device is known by the identifier that it was given, which holds within a session.
pub proof fn law_device_is_session_scoped(id: Seq<char>, name: Option<Seq<char>>, kind: DeviceKind)
    ensures
        ({
            let d = AudioDeviceView::scoped(id, name, kind);
            &&& d.id == id && d.name == name && d.kind == kind
            &&& d.id_scope == "session"@
            &&& d.is_default is None
        }),
{
}

/// All that is known of a device is in its value, each thing once.
pub proof fn law_device_on_the_wire(x: AudioDeviceView)
    ensures
        x.json() == JsonView::Object(x.members()),
        x.members().len() == 3
            + (if x.name is Some { 1int } else { 0int })
            + (if x.is_default is Some { 1int } else { 0int }),
        x.members().contains(("id"@, JsonView::Text(x.id))),
        x.members().contains(("id_scope"@, JsonView::Text(x.id_scope))),
        x.name is Some ==> x.members().contains(("name"@, JsonView::Text(x.name.unwrap()))),
        x.members().contains(("kind"@, JsonView::Text(x.kind.name()))),
        x.is_default is Some
            ==> x.members().contains(("is_default"@, JsonView::Bool(x.is_default.unwrap()))),
{
    let m = x.members();
    let p0: int = 0;
    assert(m[p0] == ("id"@, JsonView::Text(x.id)));
    let p1 = p0 + 1;
    assert(m[p1] == ("id_scope"@, JsonView::Text(x.id_scope)));
    let p2 = p1 + 1;
    if x.name is Some {
        assert(m[p2] == ("name"@, JsonView::Text(x.name.unwrap())));
    }
    let p3 = p2 + (if x.name is Some { 1int } else { 0int });
    assert(m[p3] == ("kind"@, JsonView::Text(x.kind.name())));
    let p4 = p3 + 1;
    if x.is_default is Some {
        assert(m[p4] == ("is_default"@, JsonView::Bool(x.is_default.unwrap())));
    }
}

/// All of a signal is on the wire, each thing once.
pub proof fn law_signal_on_the_wire(x: SignalView)
    ensures
        x.json() == JsonView::Object(x.members()),
        x.members().len() == 4
            + (if x.subject is Some { 1int } else { 0int })
            + (if x.observation_key is Some { 1int } else { 0int })
            + (if x.first_observed_ts is Some { 1int } else { 0int }),
        x.members().contains(("code"@, JsonView::Text(x.code))),
        x.members().contains(("tier"@, JsonView::Number(x.tier as int))),
        x.members().contains(("scope"@, JsonView::Text(x.scope))),
        x.subject is Some ==> x.members().contains(("subject"@, x.subject.unwrap().json())),
        x.members().contains(("detail"@, x.detail)),
        x.observation_key is Some
            ==> x.members().contains(("observation_key"@, JsonView::Text(x.observation_key.unwrap()))),
        x.first_observed_ts is Some
            ==> x.members().contains(("first_observed_ts"@, JsonView::Text(x.first_observed_ts.unwrap().text()))),
{
    let m = x.members();
    let p0: int = 0;
    assert(m[p0] == ("code"@, JsonView::Text(x.code)));
    let p1 = p0 + 1;
    assert(m[p1] == ("tier"@, JsonView::Number(x.tier as int)));
    let p2 = p1 + 1;
    assert(m[p2] == ("scope"@, JsonView::Text(x.scope)));
    let p3 = p2 + 1;
    if x.subject is Some {
        assert(m[p3] == ("subject"@, x.subject.unwrap().json()));
    }
    let p4 = p3 + (if x.subject is Some { 1int } else { 0int });
    assert(m[p4] == ("detail"@, x.detail));
    let p5 = p4 + 1;
    if x.observation_key is Some {
        assert(m[p5] == ("observation_key"@, JsonView::Text(x.observation_key.unwrap())));
    }
    let p6 = p5 + (if x.observation_key is Some { 1int } else { 0int });
    if x.first_observed_ts is Some {
        assert(m[p6] == ("first_observed_ts"@, JsonView::Text(x.first_observed_ts.unwrap().text())));
    }
}

/// All of a probe error is on the wire, each thing once.
pub proof fn law_probe_error_on_the_wire(x: ProbeErrorView)
    ensures
        x.json() == JsonView::Object(x.members()),
        x.members().len() == 3 + (if x.platform_status is Some { 1int } else { 0int }),
        x.members().contains(("code"@, JsonView::Text(x.code))),
        x.members().contains(("kind"@, JsonView::Text(x.kind.name()))),
        x.platform_status is Some
            ==> x.members().contains(("platform_status"@, JsonView::Text(x.platform_status.unwrap()))),
        x.members().contains(("message"@, json::text_or_null(x.message))),
{
    let m = x.members();
    let p0: int = 0;
    assert(m[p0] == ("code"@, JsonView::Text(x.code)));
    let p1 = p0 + 1;
    assert(m[p1] == ("kind"@, JsonView::Text(x.kind.name())));
    let p2 = p1 + 1;
    if x.platform_status is Some {
        assert(m[p2] == ("platform_status"@, JsonView::Text(x.platform_status.unwrap())));
    }
    let p3 = p2 + (if x.platform_status is Some { 1int } else { 0int });
    assert(m[p3] == ("message"@, json::text_or_null(x.message)));
}

/// A fresh record claims completeness and holds the two durations that it was given; an error keeps
/// all that came before it and adds its code, kind and message; a count changes nothing else.
pub proof fn law_record_keeps_what_it_was_told(
    m: SampleMetaView,
    code: Seq<char>,
    kind: ProbeErrorKind,
    message: Seq<char>,
    key: Seq<char>,
    n: u32,
    ms: u64,
    poll: u32,
)
    ensures
        ({
            let f = SampleMetaView::fresh(ms, poll);
            &&& f.emission is Snapshot && f.complete
            &&& f.scan_duration_ms == Some(ms) && f.poll_interval_ms == Some(poll)
            &&& f.truncated is None && f.unreadable_counts.len() == 0 && f.probe_errors.len() == 0
        }),
        ({
            let f = m.failed(code, kind, message);
            &&& f == (SampleMetaView { complete: false, probe_errors: f.probe_errors, ..m })
            &&& f.probe_errors.len() == m.probe_errors.len() + 1
            &&& f.probe_errors.drop_last() == m.probe_errors
            &&& f.probe_errors.last().code == code
            &&& f.probe_errors.last().kind == kind
            &&& f.probe_errors.last().message == Some(message)
            &&& f.probe_errors.last().platform_status is None
        }),
        ({
            let c = m.counted(key, n);
            &&& c == (SampleMetaView { unreadable_counts: c.unreadable_counts, ..m })
            &&& n == 0 ==> c == m
        }),
        m.honest() <==> (m.complete <==> m.probe_errors.len() == 0),
{
    assert(m.failed(code, kind, message).probe_errors.drop_last() =~= m.probe_errors);
}

/// Counting adds up under its own key and leaves the others alone.
pub proof fn law_counts_add_up(m: SampleMetaView, key: Seq<char>, n: u32, other: Seq<char>)
    requires
        table::ascending(m.unreadable_counts),
        count_at(m.unreadable_counts, key) + n <= u32::MAX,
    ensures
        count_at(m.counted(key, n).unreadable_counts, key) == count_at(m.unreadable_counts, key) + n,
        other != key ==> count_at(m.counted(key, n).unreadable_counts, other) == count_at(
            m.unreadable_counts,
            other,
        ),
        table::ascending(m.counted(key, n).unreadable_counts),
{
    table::law_put_row(
        m.unreadable_counts,
        key,
        (count_at(m.unreadable_counts, key) + n) as u32,
    );
}

/// A count is the number under its key, and zero where there is none.
pub proof fn law_count_is_the_number_under_its_key(rows: Seq<(Seq<char>, u32)>, i: int, key: Seq<char>)
    requires
        table::ascending(rows),
    ensures
        0 <= i < rows.len() ==> count_at(rows, rows[i].0) == rows[i].1,
        (forall|j: int| 0 <= j < rows.len() ==> (#[trigger] rows[j]).0 != key) ==> count_at(rows, key)
            == 0,
{
    table::law_map_of_rows(rows);
}

/// Counts are written one for one, each under its key.
pub proof fn law_counts_on_the_wire(rows: Seq<(Seq<char>, u32)>, i: int)
    requires
        0 <= i < rows.len(),
    ensures
        count_members(rows).len() == rows.len(),
        count_members(rows)[i] == (rows[i].0, JsonView::Number(rows[i].1 as int)),
{
}

/// All of the honesty record is on the wire, each thing once: an error that was recorded and a count
/// that was taken are always there.
pub proof fn law_record_on_the_wire(x: SampleMetaView)
    ensures
        x.json() == JsonView::Object(x.members()),
        x.members().len() == 2
            + (if x.scan_duration_ms is Some { 1int } else { 0int })
            + (if x.poll_interval_ms is Some { 1int } else { 0int })
            + (if x.truncated is Some { 1int } else { 0int })
            + (if x.unreadable_counts.len() > 0 { 1int } else { 0int })
            + (if x.probe_errors.len() > 0 { 1int } else { 0int }),
        x.members().contains(("emission"@, JsonView::Text(x.emission.name()))),
        x.members().contains(("complete"@, JsonView::Bool(x.complete))),
        x.scan_duration_ms is Some
            ==> x.members().contains(("scan_duration_ms"@, JsonView::Number(x.scan_duration_ms.unwrap() as int))),
        x.poll_interval_ms is Some
            ==> x.members().contains(("poll_interval_ms"@, JsonView::Number(x.poll_interval_ms.unwrap() as int))),
        x.truncated is Some
            ==> x.members().contains(("truncated"@, JsonView::Bool(x.truncated.unwrap()))),
        x.unreadable_counts.len() > 0
            ==> x.members().contains(("unreadable_counts"@, JsonView::Object(count_members(x.unreadable_counts)))),
        x.probe_errors.len() > 0
            ==> x.members().contains(("probe_errors"@, JsonView::List(x.probe_errors.map_values(|e: ProbeErrorView| e.json())))),
{
    let m = x.members();
    let p0: int = 0;
    assert(m[p0] == ("emission"@, JsonView::Text(x.emission.name())));
    let p1 = p0 + 1;
    assert(m[p1] == ("complete"@, JsonView::Bool(x.complete)));
    let p2 = p1 + 1;
    if x.scan_duration_ms is Some {
        assert(m[p2] == ("scan_duration_ms"@, JsonView::Number(x.scan_duration_ms.unwrap() as int)));
    }
    let p3 = p2 + (if x.scan_duration_ms is Some { 1int } else { 0int });
    if x.poll_interval_ms is Some {
        assert(m[p3] == ("poll_interval_ms"@, JsonView::Number(x.poll_interval_ms.unwrap() as int)));
    }
    let p4 = p3 + (if x.poll_interval_ms is Some { 1int } else { 0int });
    if x.truncated is Some {
        assert(m[p4] == ("truncated"@, JsonView::Bool(x.truncated.unwrap())));
    }
    let p5 = p4 + (if x.truncated is Some { 1int } else { 0int });
    if x.unreadable_counts.len() > 0 {
        assert(m[p5] == ("unreadable_counts"@, JsonView::Object(count_members(x.unreadable_counts))));
    }
    let p6 = p5 + (if x.unreadable_counts.len() > 0 { 1int } else { 0int });
    if x.probe_errors.len() > 0 {
        assert(m[p6] == ("probe_errors"@, JsonView::List(x.probe_errors.map_values(|e: ProbeErrorView| e.json()))));
    }
}

/// An event of the candidate's says what happened, whether it ends the session and when, and blames
/// nobody else.
pub proof fn law_event_is_the_candidate_s(code: Seq<char>, terminal: bool, at: TimestampView)
    ensures
        ({
            let e = SessionEventView::by_candidate(code, terminal, at);
            &&& e.code == code && e.terminal == terminal && e.occurred_at == at
            &&& e.initiator == "candidate"@
            &&& e.message is None
        }),
{
}

/// All of an event is on the wire, each thing once, and no tier with it.
pub proof fn law_event_on_the_wire(x: SessionEventView)
    ensures
        x.json() == JsonView::Object(x.members()),
        x.members().len() == 4 + (if x.message is Some { 1int } else { 0int }),
        x.members().contains(("code"@, JsonView::Text(x.code))),
        x.members().contains(("initiator"@, JsonView::Text(x.initiator))),
        x.members().contains(("terminal"@, JsonView::Bool(x.terminal))),
        x.members().contains(("occurred_at"@, JsonView::Text(x.occurred_at.text()))),
        x.message is Some
            ==> x.members().contains(("message"@, JsonView::Text(x.message.unwrap()))),
{
    let m = x.members();
    let p0: int = 0;
    assert(m[p0] == ("code"@, JsonView::Text(x.code)));
    let p1 = p0 + 1;
    assert(m[p1] == ("initiator"@, JsonView::Text(x.initiator)));
    let p2 = p1 + 1;
    assert(m[p2] == ("terminal"@, JsonView::Bool(x.terminal)));
    let p3 = p2 + 1;
    assert(m[p3] == ("occurred_at"@, JsonView::Text(x.occurred_at.text())));
    let p4 = p3 + 1;
    if x.message is Some {
        assert(m[p4] == ("message"@, JsonView::Text(x.message.unwrap())));
    }
}

/// An envelope is addressed as it was asked to be: session, collector instance and sequence number
/// are the given ones, and the versions are those of this build.
pub proof fn law_envelope_is_addressed(
    session_id: Seq<u8>,
    instance_id: Seq<u8>,
    seq: u64,
    signals: Seq<SignalView>,
    meta: SampleMetaView,
    event: SessionEventView,
    ts: TimestampView,
)
    ensures
        ({
            let e = EnvelopeView::of_sample(session_id, instance_id, seq, signals, meta, ts);
            &&& e.session_id == session_id && e.collector_instance_id == instance_id
            &&& e.seq == seq && e.ts == ts && e.uptime_ms is None
            &&& e.schema_version == "1.0"@ && e.collector_id == "host-agent/0.1.0"@
        }),
        ({
            let e = EnvelopeView::of_event(session_id, instance_id, seq, event, ts);
            &&& e.session_id == session_id && e.collector_instance_id == instance_id
            &&& e.seq == seq && e.ts == ts && e.uptime_ms is None
            &&& e.schema_version == "1.0"@ && e.collector_id == "host-agent/0.1.0"@
        }),
{
}

/// All of an envelope is on the wire, each thing once: every signal, the record and the event.
pub proof fn law_envelope_on_the_wire(x: EnvelopeView)
    ensures
        x.json() == JsonView::Object(x.members()),
        x.members().len() == 7
            + (if x.uptime_ms is Some { 1int } else { 0int })
            + (if x.signals is Some { 1int } else { 0int })
            + (if x.sample_meta is Some { 1int } else { 0int })
            + (if x.event is Some { 1int } else { 0int }),
        x.members().contains(("schema_version"@, JsonView::Text(x.schema_version))),
        x.members().contains(("type"@, JsonView::Text(x.message_type.name()))),
        x.members().contains(("collector_id"@, JsonView::Text(x.collector_id))),
        x.members().contains(("collector_instance_id"@, JsonView::Text(ident::hyphenated_text(x.collector_instance_id)))),
        x.members().contains(("session_id"@, JsonView::Text(ident::hyphenated_text(x.session_id)))),
        x.members().contains(("seq"@, JsonView::Number(x.seq as int))),
        x.members().contains(("ts"@, JsonView::Text(x.ts.text()))),
        x.uptime_ms is Some
            ==> x.members().contains(("uptime_ms"@, JsonView::Number(x.uptime_ms.unwrap() as int))),
        x.signals is Some
            ==> x.members().contains(("signals"@, JsonView::List(x.signals.unwrap().map_values(|s: SignalView| s.json())))),
        x.sample_meta is Some
            ==> x.members().contains(("sample_meta"@, x.sample_meta.unwrap().json())),
        x.event is Some ==> x.members().contains(("event"@, x.event.unwrap().json())),
{
    let m = x.members();
    let p0: int = 0;
    assert(m[p0] == ("schema_version"@, JsonView::Text(x.schema_version)));
    let p1 = p0 + 1;
    assert(m[p1] == ("type"@, JsonView::Text(x.message_type.name())));
    let p2 = p1 + 1;
    assert(m[p2] == ("collector_id"@, JsonView::Text(x.collector_id)));
    let p3 = p2 + 1;
    assert(m[p3] == ("collector_instance_id"@, JsonView::Text(ident::hyphenated_text(x.collector_instance_id))));
    let p4 = p3 + 1;
    assert(m[p4] == ("session_id"@, JsonView::Text(ident::hyphenated_text(x.session_id))));
    let p5 = p4 + 1;
    assert(m[p5] == ("seq"@, JsonView::Number(x.seq as int)));
    let p6 = p5 + 1;
    assert(m[p6] == ("ts"@, JsonView::Text(x.ts.text())));
    let p7 = p6 + 1;
    if x.uptime_ms is Some {
        assert(m[p7] == ("uptime_ms"@, JsonView::Number(x.uptime_ms.unwrap() as int)));
    }
    let p8 = p7 + (if x.uptime_ms is Some { 1int } else { 0int });
    if x.signals is Some {
        assert(m[p8] == ("signals"@, JsonView::List(x.signals.unwrap().map_values(|s: SignalView| s.json()))));
    }
    let p9 = p8 + (if x.signals is Some { 1int } else { 0int });
    if x.sample_meta is Some {
        assert(m[p9] == ("sample_meta"@, x.sample_meta.unwrap().json()));
    }
    let p10 = p9 + (if x.sample_meta is Some { 1int } else { 0int });
    if x.event is Some {
        assert(m[p10] == ("event"@, x.event.unwrap().json()));
    }
}

/// The form of a signature for people names its kind and shows all that it carries.
pub proof fn law_signature_is_shown_whole(sig: SignatureView)
    ensures
        sig is NotChecked ==> sig.debug() == "NotChecked"@,
        sig is Unavailable ==> sig.debug() == "Unavailable"@,
        sig matches SignatureView::Unsigned { sha256 } ==> sig.debug() == "Unsigned { sha256: "@
            + text::debug_text(sha256) + " }"@,
        sig matches SignatureView::Valid { signer, sha256 } ==> sig.debug() == "Valid { signer: "@
            + text::debug_text(signer) + ", sha256: "@ + text::debug_text(sha256) + " }"@,
        sig matches SignatureView::Invalid { signer: Some(s), sha256 } ==> sig.debug()
            == "Invalid { signer: Some("@ + text::debug_text(s) + "), sha256: "@ + text::debug_text(
            sha256,
        ) + " }"@,
        sig matches SignatureView::Invalid { signer: None, sha256 } ==> sig.debug()
            == "Invalid { signer: None, sha256: "@ + text::debug_text(sha256) + " }"@,
{
}

/// The view of a [`Subject`] shows all of it, and each part as it is.
pub proof fn law_view_of_subject(x: Subject)
    ensures
        x@.pid == x.pid,
        x@.name is Some <==> x.name is Some,
        x.name matches Some(v) ==> x@.name == Some(v@),
        x@.path == x.path@,
        x@.signature == x.signature@,
        x@.start_ts is Some <==> x.start_ts is Some,
        x.start_ts matches Some(v) ==> x@.start_ts == Some(v@),
        x@.has_window == x.has_window,
        x@.parent_pid == x.parent_pid,
        x@.elevated == x.elevated,
{
}

/// The view of a [`WindowRef`] shows all of it, and each part as it is.
pub proof fn law_view_of_window_ref(x: WindowRef)
    ensures
        x@.id is Some <==> x.id is Some,
        x.id matches Some(v) ==> x@.id == Some(v@),
        x@.title is Some <==> x.title is Some,
        x.title matches Some(v) ==> x@.title == Some(v@),
        x@.title_state == x.title_state,
        x@.visible == x.visible,
        x@.on_screen == x.on_screen,
{
}

/// The view of a [`AudioDevice`] shows all of it, and each part as it is.
pub proof fn law_view_of_audio_device(x: AudioDevice)
    ensures
        x@.id == x.id@,
        x@.id_scope == x.id_scope@,
        x@.name is Some <==> x.name is Some,
        x.name matches Some(v) ==> x@.name == Some(v@),
        x@.kind == x.kind,
        x@.is_default == x.is_default,
{
}

/// The view of a [`Signal`] shows all of it, and each part as it is.
pub proof fn law_view_of_signal(x: Signal)
    ensures
        x@.code == x.code@,
        x@.tier == x.tier,
        x@.scope == x.scope@,
        x@.subject is Some <==> x.subject is Some,
        x.subject matches Some(v) ==> x@.subject == Some(v@),
        x@.detail == x.detail@,
        x@.observation_key is Some <==> x.observation_key is Some,
        x.observation_key matches Some(v) ==> x@.observation_key == Some(v@),
        x@.first_observed_ts is Some <==> x.first_observed_ts is Some,
        x.first_observed_ts matches Some(v) ==> x@.first_observed_ts == Some(v@),
{
}

/// The view of a [`ProbeError`] shows all of it, and each part as it is.
pub proof fn law_view_of_probe_error(x: ProbeError)
    ensures
        x@.code == x.code@,
        x@.kind == x.kind,
        x@.platform_status is Some <==> x.platform_status is Some,
        x.platform_status matches Some(v) ==> x@.platform_status == Some(v@),
        x@.message is Some <==> x.message is Some,
        x.message matches Some(v) ==> x@.message == Some(v@),
{
}

/// The view of a [`SampleMeta`] shows all of it, and each part as it is.
pub proof fn law_view_of_sample_meta(x: SampleMeta)
    ensures
        x@.emission == x.emission,
        x@.complete == x.complete,
        x@.scan_duration_ms == x.scan_duration_ms,
        x@.poll_interval_ms == x.poll_interval_ms,
        x@.truncated == x.truncated,
        x@.unreadable_counts == x.unreadable_counts@,
        x@.probe_errors.len() == x.probe_errors@.len(),
        forall|i: int|
            0 <= i < x.probe_errors@.len() ==> #[trigger] x@.probe_errors[i] == x.probe_errors@[i]@,
{
}

/// The view of a [`SessionEvent`] shows all of it, and each part as it is.
pub proof fn law_view_of_session_event(x: SessionEvent)
    ensures
        x@.code == x.code@,
        x@.initiator == x.initiator@,
        x@.terminal == x.terminal,
        x@.occurred_at == x.occurred_at@,
        x@.message is Some <==> x.message is Some,
        x.message matches Some(v) ==> x@.message == Some(v@),
{
}

/// The view of a [`Envelope`] shows all of it, and each part as it is.
pub proof fn law_view_of_envelope(x: Envelope)
    ensures
        x@.schema_version == x.schema_version@,
        x@.message_type == x.message_type,
        x@.collector_id == x.collector_id@,
        x@.collector_instance_id == x.collector_instance_id@,
        x@.session_id == x.session_id@,
        x@.seq == x.seq,
        x@.ts == x.ts@,
        x@.uptime_ms == x.uptime_ms,
        x@.signals is Some <==> x.signals is Some,
        x.signals matches Some(v) ==> x@.signals == Some(v@.map_values(|s: Signal| s@)),
        x@.sample_meta is Some <==> x.sample_meta is Some,
        x.sample_meta matches Some(v) ==> x@.sample_meta == Some(v@),
        x@.event is Some <==> x.event is Some,
        x.event matches Some(v) ==> x@.event == Some(v@),
{
}

/// The view of an [`ImagePath`] tells its states apart and shows its path.
pub proof fn law_view_of_image_path(x: ImagePath)
    ensures
        x@ is Readable <==> x is Readable,
        x@ is AccessDenied <==> x is AccessDenied,
        x@ is NotApplicable <==> x is NotApplicable,
        x@ is Exited <==> x is Exited,
        x@ is Unknown <==> x is Unknown,
        x matches ImagePath::Readable(p) ==> x@ == ImagePathView::Readable(p@),
{
}

/// The view of a [`Signature`] tells its states apart and shows all that it carries.
pub proof fn law_view_of_signature(x: Signature)
    ensures
        x@ is NotChecked <==> x is NotChecked,
        x@ is Unavailable <==> x is Unavailable,
        x matches Signature::Unsigned { sha256 } ==> x@ == (SignatureView::Unsigned {
            sha256: sha256@,
        }),
        x matches Signature::Valid { signer, sha256 } ==> x@ == (SignatureView::Valid {
            signer: signer@,
            sha256: sha256@,
        }),
        x matches Signature::Invalid { signer: Some(s), sha256 } ==> x@ == (SignatureView::Invalid {
            signer: Some(s@),
            sha256: sha256@,
        }),
        x matches Signature::Invalid { signer: None, sha256 } ==> x@ == (SignatureView::Invalid {
            signer: None,
            sha256: sha256@,
        }),
{
}

/// A subject is consistent unless it claims a result for an image that could not be read.
pub proof fn law_when_a_subject_is_consistent(s: SubjectView)
    ensures
        s.consistent() <==> s.path is Readable || s.signature is Unavailable,
{
}

} // verus!
