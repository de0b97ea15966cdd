//! The probe host's protocol: one response for each command.
//!
//! Newline-delimited JSON commands come in, NDJSON responses go out. The probe emits envelope JSON
//! and the supervisor ships it; nothing else crosses.
//!
//! ```text
//! ->  {"id":1,"op":"coverage","session_id":"...","instance_id":"...","seq":1}
//! <-  {"id":1,"ok":true,"message":{...coverage report...}}
//!
//! ->  {"id":2,"op":"scan","session_id":"...","instance_id":"...","seq":2,"poll_interval_ms":1000}
//! <-  {"id":2,"ok":true,"message":{...signal envelope...}}
//!
//! ->  {"id":3,"op":"ping"}
//! <-  {"id":3,"ok":true}
//! ```
//!
//! An unparseable line gets an error response rather than a silent drop, because a supervisor that
//! sees nothing back cannot distinguish a wedged probe from a quiet machine — the same failure this
//! whole product is built to avoid.

use vstd::prelude::*;

use crate::capability;
use crate::capability::Probes;
use crate::coverage::{CapabilityView, CoverageReason, CoverageReportView, Platform, PlatformView};
use crate::detail::{DetailS2, ObservationView};
use crate::envelope::{Envelope, EnvelopeView, Signature};
use crate::ident::Uuid;
use crate::json;
use crate::json::{in_key_order, Json, JsonView, Members};
use crate::scan::{scan, Found, Readings};
use crate::signature;
use crate::signature::SignatureCache;
use crate::table::same_text;
use crate::text;
use crate::time;
use crate::time::TimestampView;

verus! {

pub const DEFAULT_SEQ: u64 = 1;

pub const DEFAULT_POLL_INTERVAL_MS: u32 = 1000;

/// What goes out where a response itself cannot be encoded.
pub const ENCODE_FAILED: &'static str =
    "{\"id\":0,\"ok\":false,\"error\":\"response encode failed\"}";

#[derive(Debug)]
pub struct Command {
    pub id: u64,
    pub op: String,
    pub session_id: Option<Uuid>,
    pub instance_id: Option<Uuid>,
    pub seq: Option<u64>,
    pub poll_interval_ms: Option<u32>,
}

/// What a command asks for, with its defaults filled in.
#[derive(Debug, Clone, Copy)]
pub enum Request {
    Ping,
    Coverage { session_id: Uuid, instance_id: Uuid, seq: u64 },
    Scan { session_id: Uuid, instance_id: Uuid, seq: u64, poll_interval_ms: u32 },
}

/// The session and the collector instance that a probe reports for.
pub open spec fn both(session_id: Option<Uuid>, instance_id: Option<Uuid>) -> Option<(Uuid, Uuid)> {
    match (session_id, instance_id) {
        (Some(s), Some(i)) => Some((s, i)),
        _ => None,
    }
}

impl Command {
    pub open spec fn wanted_seq(self) -> u64 {
        match self.seq {
            Some(n) => n,
            None => DEFAULT_SEQ,
        }
    }

    pub open spec fn wanted_poll_interval(self) -> u32 {
        match self.poll_interval_ms {
            Some(n) => n,
            None => DEFAULT_POLL_INTERVAL_MS,
        }
    }

    /// What the command asks for, or why it is refused.
    pub open spec fn planned(self) -> Result<Request, Seq<char>> {
        if self.op@ == "ping"@ {
            Ok(Request::Ping)
        } else if self.op@ == "coverage"@ {
            match both(self.session_id, self.instance_id) {
                Some((session_id, instance_id)) => Ok(
                    Request::Coverage { session_id, instance_id, seq: self.wanted_seq() },
                ),
                None => Err("session_id and instance_id are required"@),
            }
        } else if self.op@ == "scan"@ {
            match both(self.session_id, self.instance_id) {
                Some((session_id, instance_id)) => Ok(
                    Request::Scan {
                        session_id,
                        instance_id,
                        seq: self.wanted_seq(),
                        poll_interval_ms: self.wanted_poll_interval(),
                    },
                ),
                None => Err("session_id and instance_id are required"@),
            }
        } else {
            Err("unknown op '"@ + self.op@ + "'"@)
        }
    }
}

/// The two identifiers that every probe needs.
pub fn ids(cmd: &Command) -> (r: Result<(Uuid, Uuid), String>)
    ensures
        (match r {
            Ok(pair) => Some(pair),
            Err(_) => None,
        }) == both(cmd.session_id, cmd.instance_id),
        r matches Err(e) ==> e@ == "session_id and instance_id are required"@,
{
    match (cmd.session_id, cmd.instance_id) {
        (Some(s), Some(i)) => Ok((s, i)),
        _ => Err(String::from_str("session_id and instance_id are required")),
    }
}

/// What a command asks for, or why it is refused.
pub fn plan(cmd: &Command) -> (r: Result<Request, String>)
    ensures
        (match r {
            Ok(request) => Ok(request),
            Err(e) => Err(e@),
        }) == cmd.planned(),
{
    let op = cmd.op.as_str();
    if same_text(op, "ping") {
        return Ok(Request::Ping);
    }
    let seq: u64 = match cmd.seq {
        Some(n) => n,
        None => DEFAULT_SEQ,
    };
    if same_text(op, "coverage") {
        return match ids(cmd) {
            Ok((session_id, instance_id)) => Ok(Request::Coverage { session_id, instance_id, seq }),
            Err(e) => Err(e),
        };
    }
    if same_text(op, "scan") {
        let poll_interval_ms: u32 = match cmd.poll_interval_ms {
            Some(n) => n,
            None => DEFAULT_POLL_INTERVAL_MS,
        };
        return match ids(cmd) {
            Ok((session_id, instance_id)) => Ok(
                Request::Scan { session_id, instance_id, seq, poll_interval_ms },
            ),
            Err(e) => Err(e),
        };
    }
    let mut message = String::from_str("unknown op '");
    message.append(op);
    message.append("'");
    Err(message)
}

/// What became of a request.
#[derive(Debug)]
pub enum Outcome {
    Message(Json),
    Failed(String),
    /// A probe panic must not unwind across the process boundary. It becomes an error response, the
    /// supervisor marks the sample incomplete, and the session continues honestly degraded rather
    /// than dying mid-interview.
    Panicked,
}

#[derive(Debug)]
pub struct Response {
    pub id: u64,
    pub ok: bool,
    pub message: Option<Json>,
    pub error: Option<String>,
}

#[verifier::ext_equal]
pub struct ResponseView {
    pub id: u64,
    pub ok: bool,
    pub message: Option<JsonView>,
    pub error: Option<Seq<char>>,
}

impl View for Response {
    type V = ResponseView;

    open spec fn view(&self) -> ResponseView {
        ResponseView {
            id: self.id,
            ok: self.ok,
            message: opt_json(self.message),
            error: text::opt_text(self.error),
        }
    }
}

pub open spec fn opt_json(o: Option<Json>) -> Option<JsonView> {
    match o {
        Some(j) => Some(j@),
        None => None,
    }
}

impl ResponseView {
    pub open spec fn accepted(id: u64, message: Option<JsonView>) -> ResponseView {
        ResponseView { id, ok: true, message, error: None }
    }

    pub open spec fn refused(id: u64, error: Seq<char>) -> ResponseView {
        ResponseView { id, ok: false, message: None, error: Some(error) }
    }

    /// The response that an outcome comes to.
    pub open spec fn answer(id: u64, outcome: Outcome) -> ResponseView {
        match outcome {
            Outcome::Message(message) => ResponseView::accepted(id, Some(message@)),
            Outcome::Failed(error) => ResponseView::refused(id, error@),
            Outcome::Panicked => ResponseView::refused(id, "probe panicked"@),
        }
    }

    /// Success carries no error, and failure carries one and no message.
    pub open spec fn sound(self) -> bool {
        &&& self.ok <==> self.error is None
        &&& self.message is Some ==> self.ok
    }

    /// The members on the wire, in order. A message has its own members in the order of their names.
    pub open spec fn members(self) -> Seq<(Seq<char>, JsonView)> {
        seq![("id"@, JsonView::Number(self.id as int)), ("ok"@, JsonView::Bool(self.ok))]
            + json::member_if(
            "message"@,
            match self.message {
                Some(m) => Some(json::key_ordered(m)),
                None => None,
            },
        ) + json::text_member_if("error"@, self.error)
    }
}

impl Response {
    pub fn ok(id: u64, message: Option<Json>) -> (r: Self)
        ensures
            r@ == ResponseView::accepted(id, opt_json(message)),
    {
        Response { id, ok: true, message, error: None }
    }

    pub fn err(id: u64, error: String) -> (r: Self)
        ensures
            r@ == ResponseView::refused(id, error@),
    {
        Response { id, ok: false, message: None, error: Some(error) }
    }

    /// The value on the wire.
    pub fn into_json(self) -> (r: Json)
        ensures
            r@ == JsonView::Object(self@.members()),
    {
        let ghost members = self@.members();
        let mut m = Members::new();
        m.put("id", Json::Number(self.id));
        m.put("ok", Json::Bool(self.ok));
        match &self.message {
            Some(message) => m.put("message", in_key_order(message)),
            None => (),
        }
        m.put_text_if("error", &self.error);
        assert(m@ =~= members);
        m.finish()
    }
}

/// The response that an outcome comes to.
pub fn respond(id: u64, outcome: Outcome) -> (r: Response)
    ensures
        r@ == ResponseView::answer(id, outcome),
{
    match outcome {
        Outcome::Message(message) => Response::ok(id, Some(message)),
        Outcome::Failed(error) => Response::err(id, error),
        Outcome::Panicked => Response::err(id, String::from_str("probe panicked")),
    }
}

/// The response to a line that is no command. It has no id to carry.
pub fn unparseable(error: &str) -> (r: Response)
    ensures
        r@ == ResponseView::refused(0, "unparseable command: "@ + error@),
{
    let mut message = String::from_str("unparseable command: ");
    message.append(error);
    Response::err(0, message)
}

/// The message that answers a scan: the envelope around what the scan found in some milliseconds.
pub open spec fn sample_json(
    session_id: Seq<u8>,
    instance_id: Seq<u8>,
    seq: u64,
    poll_interval_ms: u32,
    found: Found,
    cache: Map<Seq<char>, (Signature, DetailS2)>,
    ms: u64,
    ts: TimestampView,
) -> JsonView {
    EnvelopeView::of_sample(
        session_id,
        instance_id,
        seq,
        found.observations(cache, session_id).map_values(|o: ObservationView| o.signal()),
        found.meta(poll_interval_ms, ms),
        ts,
    ).json()
}

/// Answer a [`Request::Scan`] from what a walk over the machine gave.
pub fn sample_message<F: Fn(&str) -> (Signature, DetailS2), E: Fn() -> u64>(
    session_id: Uuid,
    instance_id: Uuid,
    seq: u64,
    poll_interval_ms: u32,
    readings: Readings,
    cache: &mut SignatureCache,
    verify: &F,
    elapsed_ms: &E,
) -> (r: Json)
    requires
        readings.countable(),
        forall|p: &str|
            !old(cache)@.dom().contains(p@) && signature::listed_image(readings@.listed(), p@)
                ==> #[trigger] verify.requires((p,)),
        elapsed_ms.requires(()),
    ensures
        exists|ms: u64, ts: TimestampView|
            {
                &&& elapsed_ms.ensures((), ms)
                &&& time::nameable(ts.secs, ts.nanos)
                &&& r@ == #[trigger] sample_json(
                    session_id@,
                    instance_id@,
                    seq,
                    poll_interval_ms,
                    readings@,
                    final(cache)@,
                    ms,
                    ts,
                )
            },
        signature::covers(final(cache)@, readings@.listed()),
        forall|k: Seq<char>| #[trigger]
            old(cache)@.dom().contains(k) ==> final(cache)@.dom().contains(k) && final(cache)@[k]
                == old(cache)@[k],
        forall|k: Seq<char>|
            !old(cache)@.dom().contains(k) && #[trigger] final(cache)@.dom().contains(k)
                ==> signature::given(*verify, k, final(cache)@[k]) && signature::listed_image(
                readings@.listed(),
                k,
            ),
{
    let ghost found = readings@;
    let (signals, meta) = scan(poll_interval_ms, &session_id, readings, cache, verify, elapsed_ms);
    let ghost ms = choose|ms: u64|
        #[trigger] elapsed_ms.ensures((), ms) && meta@ == found.meta(poll_interval_ms, ms);
    let envelope = Envelope::sample(session_id, instance_id, seq, signals, meta);
    let ghost ts = envelope@.ts;
    let r = envelope.into_json();
    assert(r@ == sample_json(
        session_id@,
        instance_id@,
        seq,
        poll_interval_ms,
        found,
        cache@,
        ms,
        ts,
    ));
    r
}

/// The message that answers a request for coverage: the handshake report on some answers.
pub open spec fn coverage_json(
    session_id: Seq<u8>,
    instance_id: Seq<u8>,
    seq: u64,
    platform: PlatformView,
    capabilities: Seq<CapabilityView>,
    ts: TimestampView,
) -> JsonView {
    CoverageReportView::of(
        session_id,
        instance_id,
        seq,
        CoverageReason::Handshake,
        platform,
        capabilities,
        ts,
    ).json()
}

/// Answer a [`Request::Coverage`] from what probing each capability gave.
pub fn coverage_message(
    session_id: Uuid,
    instance_id: Uuid,
    seq: u64,
    platform: Platform,
    probes: &Probes,
) -> (r: Json)
    ensures
        exists|capabilities: Seq<CapabilityView>, ts: TimestampView|
            {
                &&& capability::untimed(capabilities) == probes@.answers()
                &&& forall|i: int|
                    0 <= i < capabilities.len() ==> capability::stamped(#[trigger] capabilities[i])
                &&& time::nameable(ts.secs, ts.nanos)
                &&& r@ == #[trigger] coverage_json(
                    session_id@,
                    instance_id@,
                    seq,
                    platform@,
                    capabilities,
                    ts,
                )
            },
{
    let ghost shown = platform@;
    let report = capability::report(session_id, instance_id, seq, platform, probes);
    let ghost capabilities = choose|capabilities: Seq<CapabilityView>|
        {
            &&& capability::untimed(capabilities) == probes@.answers()
            &&& forall|i: int|
                0 <= i < capabilities.len() ==> capability::stamped(#[trigger] capabilities[i])
            &&& report@ == #[trigger] CoverageReportView::of(
                session_id@,
                instance_id@,
                seq,
                CoverageReason::Handshake,
                shown,
                capabilities,
                report@.ts,
            )
        };
    let r = report.to_json();
    assert(r@ == coverage_json(
        session_id@,
        instance_id@,
        seq,
        shown,
        capabilities,
        report@.ts,
    ));
    r
}

/// Answer a command. A probe is performed only for a command that asks for one and says for whom.
pub fn dispatch<P: Fn(Request) -> Outcome>(cmd: &Command, perform: &P) -> (r: Response)
    requires
        cmd.planned() matches Ok(request) ==> !(request is Ping) ==> perform.requires((request,)),
    ensures
        match cmd.planned() {
            Err(e) => r@ == ResponseView::refused(cmd.id, e),
            Ok(Request::Ping) => r@ == ResponseView::accepted(cmd.id, None),
            Ok(request) => exists|outcome: Outcome| #[trigger]
                perform.ensures((request,), outcome) && r@ == ResponseView::answer(cmd.id, outcome),
        },
{
    match plan(cmd) {
        Err(e) => Response::err(cmd.id, e),
        Ok(Request::Ping) => Response::ok(cmd.id, None),
        Ok(request) => respond(cmd.id, perform(request)),
    }
}

// ---------------------------------------------------------------------------------------------
// Laws
// ---------------------------------------------------------------------------------------------

/// Whatever became of a request, its response carries the command's id, and succeeds exactly when
/// there is a message to carry.
pub proof fn law_answers_are_sound(id: u64, outcome: Outcome)
    ensures
        ResponseView::answer(id, outcome).id == id,
        ResponseView::answer(id, outcome).sound(),
        ResponseView::answer(id, outcome).ok <==> outcome is Message,
{
}

/// A ping needs nothing, a probe needs both identifiers, and nothing else is understood.
pub proof fn law_what_is_understood(cmd: Command)
    ensures
        cmd.planned() is Ok <==> {
            ||| cmd.op@ == "ping"@
            ||| (cmd.op@ == "coverage"@ || cmd.op@ == "scan"@) && cmd.session_id is Some
                && cmd.instance_id is Some
        },
        cmd.planned() == Ok::<Request, Seq<char>>(Request::Ping) <==> cmd.op@ == "ping"@,
{
}

/// What a command asks for is what it says, with its defaults: the identifiers as given, the first
/// number for a sequence that is not given, and a second for an interval that is not.
pub proof fn law_request_is_what_was_asked(cmd: Command)
    ensures
        cmd.planned() matches Ok(Request::Coverage { session_id, instance_id, seq }) ==> {
            &&& cmd.op@ == "coverage"@
            &&& cmd.session_id == Some(session_id) && cmd.instance_id == Some(instance_id)
            &&& cmd.seq == Some(seq) || (cmd.seq is None && seq == 1)
        },
        cmd.planned() matches Ok(Request::Scan { session_id, instance_id, seq, poll_interval_ms })
            ==> {
            &&& cmd.op@ == "scan"@
            &&& cmd.session_id == Some(session_id) && cmd.instance_id == Some(instance_id)
            &&& cmd.seq == Some(seq) || (cmd.seq is None && seq == 1)
            &&& cmd.poll_interval_ms == Some(poll_interval_ms) || (cmd.poll_interval_ms is None
                && poll_interval_ms == 1000)
        },
        cmd.op@ == "coverage"@ && cmd.session_id is Some && cmd.instance_id is Some
            ==> cmd.planned() is Ok && cmd.planned()->Ok_0 is Coverage,
        cmd.op@ == "scan"@ && cmd.session_id is Some && cmd.instance_id is Some ==> cmd.planned()
            is Ok && cmd.planned()->Ok_0 is Scan,
{
    lemma_ops_differ();
}

proof fn lemma_ops_differ()
    ensures
        "ping"@ != "coverage"@ && "ping"@ != "scan"@ && "coverage"@ != "scan"@,
{
    reveal_strlit("ping");
    reveal_strlit("coverage");
    reveal_strlit("scan");
    assert("ping"@.len() == 4 && "coverage"@.len() == 8 && "scan"@.len() == 4);
    assert("ping"@[0] != "scan"@[0]);
}

/// A refusal says what is wrong: which identifiers are missing, or which operation is unknown.
pub proof fn law_refusal_says_why(cmd: Command)
    ensures
        (cmd.op@ == "coverage"@ || cmd.op@ == "scan"@) && (cmd.session_id is None || cmd.instance_id
            is None) ==> cmd.planned() == Err::<Request, Seq<char>>(
            "session_id and instance_id are required"@,
        ),
        cmd.op@ != "ping"@ && cmd.op@ != "coverage"@ && cmd.op@ != "scan"@ ==> cmd.planned() == Err::<
            Request,
            Seq<char>,
        >("unknown op '"@ + cmd.op@ + "'"@),
        both(cmd.session_id, cmd.instance_id) is Some <==> cmd.session_id is Some && cmd.instance_id
            is Some,
        both(cmd.session_id, cmd.instance_id) matches Some(pair) ==> cmd.session_id == Some(pair.0)
            && cmd.instance_id == Some(pair.1),
{
    lemma_ops_differ();
}

/// An answer carries what the request came to: its message whole, or its error.
pub proof fn law_answer_carries_the_outcome(id: u64, outcome: Outcome)
    ensures
        ({
            let r = ResponseView::answer(id, outcome);
            &&& outcome matches Outcome::Message(m) ==> r.ok && r.message == Some(m@) && r.error
                is None
            &&& outcome matches Outcome::Failed(e) ==> !r.ok && r.message is None && r.error == Some(
                e@,
            )
            &&& outcome is Panicked ==> !r.ok && r.message is None && r.error == Some(
                "probe panicked"@,
            )
        }),
{
}

/// A response is made as it was asked to be made.
pub proof fn law_response_is_as_made(id: u64, message: Option<JsonView>, error: Seq<char>)
    ensures
        ({
            let a = ResponseView::accepted(id, message);
            &&& a.id == id && a.ok && a.message == message && a.error is None
        }),
        ({
            let r = ResponseView::refused(id, error);
            &&& r.id == id && !r.ok && r.message is None && r.error == Some(error)
        }),
        ResponseView::accepted(id, message).sound() && ResponseView::refused(id, error).sound(),
{
}

/// All of a response is on the wire, each thing once.
pub proof fn law_response_on_the_wire(x: ResponseView)
    ensures
        x.members().len() == 2
            + (if x.message is Some { 1int } else { 0int })
            + (if x.error is Some { 1int } else { 0int }),
        x.members().contains(("id"@, JsonView::Number(x.id as int))),
        x.members().contains(("ok"@, JsonView::Bool(x.ok))),
        x.message is Some
            ==> x.members().contains(("message"@, json::key_ordered(x.message.unwrap()))),
        x.error is Some ==> x.members().contains(("error"@, JsonView::Text(x.error.unwrap()))),
{
    let m = x.members();
    let p0: int = 0;
    assert(m[p0] == ("id"@, JsonView::Number(x.id as int)));
    let p1 = p0 + 1;
    assert(m[p1] == ("ok"@, JsonView::Bool(x.ok)));
    let p2 = p1 + 1;
    if x.message is Some {
        assert(m[p2] == ("message"@, json::key_ordered(x.message.unwrap())));
    }
    let p3 = p2 + (if x.message is Some { 1int } else { 0int });
    if x.error is Some {
        assert(m[p3] == ("error"@, JsonView::Text(x.error.unwrap())));
    }
}

/// A scan is answered with one envelope: addressed as the request was, with every signal of the scan
/// and with its record.
pub proof fn law_scan_is_answered_in_full(
    session_id: Seq<u8>,
    instance_id: Seq<u8>,
    seq: u64,
    poll_interval_ms: u32,
    found: Found,
    cache: Map<Seq<char>, (Signature, DetailS2)>,
    ms: u64,
    ts: TimestampView,
)
    ensures
        ({
            let signals = found.observations(cache, session_id).map_values(
                |o: ObservationView| o.signal(),
            );
            let meta = found.meta(poll_interval_ms, ms);
            let e = EnvelopeView::of_sample(session_id, instance_id, seq, signals, meta, ts);
            &&& sample_json(
                session_id,
                instance_id,
                seq,
                poll_interval_ms,
                found,
                cache,
                ms,
                ts,
            ) == e.json()
            &&& e.session_id == session_id && e.collector_instance_id == instance_id
            &&& e.seq == seq && e.ts == ts
            &&& e.signals == Some(signals)
            &&& e.sample_meta == Some(meta)
            &&& e.event is None
        }),
{
}

/// A request for coverage is answered with one handshake report: addressed as the request was, on the
/// platform and the answers that were given.
pub proof fn law_coverage_is_answered_in_full(
    session_id: Seq<u8>,
    instance_id: Seq<u8>,
    seq: u64,
    platform: PlatformView,
    capabilities: Seq<CapabilityView>,
    ts: TimestampView,
)
    ensures
        ({
            let r = CoverageReportView::of(
                session_id,
                instance_id,
                seq,
                CoverageReason::Handshake,
                platform,
                capabilities,
                ts,
            );
            &&& coverage_json(session_id, instance_id, seq, platform, capabilities, ts) == r.json()
            &&& r.reason is Handshake
            &&& r.session_id == session_id && r.collector_instance_id == instance_id
            &&& r.seq == seq && r.ts == ts && r.platform == platform
        }),
{
}

/// The view of a [`Response`] shows all of it, and each part as it is.
pub proof fn law_view_of_response(x: Response)
    ensures
        x@.id == x.id,
        x@.ok == x.ok,
        x@.message is Some <==> x.message is Some,
        x.message matches Some(v) ==> x@.message == Some(v@),
        x@.error is Some <==> x.error is Some,
        x.error matches Some(v) ==> x@.error == Some(v@),
{
}

/// A message that is absent is viewed as absent, and one that is there is viewed whole.
pub proof fn law_view_of_a_message(message: Json)
    ensures
        opt_json(Some(message)) == Some(message@),
        opt_json(None) is None,
{
}

/// A response is sound where it has an error exactly when it failed, and no message when it failed.
pub proof fn law_when_a_response_is_sound(r: ResponseView)
    ensures
        r.sound() <==> (if r.ok {
            r.error is None
        } else {
            r.error is Some && r.message is None
        }),
{
}

} // verus!
