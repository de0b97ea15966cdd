//! One full scan: what the probes gave, as signals and a per-sample honesty record.

use vstd::prelude::*;

use crate::affinity;
use crate::affinity::{
    SweepView, WindowObservation, WindowObservationView, WindowReading, WindowReadingView, WindowSweep,
};
use crate::audio;
use crate::audio::{AudioReading, MicHolderView};
use crate::detail;
use crate::detail::{DetailS2, DetailS2View, Observation, ObservationView};
use crate::envelope;
use crate::envelope::{
    ImagePath, ImagePathView, ProbeErrorKind, SampleMeta, SampleMetaView, Signal, SignalView,
    Signature, SignatureView,
};
use crate::foreground;
use crate::foreground::{ForegroundReading, ForegroundView};
use crate::ident::Uuid;
use crate::process;
use crate::process::{ProcessEntry, ProcessInfo, ProcessView};
use crate::signature;
use crate::signature::{verify_images, SignatureCache};
use crate::table;
use crate::text;
use crate::text::push_decimal;

verus! {

/// What one walk over the machine gave, before anything is made of it.
#[derive(Debug)]
pub struct Readings {
    /// The top-level windows, or the Win32 error code of a sweep that failed.
    pub windows: Result<Vec<WindowReading>, u32>,
    /// The process list, or the Win32 error code of a snapshot that failed.
    pub processes: Result<Vec<ProcessEntry>, u32>,
    /// The focused window, if one is.
    pub foreground: Option<ForegroundReading>,
    pub audio: AudioReading,
}

/// What each probe makes of its readings.
pub struct Found {
    pub windows: Result<SweepView, Seq<char>>,
    pub processes: Result<Seq<ProcessView>, Seq<char>>,
    pub foreground: Option<ForegroundView>,
    pub sessions: Result<(Seq<MicHolderView>, u32), Seq<char>>,
}

impl View for Readings {
    type V = Found;

    open spec fn view(&self) -> Found {
        Found {
            windows: match self.windows {
                Ok(w) => Ok(affinity::sweep_of(w@.map_values(|w: WindowReading| w@))),
                Err(code) => Err(affinity::win32_failure_text("EnumWindows"@, code)),
            },
            processes: match self.processes {
                Ok(p) => Ok(p@.map_values(|e: ProcessEntry| e@)),
                Err(code) => Err(affinity::win32_failure_text("CreateToolhelp32Snapshot"@, code)),
            },
            foreground: foreground::opt_foreground(self.foreground),
            sessions: self.audio.enumerated(),
        }
    }
}

impl Readings {
    /// The counts of windows and of endpoints fit where they are kept.
    pub open spec fn countable(self) -> bool {
        &&& self.windows matches Ok(w) ==> w@.len() <= u32::MAX
        &&& self.audio matches AudioReading::Endpoints { capture, render } ==> capture.size()
            + render.size() <= u32::MAX
    }
}

/// The signature check that is remembered for a process's image.
pub open spec fn checked(
    p: ProcessView,
    cache: Map<Seq<char>, (Signature, DetailS2)>,
) -> Option<(SignatureView, DetailS2View)> {
    match p.path {
        ImagePathView::Readable(path) => signature::remembered(cache, path),
        _ => None,
    }
}

/// At most one observation, as a list.
pub open spec fn at_most_one(o: Option<ObservationView>) -> Seq<ObservationView> {
    match o {
        Some(o) => seq![o],
        None => Seq::empty(),
    }
}

/// The observations of one process: that it runs and, where its image was checked, the check.
pub open spec fn process_rows(
    p: ProcessView,
    windows: SweepView,
    cache: Map<Seq<char>, (Signature, DetailS2)>,
) -> Seq<ObservationView> {
    let (s1, s2) = p.observed(windows, checked(p, cache));
    seq![s1] + at_most_one(s2)
}

/// The observations of a process list, in order.
pub open spec fn process_observations(
    processes: Seq<ProcessView>,
    windows: SweepView,
    cache: Map<Seq<char>, (Signature, DetailS2)>,
) -> Seq<ObservationView>
    decreases processes.len(),
{
    if processes.len() == 0 {
        Seq::empty()
    } else {
        process_observations(processes.drop_last(), windows, cache) + process_rows(
            processes.last(),
            windows,
            cache,
        )
    }
}

/// The message for endpoints that refused enumeration.
pub open spec fn endpoints_refused(n: u32) -> Seq<char> {
    text::decimal(n as nat) + " capture endpoint(s) could not be enumerated"@
}

impl Found {
    /// The windows to go by. A sweep that failed leaves none.
    pub open spec fn swept(self) -> SweepView {
        match self.windows {
            Ok(w) => w,
            Err(_) => SweepView::nothing(),
        }
    }

    /// The processes to go by. A snapshot that failed leaves none.
    pub open spec fn listed(self) -> Seq<ProcessView> {
        match self.processes {
            Ok(p) => p,
            Err(_) => Seq::empty(),
        }
    }

    pub open spec fn session_observations(self, session_id: Seq<u8>) -> Seq<ObservationView> {
        match self.sessions {
            Ok(found) => audio::observed_holders(
                found.0,
                self.swept(),
                self.listed(),
                session_id,
            ),
            Err(_) => Seq::empty(),
        }
    }

    /// All observations: processes and their images, windows with a display affinity that is not the
    /// default, the focused window, audio sessions.
    pub open spec fn observations(
        self,
        cache: Map<Seq<char>, (Signature, DetailS2)>,
        session_id: Seq<u8>,
    ) -> Seq<ObservationView> {
        process_observations(self.listed(), self.swept(), cache)
            + self.swept().non_default.map_values(
            |w: WindowObservationView| w.observed(self.listed()),
        ) + at_most_one(foreground::foreground_view(self.foreground, self.listed()))
            + self.session_observations(session_id)
    }

    /// The record before the audio sessions are looked at.
    pub open spec fn meta_of_lists(self, poll_interval_ms: u32) -> SampleMetaView {
        let fresh = SampleMetaView::fresh(0, poll_interval_ms);
        let swept = match self.windows {
            Ok(_) => fresh,
            Err(e) => fresh.failed("S5"@, ProbeErrorKind::ApiFailure, e),
        };
        let listed = match self.processes {
            Ok(_) => swept,
            Err(e) => swept.failed("S1"@, ProbeErrorKind::ApiFailure, e),
        };
        listed.counted("process_paths"@, process::unreadable_paths(self.listed()) as u32)
    }

    /// The honesty record of a scan that took some milliseconds.
    pub open spec fn meta(self, poll_interval_ms: u32, scan_duration_ms: u64) -> SampleMetaView {
        let lists = self.meta_of_lists(poll_interval_ms);
        let all = match self.sessions {
            Ok(found) => if found.1 > 0 {
                lists.failed("S3"@, ProbeErrorKind::ApiFailure, endpoints_refused(found.1)).counted(
                    "audio_endpoints"@,
                    found.1,
                )
            } else {
                lists
            },
            Err(e) => lists.failed("S3"@, ProbeErrorKind::ApiFailure, e),
        };
        SampleMetaView { scan_duration_ms: Some(scan_duration_ms), ..all }
    }

    /// Whether every probe ran, and ran completely.
    pub open spec fn all_ran(self) -> bool {
        &&& self.windows is Ok
        &&& self.processes is Ok
        &&& self.sessions matches Ok(found) && found.1 == 0
    }
}

pub open spec fn observation_views(observations: Seq<Observation>) -> Seq<ObservationView> {
    observations.map_values(|o: Observation| o@)
}

proof fn lemma_pushed(before: Seq<Observation>, o: Observation)
    ensures
        observation_views(before.push(o)) == observation_views(before) + seq![o@],
{
    assert(observation_views(before.push(o)) =~= observation_views(before) + seq![o@]);
}

/// Observe every process of a list.
fn observe_processes(
    processes: &[ProcessInfo],
    windows: &WindowSweep,
    cache: &SignatureCache,
) -> (out: Vec<Observation>)
    ensures
        observation_views(out@) == process_observations(
            process::process_views(processes@),
            windows@,
            cache@,
        ),
{
    let ghost views = process::process_views(processes@);
    let mut out: Vec<Observation> = Vec::new();
    let mut i: usize = 0;
    proof {
        assert(views.take(0) =~= Seq::<ProcessView>::empty());
        assert(observation_views(out@) =~= Seq::<ObservationView>::empty());
    }
    while i < processes.len()
        invariant
            i <= processes@.len(),
            views == process::process_views(processes@),
            observation_views(out@) == process_observations(
                views.take(i as int),
                windows@,
                cache@,
            ),
        decreases processes@.len() - i,
    {
        let p = &processes[i];
        let ghost so_far = observation_views(out@);
        proof {
            let now = views.take(i + 1);
            assert(now.drop_last() =~= views.take(i as int));
            assert(now.last() == p@);
        }
        let found = match &p.path {
            ImagePath::Readable(path) => cache.lookup(path.as_str()),
            _ => None,
        };
        assert(process::opt_check_view(found) == checked(p@, cache@));
        let (s1, s2) = process::observe(p, windows, found);
        proof {
            lemma_pushed(out@, s1);
        }
        out.push(s1);
        match s2 {
            Some(o) => {
                proof {
                    lemma_pushed(out@, o);
                }
                out.push(o);
            },
            None => (),
        }
        assert(observation_views(out@) =~= so_far + process_rows(p@, windows@, cache@));
        i = i + 1;
    }
    assert(views.take(i as int) =~= views);
    out
}

/// Observe every window of a sweep whose display affinity is not the default.
fn observe_windows(
    windows: &[WindowObservation],
    processes: &[ProcessInfo],
    out: &mut Vec<Observation>,
)
    ensures
        observation_views(final(out)@) == observation_views(old(out)@) + windows@.map_values(
            |w: WindowObservation| w@,
        ).map_values(|w: WindowObservationView| w.observed(process::process_views(processes@))),
{
    let ghost start = observation_views(out@);
    let ghost rows = windows@.map_values(|w: WindowObservation| w@).map_values(
        |w: WindowObservationView| w.observed(process::process_views(processes@)),
    );
    let mut i: usize = 0;
    assert(start + rows.take(0) =~= start);
    while i < windows.len()
        invariant
            i <= windows@.len(),
            rows == windows@.map_values(|w: WindowObservation| w@).map_values(
                |w: WindowObservationView| w.observed(process::process_views(processes@)),
            ),
            observation_views(out@) == start + rows.take(i as int),
        decreases windows@.len() - i,
    {
        let o = affinity::observe(&windows[i], processes);
        proof {
            lemma_pushed(out@, o);
            assert(o@ == rows[i as int]);
            assert(start + rows.take(i as int) + seq![o@] =~= start + rows.take(i + 1));
        }
        out.push(o);
        i = i + 1;
    }
    assert(rows.take(i as int) =~= rows);
}

fn into_signals(observations: Vec<Observation>) -> (r: Vec<Signal>)
    ensures
        r@.map_values(|x: Signal| x@) == observation_views(observations@).map_values(
            |o: ObservationView| o.signal(),
        ),
{
    let ghost all = observation_views(observations@).map_values(|o: ObservationView| o.signal());
    let mut out: Vec<Signal> = Vec::new();
    assert(out@.map_values(|x: Signal| x@) =~= all.take(0));
    for o in it: observations
        invariant
            all == observation_views(it.seq()).map_values(|o: ObservationView| o.signal()),
            out@.map_values(|x: Signal| x@) == all.take(it.index() as int),
    {
        let ghost before = out@;
        let ghost view = o@;
        out.push(Signal::from(o));
        proof {
            assert(all[it.index() as int] == view.signal());
            assert(out@.map_values(|x: Signal| x@) =~= before.map_values(|x: Signal| x@).push(
                view.signal(),
            ));
            assert(all.take(it.index() + 1) =~= all.take(it.index() as int).push(
                all[it.index() as int],
            ));
        }
    }
    assert(all.take(all.len() as int) =~= all);
    out
}

proof fn lemma_room_for_endpoints(found: Found, poll_interval_ms: u32)
    ensures
        envelope::count_at(
            found.meta_of_lists(poll_interval_ms).unreadable_counts,
            "audio_endpoints"@,
        ) == 0,
        envelope::count_at(
            found.meta_of_lists(poll_interval_ms).unreadable_counts,
            "process_paths"@,
        ) == process::unreadable_paths(found.listed()) as u32,
{
    reveal_strlit("audio_endpoints");
    reveal_strlit("process_paths");
    assert("audio_endpoints"@[0] != "process_paths"@[0]);
    let n = process::unreadable_paths(found.listed()) as u32;
    let none = Seq::<(Seq<char>, u32)>::empty();
    assert(table::dict(none) =~= Map::<Seq<char>, u32>::empty());
    table::law_put_row(none, "process_paths"@, n);
}

/// One full scan. Returns the observations plus the per-sample honesty record.
///
/// The window sweep runs once and feeds both S5 and the pid→has-window set, which is what turns
/// "this process holds the microphone" into "this process holds the microphone **and shows no
/// UI**" — the audio-assistant signature.
///
/// `verify` is run on the listed images that `cache` does not remember, and on nothing else.
/// `elapsed_ms` tells how long the scan took so far.
pub fn scan<F: Fn(&str) -> (Signature, DetailS2), E: Fn() -> u64>(
    poll_interval_ms: u32,
    session_id: &Uuid,
    readings: Readings,
    cache: &mut SignatureCache,
    verify: &F,
    elapsed_ms: &E,
) -> (r: (Vec<Signal>, SampleMeta))
    requires
        readings.countable(),
        forall|p: &str|
            !old(cache)@.dom().contains(p@) && signature::listed_image(readings@.listed(), p@)
                ==> #[trigger] verify.requires((p,)),
        elapsed_ms.requires(()),
    ensures
        r.0@.map_values(|x: Signal| x@) == readings@.observations(
            final(cache)@,
            session_id@,
        ).map_values(|o: ObservationView| o.signal()),
        exists|ms: u64|
            #[trigger] elapsed_ms.ensures((), ms) && r.1@ == readings@.meta(poll_interval_ms, ms),
        signature::covers(final(cache)@, readings@.listed()),
        forall|k: Seq<char>| #[trigger]
            old(cache)@.dom().contains(k) ==> final(cache)@.dom().contains(k) && final(cache)@[k]
                == old(cache)@[k],
        forall|k: Seq<char>|
            !old(cache)@.dom().contains(k) && #[trigger] final(cache)@.dom().contains(k)
                ==> signature::given(*verify, k, final(cache)@[k]) && signature::listed_image(
                readings@.listed(),
                k,
            ),
{
    let ghost found = readings@;
    let mut meta = SampleMeta::snapshot(0, poll_interval_ms);

    let windows = match affinity::sweep(readings.windows) {
        Ok(w) => w,
        Err(e) => {
            // A failed window sweep is not an empty desktop. Mark the sample incomplete so it can
            // never be read as "clean".
            meta.record_error("S5", ProbeErrorKind::ApiFailure, e);
            WindowSweep::default()
        },
    };
    assert(windows@ == found.swept());

    let processes: Vec<ProcessInfo> = match process::snapshot(&readings.processes) {
        Ok(p) => p,
        Err(e) => {
            meta.record_error("S1", ProbeErrorKind::ApiFailure, e);
            Vec::new()
        },
    };
    assert(process::process_views(processes@) =~= found.listed());

    let listed = processes.as_slice();
    let unreadable: usize = process::count_unreadable_paths(listed);
    proof {
        assert(table::dict(meta@.unreadable_counts) =~= Map::<Seq<char>, u32>::empty());
    }
    meta.count_unreadable("process_paths", unreadable as u32);
    assert(meta@ == found.meta_of_lists(poll_interval_ms));

    verify_images(listed, cache, verify);
    let mut observations = observe_processes(listed, &windows, cache);
    observe_windows(windows.non_default.as_slice(), listed, &mut observations);
    let ghost of_lists = observation_views(observations@);

    match foreground::probe(readings.foreground, listed) {
        Some(fg) => {
            proof {
                lemma_pushed(observations@, fg);
            }
            observations.push(fg);
        },
        None => (),
    }
    let ghost focused = foreground::foreground_view(found.foreground, found.listed());
    assert(observation_views(observations@) =~= of_lists + at_most_one(focused));

    let enumerated = audio::enumerate(&readings.audio);
    let ghost before = observations@;
    match audio::probe(&windows, listed, session_id, enumerated) {
        Ok((holders, failed_devices)) => {
            let mut holders = holders;
            let ghost rows = holders@;
            observations.append(&mut holders);
            assert(observation_views(observations@) =~= observation_views(before)
                + observation_views(rows));
            if failed_devices > 0 {
                // Some capture endpoints refused enumeration. The sample is not clean — it is
                // partial, and a partial S3 must never read as "nothing is listening".
                let mut message = String::new();
                push_decimal(&mut message, failed_devices as u64);
                message.append(" capture endpoint(s) could not be enumerated");
                assert(message@ =~= endpoints_refused(failed_devices));
                meta.record_error("S3", ProbeErrorKind::ApiFailure, message);
                proof {
                    lemma_room_for_endpoints(found, poll_interval_ms);
                }
                meta.count_unreadable("audio_endpoints", failed_devices);
            }
        },
        Err(e) => {
            assert(observation_views(before) =~= observation_views(before) + Seq::<
                ObservationView,
            >::empty());
            meta.record_error("S3", ProbeErrorKind::ApiFailure, e);
        },
    }
    assert(observation_views(observations@) == found.observations(cache@, session_id@));

    meta.scan_duration_ms = Some(elapsed_ms());
    (into_signals(observations), meta)
}

// ---------------------------------------------------------------------------------------------
// Laws
// ---------------------------------------------------------------------------------------------

/// A sample presents as complete exactly when every probe ran and ran completely, and each probe
/// that did not is in the record: a failed scan never reads as a clean machine.
pub proof fn law_complete_iff_all_ran(found: Found, poll_interval_ms: u32, ms: u64)
    ensures
        found.meta(poll_interval_ms, ms).complete <==> found.all_ran(),
        found.meta(poll_interval_ms, ms).honest(),
        found.meta(poll_interval_ms, ms).probe_errors.len() == (if found.windows is Ok {
            0int
        } else {
            1
        }) + (if found.processes is Ok {
            0int
        } else {
            1
        }) + (if found.sessions matches Ok(f) && f.1 == 0 {
            0int
        } else {
            1
        }),
{
}

/// What could not be read is counted: the images that could not be and the endpoints that refused.
pub proof fn law_unreadable_is_counted(found: Found, poll_interval_ms: u32, ms: u64)
    ensures
        envelope::count_at(
            found.meta(poll_interval_ms, ms).unreadable_counts,
            "process_paths"@,
        ) == process::unreadable_paths(found.listed()) as u32,
        envelope::count_at(
            found.meta(poll_interval_ms, ms).unreadable_counts,
            "audio_endpoints"@,
        ) == (match found.sessions {
            Ok(f) => f.1,
            Err(_) => 0,
        }),
{
    lemma_room_for_endpoints(found, poll_interval_ms);
    reveal_strlit("audio_endpoints");
    reveal_strlit("process_paths");
    assert("audio_endpoints"@[0] != "process_paths"@[0]);
    let rows = found.meta_of_lists(poll_interval_ms).unreadable_counts;
    lemma_counts_ascend(found, poll_interval_ms);
    match found.sessions {
        Ok(f) => {
            if f.1 > 0 {
                table::law_put_row(rows, "audio_endpoints"@, f.1);
            }
        },
        Err(_) => (),
    }
}

proof fn lemma_counts_ascend(found: Found, poll_interval_ms: u32)
    ensures
        table::ascending(found.meta_of_lists(poll_interval_ms).unreadable_counts),
{
    table::law_put_row(
        Seq::<(Seq<char>, u32)>::empty(),
        "process_paths"@,
        process::unreadable_paths(found.listed()) as u32,
    );
}

proof fn lemma_process_rows_hold(
    processes: Seq<ProcessView>,
    windows: SweepView,
    cache: Map<Seq<char>, (Signature, DetailS2)>,
    i: int,
)
    requires
        0 <= i < processes.len(),
    ensures
        forall|o: ObservationView|
            process_rows(processes[i], windows, cache).contains(o) ==> #[trigger] process_observations(
                processes,
                windows,
                cache,
            ).contains(o),
    decreases processes.len(),
{
    let front = process_observations(processes.drop_last(), windows, cache);
    let last = process_rows(processes.last(), windows, cache);
    if i < processes.len() - 1 {
        lemma_process_rows_hold(processes.drop_last(), windows, cache, i);
    }
    assert forall|o: ObservationView|
        process_rows(processes[i], windows, cache).contains(o) implies #[trigger] process_observations(
        processes,
        windows,
        cache,
    ).contains(o) by {
        if i < processes.len() - 1 {
            assert(front.contains(o));
            let k = choose|k: int| 0 <= k < front.len() && front[k] == o;
            assert((front + last)[k] == o);
        } else {
            let k = choose|k: int| 0 <= k < last.len() && last[k] == o;
            assert((front + last)[front.len() + k] == o);
        }
    }
}

/// Every process that was listed is reported as running and, where its image is readable and its
/// check is remembered, with that check: no process is silently absent.
pub proof fn law_every_process_is_reported(
    found: Found,
    cache: Map<Seq<char>, (Signature, DetailS2)>,
    session_id: Seq<u8>,
    i: int,
)
    requires
        0 <= i < found.listed().len(),
    ensures
        ({
            let p = found.listed()[i];
            let (s1, s2) = p.observed(found.swept(), checked(p, cache));
            &&& found.observations(cache, session_id).contains(s1)
            &&& s2 matches Some(o) ==> found.observations(cache, session_id).contains(o)
            &&& p.path is Readable && signature::covers(cache, found.listed()) ==> s2 is Some
        }),
{
    let p = found.listed()[i];
    let (s1, s2) = p.observed(found.swept(), checked(p, cache));
    let of_processes = process_observations(found.listed(), found.swept(), cache);
    let all = found.observations(cache, session_id);
    lemma_process_rows_hold(found.listed(), found.swept(), cache, i);
    let rows = process_rows(p, found.swept(), cache);
    assert(rows[0] == s1);
    assert(rows.contains(s1));
    assert forall|o: ObservationView| of_processes.contains(o) implies all.contains(o) by {
        let k = choose|k: int| 0 <= k < of_processes.len() && of_processes[k] == o;
        assert(all[k] == o);
    }
    assert(of_processes.contains(s1));
    match s2 {
        Some(o) => {
            assert(rows[1] == o);
            assert(rows.contains(o));
            assert(of_processes.contains(o));
        },
        None => (),
    }
}

proof fn lemma_processes_consistent(
    processes: Seq<ProcessView>,
    windows: SweepView,
    cache: Map<Seq<char>, (Signature, DetailS2)>,
)
    ensures
        forall|i: int|
            0 <= i < process_observations(processes, windows, cache).len() ==> (
            #[trigger] process_observations(processes, windows, cache)[i]).subject().consistent(),
    decreases processes.len(),
{
    if processes.len() > 0 {
        lemma_processes_consistent(processes.drop_last(), windows, cache);
        let front = process_observations(processes.drop_last(), windows, cache);
        let last = process_rows(processes.last(), windows, cache);
        assert forall|i: int| 0 <= i < (front + last).len() implies (#[trigger] (front
            + last)[i]).subject().consistent() by {
            if i < front.len() {
                assert((front + last)[i] == front[i]);
            } else {
                assert((front + last)[i] == last[i - front.len()]);
            }
        }
    }
}

/// No signal of a scan carries a hash or a signer for an image that could not be read, and none is
/// of tier 1.
pub proof fn law_signals_claim_no_more(
    found: Found,
    cache: Map<Seq<char>, (Signature, DetailS2)>,
    session_id: Seq<u8>,
    i: int,
)
    requires
        0 <= i < found.observations(cache, session_id).len(),
    ensures
        found.observations(cache, session_id)[i].subject().consistent(),
        found.observations(cache, session_id)[i].signal().tier == 2 || found.observations(
            cache,
            session_id,
        )[i].signal().tier == 3,
{
    let of_processes = process_observations(found.listed(), found.swept(), cache);
    let of_windows = found.swept().non_default.map_values(
        |w: WindowObservationView| w.observed(found.listed()),
    );
    let focused = at_most_one(foreground::foreground_view(found.foreground, found.listed()));
    let of_sessions = found.session_observations(session_id);
    let all = found.observations(cache, session_id);
    lemma_processes_consistent(found.listed(), found.swept(), cache);
    let a = of_processes.len() as int;
    let b = a + of_windows.len();
    let c = b + focused.len();
    if i < a {
        assert(all[i] == of_processes[i]);
    } else if i < b {
        assert(all[i] == of_windows[i - a]);
    } else if i < c {
        assert(all[i] == focused[i - b]);
    } else {
        assert(all[i] == of_sessions[i - c]);
    }
}

/// What the probes go by is what was read: every window of a sweep and every entry of a process list,
/// in order, and none where the sweep or the snapshot failed.
pub proof fn law_probes_go_by_the_readings(readings: Readings)
    ensures
        readings.processes matches Ok(p) ==> readings@.listed() == p@.map_values(
            |e: ProcessEntry| e@,
        ),
        readings.processes is Err ==> readings@.listed().len() == 0,
        readings.windows matches Ok(w) ==> readings@.swept() == affinity::sweep_of(
            w@.map_values(|w: WindowReading| w@),
        ),
        readings.windows is Err ==> readings@.swept() == SweepView::nothing(),
        readings@.sessions == readings.audio.enumerated(),
        readings@.foreground is Some <==> readings.foreground is Some,
        readings.foreground matches Some(f) ==> readings@.foreground == Some(f@),
{
}

/// The signals of a code are as many as there is to report under it, told of the readings alone: one
/// for each listed process, one for each image whose check is remembered, one for each window whose
/// affinity was read and is not zero, one for the focused window, and one for each row of the audio
/// sessions. There are no others.
#[verifier::spinoff_prover]
pub proof fn law_as_many_signals_as_readings(
    readings: Readings,
    cache: Map<Seq<char>, (Signature, DetailS2)>,
    session_id: Seq<u8>,
    code: Seq<char>,
)
    ensures
        readings@.observations(cache, session_id).map_values(
            |o: ObservationView| o.signal(),
        ).filter(|s: SignalView| s.code == code).len() == (if code == "S1"@ {
            match readings.processes {
                Ok(p) => p@.len(),
                Err(_) => 0,
            }
        } else if code == "S2"@ {
            readings@.listed().filter(
                |p: ProcessView|
                    p.path matches ImagePathView::Readable(path) && cache.dom().contains(path),
            ).len()
        } else if code == "S5"@ {
            match readings.windows {
                Ok(w) => w@.filter(
                    |w: WindowReading| w.affinity matches Some(a) && a != 0,
                ).len(),
                Err(_) => 0,
            }
        } else if code == "S6"@ {
            if readings.foreground is Some {
                1
            } else {
                0
            }
        } else if code == "S3"@ {
            match readings.audio.enumerated() {
                Ok(found) => found.0.len(),
                Err(_) => 0,
            }
        } else {
            0
        }),
{
    let found = readings@;
    let of_processes = process_observations(found.listed(), found.swept(), cache);
    let of_windows = found.swept().non_default.map_values(
        |w: WindowObservationView| w.observed(found.listed()),
    );
    let focused = at_most_one(foreground::foreground_view(found.foreground, found.listed()));
    let of_sessions = found.session_observations(session_id);
    lemma_coded_pieces(of_processes, of_windows, code);
    lemma_coded_pieces(of_processes + of_windows, focused, code);
    lemma_coded_pieces(of_processes + of_windows + focused, of_sessions, code);
    lemma_codes_differ();
    lemma_coded_processes(found.listed(), found.swept(), cache, code);
    lemma_coded_alike(of_windows, "S5"@, code);
    lemma_coded_alike(focused, "S6"@, code);
    lemma_coded_alike(of_sessions, "S3"@, code);
    match readings.windows {
        Ok(w) => {
            let views = w@.map_values(|w: WindowReading| w@);
            affinity::law_every_hidden_window_is_listed(views);
            lemma_hidden_among_views(w@);
        },
        Err(_) => (),
    }
}

/// How many of some observations make a signal with a code.
spec fn coded(observations: Seq<ObservationView>, code: Seq<char>) -> nat {
    observations.map_values(|o: ObservationView| o.signal()).filter(
        |s: SignalView| s.code == code,
    ).len()
}

proof fn lemma_codes_differ()
    ensures
        "S1"@ != "S2"@ && "S1"@ != "S3"@ && "S1"@ != "S5"@ && "S1"@ != "S6"@,
        "S2"@ != "S3"@ && "S2"@ != "S5"@ && "S2"@ != "S6"@,
        "S3"@ != "S5"@ && "S3"@ != "S6"@ && "S5"@ != "S6"@,
{
    reveal_strlit("S1");
    reveal_strlit("S2");
    reveal_strlit("S3");
    reveal_strlit("S5");
    reveal_strlit("S6");
    assert("S1"@[1] != "S2"@[1] && "S1"@[1] != "S3"@[1] && "S1"@[1] != "S5"@[1] && "S1"@[1]
        != "S6"@[1]);
    assert("S2"@[1] != "S3"@[1] && "S2"@[1] != "S5"@[1] && "S2"@[1] != "S6"@[1]);
    assert("S3"@[1] != "S5"@[1] && "S3"@[1] != "S6"@[1] && "S5"@[1] != "S6"@[1]);
}

proof fn lemma_coded_pieces(a: Seq<ObservationView>, b: Seq<ObservationView>, code: Seq<char>)
    ensures
        coded(a + b, code) == coded(a, code) + coded(b, code),
{
    let sa = a.map_values(|o: ObservationView| o.signal());
    let sb = b.map_values(|o: ObservationView| o.signal());
    assert((a + b).map_values(|o: ObservationView| o.signal()) =~= sa + sb);
    Seq::filter_distributes_over_add(sa, sb, |s: SignalView| s.code == code);
}

proof fn lemma_coded_alike(observations: Seq<ObservationView>, own: Seq<char>, code: Seq<char>)
    requires
        forall|i: int|
            0 <= i < observations.len() ==> (#[trigger] observations[i]).signal().code == own,
    ensures
        coded(observations, code) == (if own == code {
            observations.len()
        } else {
            0
        }),
    decreases observations.len(),
{
    reveal(Seq::filter);
    if observations.len() > 0 {
        let front = observations.drop_last();
        lemma_coded_alike(front, own, code);
        let signals = observations.map_values(|o: ObservationView| o.signal());
        assert(signals.drop_last() =~= front.map_values(|o: ObservationView| o.signal()));
        assert(signals.last() == observations[observations.len() - 1].signal());
    }
}

proof fn lemma_coded_processes(
    processes: Seq<ProcessView>,
    windows: SweepView,
    cache: Map<Seq<char>, (Signature, DetailS2)>,
    code: Seq<char>,
)
    ensures
        coded(process_observations(processes, windows, cache), code) == (if code == "S1"@ {
            processes.len()
        } else if code == "S2"@ {
            processes.filter(
                |p: ProcessView|
                    p.path matches ImagePathView::Readable(path) && cache.dom().contains(path),
            ).len()
        } else {
            0
        }),
    decreases processes.len(),
{
    lemma_codes_differ();
    reveal(Seq::filter);
    if processes.len() == 0 {
        lemma_coded_alike(process_observations(processes, windows, cache), "S1"@, code);
    } else {
        let p = processes.last();
        let (s1, s2) = p.observed(windows, checked(p, cache));
        lemma_coded_processes(processes.drop_last(), windows, cache, code);
        lemma_coded_pieces(
            process_observations(processes.drop_last(), windows, cache),
            process_rows(p, windows, cache),
            code,
        );
        lemma_coded_pieces(seq![s1], at_most_one(s2), code);
        lemma_coded_alike(seq![s1], "S1"@, code);
        lemma_coded_alike(at_most_one(s2), "S2"@, code);
    }
}

proof fn lemma_hidden_among_views(windows: Seq<WindowReading>)
    ensures
        windows.map_values(|w: WindowReading| w@).filter(
            |w: WindowReadingView| w.affinity matches Some(a) && a != 0,
        ).len() == windows.filter(
            |w: WindowReading| w.affinity matches Some(a) && a != 0,
        ).len(),
    decreases windows.len(),
{
    reveal(Seq::filter);
    if windows.len() > 0 {
        let front = windows.drop_last();
        lemma_hidden_among_views(front);
        let views = windows.map_values(|w: WindowReading| w@);
        assert(views.drop_last() =~= front.map_values(|w: WindowReading| w@));
        assert(views.last() == windows.last()@);
    }
}

/// Where in a scan's observations those on windows, on the focus and on sessions stand.
proof fn lemma_where_observations_stand(
    found: Found,
    cache: Map<Seq<char>, (Signature, DetailS2)>,
    session_id: Seq<u8>,
)
    ensures
        ({
            let all = found.observations(cache, session_id);
            let windows = found.swept().non_default;
            let focused = foreground::foreground_view(found.foreground, found.listed());
            let sessions = found.session_observations(session_id);
            let a = process_observations(found.listed(), found.swept(), cache).len();
            let b = a + windows.len();
            let c = b + (if focused is Some {
                1nat
            } else {
                0
            });
            &&& all.len() == c + sessions.len()
            &&& forall|j: int|
                #![trigger windows[j]]
                0 <= j < windows.len() ==> all[a + j] == windows[j].observed(found.listed())
            &&& focused matches Some(o) ==> all[b as int] == o
            &&& forall|j: int|
                #![trigger sessions[j]]
                0 <= j < sessions.len() ==> all[c + j] == sessions[j]
        }),
{
    let of_processes = process_observations(found.listed(), found.swept(), cache);
    let of_windows = found.swept().non_default.map_values(
        |w: WindowObservationView| w.observed(found.listed()),
    );
    let focused = at_most_one(foreground::foreground_view(found.foreground, found.listed()));
    let sessions = found.session_observations(session_id);
    assert(found.observations(cache, session_id) == of_processes + of_windows + focused + sessions);
}

/// No window that hides goes unreported: for every window whose affinity was read and is not zero
/// there is an S5 signal on its owner with its handle, its affinity and its title.
#[verifier::spinoff_prover]
pub proof fn law_hidden_window_is_reported(
    readings: Readings,
    cache: Map<Seq<char>, (Signature, DetailS2)>,
    session_id: Seq<u8>,
    windows: Vec<WindowReading>,
    i: int,
)
    requires
        readings.windows == Ok::<Vec<WindowReading>, u32>(windows),
        0 <= i < windows@.len(),
        windows@[i].affinity is Some && windows@[i].affinity != Some(0u32),
    ensures
        ({
            let all = readings@.observations(cache, session_id);
            let w = windows@[i];
            exists|k: int|
                #![trigger all[k]]
                0 <= k < all.len() && {
                    &&& all[k] matches ObservationView::CaptureExcluded { subject, detail }
                    &&& all[k].signal().code == "S5"@
                    &&& subject.pid == w.pid
                    &&& detail.affinity_raw == w.affinity
                    &&& detail.capture_excluded <==> w.affinity == Some(0x11u32)
                    &&& detail.window matches Some(shown)
                    &&& shown.id == Some(envelope::window_id(w.hwnd))
                    &&& shown.visible == Some(w.visible)
                    &&& (w.title matches Some(t) && t@.len() > 0) ==> shown.title == Some(
                        w.title.unwrap()@,
                    )
                }
        }),
{
    let found = readings@;
    let all = found.observations(cache, session_id);
    let w = windows@[i];
    let views = windows@.map_values(|w: WindowReading| w@);
    affinity::law_every_hidden_window_is_listed(views);
    assert(views[i] == w@);
    let o = WindowObservationView {
        hwnd: w.hwnd,
        pid: w.pid,
        affinity: w.affinity.unwrap(),
        title: text::opt_text(w.title),
        visible: w.visible,
    };
    let listed = found.swept().non_default;
    assert(listed.contains(o));
    let j = choose|j: int| 0 <= j < listed.len() && listed[j] == o;
    let before = process_observations(found.listed(), found.swept(), cache).len();
    lemma_where_observations_stand(found, cache, session_id);
    affinity::law_window_is_reported_as_it_was(o, found.listed());
    let k = before + j;
    assert(0 <= k < all.len());
    assert(all[k] == o.observed(found.listed()));
    detail::law_code_and_scope(all[k]);
}

/// No process goes unreported: for every entry of the process list there is an S1 signal on its pid,
/// with its name, its image and its parent, and how many windows it owns.
#[verifier::spinoff_prover]
pub proof fn law_listed_process_is_reported(
    readings: Readings,
    cache: Map<Seq<char>, (Signature, DetailS2)>,
    session_id: Seq<u8>,
    entries: Vec<ProcessEntry>,
    i: int,
)
    requires
        readings.processes == Ok::<Vec<ProcessEntry>, u32>(entries),
        0 <= i < entries@.len(),
    ensures
        ({
            let all = readings@.observations(cache, session_id);
            let e = entries@[i];
            exists|k: int|
                #![trigger all[k]]
                0 <= k < all.len() && {
                    &&& all[k] matches ObservationView::Process { subject, detail }
                    &&& all[k].signal().code == "S1"@
                    &&& subject.pid == e.pid
                    &&& subject.parent_pid == Some(e.parent_pid)
                    &&& subject.name == e@.name
                    &&& subject.path == process::resolved_path(e.pid, e.path)
                    &&& detail.window_count == readings@.swept().count(e.pid)
                }
        }),
{
    let all = readings@.observations(cache, session_id);
    law_every_process_is_reported(readings@, cache, session_id, i);
    let p = readings@.listed()[i];
    let s1 = p.observed(readings@.swept(), checked(p, cache)).0;
    assert(p == entries@[i]@);
    let k = choose|k: int| 0 <= k < all.len() && all[k] == s1;
    assert(all[k] == s1);
}

/// No check is lost: for every listed image that can be read and whose check is remembered there is an
/// S2 signal on its process with that check's signature and detail.
#[verifier::spinoff_prover]
pub proof fn law_checked_image_is_reported(
    readings: Readings,
    cache: Map<Seq<char>, (Signature, DetailS2)>,
    session_id: Seq<u8>,
    path: Seq<char>,
    i: int,
)
    requires
        0 <= i < readings@.listed().len(),
        readings@.listed()[i].path == ImagePathView::Readable(path),
        cache.dom().contains(path),
    ensures
        ({
            let all = readings@.observations(cache, session_id);
            exists|k: int|
                #![trigger all[k]]
                0 <= k < all.len() && {
                    &&& all[k] matches ObservationView::Signature { subject, detail }
                    &&& all[k].signal().code == "S2"@
                    &&& subject.pid == readings@.listed()[i].pid
                    &&& subject.signature == cache[path].0@
                    &&& detail == cache[path].1@
                }
        }),
{
    let all = readings@.observations(cache, session_id);
    law_every_process_is_reported(readings@, cache, session_id, i);
    let p = readings@.listed()[i];
    let s2 = p.observed(readings@.swept(), checked(p, cache)).1.unwrap();
    let k = choose|k: int| 0 <= k < all.len() && all[k] == s2;
    assert(all[k] == s2);
}

/// The focused window is reported, with its title where it has one.
#[verifier::spinoff_prover]
pub proof fn law_focus_is_reported(
    readings: Readings,
    cache: Map<Seq<char>, (Signature, DetailS2)>,
    session_id: Seq<u8>,
    focused: ForegroundReading,
)
    requires
        readings.foreground == Some(focused),
    ensures
        ({
            let all = readings@.observations(cache, session_id);
            exists|k: int|
                #![trigger all[k]]
                0 <= k < all.len() && {
                    &&& all[k] matches ObservationView::Foreground { subject, detail }
                    &&& all[k].signal().code == "S6"@
                    &&& subject.pid == focused.pid
                    &&& detail.window matches Some(shown)
                    &&& shown.id == Some(envelope::window_id(focused.hwnd))
                    &&& (focused.title matches Some(t) && t@.len() > 0) ==> shown.title == Some(
                        focused.title.unwrap()@,
                    )
                }
        }),
{
    let found = readings@;
    let all = found.observations(cache, session_id);
    foreground::law_title_is_the_one_read(focused, found.listed());
    foreground::law_focused_process_is_reported(focused, found.listed());
    lemma_where_observations_stand(found, cache, session_id);
    let k = process_observations(found.listed(), found.swept(), cache).len()
        + found.swept().non_default.len();
    assert(0 <= k < all.len());
    assert(all[k as int] == foreground::foreground_view(
        found.foreground,
        found.listed(),
    ).unwrap());
    detail::law_code_and_scope(all[k as int]);
}

/// No audio session goes unreported: for every row of the enumeration there is an S3 signal on its
/// owner, with its device and its state.
#[verifier::spinoff_prover]
pub proof fn law_session_is_reported(
    readings: Readings,
    cache: Map<Seq<char>, (Signature, DetailS2)>,
    session_id: Seq<u8>,
    j: int,
)
    requires
        readings.audio.enumerated() is Ok,
        0 <= j < readings.audio.enumerated()->Ok_0.0.len(),
    ensures
        ({
            let all = readings@.observations(cache, session_id);
            let row = readings.audio.enumerated()->Ok_0.0[j];
            exists|k: int|
                #![trigger all[k]]
                0 <= k < all.len() && {
                    &&& all[k] matches ObservationView::Microphone { subject, detail }
                    &&& all[k].signal().code == "S3"@
                    &&& subject.pid == row.pid
                    &&& detail.holds_microphone <==> row.flow is Capture
                    &&& detail.has_window == readings@.swept().pids_with_windows.contains(row.pid)
                    &&& detail.session_state == row.state.name()
                    &&& detail.device matches Some(d)
                    &&& d.id == audio::scoped_id(row.device_native_id, session_id)
                }
        }),
{
    let found = readings@;
    let all = found.observations(cache, session_id);
    let row = readings.audio.enumerated()->Ok_0.0[j];
    audio::law_row_is_reported_as_it_is(row, found.swept(), found.listed(), session_id);
    let sessions = found.session_observations(session_id);
    lemma_where_observations_stand(found, cache, session_id);
    assert(sessions[j] == row.observed(found.swept(), found.listed(), session_id));
    let k = all.len() - sessions.len() + j;
    assert(0 <= k < all.len());
    assert(all[k] == sessions[j]);
    detail::law_code_and_scope(all[k]);
}

/// The record names every probe that failed, with the message of its failure, and no other; it holds
/// the poll interval and the duration of the scan.
#[verifier::spinoff_prover]
pub proof fn law_record_names_the_failures(readings: Readings, poll_interval_ms: u32, ms: u64)
    requires
        readings.countable(),
    ensures
        ({
            let m = readings@.meta(poll_interval_ms, ms);
            let refused = match readings.audio {
                AudioReading::Endpoints { capture, render } => capture.failures()
                    + render.failures(),
                _ => 0,
            };
            &&& m.scan_duration_ms == Some(ms)
            &&& m.poll_interval_ms == Some(poll_interval_ms)
            &&& m.emission is Snapshot && m.truncated is None
            &&& m.complete <==> readings.windows is Ok && readings.processes is Ok
                && readings.audio is Endpoints && refused == 0
            &&& (exists|i: int|
                0 <= i < m.probe_errors.len() && (#[trigger] m.probe_errors[i]).code == "S5"@)
                <==> readings.windows is Err
            &&& (exists|i: int|
                0 <= i < m.probe_errors.len() && (#[trigger] m.probe_errors[i]).code == "S1"@)
                <==> readings.processes is Err
            &&& (exists|i: int|
                0 <= i < m.probe_errors.len() && (#[trigger] m.probe_errors[i]).code == "S3"@)
                <==> !(readings.audio is Endpoints) || refused > 0
            &&& forall|i: int|
                #![trigger m.probe_errors[i]]
                0 <= i < m.probe_errors.len() ==> {
                    let e = m.probe_errors[i];
                    &&& e.kind is ApiFailure && e.platform_status is None
                    &&& e.code == "S5"@ ==> e.message == Some(
                        affinity::win32_failure_text("EnumWindows"@, readings.windows->Err_0),
                    )
                    &&& e.code == "S1"@ ==> e.message == Some(
                        affinity::win32_failure_text(
                            "CreateToolhelp32Snapshot"@,
                            readings.processes->Err_0,
                        ),
                    )
                    &&& e.code == "S3"@ && refused > 0 ==> e.message == Some(
                        text::decimal(refused) + " capture endpoint(s) could not be enumerated"@,
                    )
                    &&& e.code == "S3"@ && refused == 0 ==> e.message == Some(
                        readings.audio.enumerated()->Err_0,
                    )
                }
        }),
{
    lemma_codes_differ();
    audio::law_when_there_is_an_answer(readings.audio);
    let m = readings@.meta(poll_interval_ms, ms);
    let errors = m.probe_errors;
    let w: int = if readings.windows is Err { 1 } else { 0 };
    let p: int = if readings.processes is Err { 1 } else { 0 };
    if readings.windows is Err {
        assert(errors[0].code == "S5"@);
    }
    if readings.processes is Err {
        assert(errors[w].code == "S1"@);
    }
    if errors.len() > w + p {
        assert(errors[w + p].code == "S3"@);
    }
}

/// Any readings whose counts fit in 32 bits can be scanned.
pub proof fn law_what_can_be_scanned(readings: Readings)
    ensures
        readings.countable() <==> {
            &&& readings.windows is Err || readings.windows->Ok_0@.len() <= 0xffff_ffff
            &&& readings.audio is Endpoints ==> readings.audio->capture.size()
                + readings.audio->render.size() <= 0xffff_ffff
        },
{
}

/// The views of observations are those of all of them, in order; a check is looked up by the image's
/// own path, and only for one that can be read.
pub proof fn law_views_of_observations(
    observations: Seq<Observation>,
    i: int,
    p: ProcessView,
    cache: Map<Seq<char>, (Signature, DetailS2)>,
)
    ensures
        observation_views(observations).len() == observations.len(),
        0 <= i < observations.len() ==> observation_views(observations)[i] == observations[i]@,
        checked(p, cache) is Some <==> (p.path matches ImagePathView::Readable(path)
            && cache.dom().contains(path)),
        checked(p, cache) matches Some(c) ==> c == (
            cache[p.path->Readable_0].0@,
            cache[p.path->Readable_0].1@,
        ),
{
}

} // verus!
