//! S1 — the process list, and the pid → identity resolution the other signals join against.
//!
//! On its own S1 proves nothing. Its value is as the key: S2 hashes the paths it finds, S3 resolves
//! session owners against it, S5 attributes windows to it.
//!
//! Identity is `(pid, name)` here and `(pid, create_time)` in the supervisor's differ. Never the
//! name alone — a rename defeats name matching, and that weakness is the reason the behavioural
//! signals exist at all.

use vstd::prelude::*;

use crate::affinity;
use crate::affinity::{win32_failure, SweepView, WindowSweep};
use crate::detail::{DetailS1, DetailS1View, DetailS2, DetailS2View, Observation, ObservationView};
use crate::envelope::{
    ImagePath, ImagePathView, Signature, SignatureView, Subject, SubjectView,
};
use crate::text;
use crate::text::{copy_text, lossy_text, non_empty, wide_to_string};

verus! {

pub const ERROR_ACCESS_DENIED: u32 = 5;

#[derive(Debug, Clone)]
pub struct ProcessInfo {
    pub pid: u32,
    pub parent_pid: u32,
    pub name: Option<String>,
    pub path: ImagePath,
}

#[verifier::ext_equal]
pub struct ProcessView {
    pub pid: u32,
    pub parent_pid: u32,
    pub name: Option<Seq<char>>,
    pub path: ImagePathView,
}

impl View for ProcessInfo {
    type V = ProcessView;

    open spec fn view(&self) -> ProcessView {
        ProcessView {
            pid: self.pid,
            parent_pid: self.parent_pid,
            name: text::opt_text(self.name),
            path: self.path@,
        }
    }
}

/// The views of a process list.
pub open spec fn process_views(processes: Seq<ProcessInfo>) -> Seq<ProcessView> {
    processes.map_values(|p: ProcessInfo| p@)
}

impl ProcessView {
    pub open spec fn subject(self) -> SubjectView {
        SubjectView {
            parent_pid: Some(self.parent_pid),
            ..SubjectView::found(self.pid, self.name, self.path)
        }
    }
}

impl ProcessInfo {
    pub fn to_subject(&self) -> (r: Subject)
        ensures
            r@ == self@.subject(),
            r@.consistent(),
    {
        let mut s = Subject::new(self.pid, copy_text(&self.name), self.path.clone());
        s.parent_pid = Some(self.parent_pid);
        s
    }
}

/// The first process of a list with a pid.
pub open spec fn first_with_pid(processes: Seq<ProcessView>, pid: u32) -> Option<ProcessView>
    decreases processes.len(),
{
    if processes.len() == 0 {
        None
    } else if processes[0].pid == pid {
        Some(processes[0])
    } else {
        first_with_pid(processes.skip(1), pid)
    }
}

pub fn find_first(processes: &[ProcessInfo], pid: u32) -> (r: Option<&ProcessInfo>)
    ensures
        (match r {
            Some(p) => Some(p@),
            None => None,
        }) == first_with_pid(process_views(processes@), pid),
{
    let ghost views = process_views(processes@);
    let mut i: usize = 0;
    assert(views.skip(0) =~= views);
    while i < processes.len()
        invariant
            i <= processes@.len(),
            views == process_views(processes@),
            first_with_pid(views, pid) == first_with_pid(views.skip(i as int), pid),
        decreases processes@.len() - i,
    {
        proof {
            assert(views.skip(i as int)[0] == processes@[i as int]@);
            assert(views.skip(i as int).skip(1) =~= views.skip(i + 1));
        }
        if processes[i].pid == pid {
            return Some(&processes[i]);
        }
        i = i + 1;
    }
    None
}

/// What asking for a process's image gave.
#[derive(Debug)]
pub enum PathReading {
    /// Nothing was asked for: the process has no image.
    NoImage,
    /// The process could not be opened; the Win32 error code.
    NotOpened(u32),
    /// The process was opened, and its image name could not be queried.
    NotNamed,
    /// The image name, as UTF-16 code units.
    Named(Vec<u16>),
}

pub open spec fn resolved_path(pid: u32, reading: PathReading) -> ImagePathView {
    if pid == 0 {
        ImagePathView::NotApplicable
    } else {
        match reading {
            PathReading::NoImage => ImagePathView::NotApplicable,
            PathReading::NotOpened(code) => if code == ERROR_ACCESS_DENIED {
                ImagePathView::AccessDenied
            } else {
                ImagePathView::Exited
            },
            PathReading::NotNamed => ImagePathView::Unknown,
            PathReading::Named(units) => ImagePathView::Readable(text::utf16_lossy(units@)),
        }
    }
}

/// Whether a process has an image to ask for. The System Idle Process has none.
pub fn has_image(pid: u32) -> (b: bool)
    ensures
        b == (pid != 0),
{
    pid != 0
}

/// Resolve a pid's image path, distinguishing *why* it failed.
///
/// `access_denied` is a permanent capability limit — S2 can never hash that image. `exited` is a
/// one-cycle race. Collapsing both into `null` loses the distinction the whole S2 coverage story
/// turns on, which is why [`ImagePath`] has separate variants rather than an `Option<String>`.
pub fn resolve_path(pid: u32, reading: &PathReading) -> (r: ImagePath)
    ensures
        r@ == resolved_path(pid, *reading),
{
    if pid == 0 {
        return ImagePath::NotApplicable;
    }
    match reading {
        PathReading::NoImage => ImagePath::NotApplicable,
        PathReading::NotOpened(code) => {
            if *code == ERROR_ACCESS_DENIED {
                ImagePath::AccessDenied
            } else {
                ImagePath::Exited
            }
        },
        PathReading::NotNamed => ImagePath::Unknown,
        PathReading::Named(units) => ImagePath::Readable(lossy_text(units.as_slice())),
    }
}

/// One entry of the system's process list, and what asking for its image gave.
#[derive(Debug)]
pub struct ProcessEntry {
    pub pid: u32,
    pub parent_pid: u32,
    /// The name of the executable, zero-terminated UTF-16.
    pub exe_file: Vec<u16>,
    pub path: PathReading,
}

impl View for ProcessEntry {
    type V = ProcessView;

    /// The process that the entry describes.
    open spec fn view(&self) -> ProcessView {
        let name = text::utf16_lossy(text::until_nul(self.exe_file@));
        ProcessView {
            pid: self.pid,
            parent_pid: self.parent_pid,
            name: if name.len() == 0 {
                None
            } else {
                Some(name)
            },
            path: resolved_path(self.pid, self.path),
        }
    }
}

/// The process list, or the message for a snapshot that failed with a Win32 error code.
pub fn snapshot(reading: &Result<Vec<ProcessEntry>, u32>) -> (r: Result<Vec<ProcessInfo>, String>)
    ensures
        r is Ok <==> reading is Ok,
        r matches Ok(p) ==> process_views(p@) == reading.unwrap()@.map_values(
            |e: ProcessEntry| e@,
        ),
        r matches Err(e) ==> e@ == affinity::win32_failure_text(
            "CreateToolhelp32Snapshot"@,
            reading->Err_0,
        ),
{
    match reading {
        Err(code) => Err(win32_failure("CreateToolhelp32Snapshot", *code)),
        Ok(entries) => {
            let mut out: Vec<ProcessInfo> = Vec::new();
            let ghost views = entries@.map_values(|e: ProcessEntry| e@);
            let mut i: usize = 0;
            while i < entries.len()
                invariant
                    i <= entries@.len(),
                    views == entries@.map_values(|e: ProcessEntry| e@),
                    process_views(out@) == views.take(i as int),
                decreases entries@.len() - i,
            {
                let e = &entries[i];
                let ghost before = out@;
                out.push(
                    ProcessInfo {
                        pid: e.pid,
                        parent_pid: e.parent_pid,
                        name: non_empty(wide_to_string(e.exe_file.as_slice())),
                        path: resolve_path(e.pid, &e.path),
                    },
                );
                i = i + 1;
                proof {
                    assert(process_views(out@) =~= process_views(before).push(out@.last()@));
                    assert(views.take(i as int) =~= views.take(i - 1).push(views[i - 1]));
                }
            }
            assert(views.take(i as int) =~= views);
            Ok(out)
        },
    }
}

/// How many processes of a list have an image that could not be read.
pub open spec fn unreadable_paths(processes: Seq<ProcessView>) -> nat {
    processes.filter(|p: ProcessView| !(p.path is Readable)).len()
}

pub fn count_unreadable_paths(processes: &[ProcessInfo]) -> (n: usize)
    ensures
        n == unreadable_paths(process_views(processes@)),
        n <= processes@.len(),
{
    let ghost views = process_views(processes@);
    let mut n: usize = 0;
    let mut i: usize = 0;
    proof {
        reveal(Seq::filter);
        assert(views.take(0) =~= Seq::<ProcessView>::empty());
    }
    while i < processes.len()
        invariant
            n <= i <= processes@.len(),
            views == process_views(processes@),
            n == unreadable_paths(views.take(i as int)),
        decreases processes@.len() - i,
    {
        proof {
            reveal(Seq::filter);
            assert(views.take(i + 1).drop_last() =~= views.take(i as int));
            assert(views.take(i + 1).last() == processes@[i as int]@);
        }
        if !processes[i].path.is_readable() {
            n = n + 1;
        }
        i = i + 1;
    }
    assert(views.take(i as int) =~= views);
    n
}

impl ProcessView {
    /// The subject of the process's observations: what its windows and, for a readable image, its
    /// signature check tell.
    pub open spec fn observed_subject(
        self,
        windows: SweepView,
        checked: Option<(SignatureView, DetailS2View)>,
    ) -> SubjectView {
        let found = self.subject().windowed(windows.count(self.pid) > 0);
        match checked {
            Some(c) => found.signed(c.0),
            None => found,
        }
    }

    pub open spec fn observed(
        self,
        windows: SweepView,
        checked: Option<(SignatureView, DetailS2View)>,
    ) -> (ObservationView, Option<ObservationView>) {
        let subject = self.observed_subject(windows, checked);
        (
            ObservationView::Process {
                subject,
                detail: DetailS1View {
                    present: true,
                    has_window: windows.count(self.pid) > 0,
                    window_count: windows.count(self.pid),
                    session_kind: "unknown"@,
                },
            },
            match checked {
                Some(c) => if self.path is Readable {
                    Some(ObservationView::Signature { subject, detail: c.1 })
                } else {
                    None
                },
                None => None,
            },
        )
    }
}

/// The views of a signature check's result.
pub open spec fn check_view(c: (Signature, DetailS2)) -> (SignatureView, DetailS2View) {
    (c.0@, c.1@)
}

pub open spec fn opt_check_view(c: Option<&(Signature, DetailS2)>) -> Option<
    (SignatureView, DetailS2View),
> {
    match c {
        Some(c) => Some(check_view(*c)),
        None => None,
    }
}

/// Builds the S1 observation and, when the image is readable and has been checked, the S2
/// observation that shares its `Subject` — so a consumer never sees the same pid report
/// `signature_state: not_checked` on one signal and `valid` on another in the same sample.
pub fn observe(
    p: &ProcessInfo,
    windows: &WindowSweep,
    checked: Option<&(Signature, DetailS2)>,
) -> (r: (Observation, Option<Observation>))
    ensures
        r.0@ == p@.observed(windows@, opt_check_view(checked)).0,
        (match r.1 {
            Some(o) => Some(o@),
            None => None,
        }) == p@.observed(windows@, opt_check_view(checked)).1,
{
    let window_count: u32 = windows.window_count(p.pid);
    let has_window = window_count > 0;

    let mut subject = p.to_subject().with_has_window(has_window);

    let s2 = match checked {
        Some(c) => {
            if p.path.is_readable() {
                subject = subject.with_signature(c.0.clone());
                Some(Observation::Signature { subject: subject.clone(), detail: c.1.clone() })
            } else {
                None
            }
        },
        None => None,
    };

    let s1 = Observation::Process {
        subject,
        detail: DetailS1 {
            present: true,
            has_window,
            window_count,
            // `unknown` is the honest answer — guessing "interactive" would be a claim the probe
            // has not earned.
            session_kind: "unknown",
        },
    };

    (s1, s2)
}

/// The two observations of one process tell one story: they carry the same subject.
pub proof fn law_one_subject(
    p: ProcessView,
    windows: SweepView,
    checked: Option<(SignatureView, DetailS2View)>,
)
    ensures
        p.observed(windows, checked).1 matches Some(s2) ==> s2.subject() == p.observed(
            windows,
            checked,
        ).0.subject(),
{
}

/// A readable image that was checked gets a signature observation with that result, and an image
/// that could not be read gets none, whatever was claimed of it.
pub proof fn law_signature_needs_image(
    p: ProcessView,
    windows: SweepView,
    sig: SignatureView,
    detail: DetailS2View,
)
    ensures
        p.observed(windows, Some((sig, detail))).1 is Some <==> p.path is Readable,
        p.path is Readable ==> p.observed(windows, Some((sig, detail))).0.subject().signature
            == sig,
        !(p.path is Readable) ==> p.observed(windows, Some((sig, detail))).0.subject().signature
            is Unavailable,
        p.observed(windows, Some((sig, detail))).0.subject().consistent(),
{
}

/// A process is looked up by its pid: what is found is the first of the list with that pid, and
/// nothing is found only where the list holds none.
pub proof fn law_first_of_its_pid(processes: Seq<ProcessView>, pid: u32)
    ensures
        first_with_pid(processes, pid) is None <==> (forall|i: int|
            0 <= i < processes.len() ==> (#[trigger] processes[i]).pid != pid),
        forall|i: int|
            #![trigger processes[i]]
            0 <= i < processes.len() && processes[i].pid == pid && (forall|j: int|
                0 <= j < i ==> (#[trigger] processes[j]).pid != pid) ==> first_with_pid(
                processes,
                pid,
            ) == Some(processes[i]),
        first_with_pid(processes, pid) matches Some(p) ==> p.pid == pid && processes.contains(p),
    decreases processes.len(),
{
    if processes.len() > 0 {
        let rest = processes.skip(1);
        law_first_of_its_pid(rest, pid);
        if processes[0].pid != pid {
            assert forall|i: int| 0 <= i < rest.len() implies rest[i] == processes[i + 1] by {}
            assert forall|i: int|
                #![trigger processes[i]]
                0 <= i < processes.len() && processes[i].pid == pid && (forall|j: int|
                    0 <= j < i ==> (#[trigger] processes[j]).pid != pid) implies first_with_pid(
                processes,
                pid,
            ) == Some(processes[i]) by {
                assert(rest[i - 1].pid == pid);
                assert forall|j: int| 0 <= j < i - 1 implies (#[trigger] rest[j]).pid != pid by {
                    assert(processes[j + 1].pid != pid);
                }
            }
            if first_with_pid(rest, pid) is None {
                assert forall|i: int| 0 <= i < processes.len() implies (
                #[trigger] processes[i]).pid != pid by {
                    if i > 0 {
                        assert(rest[i - 1].pid != pid);
                    }
                }
            } else {
                let p = first_with_pid(rest, pid).unwrap();
                let k = choose|k: int| 0 <= k < rest.len() && rest[k] == p;
                assert(processes[k + 1] == p);
            }
        } else {
            assert(processes[0].pid == pid);
        }
    }
}

/// Why there is no image path is kept apart: a refusal is said to be one and nothing else is, and a
/// name that was read is carried as it was read.
pub proof fn law_why_there_is_no_path(pid: u32, reading: PathReading)
    ensures
        resolved_path(pid, reading) is NotApplicable <==> pid == 0 || reading is NoImage,
        resolved_path(pid, reading) is AccessDenied <==> pid != 0 && reading == PathReading::NotOpened(
            5,
        ),
        resolved_path(pid, reading) is Exited <==> pid != 0 && (reading matches PathReading::NotOpened(
            code,
        ) && code != 5),
        resolved_path(pid, reading) is Unknown <==> pid != 0 && reading is NotNamed,
        resolved_path(pid, reading) is Readable <==> pid != 0 && reading is Named,
        pid != 0 && reading is Named ==> resolved_path(pid, reading) == ImagePathView::Readable(
            text::utf16_lossy(reading->Named_0@),
        ),
{
}

/// A process is listed as the system listed it. Its name is what stands before the first zero, and a
/// process without one has no name rather than an empty one.
pub proof fn law_entry_is_listed_as_it_is(e: ProcessEntry)
    ensures
        e@.pid == e.pid,
        e@.parent_pid == e.parent_pid,
        e@.path == resolved_path(e.pid, e.path),
        e@.name matches Some(name) ==> name.len() > 0,
        e.exe_file@.len() == 0 || e.exe_file@[0] == 0 ==> e@.name is None,
        e.exe_file@.len() > 0 && e.exe_file@[0] != 0 ==> e@.name is Some,
        forall|k: int|
            0 < k <= e.exe_file@.len() && (k == e.exe_file@.len() || e.exe_file@[k] == 0) && (
            forall|j: int| 0 <= j < k ==> (#[trigger] e.exe_file@[j]) != 0) ==> e@.name == Some(
                #[trigger] text::utf16_lossy(e.exe_file@.take(k)),
            ),
{
    text::law_until_nul(e.exe_file@);
    let cut = text::until_nul(e.exe_file@);
    let whole = e.exe_file@;
    assert(cut =~= whole.take(cut.len() as int));
    assert forall|k: int|
        0 < k <= e.exe_file@.len() && (k == e.exe_file@.len() || e.exe_file@[k] == 0) && (forall|
            j: int,
        |
            0 <= j < k ==> (#[trigger] e.exe_file@[j]) != 0) implies e@.name == Some(
        #[trigger] text::utf16_lossy(e.exe_file@.take(k)),
    ) by {
        if cut.len() < k {
            assert(whole[cut.len() as int] != 0);
        } else if cut.len() > k {
            assert(cut[k] == whole[k]);
        }
    }
}

/// The count of images that could not be read takes each process once: it grows by one for such a
/// process and by nothing for any other, and is zero only where every image was read.
pub proof fn law_unreadable_images_are_counted(processes: Seq<ProcessView>, p: ProcessView)
    ensures
        unreadable_paths(processes.push(p)) == unreadable_paths(processes) + (if p.path is Readable {
            0int
        } else {
            1int
        }),
        unreadable_paths(Seq::<ProcessView>::empty()) == 0,
        unreadable_paths(processes) == 0 <==> (forall|i: int|
            0 <= i < processes.len() ==> (#[trigger] processes[i]).path is Readable),
    decreases processes.len(),
{
    reveal(Seq::filter);
    assert(processes.push(p).drop_last() =~= processes);
    if processes.len() > 0 {
        let front = processes.drop_last();
        law_unreadable_images_are_counted(front, processes.last());
        assert(front.push(processes.last()) =~= processes);
        if unreadable_paths(processes) == 0 {
            assert forall|i: int| 0 <= i < processes.len() implies (
            #[trigger] processes[i]).path is Readable by {
                if i < front.len() {
                    assert(front[i].path is Readable);
                }
            }
        } else if unreadable_paths(front) != 0 {
            let i = choose|i: int|
                0 <= i < front.len() && !((#[trigger] front[i]).path is Readable);
            assert(!(processes[i].path is Readable));
        }
    }
}

/// A process reports on itself: its subject carries what the list told of it, and says that it has a
/// window exactly when at least one was counted for it.
pub proof fn law_process_reports_on_itself(
    p: ProcessView,
    windows: SweepView,
    checked: Option<(SignatureView, DetailS2View)>,
)
    ensures
        p.subject().pid == p.pid && p.subject().parent_pid == Some(p.parent_pid),
        p.subject().name == p.name && p.subject().path == p.path,
        p.subject().has_window is None && p.subject().elevated is None,
        ({
            let o = p.observed(windows, checked).0;
            let s = o.subject();
            &&& o matches ObservationView::Process { detail, .. }
            &&& s.pid == p.pid && s.parent_pid == Some(p.parent_pid)
            &&& s.name == p.name && s.path == p.path
            &&& s.has_window == Some(windows.count(p.pid) > 0)
            &&& s.start_ts is None && s.elevated is None
            &&& detail.present
            &&& detail.window_count == windows.count(p.pid)
            &&& detail.has_window <==> detail.window_count > 0
            &&& detail.session_kind == "unknown"@
            &&& checked is None && p.path is Readable ==> s.signature is NotChecked
        }),
{
}

/// A check's findings are reported as they are: whenever a readable image was checked there is an S2
/// observation on that process with the check's signature and the check's detail, and there is none
/// without a check.
pub proof fn law_check_is_reported(
    p: ProcessView,
    windows: SweepView,
    sig: SignatureView,
    detail: DetailS2View,
)
    ensures
        p.observed(windows, None).1 is None,
        p.path is Readable ==> {
            &&& p.observed(windows, Some((sig, detail))).1 matches Some(
                ObservationView::Signature { subject: s, detail: d },
            )
            &&& s.pid == p.pid && s.signature == sig && d == detail
        },
{
}

/// The view of a [`ProcessInfo`] shows all of it, and each part as it is.
pub proof fn law_view_of_process_info(x: ProcessInfo)
    ensures
        x@.pid == x.pid,
        x@.parent_pid == x.parent_pid,
        x@.name is Some <==> x.name is Some,
        x.name matches Some(v) ==> x@.name == Some(v@),
        x@.path == x.path@,
{
}

/// The views of a process list are those of all of its processes, in order; a check is viewed whole.
pub proof fn law_views_of_processes(processes: Seq<ProcessInfo>, i: int, c: &(Signature, DetailS2))
    ensures
        process_views(processes).len() == processes.len(),
        0 <= i < processes.len() ==> process_views(processes)[i] == processes[i]@,
        opt_check_view(Some(c)) == Some((c.0@, c.1@)),
        opt_check_view(None) is None,
{
}

} // verus!
