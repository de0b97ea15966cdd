//! S6 — the foreground window and its title.
//!
//! Titles only. Never contents, never keystrokes, never the clipboard (NG3).
//!
//! Polled. The event-driven form is `SetWinEventHook(EVENT_SYSTEM_FOREGROUND)` with a message pump
//! on a dedicated thread, which belongs with the probe host rather than in a stateless scan.

use vstd::prelude::*;

use crate::detail::{DetailS6, DetailS6View, Observation, ObservationView};
use crate::envelope;
use crate::envelope::{ImagePath, ImagePathView, Subject, SubjectView, WindowRef, WindowRefView};
use crate::process;
use crate::process::{ProcessInfo, ProcessView};
use crate::text;

verus! {

/// What the focused window gave when it was read.
#[derive(Debug)]
pub struct ForegroundReading {
    pub hwnd: isize,
    pub pid: u32,
    pub title: Option<String>,
    pub visible: bool,
}

#[verifier::ext_equal]
pub struct ForegroundView {
    pub hwnd: isize,
    pub pid: u32,
    pub title: Option<Seq<char>>,
    pub visible: bool,
}

impl View for ForegroundReading {
    type V = ForegroundView;

    open spec fn view(&self) -> ForegroundView {
        ForegroundView {
            hwnd: self.hwnd,
            pid: self.pid,
            title: text::opt_text(self.title),
            visible: self.visible,
        }
    }
}

pub open spec fn opt_foreground(o: Option<ForegroundReading>) -> Option<ForegroundView> {
    match o {
        Some(w) => Some(w@),
        None => None,
    }
}

impl ForegroundView {
    /// The report on the focused window. Its owner has a window by construction.
    pub open spec fn observed(self, processes: Seq<ProcessView>) -> ObservationView {
        let owner = match process::first_with_pid(processes, self.pid) {
            Some(p) => p.subject(),
            None => SubjectView::found(self.pid, None, ImagePathView::Exited),
        };
        ObservationView::Foreground {
            subject: owner.windowed(true),
            detail: DetailS6View {
                is_foreground: true,
                window: Some(WindowRefView::read(self.hwnd, self.title, self.visible)),
            },
        }
    }
}

/// The report on the focused window, if there is one.
pub open spec fn foreground_view(
    reading: Option<ForegroundView>,
    processes: Seq<ProcessView>,
) -> Option<ObservationView> {
    match reading {
        Some(w) => Some(w.observed(processes)),
        None => None,
    }
}

/// The S6 observation. No reading means that nothing is focused — a locked workstation, or focus in
/// transit. Absence of a foreground window is not a finding and is not reported as one.
pub fn probe(reading: Option<ForegroundReading>, processes: &[ProcessInfo]) -> (r: Option<
    Observation,
>)
    ensures
        (match r {
            Some(o) => Some(o@),
            None => None,
        }) == foreground_view(opt_foreground(reading), process::process_views(processes@)),
{
    match reading {
        None => None,
        Some(w) => {
            let subject = match process::find_first(processes, w.pid) {
                Some(p) => p.to_subject(),
                None => Subject::new(w.pid, None, ImagePath::Exited),
            };
            Some(
                Observation::Foreground {
                    subject: subject.with_has_window(true),
                    detail: DetailS6 {
                        is_foreground: true,
                        window: Some(WindowRef::new(w.hwnd, w.title, w.visible)),
                    },
                },
            )
        },
    }
}

// ---------------------------------------------------------------------------------------------
// Laws
// ---------------------------------------------------------------------------------------------

/// The title on the report is the one that was read. One that is not empty is carried as it is; the
/// report says that it is empty only where an empty one was read, and claims none where none could
/// be read.
pub proof fn law_title_is_the_one_read(reading: ForegroundReading, processes: Seq<ProcessView>)
    ensures
        ({
            let o = foreground_view(opt_foreground(Some(reading)), processes);
            &&& o matches Some(ObservationView::Foreground { detail, .. })
            &&& detail.is_foreground
            &&& detail.window matches Some(w)
            &&& w.title_state is Captured <==> (reading.title matches Some(t) && t@.len() > 0)
            &&& w.title_state is Empty <==> (reading.title matches Some(t) && t@.len() == 0)
            &&& w.title_state is Unavailable <==> reading.title is None
            &&& w.title_state is Captured ==> w.title == Some(reading.title.unwrap()@)
            &&& !(w.title_state is Captured) ==> w.title is None
            &&& w.visible == Some(reading.visible)
            &&& w.id == Some(envelope::window_id(reading.hwnd))
        }),
{
}

/// The report is on the process that owns the focused window: what the process list tells of it where
/// it holds it, and no more than its pid where it does not.
pub proof fn law_focused_process_is_reported(reading: ForegroundReading, processes: Seq<ProcessView>)
    ensures
        ({
            let subject = foreground_view(opt_foreground(Some(reading)), processes).unwrap().subject();
            &&& subject.pid == reading.pid
            &&& subject.has_window == Some(true)
            &&& (forall|i: int|
                0 <= i < processes.len() ==> (#[trigger] processes[i]).pid != reading.pid)
                ==> subject.path is Exited && subject.name is None && subject.parent_pid is None
            &&& forall|i: int|
                #![trigger processes[i]]
                0 <= i < processes.len() && processes[i].pid == reading.pid && (forall|j: int|
                    0 <= j < i ==> (#[trigger] processes[j]).pid != reading.pid) ==> subject.path
                    == processes[i].path && subject.name == processes[i].name && subject.parent_pid
                    == Some(processes[i].parent_pid)
        }),
{
    process::law_first_of_its_pid(processes, reading.pid);
}

/// Nothing is reported where nothing is focused, and something is reported wherever something is.
pub proof fn law_reported_iff_focused(
    reading: Option<ForegroundReading>,
    processes: Seq<ProcessView>,
)
    ensures
        foreground_view(opt_foreground(reading), processes) is Some <==> reading is Some,
{
}

/// The view of a [`ForegroundReading`] shows all of it, and each part as it is.
pub proof fn law_view_of_foreground_reading(x: ForegroundReading)
    ensures
        x@.hwnd == x.hwnd,
        x@.pid == x.pid,
        x@.title is Some <==> x.title is Some,
        x.title matches Some(v) ==> x@.title == Some(v@),
        x@.visible == x.visible,
{
}

} // verus!
