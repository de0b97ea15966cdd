//! S5 — per-window capture-exclusion state.
//!
//! A tool that hides itself from screen capture must set `WDA_EXCLUDEFROMCAPTURE`, and that flag is
//! readable cross-process with no elevation. Renaming the binary changes nothing, which is the
//! entire point: the flag *is* the feature those tools sell, so they cannot stop setting it.
//!
//! Measured on a real machine: `GetWindowDisplayAffinity` succeeded on every top-level window, zero
//! failures, and nothing on a normal desktop set a non-default affinity.

use std::collections::{HashMap, HashSet};

use vstd::prelude::*;

use crate::detail::{DetailS5, DetailS5View, Observation, ObservationView};
use crate::envelope;
use crate::envelope::{ImagePath, ImagePathView, Subject, SubjectView, WindowRef, WindowRefView};
use crate::process;
use crate::process::{ProcessInfo, ProcessView};
use crate::text;
use crate::text::{copy_text, lossy_text, push_decimal, push_hex};

verus! {

broadcast use vstd::std_specs::hash::group_hash_axioms;

pub const WDA_NONE: u32 = 0x0000_0000;

pub const WDA_MONITOR: u32 = 0x0000_0001;

pub const WDA_EXCLUDEFROMCAPTURE: u32 = 0x0000_0011;

/// The name of a display affinity. One that is not known keeps its number.
pub open spec fn affinity_text(affinity: u32) -> Seq<char> {
    if affinity == WDA_NONE {
        "WDA_NONE"@
    } else if affinity == WDA_MONITOR {
        "WDA_MONITOR"@
    } else if affinity == WDA_EXCLUDEFROMCAPTURE {
        "WDA_EXCLUDEFROMCAPTURE"@
    } else {
        "WDA_UNKNOWN_0x"@ + text::padded(text::hexadecimal(affinity as nat, false), 8)
    }
}

pub fn affinity_name(affinity: u32) -> (r: String)
    ensures
        r@ == affinity_text(affinity),
{
    if affinity == WDA_NONE {
        String::from_str("WDA_NONE")
    } else if affinity == WDA_MONITOR {
        String::from_str("WDA_MONITOR")
    } else if affinity == WDA_EXCLUDEFROMCAPTURE {
        String::from_str("WDA_EXCLUDEFROMCAPTURE")
    } else {
        // Reported rather than folded into WDA_NONE: an unknown non-zero value is not evidence of
        // cleanliness, and silently normalising it would hide exactly the thing worth seeing.
        let mut name = String::from_str("WDA_UNKNOWN_0x");
        push_hex(&mut name, affinity as u64, 8, false);
        name
    }
}

/// What one top-level window gave when it was read.
#[derive(Debug)]
pub struct WindowReading {
    pub hwnd: isize,
    pub visible: bool,
    /// Zero where the owner could not be told.
    pub pid: u32,
    /// Nothing where the affinity could not be read.
    pub affinity: Option<u32>,
    /// Only asked for where [`is_non_default`] holds of the affinity.
    pub title: Option<String>,
}

#[verifier::ext_equal]
pub struct WindowReadingView {
    pub hwnd: isize,
    pub visible: bool,
    pub pid: u32,
    pub affinity: Option<u32>,
    pub title: Option<Seq<char>>,
}

impl View for WindowReading {
    type V = WindowReadingView;

    open spec fn view(&self) -> WindowReadingView {
        WindowReadingView {
            hwnd: self.hwnd,
            visible: self.visible,
            pid: self.pid,
            affinity: self.affinity,
            title: text::opt_text(self.title),
        }
    }
}

impl WindowReadingView {
    pub open spec fn non_default(self) -> bool {
        self.affinity is Some && self.affinity != Some(WDA_NONE)
    }

    pub open spec fn observation(self) -> WindowObservationView {
        WindowObservationView {
            hwnd: self.hwnd,
            pid: self.pid,
            affinity: self.affinity.unwrap(),
            title: self.title,
            visible: self.visible,
        }
    }
}

/// Whether a window with this affinity is worth a row, and its title worth reading.
pub fn is_non_default(affinity: Option<u32>) -> (b: bool)
    ensures
        b == (affinity is Some && affinity != Some(WDA_NONE)),
{
    match affinity {
        Some(a) => a != WDA_NONE,
        None => false,
    }
}

#[derive(Debug, Clone)]
pub struct WindowObservation {
    pub hwnd: isize,
    pub pid: u32,
    pub affinity: u32,
    pub title: Option<String>,
    pub visible: bool,
}

#[verifier::ext_equal]
pub struct WindowObservationView {
    pub hwnd: isize,
    pub pid: u32,
    pub affinity: u32,
    pub title: Option<Seq<char>>,
    pub visible: bool,
}

impl View for WindowObservation {
    type V = WindowObservationView;

    open spec fn view(&self) -> WindowObservationView {
        WindowObservationView {
            hwnd: self.hwnd,
            pid: self.pid,
            affinity: self.affinity,
            title: text::opt_text(self.title),
            visible: self.visible,
        }
    }
}

/// One sweep, two products: the S5 findings, and the set of pids owning at least one top-level
/// window. The second is what makes a headless mic holder distinguishable from a meeting client.
#[derive(Debug)]
pub struct WindowSweep {
    pub non_default: Vec<WindowObservation>,
    /// Owns at least one top-level window, **including hidden ones**. This is what the schema's
    /// `has_window` means, so it must not be narrowed.
    pub pids_with_windows: HashSet<u32>,
    /// Owns at least one top-level window that is actually *visible*.
    ///
    /// `EnumWindows` returns hidden top-level windows, and tray applications own several — measured
    /// here, 235 of 268 windows were invisible and 47 of 60 window-owning pids owned only invisible
    /// ones. Without this, every Electron tray app looks windowed, and a tray-resident audio
    /// assistant is demoted out of tier 2 — the exact tool class S3 exists to catch.
    pub pids_with_visible_windows: HashSet<u32>,
    pub window_counts: HashMap<u32, u32>,
    /// Windows whose affinity could not be read. Dead handles race the enumeration constantly, so
    /// this is counted rather than listed — but it is **not** treated as "no finding". It is a
    /// coverage number.
    pub unreadable: u32,
    pub total: u32,
}

#[verifier::ext_equal]
pub struct SweepView {
    pub non_default: Seq<WindowObservationView>,
    pub pids_with_windows: Set<u32>,
    pub pids_with_visible_windows: Set<u32>,
    pub window_counts: Map<u32, u32>,
    pub unreadable: u32,
    pub total: u32,
}

impl View for WindowSweep {
    type V = SweepView;

    open spec fn view(&self) -> SweepView {
        SweepView {
            non_default: self.non_default@.map_values(|w: WindowObservation| w@),
            pids_with_windows: self.pids_with_windows@,
            pids_with_visible_windows: self.pids_with_visible_windows@,
            window_counts: self.window_counts@,
            unreadable: self.unreadable,
            total: self.total,
        }
    }
}

impl SweepView {
    /// A sweep that has met no window.
    pub open spec fn nothing() -> SweepView {
        SweepView {
            non_default: Seq::empty(),
            pids_with_windows: Set::empty(),
            pids_with_visible_windows: Set::empty(),
            window_counts: Map::empty(),
            unreadable: 0,
            total: 0,
        }
    }

    /// How many windows a process owns.
    pub open spec fn count(self, pid: u32) -> u32 {
        if self.window_counts.dom().contains(pid) {
            self.window_counts[pid]
        } else {
            0
        }
    }

    /// The sweep with one more window.
    pub open spec fn with(self, w: WindowReadingView) -> SweepView {
        SweepView {
            non_default: if w.non_default() {
                self.non_default.push(w.observation())
            } else {
                self.non_default
            },
            pids_with_windows: if w.pid != 0 {
                self.pids_with_windows.insert(w.pid)
            } else {
                self.pids_with_windows
            },
            pids_with_visible_windows: if w.pid != 0 && w.visible {
                self.pids_with_visible_windows.insert(w.pid)
            } else {
                self.pids_with_visible_windows
            },
            window_counts: if w.pid != 0 {
                self.window_counts.insert(w.pid, (self.count(w.pid) + 1) as u32)
            } else {
                self.window_counts
            },
            unreadable: if w.affinity is None {
                (self.unreadable + 1) as u32
            } else {
                self.unreadable
            },
            total: (self.total + 1) as u32,
        }
    }

    /// The counts and the sets are of one collection of windows.
    pub open spec fn consistent(self) -> bool {
        &&& self.unreadable <= self.total
        &&& self.non_default.len() + self.unreadable <= self.total
        &&& self.window_counts.dom() == self.pids_with_windows
        &&& self.pids_with_visible_windows.subset_of(self.pids_with_windows)
        &&& forall|pid: u32| #[trigger]
            self.window_counts.dom().contains(pid) ==> 1 <= self.window_counts[pid] <= self.total
    }
}

/// The sweep over windows in the order in which they were met.
pub open spec fn sweep_of(readings: Seq<WindowReadingView>) -> SweepView
    decreases readings.len(),
{
    if readings.len() == 0 {
        SweepView::nothing()
    } else {
        sweep_of(readings.drop_last()).with(readings.last())
    }
}

impl Default for WindowSweep {
    fn default() -> (r: Self)
        ensures
            r@ == SweepView::nothing(),
            r@.consistent(),
    {
        let r = WindowSweep {
            non_default: Vec::new(),
            pids_with_windows: HashSet::new(),
            pids_with_visible_windows: HashSet::new(),
            window_counts: HashMap::new(),
            unreadable: 0,
            total: 0,
        };
        assert(r@ =~= SweepView::nothing());
        assert(r@.window_counts.dom() =~= r@.pids_with_windows);
        r
    }
}

impl WindowSweep {
    /// How many windows a process owns.
    pub fn window_count(&self, pid: u32) -> (n: u32)
        ensures
            n == self@.count(pid),
    {
        match self.window_counts.get(&pid) {
            Some(n) => *n,
            None => 0,
        }
    }

    /// Take one more window in.
    pub fn record(&mut self, w: WindowReading)
        requires
            old(self)@.consistent(),
            old(self).total < u32::MAX,
        ensures
            final(self)@ == old(self)@.with(w@),
            final(self)@.consistent(),
    {
        let ghost before = self@;
        self.total = self.total + 1;
        if w.pid != 0 {
            let n: u32 = self.window_count(w.pid);
            self.pids_with_windows.insert(w.pid);
            self.window_counts.insert(w.pid, n + 1);
            if w.visible {
                self.pids_with_visible_windows.insert(w.pid);
            }
        }
        match w.affinity {
            None => {
                self.unreadable = self.unreadable + 1;
            },
            Some(affinity) => {
                if affinity != WDA_NONE {
                    self.non_default.push(
                        WindowObservation {
                            hwnd: w.hwnd,
                            pid: w.pid,
                            affinity,
                            title: w.title,
                            visible: w.visible,
                        },
                    );
                }
            },
        }
        proof {
            let after = before.with(w@);
            assert(self@.non_default =~= after.non_default);
            assert(self@ =~= after);
            assert(after.window_counts.dom() =~= after.pids_with_windows);
        }
    }
}

/// A Win32 call that failed, and its error code.
pub open spec fn win32_failure_text(call: Seq<char>, code: u32) -> Seq<char> {
    call + " failed: win32="@ + text::decimal(code as nat)
}

pub fn win32_failure(call: &str, code: u32) -> (r: String)
    ensures
        r@ == win32_failure_text(call@, code),
{
    let mut message = call.to_owned();
    message.append(" failed: win32=");
    push_decimal(&mut message, code as u64);
    message
}

/// The sweep over the windows that were enumerated, or the message for an enumeration that failed
/// with a Win32 error code.
pub fn sweep(reading: Result<Vec<WindowReading>, u32>) -> (r: Result<WindowSweep, String>)
    requires
        reading matches Ok(windows) ==> windows@.len() <= u32::MAX,
    ensures
        r is Ok <==> reading is Ok,
        r matches Ok(s) ==> {
            &&& s@ == sweep_of(reading.unwrap()@.map_values(|w: WindowReading| w@))
            &&& s@.consistent()
        },
        r matches Err(e) ==> e@ == win32_failure_text("EnumWindows"@, reading->Err_0),
{
    match reading {
        Err(code) => Err(win32_failure("EnumWindows", code)),
        Ok(windows) => {
            let ghost views = windows@.map_values(|w: WindowReading| w@);
            let mut s = WindowSweep::default();
            assert(views.take(0) =~= Seq::<WindowReadingView>::empty());
            for w in it: windows
                invariant
                    views == it.seq().map_values(|w: WindowReading| w@),
                    views.len() <= u32::MAX,
                    s@ == sweep_of(views.take(it.index() as int)),
                    s@.consistent(),
                    s.total == it.index(),
            {
                proof {
                    let now = views.take(it.index() + 1);
                    assert(now.drop_last() =~= views.take(it.index() as int));
                    assert(now.last() == w@);
                }
                s.record(w);
            }
            assert(views.take(views.len() as int) =~= views);
            Ok(s)
        },
    }
}

/// Window **titles**, never window contents (NG3). `len` is what the call for the title returned,
/// and `buf` what it filled; a negative length is a refusal.
pub fn read_title(len: i32, buf: &[u16]) -> (r: Option<String>)
    requires
        len <= buf@.len(),
    ensures
        r is Some <==> len >= 0,
        r matches Some(t) ==> t@ == text::utf16_lossy(buf@.take(len as int)),
{
    if len < 0 {
        return None;
    }
    assert(buf@.subrange(0, len as int) =~= buf@.take(len as int));
    Some(lossy_text(vstd::slice::slice_subrange(buf, 0, len as usize)))
}

impl WindowObservationView {
    /// The report on the window, with its owner as the process list tells it. An owner that the list
    /// does not hold outlived it or came later: exited is the honest state.
    pub open spec fn observed(self, processes: Seq<ProcessView>) -> ObservationView {
        ObservationView::CaptureExcluded {
            subject: match process::first_with_pid(processes, self.pid) {
                Some(p) => p.subject(),
                None => SubjectView::found(self.pid, None, ImagePathView::Exited),
            },
            detail: DetailS5View {
                capture_excluded: self.affinity == WDA_EXCLUDEFROMCAPTURE,
                affinity_raw: Some(self.affinity),
                affinity_name: affinity_text(self.affinity),
                window: Some(WindowRefView::read(self.hwnd, self.title, self.visible)),
            },
        }
    }
}

pub fn observe(w: &WindowObservation, processes: &[ProcessInfo]) -> (r: Observation)
    ensures
        r@ == w@.observed(process::process_views(processes@)),
{
    let subject = match process::find_first(processes, w.pid) {
        Some(p) => p.to_subject(),
        // The window outlived its process in our snapshot, or the process appeared between the
        // two sweeps. Exited is the honest state; it is not the same as access_denied.
        None => Subject::new(w.pid, None, ImagePath::Exited),
    };
    Observation::CaptureExcluded {
        subject,
        detail: DetailS5 {
            capture_excluded: w.affinity == WDA_EXCLUDEFROMCAPTURE,
            affinity_raw: Some(w.affinity),
            affinity_name: affinity_name(w.affinity),
            window: Some(WindowRef::new(w.hwnd, copy_text(&w.title), w.visible)),
        },
    }
}

// ---------------------------------------------------------------------------------------------
// Laws
// ---------------------------------------------------------------------------------------------

/// What a sweep holds, told of the windows themselves: it counts all of them and those that could
/// not be read, lists in order those whose affinity is not the default, and knows for each process
/// how many it owns and whether one of them is visible.
pub proof fn law_sweep_contents(readings: Seq<WindowReadingView>)
    requires
        readings.len() <= u32::MAX,
    ensures
        sweep_of(readings).consistent(),
        sweep_of(readings).total == readings.len(),
        sweep_of(readings).unreadable == readings.filter(
            |w: WindowReadingView| w.affinity is None,
        ).len(),
        sweep_of(readings).non_default == readings.filter(
            |w: WindowReadingView| w.non_default(),
        ).map_values(|w: WindowReadingView| w.observation()),
        forall|pid: u32|
            #![trigger sweep_of(readings).count(pid)]
            pid != 0 ==> sweep_of(readings).count(pid) == readings.filter(
                |w: WindowReadingView| w.pid == pid,
            ).len(),
        forall|pid: u32|
            #![trigger sweep_of(readings).pids_with_windows.contains(pid)]
            sweep_of(readings).pids_with_windows.contains(pid) <==> pid != 0 && exists|i: int|
                0 <= i < readings.len() && (#[trigger] readings[i]).pid == pid,
        forall|pid: u32|
            #![trigger sweep_of(readings).pids_with_visible_windows.contains(pid)]
            sweep_of(readings).pids_with_visible_windows.contains(pid) <==> pid != 0 && exists|
                i: int,
            |
                0 <= i < readings.len() && (#[trigger] readings[i]).pid == pid
                    && readings[i].visible,
    decreases readings.len(),
{
    let s = sweep_of(readings);
    reveal(Seq::filter);
    if readings.len() == 0 {
        assert(s.window_counts.dom() =~= s.pids_with_windows);
        assert(readings.filter(|w: WindowReadingView| w.non_default()).map_values(
            |w: WindowReadingView| w.observation(),
        ) =~= s.non_default);
    } else {
        let front = readings.drop_last();
        let w = readings.last();
        law_sweep_contents(front);
        let p = sweep_of(front);
        assert(s == p.with(w));
        assert(s.window_counts.dom() =~= s.pids_with_windows);
        assert(readings.filter(|w: WindowReadingView| w.non_default()).map_values(
            |w: WindowReadingView| w.observation(),
        ) =~= s.non_default);
        assert forall|pid: u32|
            #![trigger s.count(pid)]
            pid != 0 implies s.count(pid) == readings.filter(
            |w: WindowReadingView| w.pid == pid,
        ).len() by {
            assert(p.count(pid) == front.filter(|w: WindowReadingView| w.pid == pid).len());
            assert(p.count(pid) <= p.total);
        }
        assert forall|pid: u32|
            #![trigger s.pids_with_windows.contains(pid)]
            s.pids_with_windows.contains(pid) <==> pid != 0 && exists|i: int|
                0 <= i < readings.len() && (#[trigger] readings[i]).pid == pid by {
            assert(p.pids_with_windows.contains(pid) <==> pid != 0 && exists|i: int|
                0 <= i < front.len() && (#[trigger] front[i]).pid == pid);
            if p.pids_with_windows.contains(pid) {
                let i = choose|i: int| 0 <= i < front.len() && (#[trigger] front[i]).pid == pid;
                assert(readings[i].pid == pid);
            }
            if pid != 0 && exists|i: int|
                0 <= i < readings.len() && (#[trigger] readings[i]).pid == pid {
                let i = choose|i: int|
                    0 <= i < readings.len() && (#[trigger] readings[i]).pid == pid;
                if i < front.len() {
                    assert(front[i].pid == pid);
                }
            }
            if w.pid == pid {
                assert(readings[readings.len() - 1].pid == pid);
            }
        }
        assert forall|pid: u32|
            #![trigger s.pids_with_visible_windows.contains(pid)]
            s.pids_with_visible_windows.contains(pid) <==> pid != 0 && exists|i: int|
                0 <= i < readings.len() && (#[trigger] readings[i]).pid == pid
                    && readings[i].visible by {
            assert(p.pids_with_visible_windows.contains(pid) <==> pid != 0 && exists|i: int|
                0 <= i < front.len() && (#[trigger] front[i]).pid == pid && front[i].visible);
            if p.pids_with_visible_windows.contains(pid) {
                let i = choose|i: int|
                    0 <= i < front.len() && (#[trigger] front[i]).pid == pid && front[i].visible;
                assert(readings[i].pid == pid && readings[i].visible);
            }
            if pid != 0 && exists|i: int|
                0 <= i < readings.len() && (#[trigger] readings[i]).pid == pid
                    && readings[i].visible {
                let i = choose|i: int|
                    0 <= i < readings.len() && (#[trigger] readings[i]).pid == pid
                        && readings[i].visible;
                if i < front.len() {
                    assert(front[i].pid == pid && front[i].visible);
                }
            }
            if w.pid == pid && w.visible {
                assert(readings[readings.len() - 1].pid == pid);
            }
        }
    }
}

/// Affinities keep their own names: one that is not known is folded into no other, least of all
/// into the default.
pub proof fn law_affinity_names_differ(a: u32, b: u32)
    ensures
        affinity_text(a) == affinity_text(b) <==> a == b,
{
    reveal_strlit("WDA_NONE");
    reveal_strlit("WDA_MONITOR");
    reveal_strlit("WDA_EXCLUDEFROMCAPTURE");
    reveal_strlit("WDA_UNKNOWN_0x");
    lemma_affinity_name_tells(a);
    lemma_affinity_name_tells(b);
    text::law_hexadecimal_value(a as nat, 8);
    text::law_hexadecimal_value(b as nat, 8);
    if affinity_text(a) == affinity_text(b) {
        assert(affinity_text(a)[4] == affinity_text(b)[4]);
        assert(affinity_text(a).skip(14) == affinity_text(b).skip(14));
    }
}

proof fn lemma_affinity_name_tells(a: u32)
    ensures
        affinity_text(a).len() >= 8,
        affinity_text(a)[4] == (if a == WDA_NONE {
            'N'
        } else if a == WDA_MONITOR {
            'M'
        } else if a == WDA_EXCLUDEFROMCAPTURE {
            'E'
        } else {
            'U'
        }),
        a != WDA_NONE && a != WDA_MONITOR && a != WDA_EXCLUDEFROMCAPTURE ==> affinity_text(a).skip(14)
            == text::padded(text::hexadecimal(a as nat, false), 8),
{
    reveal_strlit("WDA_NONE");
    reveal_strlit("WDA_MONITOR");
    reveal_strlit("WDA_EXCLUDEFROMCAPTURE");
    reveal_strlit("WDA_UNKNOWN_0x");
    let digits = text::padded(text::hexadecimal(a as nat, false), 8);
    assert(("WDA_UNKNOWN_0x"@ + digits).skip(14) =~= digits);
}

/// Only the exclusion flag itself is a finding: a window is reported as hidden from capture, and as
/// tier 2, exactly when it carries that flag.
pub proof fn law_only_exclusion_is_notable(w: WindowObservationView, processes: Seq<ProcessView>)
    ensures
        w.observed(processes).tier() == 2 <==> w.affinity == WDA_EXCLUDEFROMCAPTURE,
        w.observed(processes).tier() == 3 <==> w.affinity != WDA_EXCLUDEFROMCAPTURE,
{
}

/// No window is lost and none is made up: a sweep lists, in order, exactly the windows whose affinity
/// was read and is not zero, each with its own handle, owner, affinity, title and visibility.
pub proof fn law_every_hidden_window_is_listed(readings: Seq<WindowReadingView>)
    ensures
        ({
            let kept = readings.filter(
                |w: WindowReadingView| w.affinity matches Some(a) && a != 0,
            );
            let listed = sweep_of(readings).non_default;
            &&& listed.len() == kept.len()
            &&& forall|k: int|
                #![trigger listed[k]]
                #![trigger kept[k]]
                0 <= k < kept.len() ==> {
                    &&& listed[k].hwnd == kept[k].hwnd
                    &&& listed[k].pid == kept[k].pid
                    &&& Some(listed[k].affinity) == kept[k].affinity
                    &&& listed[k].title == kept[k].title
                    &&& listed[k].visible == kept[k].visible
                }
        }),
        forall|i: int|
            #![trigger readings[i]]
            0 <= i < readings.len() && (readings[i].affinity matches Some(a) && a != 0)
                ==> sweep_of(readings).non_default.contains(
                (WindowObservationView {
                    hwnd: readings[i].hwnd,
                    pid: readings[i].pid,
                    affinity: readings[i].affinity.unwrap(),
                    title: readings[i].title,
                    visible: readings[i].visible,
                }),
            ),
    decreases readings.len(),
{
    reveal(Seq::filter);
    if readings.len() > 0 {
        let front = readings.drop_last();
        let last = readings.last();
        law_every_hidden_window_is_listed(front);
        let was = sweep_of(front).non_default;
        let now = sweep_of(readings).non_default;
        assert forall|i: int|
            #![trigger readings[i]]
            0 <= i < readings.len() && (readings[i].affinity matches Some(a) && a
                != 0) implies now.contains(
            (WindowObservationView {
                hwnd: readings[i].hwnd,
                pid: readings[i].pid,
                affinity: readings[i].affinity.unwrap(),
                title: readings[i].title,
                visible: readings[i].visible,
            }),
        ) by {
            let o = WindowObservationView {
                hwnd: readings[i].hwnd,
                pid: readings[i].pid,
                affinity: readings[i].affinity.unwrap(),
                title: readings[i].title,
                visible: readings[i].visible,
            };
            if i < front.len() {
                assert(front[i] == readings[i]);
                let k = choose|k: int| 0 <= k < was.len() && was[k] == o;
                assert(now[k] == o);
            } else {
                assert(now[now.len() - 1] == o);
            }
        }
    }
}

/// One window more adds itself to a sweep and changes nothing else: every window counts in the total,
/// one that could not be read counts as unreadable, and only its owner's count moves.
pub proof fn law_one_window_more(s: SweepView, w: WindowReadingView, other: u32)
    requires
        s.consistent(),
        s.total < u32::MAX,
    ensures
        s.with(w).total == s.total + 1,
        s.with(w).unreadable == s.unreadable + (if w.affinity is None { 1int } else { 0int }),
        w.pid != 0 ==> s.with(w).count(w.pid) == s.count(w.pid) + 1,
        other != w.pid || other == 0 ==> s.with(w).count(other) == s.count(other),
        w.affinity is None || w.affinity == Some(0u32) ==> s.with(w).non_default == s.non_default,
        SweepView::nothing().count(other) == 0,
        SweepView::nothing().total == 0 && SweepView::nothing().unreadable == 0,
{
    assert(s.count(w.pid) <= s.total);
}

/// The report on a window carries that window: its handle, its affinity by number and by name, its
/// title and its owner. It is called excluded from capture for the one flag that does that.
pub proof fn law_window_is_reported_as_it_was(w: WindowObservationView, processes: Seq<ProcessView>)
    ensures
        ({
            let o = w.observed(processes);
            &&& o matches ObservationView::CaptureExcluded { subject, detail }
            &&& subject.pid == w.pid
            &&& detail.capture_excluded <==> w.affinity == 0x11
            &&& detail.affinity_raw == Some(w.affinity)
            &&& detail.affinity_name == affinity_text(w.affinity)
            &&& detail.window matches Some(r)
            &&& r.id == Some(envelope::window_id(w.hwnd))
            &&& r.visible == Some(w.visible)
            &&& r.title_state is Captured <==> (w.title matches Some(t) && t.len() > 0)
            &&& r.title_state is Captured ==> r.title == w.title
            &&& r.title_state is Empty <==> (w.title matches Some(t) && t.len() == 0)
            &&& r.title_state is Unavailable <==> w.title is None
            &&& (forall|i: int|
                0 <= i < processes.len() ==> (#[trigger] processes[i]).pid != w.pid)
                ==> subject.path is Exited && subject.name is None && subject.parent_pid is None
            &&& forall|i: int|
                #![trigger processes[i]]
                0 <= i < processes.len() && processes[i].pid == w.pid && (forall|j: int|
                    0 <= j < i ==> (#[trigger] processes[j]).pid != w.pid) ==> subject.path
                    == processes[i].path && subject.name == processes[i].name && subject.parent_pid
                    == Some(processes[i].parent_pid)
        }),
{
    process::law_first_of_its_pid(processes, w.pid);
}

/// The affinities that are known have their names and no other affinity has one of these; any other is
/// named by its number, in eight hexadecimal digits.
pub proof fn law_what_an_affinity_is_called(a: u32)
    ensures
        affinity_text(a) == "WDA_NONE"@ <==> a == 0,
        affinity_text(a) == "WDA_MONITOR"@ <==> a == 1,
        affinity_text(a) == "WDA_EXCLUDEFROMCAPTURE"@ <==> a == 0x11,
        a != 0 && a != 1 && a != 0x11 ==> {
            &&& "WDA_UNKNOWN_0x"@.is_prefix_of(affinity_text(a))
            &&& affinity_text(a).len() == 22
            &&& text::value_of(affinity_text(a).skip(14), 16) == a
        },
{
    law_affinity_names_differ(a, 0);
    law_affinity_names_differ(a, 1);
    law_affinity_names_differ(a, 0x11);
    reveal_strlit("WDA_UNKNOWN_0x");
    lemma_affinity_name_tells(a);
    text::law_hexadecimal_value(a as nat, 8);
    text::law_padding(text::hexadecimal(a as nat, false), 8);
    text::lemma_eight_digits(a);
    if a != 0 && a != 1 && a != 0x11 {
        assert(affinity_text(a).take(14) =~= "WDA_UNKNOWN_0x"@);
    }
}

/// The message for a call that failed names the call and gives its error code in decimal.
pub proof fn law_failure_names_its_code(call: Seq<char>, code: u32)
    ensures
        win32_failure_text(call, code) == call + " failed: win32="@ + text::decimal(code as nat),
{
}

/// The view of a [`WindowReading`] shows all of it, and each part as it is.
pub proof fn law_view_of_window_reading(x: WindowReading)
    ensures
        x@.hwnd == x.hwnd,
        x@.visible == x.visible,
        x@.pid == x.pid,
        x@.affinity == x.affinity,
        x@.title is Some <==> x.title is Some,
        x.title matches Some(v) ==> x@.title == Some(v@),
{
}

/// The view of a [`WindowObservation`] shows all of it, and each part as it is.
pub proof fn law_view_of_window_observation(x: WindowObservation)
    ensures
        x@.hwnd == x.hwnd,
        x@.pid == x.pid,
        x@.affinity == x.affinity,
        x@.title is Some <==> x.title is Some,
        x.title matches Some(v) ==> x@.title == Some(v@),
        x@.visible == x.visible,
{
}

/// The view of a [`WindowSweep`] shows all of it, and each part as it is.
pub proof fn law_view_of_window_sweep(x: WindowSweep)
    ensures
        x@.non_default.len() == x.non_default@.len(),
        forall|i: int|
            0 <= i < x.non_default@.len() ==> #[trigger] x@.non_default[i] == x.non_default@[i]@,
        x@.pids_with_windows == x.pids_with_windows@,
        x@.pids_with_visible_windows == x.pids_with_visible_windows@,
        x@.window_counts == x.window_counts@,
        x@.unreadable == x.unreadable,
        x@.total == x.total,
{
}

} // verus!
