use cp_probe::affinity::{
    affinity_name, is_non_default, observe, read_title, sweep, WindowObservation, WindowReading,
    WindowSweep, WDA_EXCLUDEFROMCAPTURE, WDA_MONITOR, WDA_NONE,
};
use cp_probe::foreground::{self, ForegroundReading};
use cp_probe::platform::{version, VersionReading};
use cp_probe::process::{
    self, count_unreadable_paths, has_image, resolve_path, snapshot, PathReading, ProcessEntry,
    ProcessInfo,
};
use cp_probe::text::wide_null;
use cp_probe::{DetailS2, ImagePath, Observation, Signature, TitleState};

fn window(hwnd: isize, pid: u32, visible: bool, affinity: Option<u32>) -> WindowReading {
    WindowReading { hwnd, visible, pid, affinity, title: None }
}

fn info(pid: u32, name: &str, path: ImagePath) -> ProcessInfo {
    ProcessInfo { pid, parent_pid: 1, name: Some(name.to_string()), path }
}

fn readable(path: &str) -> ImagePath {
    ImagePath::Readable(path.to_string())
}

#[test]
fn affinity_names() {
    assert_eq!(affinity_name(WDA_NONE), "WDA_NONE");
    assert_eq!(affinity_name(WDA_MONITOR), "WDA_MONITOR");
    assert_eq!(affinity_name(WDA_EXCLUDEFROMCAPTURE), "WDA_EXCLUDEFROMCAPTURE");
    assert_eq!(affinity_name(2), "WDA_UNKNOWN_0x00000002");
    assert_eq!(affinity_name(0xDEAD_BEEF), "WDA_UNKNOWN_0xdeadbeef");
    assert!(!is_non_default(None) && !is_non_default(Some(0)) && is_non_default(Some(1)));
}

#[test]
fn one_sweep_two_products() {
    let s = sweep(Ok(vec![
        window(1, 10, false, Some(WDA_NONE)),
        window(2, 10, true, Some(WDA_NONE)),
        window(3, 20, false, Some(WDA_EXCLUDEFROMCAPTURE)),
        window(4, 0, true, Some(WDA_MONITOR)),
        window(5, 20, false, None),
    ]))
    .unwrap();
    assert_eq!((s.total, s.unreadable), (5, 1));
    assert_eq!((s.window_count(10), s.window_count(20), s.window_count(0)), (2, 2, 0));
    assert!(s.pids_with_windows.contains(&10) && s.pids_with_windows.contains(&20));
    assert!(!s.pids_with_windows.contains(&0));
    assert!(s.pids_with_visible_windows.contains(&10));
    assert!(!s.pids_with_visible_windows.contains(&20));
    let listed: Vec<(isize, u32, u32)> =
        s.non_default.iter().map(|w| (w.hwnd, w.pid, w.affinity)).collect();
    assert_eq!(listed, vec![(3, 20, WDA_EXCLUDEFROMCAPTURE), (4, 0, WDA_MONITOR)]);
}

#[test]
fn a_failed_sweep_says_so() {
    assert_eq!(sweep(Err(5)).unwrap_err(), "EnumWindows failed: win32=5");
    let empty = WindowSweep::default();
    assert_eq!((empty.total, empty.unreadable, empty.non_default.len()), (0, 0, 0));
}

#[test]
fn titles() {
    let buf = [0x61u16, 0x62, 0x63];
    assert_eq!(read_title(-1, &buf), None);
    assert_eq!(read_title(0, &buf).as_deref(), Some(""));
    assert_eq!(read_title(2, &buf).as_deref(), Some("ab"));
}

#[test]
fn excluded_windows_are_findings() {
    let list = vec![info(7, "first.exe", ImagePath::Unknown), info(7, "second.exe", ImagePath::Exited)];
    let w = |affinity: u32, pid: u32| WindowObservation {
        hwnd: 0xab,
        pid,
        affinity,
        title: Some("t".to_string()),
        visible: true,
    };
    match observe(&w(WDA_EXCLUDEFROMCAPTURE, 7), &list) {
        Observation::CaptureExcluded { subject, detail } => {
            assert_eq!(subject.name.as_deref(), Some("first.exe"));
            assert_eq!(subject.parent_pid, Some(1));
            assert!(detail.capture_excluded);
            assert_eq!(detail.affinity_raw, Some(17));
            assert_eq!(detail.affinity_name, "WDA_EXCLUDEFROMCAPTURE");
            let window = detail.window.unwrap();
            assert_eq!(window.title_state, TitleState::Captured);
            assert_eq!(window.id.as_deref(), Some("hwnd:0x000000ab"));
        }
        other => panic!("{other:?}"),
    }
    let o = observe(&w(WDA_MONITOR, 8), &list);
    assert_eq!(o.tier(), 3);
    match o {
        Observation::CaptureExcluded { subject, detail } => {
            assert_eq!((subject.pid, subject.path), (8, ImagePath::Exited));
            assert!(!detail.capture_excluded);
        }
        other => panic!("{other:?}"),
    }
}

#[test]
fn why_a_path_is_missing() {
    assert!(!has_image(0) && has_image(4));
    assert_eq!(resolve_path(0, &PathReading::NotOpened(5)), ImagePath::NotApplicable);
    assert_eq!(resolve_path(4, &PathReading::NotOpened(5)), ImagePath::AccessDenied);
    assert_eq!(resolve_path(4, &PathReading::NotOpened(87)), ImagePath::Exited);
    assert_eq!(resolve_path(4, &PathReading::NotNamed), ImagePath::Unknown);
    assert_eq!(resolve_path(4, &PathReading::NoImage), ImagePath::NotApplicable);
    assert_eq!(
        resolve_path(4, &PathReading::Named(vec![0x43, 0x3a, 0xd800])),
        readable("C:\u{FFFD}")
    );
}

#[test]
fn snapshots_keep_order_and_names() {
    let entry = |pid: u32, name: &str, path: PathReading| ProcessEntry {
        pid,
        parent_pid: pid + 1,
        exe_file: wide_null(name),
        path,
    };
    let list = snapshot(&Ok(vec![
        entry(0, "", PathReading::NoImage),
        entry(4, "System", PathReading::NotOpened(5)),
        entry(9, "a.exe", PathReading::Named(vec![0x61])),
    ]))
    .unwrap();
    let seen: Vec<(u32, u32, Option<&str>, bool)> = list
        .iter()
        .map(|p| (p.pid, p.parent_pid, p.name.as_deref(), p.path.is_readable()))
        .collect();
    assert_eq!(
        seen,
        vec![(0, 1, None, false), (4, 5, Some("System"), false), (9, 10, Some("a.exe"), true)]
    );
    assert_eq!(count_unreadable_paths(&list), 2);
    assert_eq!(
        snapshot(&Err(8)).unwrap_err(),
        "CreateToolhelp32Snapshot failed: win32=8"
    );
}

#[test]
fn both_signals_of_a_process_share_a_subject() {
    let s = sweep(Ok(vec![window(1, 9, true, Some(0)), window(2, 9, false, Some(0))])).unwrap();
    let checked = (
        Signature::Unsigned { sha256: "ab".to_string() },
        DetailS2 {
            verified: Some(false),
            chain_trusted: None,
            revocation_checked: Some(false),
            timestamped: None,
            hash_algorithm: "sha256",
            hash_source: "authenticode",
            platform_status: None,
        },
    );
    let (s1, s2) = process::observe(&info(9, "a.exe", readable("p")), &s, Some(&checked));
    let (first, detail) = match s1 {
        Observation::Process { subject, detail } => (subject, detail),
        other => panic!("{other:?}"),
    };
    assert_eq!((detail.present, detail.has_window, detail.window_count), (true, true, 2));
    assert_eq!(detail.session_kind, "unknown");
    match s2 {
        Some(Observation::Signature { subject, detail }) => {
            assert_eq!(subject, first);
            assert_eq!(subject.signature, Signature::Unsigned { sha256: "ab".to_string() });
            assert_eq!(detail.hash_source, "authenticode");
        }
        other => panic!("{other:?}"),
    }
    let (s1, s2) = process::observe(&info(8, "b.exe", ImagePath::Exited), &s, Some(&checked));
    assert!(s2.is_none());
    match s1 {
        Observation::Process { subject, detail } => {
            assert_eq!(subject.signature, Signature::Unavailable);
            assert_eq!((detail.has_window, detail.window_count), (false, 0));
        }
        other => panic!("{other:?}"),
    }
    let (s1, s2) = process::observe(&info(8, "b.exe", readable("p")), &s, None);
    assert!(s2.is_none());
    match s1 {
        Observation::Process { subject, .. } => {
            assert_eq!(subject.signature, Signature::NotChecked)
        }
        other => panic!("{other:?}"),
    }
}

#[test]
fn the_focused_window() {
    let list = vec![info(7, "a.exe", readable("p"))];
    assert!(foreground::probe(None, &list).is_none());
    let reading = |pid: u32| {
        Some(ForegroundReading { hwnd: 1, pid, title: Some(String::new()), visible: false })
    };
    match foreground::probe(reading(7), &list) {
        Some(Observation::Foreground { subject, detail }) => {
            assert_eq!(subject.name.as_deref(), Some("a.exe"));
            assert_eq!(subject.has_window, Some(true));
            assert!(detail.is_foreground);
            assert_eq!(detail.window.unwrap().title_state, TitleState::Empty);
        }
        other => panic!("{other:?}"),
    }
    match foreground::probe(reading(8), &list) {
        Some(Observation::Foreground { subject, .. }) => {
            assert_eq!((subject.pid, subject.path), (8, ImagePath::Exited))
        }
        other => panic!("{other:?}"),
    }
}

#[test]
fn versions_are_the_kernel_s() {
    let reading = |status: i32| VersionReading { status, major: 10, minor: 0, build: 26200 };
    assert_eq!(version(reading(0)), Some(("10.0".to_string(), "26200".to_string())));
    assert_eq!(version(reading(-1)), None);
}
