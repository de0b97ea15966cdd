use cp_probe::affinity::{sweep, WindowReading, WindowSweep};
use cp_probe::audio::{
    com_ready, device_kind, enumerate, friendly_name, is_system_sounds, probe, probe_capability,
    scoped_device_id, session_state, AudioReading, DeviceReading, Flow, FlowReading, MicHolder,
    SessionReading, SessionState, RPC_E_CHANGED_MODE,
};
use cp_probe::ident::Uuid;
use cp_probe::process::ProcessInfo;
use cp_probe::{DetailS3, DeviceKind, ImagePath, Observation, Signal, Subject};

const MIC: &str = "{0.0.1.00000000}.{mic}";

fn counting() -> Uuid {
    Uuid { bytes: [0, 1, 2, 3, 4, 5, 6, 7, 8, 9, 10, 11, 12, 13, 14, 15] }
}

fn session(state: i32, pid: u32) -> Option<SessionReading> {
    Some(SessionReading { state: Some(state), pid: Some(pid), system_sounds: 1 })
}

fn device(sessions: Vec<Option<SessionReading>>) -> DeviceReading {
    DeviceReading::Opened {
        native_id: MIC.to_string(),
        name: Some("Microphone".to_string()),
        sessions,
    }
}

fn holder(pid: u32, flow: Flow) -> MicHolder {
    MicHolder {
        pid,
        device_native_id: MIC.to_string(),
        device_name: None,
        state: SessionState::Inactive,
        is_system_sounds: false,
        flow,
    }
}

fn observed(
    windows: &WindowSweep,
    list: &[ProcessInfo],
    h: MicHolder,
) -> (Subject, DetailS3, u8) {
    let (mut all, failed) = probe(windows, list, &counting(), Ok((vec![h], 3))).unwrap();
    assert_eq!((all.len(), failed), (1, 3));
    let o = all.pop().unwrap();
    let tier = o.tier();
    match o {
        Observation::Microphone { subject, detail } => (subject, detail, tier),
        other => panic!("{other:?}"),
    }
}

#[test]
fn com_is_usable_after_success_or_a_changed_mode() {
    assert_eq!(RPC_E_CHANGED_MODE as u32, 0x8001_0106);
    assert!(com_ready(0) && com_ready(1) && com_ready(RPC_E_CHANGED_MODE));
    assert!(!com_ready(-1));
}

#[test]
fn session_states() {
    assert_eq!(session_state(Some(0)), SessionState::Inactive);
    assert_eq!(session_state(Some(1)), SessionState::Active);
    assert_eq!(session_state(Some(2)), SessionState::Expired);
    assert_eq!(session_state(Some(3)), SessionState::Unknown);
    assert_eq!(session_state(None), SessionState::Unknown);
    assert_eq!(SessionState::Active.as_str(), "active");
    assert_eq!(SessionState::Inactive.as_str(), "inactive");
    assert_eq!(SessionState::Expired.as_str(), "expired");
    assert_eq!(SessionState::Unknown.as_str(), "unknown");
}

#[test]
fn system_sounds_is_s_ok_alone() {
    assert!(is_system_sounds(0));
    assert!(!is_system_sounds(1));
    assert!(!is_system_sounds(-2_147_467_259));
}

#[test]
fn friendly_names() {
    assert_eq!(friendly_name(&None), None);
    assert_eq!(friendly_name(&Some(String::new())), None);
    assert_eq!(friendly_name(&Some("Mic".to_string())).as_deref(), Some("Mic"));
    assert_eq!(device_kind(MIC), DeviceKind::Unknown);
}

#[test]
fn the_whole_probe_can_fail() {
    assert_eq!(enumerate(&AudioReading::NotReady).unwrap_err(), "CoInitializeEx failed");
    assert_eq!(
        enumerate(&AudioReading::NoEnumerator(-2_147_221_164)).unwrap_err(),
        "CoCreateInstance(MMDeviceEnumerator): 0x80040154"
    );
}

#[test]
fn sessions_that_do_not_count_are_skipped() {
    let reading = AudioReading::Endpoints {
        capture: FlowReading::Devices(vec![
            device(vec![
                session(1, 10),
                None,
                session(2, 11),
                session(0, 12),
                Some(SessionReading { state: Some(1), pid: None, system_sounds: 1 }),
                Some(SessionReading { state: None, pid: Some(13), system_sounds: 0 }),
            ]),
            DeviceReading::Failed,
        ]),
        render: FlowReading::Devices(vec![device(vec![session(1, 20)])]),
    };
    let (holders, failed) = enumerate(&reading).unwrap();
    assert_eq!(failed, 1);
    let seen: Vec<(u32, SessionState, bool, Flow)> =
        holders.iter().map(|h| (h.pid, h.state, h.is_system_sounds, h.flow)).collect();
    assert_eq!(
        seen,
        vec![
            (10, SessionState::Active, false, Flow::Capture),
            (12, SessionState::Inactive, false, Flow::Capture),
            (13, SessionState::Unknown, true, Flow::Capture),
            (20, SessionState::Active, false, Flow::Render),
        ]
    );
    assert!(holders.iter().all(|h| h.device_native_id == MIC));
    assert!(holders.iter().all(|h| h.device_name.as_deref() == Some("Microphone")));
    assert_eq!(probe_capability(&Ok((holders, failed))), Ok((3, 1)));
}

#[test]
fn a_failed_flow_does_not_cost_the_other() {
    let some = || FlowReading::Devices(vec![device(vec![session(1, 10)])]);
    let (holders, failed) =
        enumerate(&AudioReading::Endpoints { capture: some(), render: FlowReading::Failed }).unwrap();
    assert_eq!((holders.len(), holders[0].flow, failed), (1, Flow::Capture, 1));
    let (holders, failed) =
        enumerate(&AudioReading::Endpoints { capture: FlowReading::Failed, render: some() }).unwrap();
    assert_eq!((holders.len(), holders[0].flow, failed), (1, Flow::Render, 1));
    assert_eq!(probe_capability(&Err("no".to_string())), Err("no".to_string()));
}

#[test]
fn device_identifiers_are_keyed_by_the_session() {
    let id = scoped_device_id(MIC, &counting());
    assert_eq!(id, "86e777ed190408aa1d04b66089c9eaa8");
    assert_eq!(scoped_device_id(MIC, &counting()), id);
    assert_eq!(
        scoped_device_id(MIC, &Uuid { bytes: [9; 16] }),
        "067e8f48418d772e8d07bc33058785db"
    );
    assert_eq!(scoped_device_id("naïve €", &counting()), "183fe5e0eb905f2e532cc3e142831650");
}

#[test]
fn a_windowless_holder_is_the_signature() {
    let window = |pid: u32, visible: bool| WindowReading {
        hwnd: 1,
        visible,
        pid,
        affinity: Some(0),
        title: None,
    };
    let windows = sweep(Ok(vec![window(20, false), window(30, true)])).unwrap();
    let list: Vec<ProcessInfo> = [(10, "first"), (10, "last"), (20, "tray"), (30, "meeting")]
        .iter()
        .map(|(pid, name)| ProcessInfo {
            pid: *pid,
            parent_pid: 1,
            name: Some(name.to_string()),
            path: ImagePath::Unknown,
        })
        .collect();

    let (subject, detail, tier) = observed(&windows, &list, holder(10, Flow::Capture));
    assert_eq!(subject.name.as_deref(), Some("last"));
    assert_eq!(subject.has_window, Some(false));
    assert_eq!((detail.holds_microphone, detail.endpoint_flow, tier), (true, "capture", 2));
    assert_eq!(detail.session_state, "inactive");
    assert_eq!(detail.pre_existing, None);
    let device = detail.device.unwrap();
    assert_eq!(device.id, "86e777ed190408aa1d04b66089c9eaa8");
    assert_eq!((device.id_scope, device.kind), ("session", DeviceKind::Unknown));

    let (_, detail, tier) = observed(&windows, &list, holder(20, Flow::Capture));
    assert_eq!((detail.has_window, detail.has_visible_window, tier), (true, false, 3));
    let (_, detail, tier) = observed(&windows, &list, holder(30, Flow::Capture));
    assert_eq!((detail.has_window, detail.has_visible_window, tier), (true, true, 3));

    let (_, detail, tier) = observed(&windows, &list, holder(10, Flow::Render));
    assert_eq!((detail.holds_microphone, detail.endpoint_flow, tier), (false, "render", 3));

    let mut system = holder(10, Flow::Capture);
    system.is_system_sounds = true;
    assert_eq!(observed(&windows, &list, system).2, 3);

    let (subject, _, _) = observed(&windows, &list, holder(99, Flow::Capture));
    assert_eq!((subject.pid, subject.path), (99, ImagePath::AccessDenied));
}

#[test]
fn the_native_identifier_stays_here() {
    let windows = WindowSweep::default();
    let (all, _) =
        probe(&windows, &[], &counting(), Ok((vec![holder(10, Flow::Capture)], 0))).unwrap();
    assert_eq!(all.len(), 1);
    for o in all {
        assert!(!format!("{o:?}").contains("{mic}"));
        assert!(!format!("{:?}", Signal::from(o).into_json()).contains("{mic}"));
    }
}

#[test]
fn a_failed_enumeration_is_passed_on() {
    let windows = WindowSweep::default();
    let r = probe(&windows, &[], &counting(), Err("no".to_string()));
    assert_eq!(r.unwrap_err(), "no");
}
