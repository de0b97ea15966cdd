use cp_probe::affinity::{sweep, WindowReading};
use cp_probe::audio::{AudioReading, DeviceReading, FlowReading, SessionReading};
use cp_probe::capability::{platform, probe_all, report, Probes, TitleProbe};
use cp_probe::coverage::{CapabilityReason, CapabilityState};
use cp_probe::foreground::ForegroundReading;
use cp_probe::ident::Uuid;
use cp_probe::json::Json;
use cp_probe::process::{PathReading, ProcessEntry, ProcessInfo};
use cp_probe::scan::{scan, Readings};
use cp_probe::serve::{
    coverage_message, dispatch, ids, plan, respond, sample_message, unparseable, Command, Outcome,
    Request, Response, ENCODE_FAILED,
};
use cp_probe::signature::SignatureCache;
use cp_probe::text::wide_null;
use cp_probe::{CapabilityKey, DetailS2, ImagePath, Signature};

fn detail(hash_source: &'static str) -> DetailS2 {
    DetailS2 {
        verified: None,
        chain_trusted: None,
        revocation_checked: None,
        timestamped: None,
        hash_algorithm: "sha256",
        hash_source,
        platform_status: None,
    }
}

fn check(path: &str) -> (Signature, DetailS2) {
    (Signature::Unsigned { sha256: path.to_string() }, detail("authenticode"))
}

fn entry(pid: u32, path: PathReading) -> ProcessEntry {
    ProcessEntry { pid, parent_pid: 0, exe_file: wide_null("x.exe"), path }
}

fn named(path: &str) -> PathReading {
    PathReading::Named(path.encode_utf16().collect())
}

fn window(pid: u32, affinity: Option<u32>) -> WindowReading {
    WindowReading { hwnd: 1, visible: true, pid, affinity, title: None }
}

fn endpoints(capture: Vec<DeviceReading>, render: FlowReading) -> AudioReading {
    AudioReading::Endpoints { capture: FlowReading::Devices(capture), render }
}

fn quiet() -> AudioReading {
    endpoints(Vec::new(), FlowReading::Devices(Vec::new()))
}

fn session_id() -> Uuid {
    Uuid { bytes: [5; 16] }
}

#[test]
fn a_scan_reports_everything_in_order() {
    let readings = Readings {
        windows: Ok(vec![window(8, Some(0)), window(8, Some(0x11))]),
        processes: Ok(vec![
            entry(4, PathReading::NotOpened(5)),
            entry(8, named("C:\\x.exe")),
            entry(9, named("C:\\x.exe")),
        ]),
        foreground: Some(ForegroundReading { hwnd: 2, pid: 8, title: None, visible: true }),
        audio: endpoints(
            vec![DeviceReading::Opened {
                native_id: "mic".to_string(),
                name: None,
                sessions: vec![Some(SessionReading {
                    state: Some(1),
                    pid: Some(9),
                    system_sounds: 1,
                })],
            }],
            FlowReading::Devices(Vec::new()),
        ),
    };
    let mut cache = SignatureCache::new();
    let (signals, meta) = scan(1000, &session_id(), readings, &mut cache, &check, &|| 42u64);
    let seen: Vec<(&str, u32, u8)> = signals
        .iter()
        .map(|s| (s.code, s.subject.as_ref().unwrap().pid, s.tier))
        .collect();
    assert_eq!(
        seen,
        vec![
            ("S1", 4, 3),
            ("S1", 8, 3),
            ("S2", 8, 3),
            ("S1", 9, 3),
            ("S2", 9, 3),
            ("S5", 8, 2),
            ("S6", 8, 3),
            ("S3", 9, 2),
        ]
    );
    assert!(meta.complete);
    assert_eq!(meta.scan_duration_ms, Some(42));
    assert_eq!(meta.poll_interval_ms, Some(1000));
    assert_eq!(meta.unreadable_counts.get("process_paths"), Some(&1));
    assert_eq!(meta.unreadable_counts.len(), 1);
    assert!(cache.lookup("C:\\x.exe").is_some());
    assert_eq!(
        signals[2].subject.as_ref().unwrap().signature,
        Signature::Unsigned { sha256: "C:\\x.exe".to_string() }
    );
    assert_eq!(
        signals[0].subject.as_ref().unwrap().signature,
        Signature::Unavailable
    );
}

#[test]
fn failed_probes_make_a_sample_incomplete() {
    let readings = Readings {
        windows: Err(6),
        processes: Err(8),
        foreground: None,
        audio: AudioReading::NotReady,
    };
    let mut cache = SignatureCache::new();
    let (signals, meta) = scan(500, &session_id(), readings, &mut cache, &check, &|| 0u64);
    assert!(signals.is_empty());
    assert!(!meta.complete);
    let errors: Vec<(&str, Option<&str>)> =
        meta.probe_errors.iter().map(|e| (e.code, e.message.as_deref())).collect();
    assert_eq!(
        errors,
        vec![
            ("S5", Some("EnumWindows failed: win32=6")),
            ("S1", Some("CreateToolhelp32Snapshot failed: win32=8")),
            ("S3", Some("CoInitializeEx failed")),
        ]
    );
    assert!(meta.unreadable_counts.is_empty());
}

#[test]
fn endpoints_that_refuse_are_counted() {
    let readings = Readings {
        windows: Ok(Vec::new()),
        processes: Ok(Vec::new()),
        foreground: None,
        audio: endpoints(vec![DeviceReading::Failed], FlowReading::Failed),
    };
    let mut cache = SignatureCache::new();
    let (_, meta) = scan(500, &session_id(), readings, &mut cache, &check, &|| 0u64);
    assert!(!meta.complete);
    assert_eq!(meta.probe_errors.len(), 1);
    assert_eq!(meta.probe_errors[0].code, "S3");
    assert_eq!(
        meta.probe_errors[0].message.as_deref(),
        Some("2 capture endpoint(s) could not be enumerated")
    );
    assert_eq!(meta.unreadable_counts.get("audio_endpoints"), Some(&2));
}

#[test]
fn an_empty_machine_is_a_complete_sample() {
    let readings = Readings {
        windows: Ok(Vec::new()),
        processes: Ok(Vec::new()),
        foreground: None,
        audio: quiet(),
    };
    let mut cache = SignatureCache::new();
    let (signals, meta) = scan(500, &session_id(), readings, &mut cache, &check, &|| 1u64);
    assert!(signals.is_empty() && meta.complete && meta.probe_errors.is_empty());
}

fn probes() -> Probes {
    Probes {
        processes: Ok(vec![ProcessInfo {
            pid: 1,
            parent_pid: 0,
            name: None,
            path: ImagePath::Readable("p".to_string()),
        }]),
        own_image: Ok(check("p")),
        sessions: Ok((2, 3)),
        windows: sweep(Ok(vec![window(1, Some(0))])),
        title: TitleProbe::Read(Some(String::new())),
    }
}

#[test]
fn platforms() {
    let p = platform(Some(("10.0".to_string(), "26200".to_string())), "x86_64");
    assert_eq!((p.os, p.arch), ("windows", "x86_64"));
    assert_eq!(p.os_version.as_deref(), Some("10.0"));
    assert_eq!(p.os_build.as_deref(), Some("26200"));
    assert_eq!(p.locale, None);
    assert_eq!(platform(None, "aarch64").arch, "arm64");
    assert_eq!(platform(None, "x86").arch, "other");
    assert_eq!(platform(None, "x86").os_version, None);
}

#[test]
fn every_capability_is_answered() {
    let all = probe_all(&probes());
    let seen: Vec<(CapabilityKey, CapabilityState)> =
        all.iter().map(|c| (c.key, c.state)).collect();
    assert_eq!(
        seen,
        vec![
            (CapabilityKey::S1Processes, CapabilityState::Full),
            (CapabilityKey::ProcessPaths, CapabilityState::Full),
            (CapabilityKey::S2Signature, CapabilityState::Partial),
            (CapabilityKey::S3MicOwner, CapabilityState::Partial),
            (CapabilityKey::S5CaptureExcluded, CapabilityState::Full),
            (CapabilityKey::S6WindowTitles, CapabilityState::Full),
            (CapabilityKey::HostMachine, CapabilityState::NotApplicable),
            (CapabilityKey::RealtimeEvents, CapabilityState::Partial),
        ]
    );
    for c in &all {
        assert_eq!(c.checked_at.is_some(), c.key != CapabilityKey::HostMachine);
    }
    assert_eq!(all[0].limits.get("processes_total"), Some(&1));
    assert!(all[1].limits.is_empty());
    assert_eq!(all[3].limits.get("capture_sessions_visible"), Some(&2));
    assert_eq!(all[3].limits.get("render_sessions_visible"), Some(&3));
    assert_eq!(
        all[3].detail.as_deref(),
        Some(
            "Capture and render endpoints are both enumerated. A render-endpoint session is \
             shown as context only, never as a microphone finding — WASAPI has no property \
             that distinguishes a loopback capture from ordinary playback. \
             Process-loopback activation, exclusive-mode streams and kernel-streaming clients \
             are not enumerated and will not appear at all."
        )
    );
    assert_eq!(
        all[2].detail.as_deref(),
        Some(
            "Hash and signer are only produced for images process_paths can read. A \
             protected or cross-bitness process is capped there, not here. Revocation \
             is never checked, to keep verification off the network."
        )
    );
    assert_eq!(
        all[7].detail.as_deref(),
        Some("Polling only. A process that starts and exits between samples is not observed.")
    );
}

#[test]
fn limits_are_stated() {
    let mut p = probes();
    p.processes = Ok(vec![
        ProcessInfo { pid: 1, parent_pid: 0, name: None, path: ImagePath::AccessDenied },
        ProcessInfo { pid: 2, parent_pid: 0, name: None, path: ImagePath::Readable(String::new()) },
    ]);
    p.windows = sweep(Ok(vec![window(1, None), window(2, Some(0))]));
    p.own_image = Ok((Signature::Unavailable, detail("none")));
    let all = probe_all(&p);
    assert_eq!(all[1].state, CapabilityState::Partial);
    assert_eq!(all[1].reason, Some(CapabilityReason::AccessDenied));
    assert_eq!(all[1].limits.get("processes_total"), Some(&2));
    assert_eq!(all[1].limits.get("paths_unreadable"), Some(&1));
    assert_eq!(
        all[1].detail.as_deref(),
        Some(
            "Non-elevated: session-0 service images are unreadable. An image that \
             cannot be read cannot be hashed, so S2 coverage is capped at the readable \
             set and tier 1 cannot fire for the remainder."
        )
    );
    assert_eq!(all[2].state, CapabilityState::Denied);
    assert_eq!(
        all[2].detail.as_deref(),
        Some("Could not hash the collector's own image: Unavailable")
    );
    assert_eq!(all[4].state, CapabilityState::Partial);
    assert_eq!(all[4].limits.get("windows_total"), Some(&2));
    assert_eq!(all[4].limits.get("windows_unreadable"), Some(&1));
    assert_eq!(
        all[4].detail.as_deref(),
        Some("Display affinity unreadable for some top-level windows.")
    );
}

#[test]
fn failed_probes_are_denied_or_unknown() {
    let e = || "no".to_string();
    let all = probe_all(&Probes {
        processes: Err(e()),
        own_image: Err(e()),
        sessions: Err(e()),
        windows: Err(e()),
        title: TitleProbe::Read(None),
    });
    let seen: Vec<(CapabilityState, Option<&str>, Option<&str>)> =
        all.iter().take(6).map(|c| (c.state, c.platform_api, c.detail.as_deref())).collect();
    assert_eq!(
        seen,
        vec![
            (CapabilityState::Denied, Some("CreateToolhelp32Snapshot"), Some("no")),
            (CapabilityState::Unknown, Some("QueryFullProcessImageNameW"), None),
            (CapabilityState::Unknown, Some("current_exe"), Some("no")),
            (
                CapabilityState::Denied,
                Some("IAudioSessionManager2::GetSessionEnumerator"),
                Some("no")
            ),
            (CapabilityState::Denied, Some("EnumWindows"), Some("no")),
            (
                CapabilityState::Denied,
                Some("GetWindowTextW"),
                Some("The title of an open window could not be read.")
            ),
        ]
    );
    assert!(all.iter().take(6).all(|c| c.reason == Some(CapabilityReason::ProbeFailed)));
}

#[test]
fn the_report_names_every_capability() {
    let r = report(session_id(), Uuid { bytes: [6; 16] }, 4, platform(None, "x86_64"), &probes());
    assert_eq!(r.seq, 4);
    assert_eq!(r.session_id, session_id());
    let names: Vec<&str> = (0..r.capabilities.len()).map(|i| r.capabilities.key(i)).collect();
    assert_eq!(
        names,
        vec![
            "S1_processes",
            "S2_signature",
            "S3_mic_owner",
            "S5_capture_excluded",
            "S6_window_titles",
            "host_machine",
            "process_paths",
            "realtime_events",
        ]
    );
}

fn command(op: &str) -> Command {
    Command {
        id: 3,
        op: op.to_string(),
        session_id: Some(session_id()),
        instance_id: Some(Uuid { bytes: [6; 16] }),
        seq: None,
        poll_interval_ms: None,
    }
}

#[test]
fn commands_are_planned() {
    assert!(matches!(plan(&command("ping")), Ok(Request::Ping)));
    match plan(&command("coverage")) {
        Ok(Request::Coverage { session_id: s, instance_id, seq }) => {
            assert_eq!((s, instance_id.bytes, seq), (session_id(), [6; 16], 1))
        }
        other => panic!("{other:?}"),
    }
    match plan(&command("scan")) {
        Ok(Request::Scan { seq, poll_interval_ms, .. }) => {
            assert_eq!((seq, poll_interval_ms), (1, 1000))
        }
        other => panic!("{other:?}"),
    }
    let mut c = command("scan");
    c.seq = Some(7);
    c.poll_interval_ms = Some(250);
    match plan(&c) {
        Ok(Request::Scan { seq, poll_interval_ms, .. }) => {
            assert_eq!((seq, poll_interval_ms), (7, 250))
        }
        other => panic!("{other:?}"),
    }
    assert_eq!(plan(&command("Scan")).unwrap_err(), "unknown op 'Scan'");
    for op in ["scan", "coverage"] {
        let mut c = command(op);
        c.instance_id = None;
        assert_eq!(plan(&c).unwrap_err(), "session_id and instance_id are required");
        assert!(ids(&c).is_err());
        let mut c = command(op);
        c.session_id = None;
        assert_eq!(plan(&c).unwrap_err(), "session_id and instance_id are required");
    }
}

fn fields(r: &Response) -> (u64, bool, bool, Option<&str>) {
    (r.id, r.ok, r.message.is_some(), r.error.as_deref())
}

#[test]
fn every_command_gets_one_answer() {
    let perform = |request: Request| match request {
        Request::Coverage { .. } => Outcome::Message(Json::Null),
        Request::Scan { .. } => Outcome::Panicked,
        Request::Ping => Outcome::Failed("never asked".to_string()),
    };
    assert_eq!(fields(&dispatch(&command("ping"), &perform)), (3, true, false, None));
    assert_eq!(fields(&dispatch(&command("coverage"), &perform)), (3, true, true, None));
    assert_eq!(
        fields(&dispatch(&command("scan"), &perform)),
        (3, false, false, Some("probe panicked"))
    );
    assert_eq!(
        fields(&dispatch(&command(""), &perform)),
        (3, false, false, Some("unknown op ''"))
    );
    assert_eq!(
        fields(&respond(9, Outcome::Failed("why".to_string()))),
        (9, false, false, Some("why"))
    );
    assert_eq!(
        fields(&unparseable("expected value")),
        (0, false, false, Some("unparseable command: expected value"))
    );
}

#[test]
fn responses_on_the_wire() {
    let text = |s: &str| Json::Text(s.to_string());
    assert_eq!(
        Response::ok(1, None).into_json(),
        Json::Object(vec![
            ("id".to_string(), Json::Number(1)),
            ("ok".to_string(), Json::Bool(true)),
        ])
    );
    assert_eq!(
        Response::ok(1, Some(Json::Number(2))).into_json(),
        Json::Object(vec![
            ("id".to_string(), Json::Number(1)),
            ("ok".to_string(), Json::Bool(true)),
            ("message".to_string(), Json::Number(2)),
        ])
    );
    assert_eq!(
        Response::err(1, "e".to_string()).into_json(),
        Json::Object(vec![
            ("id".to_string(), Json::Number(1)),
            ("ok".to_string(), Json::Bool(false)),
            ("error".to_string(), text("e")),
        ])
    );
    assert_eq!(ENCODE_FAILED, r#"{"id":0,"ok":false,"error":"response encode failed"}"#);
}

#[test]
fn window_titles_are_measured() {
    let mut p = probes();
    assert_eq!(probe_all(&p)[5].state, CapabilityState::Full);
    p.title = TitleProbe::NoWindow;
    let c = &probe_all(&p)[5];
    assert_eq!(c.key, CapabilityKey::S6WindowTitles);
    assert_eq!(c.state, CapabilityState::Unknown);
    assert_eq!(c.reason, Some(CapabilityReason::ProbeFailed));
    assert_eq!(c.platform_api, Some("GetTopWindow"));
    assert_eq!(c.detail.as_deref(), Some("No window was open to read a title from."));
}

fn member<'a>(j: &'a Json, name: &str) -> Option<&'a Json> {
    match j {
        Json::Object(members) => members.iter().find(|(k, _)| k == name).map(|(_, v)| v),
        _ => None,
    }
}

#[test]
fn messages_say_for_whom_they_are() {
    let session = Json::Text(session_id().to_text());
    let instance = Uuid { bytes: [6; 16] };
    let mut cache = SignatureCache::new();
    let readings = Readings {
        windows: Ok(Vec::new()),
        processes: Ok(vec![entry(4, PathReading::NotOpened(5))]),
        foreground: None,
        audio: quiet(),
    };
    let sample = sample_message(
        session_id(),
        instance,
        7,
        250,
        readings,
        &mut cache,
        &check,
        &|| 9u64,
    );
    let report = coverage_message(session_id(), instance, 8, platform(None, "x86_64"), &probes());
    for (j, kind, seq) in [(&sample, "signal_sample", 7), (&report, "coverage_report", 8)] {
        assert_eq!(member(j, "type"), Some(&Json::Text(kind.to_string())));
        assert_eq!(member(j, "session_id"), Some(&session));
        assert_eq!(member(j, "collector_instance_id"), Some(&Json::Text(instance.to_text())));
        assert_eq!(member(j, "seq"), Some(&Json::Number(seq)));
    }
    let meta = member(&sample, "sample_meta").unwrap();
    assert_eq!(member(meta, "scan_duration_ms"), Some(&Json::Number(9)));
    assert_eq!(member(meta, "poll_interval_ms"), Some(&Json::Number(250)));
    match member(&sample, "signals") {
        Some(Json::List(signals)) => assert_eq!(signals.len(), 1),
        other => panic!("{other:?}"),
    }
}

#[test]
fn a_ping_performs_nothing() {
    let never = |request: Request| -> Outcome { panic!("performed {request:?}") };
    assert_eq!(fields(&dispatch(&command("ping"), &never)), (3, true, false, None));
    assert!(!dispatch(&command("nothing"), &never).ok);
}

#[test]
fn a_message_goes_out_in_key_order() {
    let object = |names: &[&str]| {
        Json::Object(names.iter().map(|n| (n.to_string(), Json::Text(n.to_string()))).collect())
    };
    let inner = Json::List(vec![object(&["z", "y"])]);
    let message = Json::Object(vec![
        ("b".to_string(), inner),
        ("a".to_string(), Json::Number(1)),
        ("c".to_string(), Json::Null),
        ("a".to_string(), Json::Number(2)),
    ]);
    let sent = Response::ok(1, Some(message)).into_json();
    assert_eq!(
        member(&sent, "message"),
        Some(&Json::Object(vec![
            ("a".to_string(), Json::Number(2)),
            ("b".to_string(), Json::List(vec![object(&["y", "z"])])),
            ("c".to_string(), Json::Null),
        ]))
    );
}
