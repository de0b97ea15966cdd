use cp_probe::coverage::{CapabilityReason, Platform};
use cp_probe::ident::Uuid;
use cp_probe::json::Json;
use cp_probe::{
    AudioDevice, Capability, CapabilityKey, CapabilityState, CoverageReason, CoverageReport,
    DetailS1, DetailS2, DetailS3, DetailS5, DetailS6, DeviceKind, Envelope, ImagePath, Observation,
    ProbeErrorKind, SampleMeta, SessionEvent, Signal, Signature, Subject, Timestamp, TitleState,
    WindowRef, COLLECTOR_ID, SCHEMA_VERSION,
};

/// The compact text of a value.
fn render(j: &Json) -> String {
    match j {
        Json::Null => "null".to_string(),
        Json::Bool(b) => b.to_string(),
        Json::Number(n) => n.to_string(),
        Json::Text(s) => serde_json::to_string(s).unwrap(),
        Json::List(items) => {
            let parts: Vec<String> = items.iter().map(render).collect();
            format!("[{}]", parts.join(","))
        }
        Json::Object(members) => {
            let parts: Vec<String> = members
                .iter()
                .map(|(k, v)| format!("{}:{}", serde_json::to_string(k).unwrap(), render(v)))
                .collect();
            format!("{{{}}}", parts.join(","))
        }
    }
}

fn member<'a>(j: &'a Json, name: &str) -> Option<&'a Json> {
    match j {
        Json::Object(members) => members.iter().find(|(k, _)| k == name).map(|(_, v)| v),
        _ => None,
    }
}

fn readable(pid: u32) -> Subject {
    Subject::new(pid, Some("a.exe".to_string()), ImagePath::Readable("C:\\a.exe".to_string()))
}

fn microphone(holds: bool, window: bool, visible: bool, system: bool) -> Observation {
    Observation::Microphone {
        subject: readable(7),
        detail: DetailS3 {
            holds_microphone: holds,
            has_window: window,
            has_visible_window: visible,
            device: None,
            session_state: "active",
            is_system_sounds: system,
            pre_existing: None,
            endpoint_flow: "capture",
        },
    }
}

#[test]
fn versions() {
    assert_eq!(SCHEMA_VERSION, "1.0");
    assert_eq!(COLLECTOR_ID, "host-agent/0.1.0");
}

#[test]
fn a_path_exists_iff_the_image_was_readable() {
    let cases = [
        (ImagePath::Readable("p".to_string()), Some("p"), "readable"),
        (ImagePath::AccessDenied, None, "access_denied"),
        (ImagePath::NotApplicable, None, "not_applicable"),
        (ImagePath::Exited, None, "exited"),
        (ImagePath::Unknown, None, "unknown"),
    ];
    for (path, text, state) in &cases {
        assert_eq!(path.wire(), (*text, *state));
        assert_eq!(path.is_readable(), text.is_some());
    }
}

#[test]
fn signature_wire_forms() {
    let h = || "ab".to_string();
    let s = || "Acme".to_string();
    let cases = [
        (Signature::NotChecked, (None, "not_checked", None)),
        (Signature::Unavailable, (None, "unavailable", None)),
        (Signature::Unsigned { sha256: h() }, (None, "unsigned", Some("ab"))),
        (Signature::Valid { signer: s(), sha256: h() }, (Some("Acme"), "valid", Some("ab"))),
        (
            Signature::Invalid { signer: Some(s()), sha256: h() },
            (Some("Acme"), "invalid", Some("ab")),
        ),
        (Signature::Invalid { signer: None, sha256: h() }, (None, "invalid", Some("ab"))),
    ];
    for (sig, wire) in &cases {
        assert_eq!(&sig.wire(), wire);
        assert_eq!(sig.debug(), format!("{sig:?}"));
    }
    let odd = Signature::Valid { signer: "q\"\n\u{1F600}é".to_string(), sha256: "\\".to_string() };
    assert_eq!(odd.debug(), format!("{odd:?}"));
}

#[test]
fn no_hash_without_a_readable_image() {
    let sig = || Signature::Valid { signer: "Acme".to_string(), sha256: "ab".to_string() };
    assert_eq!(readable(1).signature, Signature::NotChecked);
    assert_eq!(readable(1).with_signature(sig()).signature, sig());
    let denied = Subject::new(1, None, ImagePath::AccessDenied);
    assert_eq!(denied.signature, Signature::Unavailable);
    assert_eq!(denied.with_signature(sig()).signature, Signature::Unavailable);
}

#[test]
fn subject_on_the_wire() {
    let s = Subject::new(4, None, ImagePath::AccessDenied);
    assert_eq!(
        render(&s.to_json()),
        "{\"pid\":4,\"name\":null,\"path\":null,\"path_state\":\"access_denied\",\
         \"signature_state\":\"unavailable\",\"signer\":null,\"sha256\":null}"
    );
    let mut s = readable(5)
        .with_signature(Signature::Valid { signer: "Acme".to_string(), sha256: "ab".to_string() })
        .with_has_window(true)
        .with_start_ts(Timestamp::from_unix(0, 0).unwrap());
    s.parent_pid = Some(3);
    s.elevated = Some(false);
    assert_eq!(
        render(&s.to_json()),
        "{\"pid\":5,\"name\":\"a.exe\",\"path\":\"C:\\\\a.exe\",\"path_state\":\"readable\",\
         \"signature_state\":\"valid\",\"signer\":\"Acme\",\"sha256\":\"ab\",\
         \"start_ts\":\"1970-01-01T00:00:00.000Z\",\"has_window\":true,\"parent_pid\":3,\
         \"elevated\":false}"
    );
}

#[test]
fn window_titles_and_ids() {
    let w = WindowRef::new(0x1234, Some("Editor".to_string()), true);
    assert_eq!(w.id.as_deref(), Some("hwnd:0x00001234"));
    assert_eq!(w.title.as_deref(), Some("Editor"));
    assert_eq!(w.title_state, TitleState::Captured);
    let empty = WindowRef::new(0x1234, Some(String::new()), false);
    assert_eq!((empty.title.clone(), empty.title_state), (None, TitleState::Empty));
    let none = WindowRef::new(-1, None, false);
    assert_eq!((none.title.clone(), none.title_state), (None, TitleState::Unavailable));
    assert_eq!(none.id, Some(format!("hwnd:0x{:08x}", -1isize as usize)));
    assert_eq!(
        render(&w.to_json()),
        "{\"id\":\"hwnd:0x00001234\",\"title\":\"Editor\",\"title_state\":\"captured\",\
         \"visible\":true}"
    );
}

#[test]
fn devices_are_session_scoped() {
    let d = AudioDevice::session_scoped("ab".to_string(), None, DeviceKind::Unknown);
    assert_eq!(d.id_scope, "session");
    assert_eq!(member(&d.to_json(), "id"), Some(&Json::Text("ab".to_string())));
    assert_eq!(member(&d.to_json(), "kind"), Some(&Json::Text("unknown".to_string())));
}

#[test]
fn tiers_are_two_or_three() {
    assert_eq!(microphone(true, false, false, false).tier(), 2);
    assert_eq!(microphone(true, true, false, false).tier(), 3);
    assert_eq!(microphone(true, true, true, false).tier(), 3);
    assert_eq!(microphone(false, false, false, false).tier(), 3);
    assert_eq!(microphone(true, false, false, true).tier(), 3);
    let render = Observation::Microphone {
        subject: readable(7),
        detail: DetailS3::render_session(false, false, None, "active", false, None),
    };
    assert_eq!(render.tier(), 3);
    for excluded in [true, false] {
        let o = Observation::CaptureExcluded {
            subject: readable(7),
            detail: DetailS5 {
                capture_excluded: excluded,
                affinity_raw: None,
                affinity_name: String::new(),
                window: None,
            },
        };
        assert_eq!(o.tier(), if excluded { 2 } else { 3 });
    }
}

#[test]
fn keys_are_stable_per_thing() {
    let process = Observation::Process {
        subject: readable(12),
        detail: DetailS1 { present: true, has_window: false, window_count: 0, session_kind: "unknown" },
    };
    assert_eq!(process.observation_key().as_deref(), Some("S1:pid:12"));
    assert_eq!((process.code(), process.scope()), ("S1", "process"));
    let image = Observation::Signature {
        subject: readable(12),
        detail: DetailS2 {
            verified: None,
            chain_trusted: None,
            revocation_checked: None,
            timestamped: None,
            hash_algorithm: "sha256",
            hash_source: "none",
            platform_status: None,
        },
    };
    assert_eq!(image.observation_key().as_deref(), Some("S2:pid:12"));
    assert_eq!((image.code(), image.scope()), ("S2", "process"));
    let without = microphone(true, false, false, false);
    assert_eq!(without.observation_key().as_deref(), Some("S3:pid:7"));
    let with = Observation::Microphone {
        subject: readable(7),
        detail: DetailS3::render_session(
            false,
            false,
            Some(AudioDevice::session_scoped("d0".to_string(), None, DeviceKind::Unknown)),
            "active",
            false,
            None,
        ),
    };
    assert_eq!(with.observation_key().as_deref(), Some("S3:pid:7:dev:d0"));
    let window = Observation::CaptureExcluded {
        subject: readable(7),
        detail: DetailS5 {
            capture_excluded: true,
            affinity_raw: Some(17),
            affinity_name: "WDA_EXCLUDEFROMCAPTURE".to_string(),
            window: Some(WindowRef::new(255, None, true)),
        },
    };
    assert_eq!(window.observation_key().as_deref(), Some("S5:hwnd:0x000000ff"));
    assert_eq!((window.code(), window.scope()), ("S5", "window"));
    let nameless = Observation::CaptureExcluded {
        subject: readable(7),
        detail: DetailS5 {
            capture_excluded: true,
            affinity_raw: Some(17),
            affinity_name: "WDA_EXCLUDEFROMCAPTURE".to_string(),
            window: None,
        },
    };
    assert_eq!(nameless.observation_key(), None);
    let front = Observation::Foreground {
        subject: readable(7),
        detail: DetailS6 { is_foreground: true, window: None },
    };
    assert_eq!(front.observation_key().as_deref(), Some("S6:foreground"));
    assert_eq!((front.code(), front.scope(), front.tier()), ("S6", "window", 3));
}

#[test]
fn signal_on_the_wire() {
    let o = Observation::Process {
        subject: Subject::new(4, None, ImagePath::AccessDenied),
        detail: DetailS1 { present: true, has_window: true, window_count: 2, session_kind: "unknown" },
    };
    assert_eq!(
        render(&Signal::from(o).into_json()),
        "{\"code\":\"S1\",\"tier\":3,\"scope\":\"process\",\
         \"subject\":{\"pid\":4,\"name\":null,\"path\":null,\"path_state\":\"access_denied\",\
         \"signature_state\":\"unavailable\",\"signer\":null,\"sha256\":null},\
         \"detail\":{\"has_window\":true,\"present\":true,\"session_kind\":\"unknown\",\
         \"window_count\":2},\"observation_key\":\"S1:pid:4\"}"
    );
}

#[test]
fn detail_payloads_on_the_wire() {
    let s1 = DetailS1 { present: true, has_window: false, window_count: 0, session_kind: "unknown" };
    assert_eq!(
        render(&s1.to_json()),
        "{\"present\":true,\"has_window\":false,\"window_count\":0,\"session_kind\":\"unknown\"}"
    );
    let s2 = DetailS2 {
        verified: Some(true),
        chain_trusted: None,
        revocation_checked: Some(false),
        timestamped: None,
        hash_algorithm: "sha256",
        hash_source: "authenticode",
        platform_status: Some("0x00000000".to_string()),
    };
    assert_eq!(
        render(&s2.to_json()),
        "{\"verified\":true,\"chain_trusted\":null,\"revocation_checked\":false,\
         \"timestamped\":null,\"hash_algorithm\":\"sha256\",\"hash_source\":\"authenticode\",\
         \"platform_status\":\"0x00000000\"}"
    );
    let s3 = DetailS3::render_session(true, false, None, "inactive", true, Some(false));
    assert_eq!(
        render(&s3.to_json()),
        "{\"holds_microphone\":false,\"has_window\":true,\"has_visible_window\":false,\
         \"session_state\":\"inactive\",\"is_system_sounds\":true,\"pre_existing\":false,\
         \"endpoint_flow\":\"render\"}"
    );
    let s5 = DetailS5 {
        capture_excluded: false,
        affinity_raw: None,
        affinity_name: "WDA_MONITOR".to_string(),
        window: None,
    };
    assert_eq!(
        render(&s5.to_json()),
        "{\"capture_excluded\":false,\"affinity_raw\":null,\"affinity_name\":\"WDA_MONITOR\"}"
    );
    let s6 = DetailS6 { is_foreground: true, window: None };
    assert_eq!(render(&s6.to_json()), "{\"is_foreground\":true}");
    let mut device =
        AudioDevice::session_scoped("ab".to_string(), Some("Mic".to_string()), DeviceKind::Virtual);
    device.is_default = Some(true);
    assert_eq!(
        render(&device.to_json()),
        "{\"id\":\"ab\",\"id_scope\":\"session\",\"name\":\"Mic\",\"kind\":\"virtual\",\
         \"is_default\":true}"
    );
    let mut window = WindowRef::new(1, None, true);
    window.on_screen = Some(false);
    assert_eq!(
        render(&window.to_json()),
        "{\"id\":\"hwnd:0x00000001\",\"title\":null,\"title_state\":\"unavailable\",\
         \"visible\":true,\"on_screen\":false}"
    );
}

#[test]
fn a_signal_s_detail_is_in_key_order() {
    let device = AudioDevice::session_scoped("ab".to_string(), None, DeviceKind::Unknown);
    let o = Observation::Microphone {
        subject: readable(7),
        detail: DetailS3::render_session(true, false, Some(device), "active", false, None),
    };
    let signal: Signal = o.into();
    assert_eq!(
        render(&signal.detail),
        "{\"device\":{\"id\":\"ab\",\"id_scope\":\"session\",\"kind\":\"unknown\"},\
         \"endpoint_flow\":\"render\",\"has_visible_window\":false,\"has_window\":true,\
         \"holds_microphone\":false,\"is_system_sounds\":false,\"session_state\":\"active\"}"
    );
}

#[test]
fn sample_meta_is_honest() {
    let mut m = SampleMeta::snapshot(5, 1000);
    assert!(m.complete);
    assert_eq!(
        render(&m.to_json()),
        "{\"emission\":\"snapshot\",\"complete\":true,\"scan_duration_ms\":5,\
         \"poll_interval_ms\":1000}"
    );
    m.count_unreadable("process_paths", 0);
    assert!(m.unreadable_counts.is_empty());
    m.count_unreadable("process_paths", 2);
    m.count_unreadable("audio_endpoints", 1);
    m.count_unreadable("process_paths", 3);
    assert!(m.complete);
    m.record_error("S3", ProbeErrorKind::ApiFailure, "no".to_string());
    assert!(!m.complete);
    assert_eq!(
        render(&m.to_json()),
        "{\"emission\":\"snapshot\",\"complete\":false,\"scan_duration_ms\":5,\
         \"poll_interval_ms\":1000,\"unreadable_counts\":{\"audio_endpoints\":1,\
         \"process_paths\":5},\"probe_errors\":[{\"code\":\"S3\",\"kind\":\"api_failure\",\
         \"message\":\"no\"}]}"
    );
}

#[test]
fn envelopes_carry_a_sample_or_an_event() {
    let session = Uuid { bytes: [1; 16] };
    let instance = Uuid { bytes: [2; 16] };
    let sample = Envelope::sample(session, instance, 9, Vec::new(), SampleMeta::snapshot(0, 1));
    assert!(sample.signals.is_some() && sample.sample_meta.is_some() && sample.event.is_none());
    let j = sample.clone().into_json();
    assert_eq!(member(&j, "type"), Some(&Json::Text("signal_sample".to_string())));
    assert_eq!(member(&j, "seq"), Some(&Json::Number(9)));
    assert_eq!(
        member(&j, "session_id"),
        Some(&Json::Text("01010101-0101-0101-0101-010101010101".to_string()))
    );
    assert_eq!(member(&j, "signals"), Some(&Json::List(Vec::new())));
    assert_eq!(member(&j, "event"), None);

    let event = Envelope::event(session, instance, 10, SessionEvent::candidate_quit());
    let j = event.into_json();
    assert_eq!(member(&j, "type"), Some(&Json::Text("session_event".to_string())));
    assert_eq!(member(&j, "signals"), None);
    assert_eq!(member(&j, "sample_meta"), None);
    let e = member(&j, "event").unwrap();
    assert_eq!(member(e, "code"), Some(&Json::Text("candidate_quit".to_string())));
    assert_eq!(member(e, "terminal"), Some(&Json::Bool(true)));
    assert_eq!(member(e, "tier"), None);
}

#[test]
fn session_events_say_whether_they_end_the_session() {
    let cases = [
        (SessionEvent::consent_granted(), "consent_granted", false),
        (SessionEvent::consent_declined(), "consent_declined", true),
        (SessionEvent::candidate_quit(), "candidate_quit", true),
    ];
    for (e, code, terminal) in &cases {
        assert_eq!((e.code, e.terminal, e.initiator), (*code, *terminal, "candidate"));
        assert!(e.message.is_none());
    }
}

#[test]
fn capabilities_use_the_shorthand_only_where_nothing_is_hidden() {
    let c = Capability::not_applicable(CapabilityKey::HostMachine);
    assert!(c.shorthandable());
    assert_eq!(render(&c.to_json()), "\"not_applicable\"");
    let full = Capability::probed(CapabilityKey::S6WindowTitles, "GetWindowTextW");
    assert!(!full.shorthandable());
    let j = full.to_json();
    assert_eq!(member(&j, "state"), Some(&Json::Text("full".to_string())));
    assert_eq!(member(&j, "method"), Some(&Json::Text("probed".to_string())));
    assert_eq!(member(&j, "reason"), None);
    assert_eq!(member(&j, "limits"), None);
    assert!(member(&j, "checked_at").is_some());
    let some = Capability::degraded(
        CapabilityKey::ProcessPaths,
        CapabilityState::Partial,
        CapabilityReason::AccessDenied,
        "Q",
    )
    .with_detail("why".to_string())
    .with_limit("total", 3)
    .with_limit("hidden", 1);
    let j = some.to_json();
    assert_eq!(member(&j, "reason"), Some(&Json::Text("access_denied".to_string())));
    assert_eq!(member(&j, "detail"), Some(&Json::Text("why".to_string())));
    assert_eq!(member(&j, "signals"), Some(&Json::List(vec![Json::Text("S2".to_string())])));
    assert_eq!(render(member(&j, "limits").unwrap()), "{\"hidden\":1,\"total\":3}");
}

#[test]
fn coverage_report_lists_by_name() {
    let id = Uuid { bytes: [3; 16] };
    let report = CoverageReport::new(
        id,
        id,
        1,
        CoverageReason::DeviceChanged,
        Platform { os: "windows", os_version: None, os_build: None, arch: "arm64", locale: None },
        vec![
            Capability::probed(CapabilityKey::ProcessPaths, "Q"),
            Capability::not_applicable(CapabilityKey::HostMachine),
            Capability::probed(CapabilityKey::S1Processes, "C"),
        ],
    );
    let j = report.to_json();
    assert_eq!(member(&j, "type"), Some(&Json::Text("coverage_report".to_string())));
    assert_eq!(member(&j, "reason"), Some(&Json::Text("device_changed".to_string())));
    assert_eq!(
        render(member(&j, "platform").unwrap()),
        "{\"os\":\"windows\",\"os_version\":null,\"os_build\":null,\"arch\":\"arm64\",\"locale\":null}"
    );
    let names: Vec<String> = match member(&j, "capabilities") {
        Some(Json::Object(members)) => members.iter().map(|(k, _)| k.clone()).collect(),
        _ => Vec::new(),
    };
    assert_eq!(names, vec!["S1_processes", "host_machine", "process_paths"]);
}

#[test]
fn a_copied_value_is_the_same_value() {
    let j = Json::Object(vec![
        ("a".to_string(), Json::List(vec![Json::Null, Json::Bool(true), Json::Number(3)])),
        ("b".to_string(), Json::Object(vec![("c".to_string(), Json::Text("d".to_string()))])),
    ]);
    assert_eq!(j.clone(), j);
    assert_eq!(render(&j), "{\"a\":[null,true,3],\"b\":{\"c\":\"d\"}}");
}

#[test]
fn a_rename_changes_no_judgement() {
    let of = |subject: Subject| {
        let detail = match microphone(true, false, false, false) {
            Observation::Microphone { detail, .. } => detail,
            other => panic!("{other:?}"),
        };
        Signal::from(Observation::Microphone { subject, detail })
    };
    let plain = of(readable(7));
    let renamed = of(Subject::new(
        7,
        Some("svchost.exe".to_string()),
        ImagePath::Readable("C:\\Windows\\svchost.exe".to_string()),
    )
    .with_signature(Signature::Valid { signer: "Windows".to_string(), sha256: "cd".to_string() }));
    assert_eq!((plain.tier, plain.code, plain.scope), (renamed.tier, renamed.code, renamed.scope));
    assert_eq!(plain.tier, 2);
    assert_eq!(plain.detail, renamed.detail);
    assert_eq!(plain.observation_key, renamed.observation_key);
}

#[test]
fn capability_keys_and_what_they_gate() {
    let keys = [
        (CapabilityKey::S1Processes, "S1_processes", Some("S1")),
        (CapabilityKey::S2Signature, "S2_signature", Some("S2")),
        (CapabilityKey::S3MicOwner, "S3_mic_owner", Some("S3")),
        (CapabilityKey::S5CaptureExcluded, "S5_capture_excluded", Some("S5")),
        (CapabilityKey::S6WindowTitles, "S6_window_titles", Some("S6")),
        (CapabilityKey::ProcessPaths, "process_paths", Some("S2")),
        (CapabilityKey::HostMachine, "host_machine", None),
        (CapabilityKey::RealtimeEvents, "realtime_events", None),
    ];
    for (key, name, code) in keys {
        assert_eq!(key.as_str(), name);
        let codes: Vec<&str> = code.into_iter().collect();
        assert_eq!(key.signals(), codes.as_slice());
    }
}
