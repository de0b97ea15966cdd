use std::cell::RefCell;

use cp_probe::process::ProcessInfo;
use cp_probe::signature::{
    authenticode_hash, cached, catalog_hash, catalog_to_check, full_file_hash, full_file_result,
    signer_display_name, verify, verify_images, verify_trust, CatalogHashReading, HashResult,
    HashStep, NameReading, SignatureCache, SignerReading, TrustResult, TRUST_E_NOSIGNATURE,
};
use cp_probe::text::wide_null;
use cp_probe::{DetailS2, ImagePath, Signature};

fn hash(source: &'static str, catalog: Option<&str>) -> Option<HashResult> {
    Some(HashResult {
        sha256: "ab".to_string(),
        hash_source: source,
        catalog_path: catalog.map(|s| s.to_string()),
    })
}

fn trust(status: i32, signer: Option<&str>) -> TrustResult {
    TrustResult {
        status,
        signer: signer.map(|s| s.to_string()),
        chain_trusted: Some(true),
        timestamped: Some(false),
    }
}

fn name(text: &str) -> NameReading {
    let buf = wide_null(text);
    NameReading { needed: buf.len() as u32, written: buf.len() as u32, buf }
}

#[test]
fn the_no_signature_status_is_the_platform_s() {
    assert_eq!(TRUST_E_NOSIGNATURE as u32, 0x800B_0100);
}

#[test]
fn catalog_hashes_are_cut_to_their_length() {
    let reading = |acquired: bool, len: u32, filled: Option<(Vec<u8>, u32)>| CatalogHashReading {
        acquired,
        len,
        filled,
    };
    assert_eq!(catalog_hash(reading(false, 2, Some((vec![1, 2], 2)))), None);
    assert_eq!(catalog_hash(reading(true, 0, Some((vec![1, 2], 2)))), None);
    assert_eq!(catalog_hash(reading(true, 2, None)), None);
    assert_eq!(catalog_hash(reading(true, 3, Some((vec![1, 2, 3], 2)))), Some(vec![1, 2]));
    assert_eq!(catalog_hash(reading(true, 2, Some((vec![1, 2], 9)))), Some(vec![1, 2]));
}

#[test]
fn which_hash_a_file_gets() {
    assert!(matches!(authenticode_hash(false, Some(vec![1]), None), HashStep::Done(None)));
    assert!(matches!(authenticode_hash(true, None, None), HashStep::ReadWholeFile));
    match authenticode_hash(true, Some(vec![0xab, 0x01]), Some(wide_null("C:\\c.cat"))) {
        HashStep::Done(Some(h)) => {
            assert_eq!(h.sha256, "ab01");
            assert_eq!(h.hash_source, "authenticode");
            assert_eq!(h.catalog_path.as_deref(), Some("C:\\c.cat"));
        }
        other => panic!("{other:?}"),
    }
}

#[test]
fn whole_files_are_hashed_with_sha256() {
    assert_eq!(
        full_file_hash(b"abc"),
        "ba7816bf8f01cfea414140de5dae2223b00361a396177a9cb410ff61f20015ad"
    );
    assert_eq!(
        full_file_hash(b""),
        "e3b0c44298fc1c149afbf4c8996fb92427ae41e4649b934ca495991b7852b855"
    );
    assert!(full_file_result(None).is_none());
    let h = full_file_result(Some(b"abc".to_vec())).unwrap();
    assert_eq!(h.hash_source, "full_file");
    assert_eq!(h.sha256, full_file_hash(b"abc"));
    assert_eq!(h.catalog_path, None);
}

#[test]
fn signer_names() {
    assert_eq!(signer_display_name(&name("Acme")).as_deref(), Some("Acme"));
    let unreadable = || {
        [
            name(""),
            NameReading { needed: 1, written: 5, buf: wide_null("Acme") },
            NameReading { needed: 5, written: 0, buf: wide_null("Acme") },
            NameReading { needed: 5, written: 5, buf: vec![0, 0x41] },
        ]
    };
    for reading in unreadable() {
        assert_eq!(signer_display_name(&reading).as_deref(), Some(""));
    }
    for reading in unreadable() {
        let signer = SignerReading {
            counter_signers: 0,
            leaf: Some(reading),
            chain: Vec::new(),
        };
        let own = verify_trust(0, &Some(signer));
        assert_eq!(own.signer, None);
        let (sig, _) = verify(hash("authenticode", None), own, None);
        assert_eq!(
            sig,
            Signature::Valid { signer: "unknown".to_string(), sha256: "ab".to_string() }
        );
    }
}

#[test]
fn only_the_root_tells_of_the_chain() {
    let signer = |chain: Vec<Option<bool>>| {
        Some(SignerReading { counter_signers: 1, leaf: Some(name("Acme")), chain })
    };
    let t = verify_trust(0, &signer(vec![Some(false), Some(true)]));
    assert_eq!((t.chain_trusted, t.timestamped, t.status), (Some(true), Some(true), 0));
    assert_eq!(t.signer.as_deref(), Some("Acme"));
    assert_eq!(verify_trust(0, &signer(vec![Some(true), Some(false)])).chain_trusted, Some(false));
    assert_eq!(verify_trust(0, &signer(vec![Some(true), None])).chain_trusted, None);
    assert_eq!(verify_trust(0, &signer(Vec::new())).chain_trusted, None);
    let bare = verify_trust(7, &None);
    assert_eq!((bare.status, bare.chain_trusted, bare.timestamped), (7, None, None));
    let unsigned = verify_trust(
        0,
        &Some(SignerReading { counter_signers: 0, leaf: None, chain: vec![Some(true)] }),
    );
    assert_eq!((unsigned.signer, unsigned.timestamped), (None, Some(false)));
}

#[test]
fn verified_images() {
    let (sig, detail) = verify(hash("authenticode", None), trust(0, Some("Acme")), None);
    assert_eq!(sig, Signature::Valid { signer: "Acme".to_string(), sha256: "ab".to_string() });
    assert_eq!(detail.verified, Some(true));
    assert_eq!(detail.chain_trusted, Some(true));
    assert_eq!(detail.timestamped, Some(false));
    assert_eq!(detail.revocation_checked, Some(false));
    assert_eq!(detail.hash_algorithm, "sha256");
    assert_eq!(detail.hash_source, "authenticode");
    assert_eq!(detail.platform_status.as_deref(), Some("0x00000000"));
    let (sig, _) = verify(hash("authenticode", None), trust(0, None), None);
    assert_eq!(sig, Signature::Valid { signer: "unknown".to_string(), sha256: "ab".to_string() });
}

#[test]
fn unsigned_and_invalid_images() {
    let (sig, detail) =
        verify(hash("full_file", None), trust(TRUST_E_NOSIGNATURE, Some("x")), None);
    assert_eq!(sig, Signature::Unsigned { sha256: "ab".to_string() });
    assert_eq!(detail.verified, Some(false));
    assert_eq!(detail.hash_source, "full_file");
    assert_eq!(detail.platform_status.as_deref(), Some("0x800b0100"));
    let (sig, _) = verify(hash("full_file", None), trust(-1, Some("x")), None);
    assert_eq!(
        sig,
        Signature::Invalid { signer: Some("x".to_string()), sha256: "ab".to_string() }
    );
}

#[test]
fn an_image_without_a_hash_is_unavailable() {
    let (sig, detail) = verify(None, trust(0, Some("Acme")), Some(trust(0, Some("Acme"))));
    assert_eq!(sig, Signature::Unavailable);
    assert_eq!(detail.hash_source, "none");
    assert_eq!(
        (detail.verified, detail.chain_trusted, detail.revocation_checked, detail.timestamped),
        (None, None, None, None)
    );
    assert_eq!(detail.platform_status.as_deref(), Some("0x00000000"));
}

#[test]
fn a_catalog_rescues_an_image_that_carries_no_signature() {
    let listed = || hash("authenticode", Some("C:\\c.cat"));
    let failed = || trust(TRUST_E_NOSIGNATURE, None);
    assert_eq!(catalog_to_check(&listed(), &failed()), Some(wide_null("C:\\c.cat")));
    assert_eq!(catalog_to_check(&listed(), &trust(0, None)), None);
    assert_eq!(catalog_to_check(&hash("authenticode", None), &failed()), None);
    assert_eq!(catalog_to_check(&None, &failed()), None);

    let (sig, detail) = verify(listed(), failed(), Some(trust(0, Some("Windows"))));
    assert_eq!(sig, Signature::Valid { signer: "Windows".to_string(), sha256: "ab".to_string() });
    assert_eq!(detail.verified, Some(true));
    assert_eq!(detail.platform_status.as_deref(), Some("catalog:0x00000000"));

    let (sig, detail) = verify(listed(), failed(), Some(trust(-1, Some("Windows"))));
    assert_eq!(sig, Signature::Unsigned { sha256: "ab".to_string() });
    assert_eq!(detail.platform_status.as_deref(), Some("0x800b0100"));

    let (sig, _) = verify(listed(), trust(0, Some("Own")), Some(trust(0, Some("Windows"))));
    assert_eq!(sig, Signature::Valid { signer: "Own".to_string(), sha256: "ab".to_string() });
}

fn result(path: &str) -> (Signature, DetailS2) {
    verify(
        Some(HashResult {
            sha256: path.to_string(),
            hash_source: "authenticode",
            catalog_path: None,
        }),
        trust(TRUST_E_NOSIGNATURE, None),
        None,
    )
}

#[test]
fn an_image_is_verified_once() {
    let calls: RefCell<Vec<String>> = RefCell::new(Vec::new());
    let check = |path: &str| {
        calls.borrow_mut().push(path.to_string());
        result(path)
    };
    let mut cache = SignatureCache::new();
    assert!(cache.lookup("a").is_none());
    assert_eq!(cached(&mut cache, "a", &check).0, Signature::Unsigned { sha256: "a".to_string() });
    assert_eq!(cached(&mut cache, "a", &check).0, Signature::Unsigned { sha256: "a".to_string() });
    assert_eq!(cached(&mut cache, "b", &check).0, Signature::Unsigned { sha256: "b".to_string() });
    assert_eq!(*calls.borrow(), vec!["a", "b"]);

    let list: Vec<ProcessInfo> = ["b", "c", "", "c"]
        .iter()
        .enumerate()
        .map(|(i, p)| ProcessInfo {
            pid: i as u32,
            parent_pid: 0,
            name: None,
            path: if p.is_empty() {
                ImagePath::AccessDenied
            } else {
                ImagePath::Readable(p.to_string())
            },
        })
        .collect();
    verify_images(&list, &mut cache, &check);
    assert_eq!(*calls.borrow(), vec!["a", "b", "c"]);
    assert_eq!(
        cache.lookup("c").unwrap().0,
        Signature::Unsigned { sha256: "c".to_string() }
    );
}

#[test]
fn a_remembered_image_is_answered_without_a_check() {
    let mut cache = SignatureCache::new();
    let first = cached(&mut cache, "a", &result);
    let refuse = |path: &str| -> (Signature, DetailS2) { panic!("checked {path} again") };
    let again = cached(&mut cache, "a", &refuse);
    assert_eq!(first.0, again.0);
    assert_eq!(first.1.platform_status, again.1.platform_status);
    let list = [ProcessInfo {
        pid: 1,
        parent_pid: 0,
        name: None,
        path: ImagePath::Readable("a".to_string()),
    }];
    verify_images(&list, &mut cache, &refuse);
    assert_eq!(cache.lookup("a").unwrap().0, first.0);
}
