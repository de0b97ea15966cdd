//! S2 — Authenticode hash and code signer.
//!
//! Two independent answers, deliberately not one: `WinVerifyTrust` answers "is this signature
//! valid", and the catalog-admin hash functions answer "what is this file's Authenticode hash" —
//! the digest a central tool database keys on. A file can be unsigned and still need hashing (the
//! tool database matches on hash OR signer, not only signer), so neither can stand in for the
//! other.
//!
//! # Revocation is deliberately off
//!
//! Revocation checking can hit the network per file, and the exit criterion is 60 unattended
//! minutes with no hang — a CRL fetch stalling on a captive portal is exactly the kind of failure
//! that criterion exists to catch. `revocation_checked` is reported honestly as `false` rather than
//! silently implying a check that did not happen.
//!
//! # Cost is bounded by a cache, not by scope
//!
//! Every process gets a hash attempt — narrowing to "just the mic holder" or "just the foreground
//! window" would make S2 blind to a known-bad tool sitting quietly in the background, which is
//! half of what a tool database is for. What bounds the cost instead is [`cached`]: verification
//! runs once per distinct image **path** and is reused for the rest of the collector's lifetime.

use vstd::prelude::*;

use crate::detail::{DetailS2, DetailS2View};
use crate::digest;
use crate::digest::sha256_digest;
use crate::envelope::{ImagePath, ImagePathView, Signature, SignatureView};
use crate::process;
use crate::process::{ProcessInfo, ProcessView};
use crate::table;
use crate::table::Table;
use crate::text;
use crate::text::{hex, non_empty, push_hex, wide_null, wide_to_string};

verus! {

/// `TRUST_E_NOSIGNATURE`: the file carries no signature.
pub const TRUST_E_NOSIGNATURE: i32 = -2_146_762_496;

// ---------------------------------------------------------------------------------------------
// Hash
// ---------------------------------------------------------------------------------------------

#[derive(Debug)]
pub struct HashResult {
    pub sha256: String,
    pub hash_source: &'static str,
    /// Set when the file's hash matches an entry in a catalog already registered on this machine
    /// (`%windir%\System32\CatRoot`) — how most core OS binaries are signed, since embedding a
    /// signature in every system file was never how Windows Update distributes them. A plain
    /// `WinVerifyTrust` file check does **not** consult catalogs on its own; this is the second
    /// lookup that finds what it misses.
    pub catalog_path: Option<String>,
}

#[verifier::ext_equal]
pub struct HashView {
    pub sha256: Seq<char>,
    pub hash_source: Seq<char>,
    pub catalog_path: Option<Seq<char>>,
}

impl View for HashResult {
    type V = HashView;

    open spec fn view(&self) -> HashView {
        HashView {
            sha256: self.sha256@,
            hash_source: self.hash_source@,
            catalog_path: text::opt_text(self.catalog_path),
        }
    }
}

pub open spec fn opt_hash(o: Option<HashResult>) -> Option<HashView> {
    match o {
        Some(h) => Some(h@),
        None => None,
    }
}

/// What the catalog functions gave for the hash of an open file.
#[derive(Debug)]
pub struct CatalogHashReading {
    /// Whether a catalog context could be acquired.
    pub acquired: bool,
    /// The length of the hash, as the first call reported it; zero where it failed.
    pub len: u32,
    /// What the second call filled in, and the length that it reported; nothing where it failed.
    pub filled: Option<(Vec<u8>, u32)>,
}

impl CatalogHashReading {
    /// The Authenticode hash, where both calls gave one.
    pub open spec fn hash(self) -> Option<Seq<u8>> {
        match self.filled {
            Some((buf, len)) => if self.acquired && self.len > 0 {
                Some(
                    if len <= buf@.len() {
                        buf@.take(len as int)
                    } else {
                        buf@
                    },
                )
            } else {
                None
            },
            None => None,
        }
    }
}

pub open spec fn opt_bytes(o: Option<Vec<u8>>) -> Option<Seq<u8>> {
    match o {
        Some(b) => Some(b@),
        None => None,
    }
}

/// The Authenticode hash, where the catalog functions gave one.
pub fn catalog_hash(reading: CatalogHashReading) -> (r: Option<Vec<u8>>)
    ensures
        opt_bytes(r) == reading.hash(),
{
    if !reading.acquired || reading.len == 0 {
        return None;
    }
    match reading.filled {
        Some((buf, len)) => {
            let mut hash = buf;
            hash.truncate(len as usize);
            assert(reading.hash() is Some);
            assert(hash@ =~= reading.hash().unwrap());
            Some(hash)
        },
        None => None,
    }
}

/// What to do next for the hash of a file.
#[derive(Debug)]
pub enum HashStep {
    /// The hash is settled: there is one, or there can be none.
    Done(Option<HashResult>),
    /// The catalog functions gave no hash: read the whole file, and hand it to [`full_file_result`].
    ReadWholeFile,
}

/// The hash that the catalog functions settle.
pub open spec fn authenticode_view(raw: Seq<u8>, catalog_file: Option<Seq<u16>>) -> HashView {
    HashView {
        sha256: text::hex_of(raw),
        hash_source: "authenticode"@,
        catalog_path: match catalog_file {
            Some(units) => Some(text::utf16_lossy(text::until_nul(units))),
            None => None,
        },
    }
}

pub open spec fn opt_units(o: Option<Vec<u16>>) -> Option<Seq<u16>> {
    match o {
        Some(u) => Some(u@),
        None => None,
    }
}

/// The Authenticode hash — the same digest the signature itself covers, and the tool database's
/// primary join key. Falls back to a full-file SHA-256 if the catalog-admin call gave none; the wire
/// says which one it got via `hash_source` so a consumer never compares the wrong pair.
///
/// `opened` tells whether the file could be opened, `raw` is what [`catalog_hash`] gave, and
/// `catalog_file` the name of the catalog file that lists this hash, zero-terminated UTF-16.
pub fn authenticode_hash(
    opened: bool,
    raw: Option<Vec<u8>>,
    catalog_file: Option<Vec<u16>>,
) -> (r: HashStep)
    ensures
        !opened ==> r == HashStep::Done(None),
        opened && raw is None ==> r is ReadWholeFile,
        opened && raw is Some ==> r is Done && opt_hash(r->Done_0) == Some(
            authenticode_view(raw.unwrap()@, opt_units(catalog_file)),
        ),
{
    if !opened {
        return HashStep::Done(None);
    }
    match raw {
        Some(bytes) => {
            let catalog_path = match catalog_file {
                Some(units) => Some(wide_to_string(units.as_slice())),
                None => None,
            };
            HashStep::Done(
                Some(
                    HashResult {
                        sha256: hex(bytes.as_slice()),
                        hash_source: "authenticode",
                        catalog_path,
                    },
                ),
            )
        },
        // The catalog path needs no elevation and no signature to already be present — it failing
        // at all is rare enough that a full read-and-hash fallback is worth the I/O.
        None => HashStep::ReadWholeFile,
    }
}

/// The hash of a whole file.
pub open spec fn full_file_view(content: Seq<u8>) -> HashView {
    HashView {
        sha256: text::hex_of(digest::sha256(content)),
        hash_source: "full_file"@,
        catalog_path: None,
    }
}

/// The SHA-256 of a whole file, in hexadecimal.
pub fn full_file_hash(content: &[u8]) -> (r: String)
    ensures
        r@ == text::hex_of(digest::sha256(content@)),
        r@.len() == 64,
{
    hex(sha256_digest(content).as_slice())
}

/// The hash of a file that was read whole, or none where it could not be read. No catalog lookup is
/// possible from a plain byte hash, so this path is never a member.
pub fn full_file_result(content: Option<Vec<u8>>) -> (r: Option<HashResult>)
    ensures
        opt_hash(r) == (match opt_bytes(content) {
            Some(c) => Some(full_file_view(c)),
            None => None,
        }),
{
    match content {
        Some(c) => Some(
            HashResult {
                sha256: full_file_hash(c.as_slice()),
                hash_source: "full_file",
                catalog_path: None,
            },
        ),
        None => None,
    }
}

// ---------------------------------------------------------------------------------------------
// Trust
// ---------------------------------------------------------------------------------------------

/// What asking for the display name of a certificate gave.
#[derive(Debug)]
pub struct NameReading {
    /// The room that the name needs, terminator counted, as the first call reported it.
    pub needed: u32,
    /// What the second call reported; zero where it failed.
    pub written: u32,
    /// What the second call filled in, zero-terminated UTF-16.
    pub buf: Vec<u16>,
}

impl NameReading {
    /// The name, empty where a call failed.
    pub open spec fn name(self) -> Seq<char> {
        if self.needed <= 1 || self.written == 0 {
            Seq::empty()
        } else {
            text::utf16_lossy(text::until_nul(self.buf@))
        }
    }

    /// The name, where it could be read.
    pub open spec fn readable_name(self) -> Option<Seq<char>> {
        if self.name().len() == 0 {
            None
        } else {
            Some(self.name())
        }
    }
}

/// The leaf signer's display name, the same string Explorer's Digital Signatures tab shows. Empty
/// rather than absent on failure — the caller decides what "couldn't read the name" means for a
/// signature that otherwise verified.
pub fn signer_display_name(reading: &NameReading) -> (r: Option<String>)
    ensures
        text::opt_text(r) == Some(reading.name()),
{
    if reading.needed <= 1 || reading.written == 0 {
        let none = String::new();
        assert(none@ =~= Seq::<char>::empty());
        return Some(none);
    }
    Some(wide_to_string(reading.buf.as_slice()))
}

/// What a verification told of the signer.
#[derive(Debug)]
pub struct SignerReading {
    pub counter_signers: u32,
    /// The name of the signing certificate, where there is one.
    pub leaf: Option<NameReading>,
    /// For each certificate of the chain, from the leaf to the root, whether it is a trusted root;
    /// nothing for one that could not be had.
    pub chain: Vec<Option<bool>>,
}

#[derive(Debug)]
pub struct TrustResult {
    /// Raw `WinVerifyTrust` HRESULT. 0 = trusted.
    pub status: i32,
    pub signer: Option<String>,
    pub chain_trusted: Option<bool>,
    pub timestamped: Option<bool>,
}

#[verifier::ext_equal]
pub struct TrustView {
    pub status: i32,
    pub signer: Option<Seq<char>>,
    pub chain_trusted: Option<bool>,
    pub timestamped: Option<bool>,
}

impl View for TrustResult {
    type V = TrustView;

    open spec fn view(&self) -> TrustView {
        TrustView {
            status: self.status,
            signer: text::opt_text(self.signer),
            chain_trusted: self.chain_trusted,
            timestamped: self.timestamped,
        }
    }
}

pub open spec fn opt_trust(o: Option<TrustResult>) -> Option<TrustView> {
    match o {
        Some(t) => Some(t@),
        None => None,
    }
}

/// What a verification's status and its signer, where it told of one, come to.
pub open spec fn trust_view(status: i32, signer: Option<SignerReading>) -> TrustView {
    match signer {
        Some(s) => TrustView {
            status,
            // A name that could not be read names no signer.
            signer: match s.leaf {
                Some(name) => name.readable_name(),
                None => None,
            },
            // Only the last certificate of the chain, the root, tells.
            chain_trusted: if s.chain@.len() > 0 {
                s.chain@.last()
            } else {
                None
            },
            timestamped: Some(s.counter_signers > 0),
        },
        None => TrustView { status, signer: None, chain_trusted: None, timestamped: None },
    }
}

/// Read a verification.
///
/// The leaf is the actual signing certificate — that is whose subject name goes on the wire. Whether
/// a root is trusted is only meaningful on the chain's last element, the root CA; reading it off
/// the leaf reports "is the signer itself a self-signed root", which is never true and would make
/// every valid signature read as untrusted.
pub fn verify_trust(status: i32, signer: &Option<SignerReading>) -> (r: TrustResult)
    ensures
        r@ == trust_view(status, *signer),
{
    match signer {
        Some(s) => {
            // A name that could not be read names no signer: [`verify`] says what stands for one.
            let name = match &s.leaf {
                Some(reading) => match signer_display_name(reading) {
                    Some(name) => non_empty(name),
                    None => None,
                },
                None => None,
            };
            let n = s.chain.len();
            let chain_trusted: Option<bool> = if n > 0 {
                s.chain[n - 1]
            } else {
                None
            };
            TrustResult {
                status,
                signer: name,
                chain_trusted,
                timestamped: Some(s.counter_signers > 0),
            }
        },
        None => TrustResult { status, signer: None, chain_trusted: None, timestamped: None },
    }
}

// ---------------------------------------------------------------------------------------------
// Verification
// ---------------------------------------------------------------------------------------------

/// A status as the wire shows it: `0x` and eight hexadecimal digits.
pub open spec fn status_text(status: i32) -> Seq<char> {
    "0x"@ + text::padded(text::hexadecimal(status as u32 as nat, false), 8)
}

fn push_status(out: &mut String, status: i32)
    ensures
        final(out)@ == old(out)@ + status_text(status),
{
    let ghost before = out@;
    out.append("0x");
    push_hex(out, status as u32 as u64, 8, false);
    assert(out@ =~= before + status_text(status));
}

/// The catalog file to check in place of the image itself: there is one where the image's own check
/// failed and its hash is listed in a catalog.
pub open spec fn catalog_wanted(hash: Option<HashView>, trust: TrustView) -> Option<Seq<char>> {
    match hash {
        Some(h) => if trust.status != 0 {
            h.catalog_path
        } else {
            None
        },
        None => None,
    }
}

/// The path of the catalog file to check in place of the image itself, zero-terminated UTF-16.
///
/// A direct file check does not walk catalogs on its own — most core OS binaries are
/// catalog-signed, not embedded-signed, and read as `TRUST_E_NOSIGNATURE` without this. If the hash
/// matched a catalog registered on this machine, *that* catalog file is checked instead: it is
/// itself just a signed file, checked the same way as any other.
pub fn catalog_to_check(hash: &Option<HashResult>, trust: &TrustResult) -> (r: Option<Vec<u16>>)
    ensures
        opt_units(r) == (match catalog_wanted(opt_hash(*hash), trust@) {
            Some(path) => Some(text::utf16(path).push(0u16)),
            None => None,
        }),
{
    if trust.status == 0 {
        return None;
    }
    match hash {
        Some(h) => match &h.catalog_path {
            Some(path) => Some(wide_null(path.as_str())),
            None => None,
        },
        None => None,
    }
}

/// Whether the catalog's check stands in for the image's own: one was wanted, and it passed.
pub open spec fn via_catalog(
    hash: Option<HashView>,
    trust: TrustView,
    catalog: Option<TrustView>,
) -> bool {
    &&& catalog_wanted(hash, trust) is Some
    &&& catalog matches Some(c) && c.status == 0
}

/// The check that counts.
pub open spec fn settled(
    hash: Option<HashView>,
    trust: TrustView,
    catalog: Option<TrustView>,
) -> TrustView {
    if via_catalog(hash, trust, catalog) {
        catalog.unwrap()
    } else {
        trust
    }
}

/// The signature that a hash and the checks come to.
pub open spec fn signature_view(
    hash: Option<HashView>,
    trust: TrustView,
    catalog: Option<TrustView>,
) -> SignatureView {
    let t = settled(hash, trust, catalog);
    match hash {
        None => SignatureView::Unavailable,
        Some(h) => if t.status == 0 {
            SignatureView::Valid {
                signer: match t.signer {
                    Some(s) => s,
                    None => "unknown"@,
                },
                sha256: h.sha256,
            }
        } else if t.status == TRUST_E_NOSIGNATURE {
            SignatureView::Unsigned { sha256: h.sha256 }
        } else {
            SignatureView::Invalid { signer: t.signer, sha256: h.sha256 }
        },
    }
}

/// How much that signature is worth.
pub open spec fn detail_view(
    hash: Option<HashView>,
    trust: TrustView,
    catalog: Option<TrustView>,
) -> DetailS2View {
    let t = settled(hash, trust, catalog);
    match hash {
        None => DetailS2View {
            verified: None,
            chain_trusted: None,
            revocation_checked: None,
            timestamped: None,
            hash_algorithm: "sha256"@,
            hash_source: "none"@,
            platform_status: Some(status_text(trust.status)),
        },
        Some(h) => DetailS2View {
            verified: Some(t.status == 0),
            chain_trusted: t.chain_trusted,
            revocation_checked: Some(false),
            timestamped: t.timestamped,
            hash_algorithm: "sha256"@,
            hash_source: h.hash_source,
            platform_status: Some(
                if via_catalog(hash, trust, catalog) {
                    "catalog:"@ + status_text(t.status)
                } else {
                    status_text(t.status)
                },
            ),
        },
    }
}

/// The signature of an image and its detail, from its hash, its own check, and the check of the
/// catalog file that [`catalog_to_check`] asked for, where it asked for one.
pub fn verify(hash: Option<HashResult>, trust: TrustResult, catalog: Option<TrustResult>) -> (r: (
    Signature,
    DetailS2,
))
    ensures
        r.0@ == signature_view(opt_hash(hash), trust@, opt_trust(catalog)),
        r.1@ == detail_view(opt_hash(hash), trust@, opt_trust(catalog)),
{
    let ghost hv = opt_hash(hash);
    let ghost tv = trust@;
    let ghost cv = opt_trust(catalog);
    let mut platform_status = String::new();
    let h = match hash {
        Some(h) => h,
        None => {
            push_status(&mut platform_status, trust.status);
            assert(platform_status@ =~= status_text(trust.status));
            return (
                Signature::Unavailable,
                DetailS2 {
                    verified: None,
                    chain_trusted: None,
                    revocation_checked: None,
                    timestamped: None,
                    hash_algorithm: "sha256",
                    hash_source: "none",
                    platform_status: Some(platform_status),
                },
            );
        },
    };

    let mut trust = trust;
    if trust.status != 0 && h.catalog_path.is_some() {
        if let Some(cat_trust) = catalog {
            if cat_trust.status == 0 {
                platform_status.append("catalog:");
                trust = cat_trust;
            }
        }
    }
    push_status(&mut platform_status, trust.status);
    assert(trust@ == settled(hv, tv, cv));
    assert(platform_status@ =~= (if via_catalog(hv, tv, cv) {
        "catalog:"@ + status_text(trust.status)
    } else {
        status_text(trust.status)
    }));

    let detail = DetailS2 {
        verified: Some(trust.status == 0),
        chain_trusted: trust.chain_trusted,
        // Revocation is intentionally never checked, to keep this off the network on a long
        // unattended run.
        revocation_checked: Some(false),
        timestamped: trust.timestamped,
        hash_algorithm: "sha256",
        hash_source: h.hash_source,
        platform_status: Some(platform_status),
    };

    let signature = if trust.status == 0 {
        Signature::Valid {
            // The type requires a signer string for `Valid`; a check succeeding without a readable
            // subject name has not been observed but is not provably impossible, so this is a
            // documented degrade.
            signer: match trust.signer {
                Some(s) => s,
                None => String::from_str("unknown"),
            },
            sha256: h.sha256,
        }
    } else if trust.status == TRUST_E_NOSIGNATURE {
        Signature::Unsigned { sha256: h.sha256 }
    } else {
        Signature::Invalid { signer: trust.signer, sha256: h.sha256 }
    };

    (signature, detail)
}

// ---------------------------------------------------------------------------------------------
// Cache
// ---------------------------------------------------------------------------------------------

/// The results of the verifications so far, each under the path of its image.
#[derive(Debug)]
pub struct SignatureCache {
    results: Table<(Signature, DetailS2)>,
}

impl View for SignatureCache {
    type V = Map<Seq<char>, (Signature, DetailS2)>;

    closed spec fn view(&self) -> Map<Seq<char>, (Signature, DetailS2)> {
        table::dict(self.results@)
    }
}

/// The remembered result of a verification.
pub open spec fn remembered(
    cache: Map<Seq<char>, (Signature, DetailS2)>,
    path: Seq<char>,
) -> Option<(SignatureView, DetailS2View)> {
    if cache.dom().contains(path) {
        Some(process::check_view(cache[path]))
    } else {
        None
    }
}

/// Every readable image of a process list has a remembered result.
pub open spec fn covers(
    cache: Map<Seq<char>, (Signature, DetailS2)>,
    processes: Seq<ProcessView>,
) -> bool {
    forall|i: int|
        0 <= i < processes.len() && (#[trigger] processes[i]).path is Readable
            ==> cache.dom().contains(processes[i].path->Readable_0)
}

impl SignatureCache {
    pub fn new() -> (r: SignatureCache)
        ensures
            r@ == Map::<Seq<char>, (Signature, DetailS2)>::empty(),
    {
        SignatureCache { results: Table::new() }
    }

    /// The remembered result for an image, if it was verified before.
    pub fn lookup(&self, path: &str) -> (r: Option<&(Signature, DetailS2)>)
        ensures
            r is Some <==> self@.dom().contains(path@),
            r matches Some(hit) ==> *hit == self@[path@],
    {
        self.results.get(path)
    }
}

/// Verify `path` once and remember the result. See the module doc for why this is what bounds cost
/// rather than narrowing which processes get checked. A remembered path is answered without running
/// `verify`.
pub fn cached<F: Fn(&str) -> (Signature, DetailS2)>(
    cache: &mut SignatureCache,
    path: &str,
    verify: &F,
) -> (r: (Signature, DetailS2))
    requires
        !old(cache)@.dom().contains(path@) ==> verify.requires((path,)),
    ensures
        old(cache)@.dom().contains(path@) ==> r == old(cache)@[path@] && final(cache)@ == old(
            cache,
        )@,
        !old(cache)@.dom().contains(path@) ==> verify.ensures((path,), r) && final(cache)@ == old(
            cache,
        )@.insert(path@, r),
{
    if let Some(hit) = cache.lookup(path) {
        return (hit.0.clone(), hit.1.clone());
    }
    let result = verify(path);
    cache.results.insert(path.to_owned(), (result.0.clone(), result.1.clone()));
    result
}

/// A result that some call for the path gave.
pub open spec fn given<F: Fn(&str) -> (Signature, DetailS2)>(
    verify: F,
    path: Seq<char>,
    result: (Signature, DetailS2),
) -> bool {
    exists|p: &str| p@ == path && #[trigger] verify.ensures((p,), result)
}

/// Whether an image of a process list is at a path.
pub open spec fn listed_image(processes: Seq<ProcessView>, path: Seq<char>) -> bool {
    exists|i: int|
        0 <= i < processes.len() && (#[trigger] processes[i]).path == ImagePathView::Readable(path)
}

/// Verify every readable image of a process list that was not verified before. `verify` is run on
/// nothing else.
pub fn verify_images<F: Fn(&str) -> (Signature, DetailS2)>(
    processes: &[ProcessInfo],
    cache: &mut SignatureCache,
    verify: &F,
)
    requires
        forall|p: &str|
            !old(cache)@.dom().contains(p@) && listed_image(
                process::process_views(processes@),
                p@,
            ) ==> #[trigger] verify.requires((p,)),
    ensures
        covers(final(cache)@, process::process_views(processes@)),
        forall|k: Seq<char>| #[trigger]
            old(cache)@.dom().contains(k) ==> final(cache)@.dom().contains(k) && final(cache)@[k]
                == old(cache)@[k],
        forall|k: Seq<char>|
            !old(cache)@.dom().contains(k) && #[trigger] final(cache)@.dom().contains(k) ==> given(
                *verify,
                k,
                final(cache)@[k],
            ) && listed_image(process::process_views(processes@), k),
{
    let ghost start = cache@;
    let ghost views = process::process_views(processes@);
    let mut i: usize = 0;
    while i < processes.len()
        invariant
            i <= processes@.len(),
            views == process::process_views(processes@),
            forall|p: &str|
                !start.dom().contains(p@) && listed_image(views, p@) ==> #[trigger] verify.requires(
                    (p,),
                ),
            forall|j: int|
                0 <= j < i && (#[trigger] processes@[j])@.path is Readable
                    ==> cache@.dom().contains(processes@[j]@.path->Readable_0),
            forall|k: Seq<char>| #[trigger]
                start.dom().contains(k) ==> cache@.dom().contains(k) && cache@[k] == start[k],
            forall|k: Seq<char>|
                !start.dom().contains(k) && #[trigger] cache@.dom().contains(k) ==> given(
                    *verify,
                    k,
                    cache@[k],
                ) && listed_image(views, k),
        decreases processes@.len() - i,
    {
        match &processes[i].path {
            ImagePath::Readable(path) => {
                let ghost before = cache@;
                assert(views[i as int].path == ImagePathView::Readable(path@));
                let result = cached(cache, path.as_str(), verify);
                proof {
                    if !before.dom().contains(path@) {
                        assert(given(*verify, path@, result));
                    }
                }
            },
            _ => (),
        }
        i = i + 1;
    }
    assert(covers(cache@, views)) by {
        assert forall|j: int| 0 <= j < views.len() && (#[trigger] views[j]).path is Readable implies
            cache@.dom().contains(views[j].path->Readable_0) by {
            assert(views[j] == processes@[j]@);
        }
    }
}

// ---------------------------------------------------------------------------------------------
// Laws
// ---------------------------------------------------------------------------------------------

/// A verification is reported as passed exactly when the signature is valid, and a revocation check
/// is never claimed.
pub proof fn law_verified_iff_valid(
    hash: Option<HashView>,
    trust: TrustView,
    catalog: Option<TrustView>,
)
    ensures
        detail_view(hash, trust, catalog).verified == Some(true) <==> signature_view(
            hash,
            trust,
            catalog,
        ) is Valid,
        detail_view(hash, trust, catalog).revocation_checked != Some(true),
{
}

/// Without a hash there is no signature result at all; with one, the signature carries it.
pub proof fn law_hash_decides(
    hash: Option<HashView>,
    trust: TrustView,
    catalog: Option<TrustView>,
)
    ensures
        hash is None <==> signature_view(hash, trust, catalog) is Unavailable,
        hash is None ==> detail_view(hash, trust, catalog).hash_source == "none"@,
        hash matches Some(h) ==> {
            &&& signature_view(hash, trust, catalog).sha256() == Some(h.sha256)
            &&& detail_view(hash, trust, catalog).hash_source == h.hash_source
        },
{
}

/// The catalog is asked about only where the image's own check failed, and its failure changes
/// nothing.
pub proof fn law_catalog_only_rescues(
    hash: Option<HashView>,
    trust: TrustView,
    catalog: Option<TrustView>,
)
    requires
        trust.status == 0 || catalog is None || catalog.unwrap().status != 0,
    ensures
        signature_view(hash, trust, catalog) == signature_view(hash, trust, None),
        detail_view(hash, trust, catalog) == detail_view(hash, trust, None),
{
}

/// The image's own check counts, unless it failed, a catalog lists the image, and that catalog's check
/// passed: then the catalog's counts. Nothing but a failed check is ever replaced.
pub proof fn law_which_check_counts(
    hash: Option<HashView>,
    trust: TrustView,
    catalog: Option<TrustView>,
)
    ensures
        settled(hash, trust, catalog) == trust || Some(settled(hash, trust, catalog)) == catalog,
        trust.status == 0 ==> settled(hash, trust, catalog) == trust,
        catalog is None || catalog.unwrap().status != 0 ==> settled(hash, trust, catalog) == trust,
        hash is None || hash.unwrap().catalog_path is None ==> settled(hash, trust, catalog)
            == trust,
        trust.status != 0 && (hash matches Some(h) && h.catalog_path is Some) && (
        catalog matches Some(c) && c.status == 0) ==> Some(settled(hash, trust, catalog))
            == catalog,
        catalog_wanted(hash, trust) is Some <==> trust.status != 0 && (hash matches Some(h)
            && h.catalog_path is Some),
        catalog_wanted(hash, trust) is Some ==> catalog_wanted(hash, trust)
            == hash.unwrap().catalog_path,
{
}

/// What a signature comes to is told by one number: with a hash, it is valid for the status zero,
/// missing for the one status that says so, and invalid for every other, with the signer of the check
/// that counts.
pub proof fn law_status_decides(
    h: HashView,
    trust: TrustView,
    catalog: Option<TrustView>,
)
    ensures
        ({
            let t = settled(Some(h), trust, catalog);
            let s = signature_view(Some(h), trust, catalog);
            &&& s is Valid <==> t.status == 0
            &&& s is Unsigned <==> t.status == -2_146_762_496
            &&& s is Invalid <==> t.status != 0 && t.status != -2_146_762_496
            &&& s is Valid ==> s.sha256() == Some(h.sha256)
            &&& s is Unsigned ==> s == (SignatureView::Unsigned { sha256: h.sha256 })
            &&& s is Invalid ==> s == (SignatureView::Invalid {
                signer: t.signer,
                sha256: h.sha256,
            })
            &&& s is Valid && t.signer is Some ==> s == (SignatureView::Valid {
                signer: t.signer.unwrap(),
                sha256: h.sha256,
            })
            &&& s is Valid && t.signer is None ==> s == (SignatureView::Valid {
                signer: "unknown"@,
                sha256: h.sha256,
            })
        }),
{
}

/// The same over the readings alone, without a catalog's help: the image's own status decides.
pub proof fn law_own_status_decides(h: HashView, trust: TrustView)
    ensures
        ({
            let s = signature_view(Some(h), trust, None);
            &&& s is Valid <==> trust.status == 0
            &&& s is Unsigned <==> trust.status == -2_146_762_496
            &&& trust.status != 0 && trust.status != -2_146_762_496 ==> s
                == (SignatureView::Invalid { signer: trust.signer, sha256: h.sha256 })
        }),
{
}

/// The detail tells what the check that counts told, and shows its status; a status that came by way
/// of a catalog is marked as such and no other is.
pub proof fn law_detail_tells_the_check(
    hash: Option<HashView>,
    trust: TrustView,
    catalog: Option<TrustView>,
)
    ensures
        ({
            let t = settled(hash, trust, catalog);
            let d = detail_view(hash, trust, catalog);
            &&& d.hash_algorithm == "sha256"@
            &&& hash is Some ==> {
                &&& d.verified == Some(t.status == 0)
                &&& d.chain_trusted == t.chain_trusted
                &&& d.timestamped == t.timestamped
                &&& d.revocation_checked == Some(false)
                &&& trust.status != 0 && t.status == 0 ==> d.platform_status == Some(
                    "catalog:"@ + status_text(0),
                )
                &&& trust.status == 0 || t.status != 0 ==> d.platform_status == Some(
                    status_text(trust.status),
                )
            }
            &&& hash is None ==> {
                &&& d.verified is None && d.chain_trusted is None
                &&& d.timestamped is None && d.revocation_checked is None
                &&& d.platform_status == Some(status_text(trust.status))
            }
        }),
{
}

/// A status is shown in full: behind its mark stand eight hexadecimal digits, and they stand for the
/// status, read without its sign.
pub proof fn law_status_is_shown_in_full(status: i32)
    ensures
        "0x"@.is_prefix_of(status_text(status)),
        status_text(status).len() == 10,
        text::value_of(status_text(status).skip(2), 16) == (if status < 0 {
            status + 0x1_0000_0000
        } else {
            status as int
        }),
{
    reveal_strlit("0x");
    text::lemma_eight_digits(status as u32);
    text::law_hexadecimal_value(status as u32 as nat, 8);
    text::law_padding(text::hexadecimal(status as u32 as nat, false), 8);
    assert(status_text(status).take(2) =~= "0x"@);
    assert(status_text(status).skip(2) =~= text::padded(
        text::hexadecimal(status as u32 as nat, false),
        8,
    ));
    assert(status >= 0 ==> status as u32 as i64 == status as i64) by (bit_vector);
    assert(status < 0 ==> status as u32 as i64 == status as i64 + 0x1_0000_0000i64) by (bit_vector);
}

/// There is an Authenticode hash exactly when a context was had and both calls gave something; it is
/// what the second call filled in, as far as it said that it did.
pub proof fn law_catalog_hash_is_what_was_filled_in(r: CatalogHashReading)
    ensures
        r.hash() is Some <==> r.acquired && r.len != 0 && r.filled is Some,
        r.hash() matches Some(hash) ==> {
            &&& hash.is_prefix_of(r.filled.unwrap().0@)
            &&& r.filled.unwrap().1 <= r.filled.unwrap().0@.len() ==> hash.len()
                == r.filled.unwrap().1
            &&& r.filled.unwrap().1 > r.filled.unwrap().0@.len() ==> hash
                == r.filled.unwrap().0@
        },
{
}

/// The hash on the wire is the one that its source tells: the bytes that the catalog functions gave,
/// or the digest of the whole content. Only the first can name a catalog.
pub proof fn law_hash_tells_its_source(
    raw: Seq<u8>,
    catalog_file: Option<Seq<u16>>,
    content: Seq<u8>,
)
    ensures
        authenticode_view(raw, catalog_file).sha256 == text::hex_of(raw),
        authenticode_view(raw, catalog_file).hash_source == "authenticode"@,
        authenticode_view(raw, catalog_file).catalog_path is Some <==> catalog_file is Some,
        catalog_file matches Some(units) ==> authenticode_view(raw, catalog_file).catalog_path
            == Some(text::utf16_lossy(text::until_nul(units))),
        full_file_view(content).sha256 == text::hex_of(digest::sha256(content)),
        full_file_view(content).hash_source == "full_file"@,
        full_file_view(content).catalog_path is None,
{
}

/// A name is read only where both calls gave one, and a name that is empty names nobody.
pub proof fn law_name_needs_both_calls(r: NameReading)
    ensures
        r.needed <= 1 || r.written == 0 ==> r.name().len() == 0,
        r.needed > 1 && r.written > 0 ==> r.name() == text::utf16_lossy(text::until_nul(r.buf@)),
        r.readable_name() is Some <==> r.name().len() > 0,
        r.readable_name() matches Some(name) ==> name == r.name(),
{
}

/// A verification is read as it came: the status unchanged, the leaf's name for the signer, the word
/// of the chain's last certificate for the root, and a time stamp where anyone counter-signed.
pub proof fn law_verification_is_read_as_it_came(status: i32, signer: SignerReading)
    ensures
        trust_view(status, None) == (TrustView {
            status,
            signer: None,
            chain_trusted: None,
            timestamped: None,
        }),
        ({
            let t = trust_view(status, Some(signer));
            &&& t.status == status
            &&& t.signer is Some <==> (signer.leaf matches Some(n) && n.name().len() > 0)
            &&& t.signer matches Some(name) ==> name == signer.leaf.unwrap().name()
            &&& signer.chain@.len() == 0 ==> t.chain_trusted is None
            &&& signer.chain@.len() > 0 ==> t.chain_trusted == signer.chain@[signer.chain@.len()
                - 1]
            &&& t.timestamped == Some(signer.counter_signers != 0)
        }),
{
}

/// A result is remembered under the path that it was given for, and a cache that covers a process list
/// holds one for every image of it that can be read.
pub proof fn law_what_a_cache_remembers(
    cache: Map<Seq<char>, (Signature, DetailS2)>,
    processes: Seq<ProcessView>,
    path: Seq<char>,
    i: int,
)
    ensures
        remembered(cache, path) is Some <==> cache.dom().contains(path),
        cache.dom().contains(path) ==> remembered(cache, path) == Some(
            (cache[path].0@, cache[path].1@),
        ),
        covers(cache, processes) && 0 <= i < processes.len() && processes[i].path
            == ImagePathView::Readable(path) ==> remembered(cache, path) is Some,
        0 <= i < processes.len() && processes[i].path == ImagePathView::Readable(path)
            ==> listed_image(processes, path),
        listed_image(processes, path) ==> exists|j: int|
            0 <= j < processes.len() && (#[trigger] processes[j]).path is Readable
                && processes[j].path->Readable_0 == path,
{
}

/// A result counts as given for a path exactly when some call on that path may give it.
pub proof fn law_given_by_a_call<F: Fn(&str) -> (Signature, DetailS2)>(
    verify: F,
    p: &str,
    path: Seq<char>,
    result: (Signature, DetailS2),
)
    ensures
        verify.ensures((p,), result) ==> given(verify, p@, result),
        given(verify, path, result) ==> exists|q: &str|
            q@ == path && #[trigger] verify.ensures((q,), result),
{
}

/// The view of a [`HashResult`] shows all of it, and each part as it is.
pub proof fn law_view_of_hash_result(x: HashResult)
    ensures
        x@.sha256 == x.sha256@,
        x@.hash_source == x.hash_source@,
        x@.catalog_path is Some <==> x.catalog_path is Some,
        x.catalog_path matches Some(v) ==> x@.catalog_path == Some(v@),
{
}

/// The view of a [`TrustResult`] shows all of it, and each part as it is.
pub proof fn law_view_of_trust_result(x: TrustResult)
    ensures
        x@.status == x.status,
        x@.signer is Some <==> x.signer is Some,
        x.signer matches Some(v) ==> x@.signer == Some(v@),
        x@.chain_trusted == x.chain_trusted,
        x@.timestamped == x.timestamped,
{
}

/// What could not be had is absent, and what could be had is viewed whole.
pub proof fn law_views_of_what_was_had(
    hash: HashResult,
    trust: TrustResult,
    bytes: Vec<u8>,
    units: Vec<u16>,
)
    ensures
        opt_hash(Some(hash)) == Some(hash@) && opt_hash(None) is None,
        opt_trust(Some(trust)) == Some(trust@) && opt_trust(None) is None,
        opt_bytes(Some(bytes)) == Some(bytes@) && opt_bytes(None) is None,
        opt_units(Some(units)) == Some(units@) && opt_units(None) is None,
{
}

} // verus!
