//! Background track downloads: the jobs handed to the workers, the events
//! they report, and the content check of a finished download (its SHA-256
//! digest against the hash the server gave).
use std::sync::mpsc::{Receiver, Sender};
use sha2::{Digest, Sha256};
use vstd::prelude::*;
use vstd::string::*;
use crate::text::{chars_of, chars_eq, push_char};

verus! {

#[verifier::external_type_specification]
#[verifier::external_body]
#[verifier::reject_recursive_types(T)]
pub struct ExSender<T>(Sender<T>);

#[verifier::external_type_specification]
#[verifier::external_body]
#[verifier::reject_recursive_types(T)]
pub struct ExReceiver<T>(Receiver<T>);

/// A SHA-256 hasher of the `sha2` crate. Its type is a chain of generic
/// wrappers over type-level numbers that Verus cannot declare, so it is held
/// in a private field of this opaque struct.
#[verifier::external_body]
pub struct Sha256State {
    inner: Sha256,
}

/// One track to fetch: where from, with which credentials, the hash its
/// content must have, where it goes once checked, and where the partial
/// file is written meanwhile (both paths as text).
pub struct DownloadJob {
    pub track_id: i64,
    pub url: String,
    pub auth_header: Option<String>,
    pub expected_hash: String,
    pub dest_path: String,
    pub tmp_path: String,
}

/// What a worker reports about a job.
pub enum DownloadEvent {
    Progress { track_id: i64, bytes: u64, total: u64 },
    Done { track_id: i64, local_path: String },
    Failed { track_id: i64, error: String },
}

/// Calls `Sender::send`. Whether the job is delivered depends on the
/// workers still running, so nothing is stated of it.
#[verifier::external_body]
fn send_job(tx: &Sender<DownloadJob>, job: DownloadJob) {
    let _ = tx.send(job);
}

/// Calls `Receiver::try_recv` and keeps an event if one was waiting. What
/// arrives depends on the workers' progress, so nothing is stated of it.
#[verifier::external_body]
fn try_recv_event(rx: &Receiver<DownloadEvent>) -> Option<DownloadEvent> {
    rx.try_recv().ok()
}

/// The queue of jobs to the download workers and the stream of their
/// events.
pub struct DownloadManager {
    job_tx: Sender<DownloadJob>,
    event_rx: Receiver<DownloadEvent>,
}

impl DownloadManager {
    /// The sending end of the channel that jobs go to the workers on.
    pub closed spec fn jobs(&self) -> Sender<DownloadJob> {
        self.job_tx
    }

    /// The receiving end of the channel that the workers report on.
    pub closed spec fn events(&self) -> Receiver<DownloadEvent> {
        self.event_rx
    }

    /// A manager over the two ends of the workers' channels.
    pub fn new(job_tx: Sender<DownloadJob>, event_rx: Receiver<DownloadEvent>) -> (m: Self)
        ensures
            m.jobs() == job_tx,
            m.events() == event_rx,
    {
        DownloadManager { job_tx, event_rx }
    }

    /// Hands a job to the workers.
    pub fn enqueue(&self, job: DownloadJob) {
        send_job(&self.job_tx, job)
    }

    /// The next event from the workers, if one is waiting.
    pub fn try_recv(&self) -> Option<DownloadEvent> {
        try_recv_event(&self.event_rx)
    }
}

// ---------------------------------------------------------------------------
// Content check
// ---------------------------------------------------------------------------

/// The SHA-256 digest of a byte sequence (FIPS 180-4); named rather than
/// written out.
pub uninterp spec fn sha256(data: Seq<u8>) -> Seq<u8>;

/// The bytes that a SHA-256 hasher has taken in since it was created.
pub uninterp spec fn sha256_absorbed(h: Sha256State) -> Seq<u8>;

/// Calls `Sha256::new`: a hasher that has taken in nothing.
#[verifier::external_body]
fn sha256_new() -> (h: Sha256State)
    ensures
        sha256_absorbed(h) == Seq::<u8>::empty(),
{
    Sha256State { inner: Sha256::new() }
}

/// Calls `Digest::update`: the hasher takes in `data` after what it held.
#[verifier::external_body]
fn sha256_update(h: &mut Sha256State, data: &[u8])
    ensures
        sha256_absorbed(*final(h)) == sha256_absorbed(*old(h)) + data@,
{
    h.inner.update(data);
}

/// Calls `Digest::finalize`: the 32-byte digest of everything taken in.
#[verifier::external_body]
fn sha256_finalize(h: Sha256State) -> (d: Vec<u8>)
    ensures
        d@ == sha256(sha256_absorbed(h)),
        d@.len() == 32,
{
    h.inner.finalize().to_vec()
}

/// A running SHA-256 digest of a download's bytes, fed chunk by chunk.
pub struct StreamDigest {
    hasher: Sha256State,
}

impl StreamDigest {
    /// The bytes fed so far.
    pub closed spec fn fed(&self) -> Seq<u8> {
        sha256_absorbed(self.hasher)
    }

    pub fn new() -> (d: Self)
        ensures
            d.fed() == Seq::<u8>::empty(),
    {
        StreamDigest { hasher: sha256_new() }
    }

    /// Feeds the next chunk.
    pub fn update(&mut self, chunk: &[u8])
        ensures
            final(self).fed() == old(self).fed() + chunk@,
    {
        sha256_update(&mut self.hasher, chunk)
    }

    /// The digest of everything fed, as lower-case hex.
    pub fn finish_hex(self) -> (s: String)
        ensures
            s@ == hex_lower(sha256(self.fed())),
    {
        let d = sha256_finalize(self.hasher);
        hex_encode(d.as_slice())
    }
}

/// The lower-case hexadecimal digit for `d` (0..=15).
pub open spec fn hex_digit_lower(d: nat) -> char {
    if d < 10 {
        ((d + 48) as u8) as char
    } else {
        ((d + 87) as u8) as char
    }
}

/// Bytes written as lower-case hex, two digits per byte.
pub open spec fn hex_lower(bs: Seq<u8>) -> Seq<char>
    decreases bs.len(),
{
    if bs.len() == 0 {
        Seq::<char>::empty()
    } else {
        hex_lower(bs.drop_last()) + seq![
            hex_digit_lower((bs.last() / 16) as nat),
            hex_digit_lower((bs.last() % 16) as nat),
        ]
    }
}

fn hex_digit(d: u8) -> (c: char)
    requires
        d < 16,
    ensures
        c == hex_digit_lower(d as nat),
{
    if d < 10 {
        (d + 48) as char
    } else {
        (d + 87) as char
    }
}

/// Writes bytes as lower-case hex.
pub fn hex_encode(bytes: &[u8]) -> (s: String)
    ensures
        s@ == hex_lower(bytes@),
{
    let n: usize = bytes.len();
    let mut s = String::new();
    let mut i: usize = 0;
    assert(bytes@.subrange(0, 0) =~= Seq::<u8>::empty());
    while i < n
        invariant
            i <= n,
            n == bytes@.len(),
            s@ == hex_lower(bytes@.subrange(0, i as int)),
        decreases n - i,
    {
        let b: u8 = bytes[i];
        push_char(&mut s, hex_digit(b / 16));
        push_char(&mut s, hex_digit(b % 16));
        proof {
            let nxt = bytes@.subrange(0, i + 1);
            assert(nxt.drop_last() =~= bytes@.subrange(0, i as int));
            assert(nxt.last() == b);
            assert(s@ =~= hex_lower(nxt));
        }
        i = i + 1;
    }
    assert(bytes@.subrange(0, n as int) =~= bytes@);
    s
}

/// The message of a download whose content does not match its hash.
pub open spec fn hash_mismatch_message(expected: Seq<char>, actual: Seq<char>) -> Seq<char> {
    "hash mismatch: expected "@ + expected + ", got "@ + actual
}

/// Checks a finished download's digest against the expected hash. An empty
/// expected hash accepts any content.
pub fn check_hash(expected: &str, actual: &str) -> (r: Result<(), String>)
    ensures
        r is Ok <==> (expected@.len() == 0 || actual@ == expected@),
        r matches Err(m) ==> m@ == hash_mismatch_message(expected@, actual@),
{
    let e = chars_of(expected);
    let a = chars_of(actual);
    if e.len() == 0 || chars_eq(a.as_slice(), e.as_slice()) {
        Ok(())
    } else {
        let mut m = String::from_str("hash mismatch: expected ");
        m.append(expected);
        m.append(", got ");
        m.append(actual);
        Err(m)
    }
}


/// Hex text has two digits per byte.
pub proof fn lemma_hex_lower_len(bs: Seq<u8>)
    ensures
        hex_lower(bs).len() == 2 * bs.len(),
    decreases bs.len(),
{
    if bs.len() > 0 {
        lemma_hex_lower_len(bs.drop_last());
    }
}

proof fn lemma_hex_digit_injective(a: nat, b: nat)
    requires
        a < 16,
        b < 16,
        hex_digit_lower(a) == hex_digit_lower(b),
    ensures
        a == b,
{
}

/// Distinct digests have distinct hex texts, so comparing the texts of two
/// digests compares the digests.
pub proof fn lemma_hex_lower_injective(a: Seq<u8>, b: Seq<u8>)
    requires
        hex_lower(a) == hex_lower(b),
    ensures
        a == b,
    decreases a.len(),
{
    lemma_hex_lower_len(a);
    lemma_hex_lower_len(b);
    if a.len() > 0 {
        let ha = hex_lower(a.drop_last());
        let hb = hex_lower(b.drop_last());
        lemma_hex_lower_len(a.drop_last());
        lemma_hex_lower_len(b.drop_last());
        let n: int = ha.len() as int;
        let da = seq![hex_digit_lower((a.last() / 16) as nat), hex_digit_lower((a.last() % 16) as nat)];
        let db = seq![hex_digit_lower((b.last() / 16) as nat), hex_digit_lower((b.last() % 16) as nat)];
        assert(hex_lower(a) == ha + da);
        assert(hex_lower(b) == hb + db);
        assert((ha + da)[n] == da[0]);
        assert((hb + db)[n] == db[0]);
        assert((ha + da)[n + 1] == da[1]);
        assert((hb + db)[n + 1] == db[1]);
        assert(hex_lower(a)[n] == hex_lower(b)[n]);
        assert(hex_lower(a)[n + 1] == hex_lower(b)[n + 1]);
        lemma_hex_digit_injective((a.last() / 16) as nat, (b.last() / 16) as nat);
        lemma_hex_digit_injective((a.last() % 16) as nat, (b.last() % 16) as nat);
        assert(a.last() == b.last());
        assert(hex_lower(a).subrange(0, n) =~= ha);
        assert(hex_lower(b).subrange(0, n) =~= hb);
        lemma_hex_lower_injective(a.drop_last(), b.drop_last());
        assert(a =~= a.drop_last().push(a.last()));
        assert(b =~= b.drop_last().push(b.last()));
    } else {
        assert(a =~= b);
    }
}

} // verus!
