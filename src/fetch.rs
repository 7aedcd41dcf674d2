//! Integrity checking and the retry / mirror-fallback policy of downloads.
//!
//! The network requests themselves are made by the caller: a [`Download`] says which
//! URL to request next, and is told what each request gave.
use vstd::prelude::*;

use crate::MetadataError;

verus! {

/// The number of requests made against one URL before its failure is final.
pub const MAX_ATTEMPTS: u32 = 4;

/// The lowercase hexadecimal SHA-1 digest of a byte sequence.
pub uninterp spec fn sha1_hex_of(b: Seq<u8>) -> Seq<char>;

/// Relies on sha1's `Sha1::from(..).hexdigest()`: the lowercase hex SHA-1 digest of the bytes,
/// a function of the bytes alone.
#[verifier::external_body]
fn sha1_hexdigest(b: &[u8]) -> (r: String)
    ensures
        r@ == sha1_hex_of(b@),
{
    sha1::Sha1::from(b).hexdigest()
}

/// Computes the checksum of `bytes`.
pub fn get_hash(bytes: &[u8]) -> (r: String)
    ensures
        r@ == sha1_hex_of(bytes@),
{
    sha1_hexdigest(bytes)
}

/// Whether `bytes` has the checksum `expected`.
pub open spec fn digest_accepts(bytes: Seq<u8>, expected: Seq<char>) -> bool {
    sha1_hex_of(bytes) == expected
}

/// Compares a computed checksum with an expected one, case-sensitively.
pub fn digest_matches(computed: &String, expected: &String) -> (r: bool)
    ensures
        r == (computed@ == expected@),
{
    *computed == *expected
}

/// Whether the checksum of `bytes` is `expected`.
pub fn verify(bytes: &[u8], expected: &str) -> (r: bool)
    ensures
        r == digest_accepts(bytes@, expected@),
{
    let computed = get_hash(bytes);
    digest_matches(&computed, &expected.to_owned())
}

/// A buffer always verifies against its own checksum, and a buffer whose checksum
/// differs (any other buffer, collisions aside) never does.
pub proof fn lemma_digest_accepts_own_buffer_only(b: Seq<u8>, other: Seq<u8>)
    requires
        sha1_hex_of(other) != sha1_hex_of(b),
    ensures
        digest_accepts(b, sha1_hex_of(b)),
        !digest_accepts(other, sha1_hex_of(b)),
{
}

/// What one request gave.
#[derive(Debug)]
pub enum AttemptOutcome {
    /// The response body was read in full.
    Received(Vec<u8>),
    /// The request, or reading its body, failed.
    Failed(reqwest::Error),
}

/// The state of a download: the URLs to try in order, the expected checksum, and
/// where in the sequence of attempts it stands.
pub struct Download {
    urls: Vec<String>,
    sha1: Option<String>,
    mirror: usize,
    attempt: u32,
}

/// The mathematical state of a download.
pub struct DownloadModel {
    pub urls: Seq<Seq<char>>,
    pub sha1: Option<Seq<char>>,
    pub mirror: int,
    pub attempt: int,
}

/// How a download ends, without the transport error it may carry.
pub enum Ending {
    Body(Seq<u8>),
    ChecksumFailure { hash: Seq<char>, url: Seq<char>, tries: u32 },
    FetchFailure { url: Seq<char> },
}

pub open spec fn ending_of(r: Result<Vec<u8>, MetadataError>) -> Option<Ending> {
    match r {
        Ok(b) => Some(Ending::Body(b@)),
        Err(MetadataError::ChecksumFailure { hash, url, tries }) => Some(
            Ending::ChecksumFailure { hash: hash@, url: url@, tries },
        ),
        Err(MetadataError::FetchError { inner, item }) => Some(Ending::FetchFailure { url: item@ }),
        Err(_) => None,
    }
}

/// Whether an outcome ends the download successfully.
pub open spec fn accepted(sha1: Option<Seq<char>>, o: AttemptOutcome) -> bool {
    match o {
        AttemptOutcome::Received(b) => match sha1 {
            None => true,
            Some(h) => digest_accepts(b@, h),
        },
        AttemptOutcome::Failed(_) => false,
    }
}

pub open spec fn model_wf(m: DownloadModel) -> bool {
    &&& 0 <= m.mirror < m.urls.len()
    &&& 1 <= m.attempt <= MAX_ATTEMPTS
}

/// The state after an outcome, and how the download ends if it does.
pub open spec fn step_model(m: DownloadModel, o: AttemptOutcome) -> (DownloadModel, Option<Ending>) {
    let url = m.urls[m.mirror];
    if accepted(m.sha1, o) {
        (m, Some(Ending::Body(o->Received_0@)))
    } else if m.attempt < MAX_ATTEMPTS {
        (DownloadModel { attempt: m.attempt + 1, ..m }, None)
    } else if m.mirror + 1 < m.urls.len() {
        (DownloadModel { mirror: m.mirror + 1, attempt: 1, ..m }, None)
    } else {
        match o {
            AttemptOutcome::Received(_) => (
                m,
                Some(Ending::ChecksumFailure { hash: m.sha1->Some_0, url, tries: MAX_ATTEMPTS }),
            ),
            AttemptOutcome::Failed(_) => (m, Some(Ending::FetchFailure { url })),
        }
    }
}

/// Runs a download against a sequence of outcomes, one per request, until it ends:
/// how it ended (if it did) and the URLs requested, in order.
pub open spec fn run(m: DownloadModel, outs: Seq<AttemptOutcome>) -> (Option<Ending>, Seq<
    Seq<char>,
>)
    decreases outs.len(),
{
    if outs.len() == 0 {
        (None, seq![])
    } else {
        let url = m.urls[m.mirror];
        let (next, end) = step_model(m, outs[0]);
        match end {
            Some(e) => (Some(e), seq![url]),
            None => {
                let (r, reqs) = run(next, outs.drop_first());
                (r, seq![url] + reqs)
            },
        }
    }
}

impl View for Download {
    type V = DownloadModel;

    closed spec fn view(&self) -> DownloadModel {
        DownloadModel {
            urls: self.urls@.map_values(|u: String| u@),
            sha1: match self.sha1 {
                Some(h) => Some(h@),
                None => None,
            },
            mirror: self.mirror as int,
            attempt: self.attempt as int,
        }
    }
}

pub open spec fn single_model(url: Seq<char>, sha1: Option<Seq<char>>) -> DownloadModel {
    DownloadModel { urls: seq![url], sha1, mirror: 0, attempt: 1 }
}

pub open spec fn mirrors_model(base: Seq<char>, mirrors: Seq<&str>, sha1: Option<Seq<char>>) -> DownloadModel {
    DownloadModel { urls: mirrors.map_values(|m: &str| m@ + base), sha1, mirror: 0, attempt: 1 }
}

pub open spec fn opt_view(s: Option<&str>) -> Option<Seq<char>> {
    match s {
        Some(h) => Some(h@),
        None => None,
    }
}

impl Download {
    pub open spec fn wf(&self) -> bool {
        model_wf(self@)
    }

    /// A download of one URL, with an optional expected checksum.
    pub fn new(url: &str, sha1: Option<&str>) -> (r: Download)
        ensures
            r.wf(),
            r@ == single_model(url@, opt_view(sha1)),
    {
        let mut urls: Vec<String> = Vec::new();
        urls.push(url.to_owned());
        let sha1 = match sha1 {
            Some(h) => Some(h.to_owned()),
            None => None,
        };
        let r = Download { urls, sha1, mirror: 0, attempt: 1 };
        assert(r@.urls =~= seq![url@]);
        r
    }

    /// A download of `base` from each of `mirrors` in turn; the URL for a mirror is the
    /// mirror followed directly by `base`. Fails when no mirror is given.
    pub fn from_mirrors(base: &str, mirrors: &[&str], sha1: Option<&str>) -> (r: Result<Download, MetadataError>)
        ensures
            mirrors@.len() == 0 <==> r is Err,
            r matches Err(e) ==> e matches MetadataError::ParseError(msg) && msg@
                == "No mirrors provided!"@,
            r matches Ok(d) ==> d.wf() && d@ == mirrors_model(base@, mirrors@, opt_view(sha1)),
    {
        if mirrors.len() == 0 {
            return Err(MetadataError::ParseError(String::from_str("No mirrors provided!")));
        }
        let mut urls: Vec<String> = Vec::new();
        let mut i: usize = 0;
        while i < mirrors.len()
            invariant
                i <= mirrors@.len(),
                urls@.len() == i,
                forall|j: int| 0 <= j < i ==> #[trigger] urls@[j]@ == mirrors@[j]@ + base@,
            decreases mirrors@.len() - i,
        {
            let url = mirrors[i].to_owned().concat(base);
            urls.push(url);
            i = i + 1;
        }
        assert(urls@.map_values(|u: String| u@) =~= mirrors@.map_values(|m: &str| m@ + base@));
        let sha1 = match sha1 {
            Some(h) => Some(h.to_owned()),
            None => None,
        };
        Ok(Download { urls, sha1, mirror: 0, attempt: 1 })
    }

    /// The URL to request next.
    pub fn current_url(&self) -> (r: &String)
        requires
            self.wf(),
        ensures
            r@ == self@.urls[self@.mirror],
    {
        &self.urls[self.mirror]
    }

    /// Takes in what the last request gave. `None` means: request `current_url` again
    /// (a retry, or the next mirror). `Some` is the end of the download.
    pub fn step(&mut self, outcome: AttemptOutcome) -> (r: Option<Result<Vec<u8>, MetadataError>>)
        requires
            old(self).wf(),
        ensures
            final(self).wf(),
            (final(self)@, ending_of_opt(r)) == step_model(old(self)@, outcome),
            r matches Some(Err(MetadataError::FetchError { inner, item })) ==> (outcome
                == AttemptOutcome::Failed(inner)),
            r matches Some(Ok(b)) ==> (outcome == AttemptOutcome::Received(b)),
            r matches Some(Err(e)) ==> (e is ChecksumFailure || e is FetchError),
    {
        proof {
            assert(self@.urls.len() == self.urls@.len());
            assert(self@.mirror == self.mirror as int);
        }
        let n = self.urls.len();
        let m = self.mirror;
        assert(m < n);
        let ok = match &outcome {
            AttemptOutcome::Received(b) => match &self.sha1 {
                None => true,
                Some(h) => digest_matches(&get_hash(b.as_slice()), h),
            },
            AttemptOutcome::Failed(_) => false,
        };
        if ok {
            match outcome {
                AttemptOutcome::Received(b) => Some(Ok(b)),
                AttemptOutcome::Failed(_) => None,
            }
        } else if self.attempt < MAX_ATTEMPTS {
            self.attempt = self.attempt + 1;
            None
        } else if m + 1 < n {
            self.mirror = self.mirror + 1;
            self.attempt = 1;
            None
        } else {
            let url = self.urls[self.mirror].clone();
            match outcome {
                AttemptOutcome::Received(_) => {
                    let hash = match &self.sha1 {
                        Some(h) => h.clone(),
                        None => String::new(),
                    };
                    Some(Err(MetadataError::ChecksumFailure { hash, url, tries: self.attempt }))
                },
                AttemptOutcome::Failed(inner) => Some(Err(MetadataError::FetchError { inner, item: url })),
            }
        }
    }
}

/// A single target whose every response fails the checksum is requested exactly four
/// times, and the download ends in a checksum failure that reports four attempts.
pub proof fn lemma_mismatch_every_attempt(
    url: Seq<char>,
    hash: Seq<char>,
    outs: Seq<AttemptOutcome>,
)
    requires
        outs.len() >= MAX_ATTEMPTS,
        forall|i: int|
            0 <= i < outs.len() ==> (#[trigger] outs[i] is Received && !digest_accepts(
                outs[i]->Received_0@,
                hash,
            )),
    ensures
        run(single_model(url, Some(hash)), outs) == (
            Some(Ending::ChecksumFailure { hash, url, tries: MAX_ATTEMPTS }),
            seq![url, url, url, url],
        ),
{
    reveal_with_fuel(run, 5);
    let o1 = outs.drop_first();
    let o2 = o1.drop_first();
    let o3 = o2.drop_first();
    assert(o1[0] == outs[1]);
    assert(o2[0] == outs[2]);
    assert(o3[0] == outs[3]);
    assert(seq![url] + (seq![url] + (seq![url] + seq![url])) =~= seq![url, url, url, url]);
}

/// A single target that fails once and then gives an acceptable body is requested
/// exactly twice, and the download ends with that body.
pub proof fn lemma_success_on_second_attempt(
    url: Seq<char>,
    sha1: Option<Seq<char>>,
    outs: Seq<AttemptOutcome>,
)
    requires
        outs.len() >= 2,
        !accepted(sha1, outs[0]),
        accepted(sha1, outs[1]),
    ensures
        run(single_model(url, sha1), outs) == (
            Some(Ending::Body(outs[1]->Received_0@)),
            seq![url, url],
        ),
{
    reveal_with_fuel(run, 3);
    let o1 = outs.drop_first();
    assert(o1[0] == outs[1]);
    assert(seq![url] + seq![url] =~= seq![url, url]);
}

/// With two mirrors, where every request of the first fails and the first request of
/// the second gives an acceptable body: the first mirror is requested four times, then
/// the second once, and the download ends with the second mirror's body.
pub proof fn lemma_second_mirror_after_first_exhausted(
    base: Seq<char>,
    m1: &str,
    m2: &str,
    sha1: Option<Seq<char>>,
    outs: Seq<AttemptOutcome>,
)
    requires
        outs.len() >= 5,
        forall|i: int| 0 <= i < 4 ==> !accepted(sha1, #[trigger] outs[i]),
        accepted(sha1, outs[4]),
    ensures
        ({
            let u1 = m1@ + base;
            let u2 = m2@ + base;
            run(mirrors_model(base, seq![m1, m2], sha1), outs) == (
                Some(Ending::Body(outs[4]->Received_0@)),
                seq![u1, u1, u1, u1, u2],
            )
        }),
{
    reveal_with_fuel(run, 6);
    let u1 = m1@ + base;
    let u2 = m2@ + base;
    let m = mirrors_model(base, seq![m1, m2], sha1);
    assert(m.urls =~= seq![u1, u2]);
    let o1 = outs.drop_first();
    let o2 = o1.drop_first();
    let o3 = o2.drop_first();
    let o4 = o3.drop_first();
    assert(o1[0] == outs[1]);
    assert(o2[0] == outs[2]);
    assert(o3[0] == outs[3]);
    assert(o4[0] == outs[4]);
    assert(!accepted(sha1, outs[0]) && !accepted(sha1, outs[1]));
    assert(!accepted(sha1, outs[2]) && !accepted(sha1, outs[3]));
    assert(seq![u1] + (seq![u1] + (seq![u1] + (seq![u1] + seq![u2]))) =~= seq![u1, u1, u1, u1, u2]);
}

pub open spec fn ending_of_opt(r: Option<Result<Vec<u8>, MetadataError>>) -> Option<Ending> {
    match r {
        Some(x) => ending_of(x),
        None => None,
    }
}

} // verus!
