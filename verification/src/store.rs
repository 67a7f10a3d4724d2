use vstd::prelude::*;

use crate::error::Error;
use crate::keygen::generate_key;
use crate::keygen::valid_key;

verus! {

/// Scheme prefix added during normalization when a URL carries none.
pub open spec fn https_prefix() -> Seq<char> {
    "https://"@
}

/// Scheme prefix that is also accepted as already explicit.
pub open spec fn http_prefix() -> Seq<char> {
    "http://"@
}

/// Whether a URL already begins with an explicit scheme accepted by the
/// store (`http://` or `https://`).
pub open spec fn has_scheme(url: Seq<char>) -> bool {
    http_prefix().is_prefix_of(url) || https_prefix().is_prefix_of(url)
}

/// The normalization rule applied to every URL before storage: a URL
/// without an explicit scheme is prefixed with `https://`, so a later
/// redirect never treats it as a path relative to the short-link host.
pub open spec fn spec_normalize(url: Seq<char>) -> Seq<char> {
    if has_scheme(url) {
        url
    } else {
        https_prefix() + url
    }
}

/// Whether `s` begins with `prefix`, compared character by character.
pub fn str_starts_with(s: &str, prefix: &str) -> (r: bool)
    ensures
        r == prefix@.is_prefix_of(s@),
{
    let n = prefix.unicode_len();
    let m = s.unicode_len();
    if n > m {
        return false;
    }
    let mut i: usize = 0;
    while i < n
        invariant
            0 <= i <= n,
            n == prefix@.len(),
            m == s@.len(),
            n <= m,
            forall|j: int| 0 <= j < i ==> s@[j] == prefix@[j],
        decreases n - i,
    {
        if s.get_char(i) != prefix.get_char(i) {
            proof {
                assert(s@.subrange(0, n as int)[i as int] == s@[i as int]);
            }
            return false;
        }
        i = i + 1;
    }
    proof {
        assert(prefix@ =~= s@.subrange(0, n as int));
    }
    true
}

/// Normalize a URL before storage: keep it unchanged when it already
/// starts with `http://` or `https://`, otherwise put `https://` in front.
pub fn normalize_url(url: String) -> (r: String)
    ensures
        r@ == spec_normalize(url@),
{
    if str_starts_with(url.as_str(), "http://") || str_starts_with(url.as_str(), "https://") {
        url
    } else {
        let mut r = String::from_str("https://");
        r.append(url.as_str());
        r
    }
}

/// What a point read against the backing store yielded, handed over as
/// plain values by the adapter that performs the network call: the
/// record's `url` attribute when a record was found (`None` when the
/// record lacks a string `url` value), `Absent` when no record exists
/// under the key, and `Unreachable` when the backing store call itself
/// failed.
pub enum ReadOutcome {
    Found { url: Option<String> },
    Absent,
    Unreachable,
}

/// The result that resolution owes the caller for each read outcome: the
/// stored URL when a usable record came back, `NotFound` when the record
/// is absent or lacks a `url` value (treated identically, a defensive
/// integrity check), and `ServerError` when the backing store call failed.
pub open spec fn spec_resolve_outcome(read: ReadOutcome) -> Result<Seq<char>, Error> {
    match read {
        ReadOutcome::Found { url: Some(u) } => Ok(u@),
        ReadOutcome::Found { url: None } => Err(Error::NotFound),
        ReadOutcome::Absent => Err(Error::NotFound),
        ReadOutcome::Unreachable => Err(Error::ServerError),
    }
}

/// Turn the outcome of the backing-store point read into the result that
/// `resolve` surfaces to its caller.
pub fn resolve_outcome(read: ReadOutcome) -> (r: Result<String, Error>)
    ensures
        (match r {
            Ok(u) => spec_resolve_outcome(read) == Ok::<Seq<char>, Error>(u@),
            Err(e) => spec_resolve_outcome(read) == Err::<Seq<char>, Error>(e),
        }),
{
    match read {
        ReadOutcome::Found { url: Some(u) } => Ok(u),
        ReadOutcome::Found { url: None } => Err(Error::NotFound),
        ReadOutcome::Absent => Err(Error::NotFound),
        ReadOutcome::Unreachable => Err(Error::ServerError),
    }
}

/// A link record as written to the backing store: a freshly minted key
/// and the normalized destination URL.
pub struct LinkRecord {
    pub key: String,
    pub url: String,
}

/// A record fit to be persisted: a well-shaped key and a URL in
/// normalized form — both, in particular, non-empty.
pub open spec fn wf_record(rec: LinkRecord) -> bool {
    &&& valid_key(rec.key@)
    &&& has_scheme(rec.url@)
    &&& rec.key@.len() > 0
    &&& rec.url@.len() > 0
}

/// Build the record that a write persists: mint a fresh key and normalize
/// the URL. Storage state plays no part; the key shape and the exact
/// stored URL are fixed here, before any network call.
pub fn prepare_link(url: String) -> (rec: LinkRecord)
    ensures
        valid_key(rec.key@),
        rec.url@ == spec_normalize(url@),
        wf_record(rec),
{
    proof {
        lemma_normalize_normalized(url@);
    }
    let key = generate_key();
    let stored = normalize_url(url);
    LinkRecord { key, url: stored }
}

/// Turn the outcome of the backing-store write into the result that
/// `create` surfaces: the freshly minted key on success, `ServerError`
/// when the write call failed. `NotFound` never arises on the write path.
pub fn create_outcome(rec: LinkRecord, stored: bool) -> (r: Result<String, Error>)
    ensures
        stored ==> (r matches Ok(k) && k@ == rec.key@),
        !stored ==> r == Err::<String, Error>(Error::ServerError),
{
    if stored {
        Ok(rec.key)
    } else {
        Err(Error::ServerError)
    }
}

/// What a point read yields against a store whose state is modeled as a
/// map from keys to stored URLs: the stored URL, or `NotFound`.
pub open spec fn spec_resolve(store: Map<Seq<char>, Seq<char>>, key: Seq<char>) -> Result<
    Seq<char>,
    Error,
> {
    if store.contains_key(key) {
        Ok(store[key])
    } else {
        Err(Error::NotFound)
    }
}

/// What a successful write leaves behind: the normalized URL stored under
/// the minted key, overwriting any record under the same key.
pub open spec fn spec_create(
    store: Map<Seq<char>, Seq<char>>,
    key: Seq<char>,
    url: Seq<char>,
) -> Map<Seq<char>, Seq<char>> {
    store.insert(key, spec_normalize(url))
}

/// Whether a read outcome faithfully reports the modeled store state at
/// `key`: a found URL is the stored one, absence means no record, and a
/// failed or malformed outcome reports nothing about the store.
pub open spec fn reflects(
    read: ReadOutcome,
    store: Map<Seq<char>, Seq<char>>,
    key: Seq<char>,
) -> bool {
    match read {
        ReadOutcome::Found { url: Some(u) } => store.contains_key(key) && store[key] == u@,
        ReadOutcome::Found { url: None } => false,
        ReadOutcome::Absent => !store.contains_key(key),
        ReadOutcome::Unreachable => false,
    }
}

/// A read outcome that faithfully reports the store makes `resolve`
/// agree with the modeled point read.
pub proof fn lemma_resolve_agrees(
    read: ReadOutcome,
    store: Map<Seq<char>, Seq<char>>,
    key: Seq<char>,
)
    requires
        reflects(read, store, key),
    ensures
        spec_resolve_outcome(read) == spec_resolve(store, key),
{
}

/// Idempotence of resolve: against one store state, resolving a stored
/// key returns exactly the stored URL, so repeated resolves all return
/// the same URL until the store changes externally.
pub proof fn lemma_resolve_idempotent(
    store: Map<Seq<char>, Seq<char>>,
    key: Seq<char>,
    url: Seq<char>,
)
    requires
        store.contains_key(key),
        store[key] == url,
    ensures
        spec_resolve(store, key) == Ok::<Seq<char>, Error>(url),
{
}

/// Resolving any key against the empty store yields `NotFound` — never
/// `ServerError`.
pub proof fn lemma_resolve_empty(key: Seq<char>)
    ensures
        spec_resolve(Map::<Seq<char>, Seq<char>>::empty(), key) == Err::<Seq<char>, Error>(
            Error::NotFound,
        ),
{
}

/// Round trip: after a write stores `url` under the minted key, resolving
/// that key returns the normalized form of `url`.
pub proof fn lemma_create_then_resolve(
    store: Map<Seq<char>, Seq<char>>,
    key: Seq<char>,
    url: Seq<char>,
)
    ensures
        spec_resolve(spec_create(store, key, url), key) == Ok::<Seq<char>, Error>(
            spec_normalize(url),
        ),
{
}

/// Failure propagation: when the backing-store call itself fails, the
/// read path surfaces `ServerError` and nothing else.
pub proof fn lemma_failure_propagates()
    ensures
        spec_resolve_outcome(ReadOutcome::Unreachable) == Err::<Seq<char>, Error>(
            Error::ServerError,
        ),
{
}

/// Normalization always leaves an explicit scheme in place, is idempotent,
/// and never produces an empty URL.
pub proof fn lemma_normalize_normalized(url: Seq<char>)
    ensures
        has_scheme(spec_normalize(url)),
        spec_normalize(spec_normalize(url)) == spec_normalize(url),
        spec_normalize(url).len() > 0,
{
    reveal_strlit("https://");
    reveal_strlit("http://");
    if !has_scheme(url) {
        assert(https_prefix() =~= (https_prefix() + url).subrange(
            0,
            https_prefix().len() as int,
        ));
    }
}

} // verus!
