use vstd::prelude::*;
use crate::errors::AwsError;

verus! {

/// One page of a paginated table scan: the records the page carried, already
/// deserialized into the target record type `R`, and the continuation token
/// the store returned with the page, if any. The token type `K` is opaque to
/// the scan bookkeeping; it is only carried from one response to the next
/// request.
pub struct ScanPage<R, K> {
    /// The page's records, in the order the store returned them.
    pub items: Vec<R>,
    /// The continuation token of the response; absent on the last page.
    pub next_token: Option<K>,
}

/// Why one round trip of a scan failed.
#[derive(Debug)]
pub enum ScanFailure {
    /// The remote call itself failed; the field is the remote failure text.
    RemoteCall(String),
    /// The page's items could not be deserialized into the record type; the
    /// field is the deserializer's failure text.
    Deserialization(String),
}

/// The fixed message prefix of a failed remote scan call.
pub const SCAN_REMOTE_FAILURE_PREFIX: &'static str =
    "Unable to get items error during scan operation: ";

/// The fixed message prefix of a failed page deserialization.
pub const SCAN_DESERIALIZATION_FAILURE_PREFIX: &'static str =
    "Unable to parse items, error during serialization operation: ";

/// The message of the error one `ScanFailure` is wrapped into.
pub open spec fn scan_failure_message(f: ScanFailure) -> Seq<char> {
    match f {
        ScanFailure::RemoteCall(d) => SCAN_REMOTE_FAILURE_PREFIX@ + d@,
        ScanFailure::Deserialization(d) => SCAN_DESERIALIZATION_FAILURE_PREFIX@ + d@,
    }
}

/// The mathematical state of one scan: the records accumulated so far, the
/// pending continuation token, and how many requests have been answered.
pub open spec fn scan_model_init<R, K>() -> (Seq<R>, Option<K>, nat) {
    (Seq::<R>::empty(), None::<K>, 0nat)
}

/// Absorbing one page appends its items, replaces the token with the page's
/// token, and counts one more answered request.
pub open spec fn scan_model_step<R, K>(
    m: (Seq<R>, Option<K>, nat),
    page: ScanPage<R, K>,
) -> (Seq<R>, Option<K>, nat) {
    (m.0 + page.items@, page.next_token, m.2 + 1)
}

/// The scan state after absorbing `pages` in order, starting from the initial
/// state.
pub open spec fn scan_model_after<R, K>(pages: Seq<ScanPage<R, K>>) -> (Seq<R>, Option<K>, nat)
    decreases pages.len(),
{
    if pages.len() == 0 {
        scan_model_init()
    } else {
        scan_model_step(scan_model_after(pages.drop_last()), pages.last())
    }
}

/// A scan is complete when a response came back without a continuation token
/// and at least one request has been answered: "do ... while", not "while".
pub open spec fn scan_model_is_done<R, K>(m: (Seq<R>, Option<K>, nat)) -> bool {
    m.2 > 0 && m.1 is None
}

/// The outcome of a whole scan whose round trips came back as `events`, in
/// order: the state after all pages if every round trip succeeded, else the
/// first failure.
pub open spec fn scan_run<R, K>(
    events: Seq<Result<ScanPage<R, K>, ScanFailure>>,
) -> Result<(Seq<R>, Option<K>, nat), ScanFailure>
    decreases events.len(),
{
    if events.len() == 0 {
        Ok(scan_model_init())
    } else {
        match scan_run(events.drop_last()) {
            Ok(m) => match events.last() {
                Ok(page) => Ok(scan_model_step(m, page)),
                Err(f) => Err(f),
            },
            Err(f) => Err(f),
        }
    }
}

/// The local state of one table scan. One value of this type belongs to one
/// scan call; concurrent scans each own their own value and never share
/// pagination progress.
///
/// The caller drives the loop: while `needs_request()` holds, it issues one
/// scan request carrying `token()`, turns the response into a
/// `ScanPage` (or a `ScanFailure`), and feeds it to `absorb`. When
/// `needs_request()` no longer holds, `take_records` hands out everything the
/// table returned.
pub struct ScanState<R, K> {
    records: Vec<R>,
    token: Option<K>,
    requests_sent: u64,
}

impl<R, K> ScanState<R, K> {
    /// The mathematical state: accumulated records, pending token, answered
    /// requests.
    pub closed spec fn model(self) -> (Seq<R>, Option<K>, nat) {
        (self.records@, self.token, self.requests_sent as nat)
    }

    /// The records accumulated so far, in page-arrival then within-page order.
    pub open spec fn spec_records(self) -> Seq<R> {
        self.model().0
    }

    /// The continuation token the last response carried, if any.
    pub open spec fn spec_token(self) -> Option<K> {
        self.model().1
    }

    /// How many requests have been answered so far.
    pub open spec fn spec_requests(self) -> nat {
        self.model().2
    }

    /// Whether the scan has terminated.
    pub open spec fn is_done(self) -> bool {
        scan_model_is_done(self.model())
    }

    /// A fresh scan: nothing accumulated, no token, no request sent yet.
    pub fn new() -> (s: ScanState<R, K>)
        ensures
            s.model() == scan_model_init::<R, K>(),
    {
        ScanState { records: Vec::new(), token: None, requests_sent: 0 }
    }

    /// Whether the caller must issue (another) request. True on a fresh scan
    /// even though the token starts absent, and true after any response that
    /// carried a token.
    pub fn needs_request(&self) -> (b: bool)
        ensures
            b == !self.is_done(),
    {
        self.requests_sent == 0 || self.token.is_some()
    }

    /// How many requests have been answered so far.
    pub fn requests_sent(&self) -> (n: u64)
        ensures
            n == self.spec_requests(),
    {
        self.requests_sent
    }

    /// The continuation token to pass with the next request; absent on the
    /// first request.
    pub fn token(&self) -> (t: &Option<K>)
        ensures
            *t == self.spec_token(),
    {
        &self.token
    }

    /// Absorbs the outcome of one round trip.
    ///
    /// A successful page extends the record sequence with the page's items and
    /// takes over the page's token. Any failure consumes the scan whole —
    /// records accumulated from earlier pages are discarded — and yields the
    /// wrapped error, so no partial result can survive a failed round trip.
    pub fn absorb(self, outcome: Result<ScanPage<R, K>, ScanFailure>) -> (r: Result<
        ScanState<R, K>,
        AwsError,
    >)
        requires
            self.spec_requests() < u64::MAX,
        ensures
            match outcome {
                Ok(page) => r matches Ok(s) && s.model() == scan_model_step(self.model(), page),
                Err(f) => r matches Err(e) && e.spec_details() == scan_failure_message(f),
            },
    {
        match outcome {
            Ok(page) => {
                let ScanState { mut records, token: _, requests_sent } = self;
                let mut items = page.items;
                records.append(&mut items);
                Ok(ScanState { records, token: page.next_token, requests_sent: requests_sent + 1 })
            },
            Err(ScanFailure::RemoteCall(detail)) => Err(
                AwsError::with_prefix(SCAN_REMOTE_FAILURE_PREFIX, detail.as_str()),
            ),
            Err(ScanFailure::Deserialization(detail)) => Err(
                AwsError::with_prefix(SCAN_DESERIALIZATION_FAILURE_PREFIX, detail.as_str()),
            ),
        }
    }

    /// Hands out everything the scan accumulated. Only a terminated scan may
    /// be consumed this way: a running one has no result yet.
    pub fn take_records(self) -> (r: Vec<R>)
        requires
            self.is_done(),
        ensures
            r@ == self.spec_records(),
    {
        self.records
    }
}

proof fn lemma_map_values_drop_last<A, B>(s: Seq<A>, f: spec_fn(A) -> B)
    requires
        s.len() > 0,
    ensures
        s.drop_last().map_values(f) =~= s.map_values(f).drop_last(),
{
}

/// A scan over `pages` returns exactly the concatenation of all pages' items,
/// in page-arrival order, and answers exactly one request per page.
pub proof fn lemma_scan_collects_all_pages<R, K>(pages: Seq<ScanPage<R, K>>)
    ensures
        scan_model_after(pages).0 == pages.map_values(|p: ScanPage<R, K>| p.items@).flatten(),
        scan_model_after(pages).2 == pages.len(),
    decreases pages.len(),
{
    let f = |p: ScanPage<R, K>| p.items@;
    if pages.len() == 0 {
        assert(pages.map_values(f).flatten() =~= Seq::<R>::empty());
    } else {
        lemma_scan_collects_all_pages(pages.drop_last());
        lemma_map_values_drop_last(pages, f);
        pages.map_values(f).lemma_flatten_and_flatten_alt_are_equivalent();
        pages.map_values(f).drop_last().lemma_flatten_and_flatten_alt_are_equivalent();
        assert(pages.map_values(f).flatten_alt() == pages.map_values(f).drop_last().flatten_alt()
            + pages.map_values(f).last());
        assert(pages.map_values(f).last() == pages.last().items@);
    }
}

/// A scan answers at least one request before it is done, even over an empty
/// table: a fresh scan is not done although its token is absent, and a done
/// scan has absorbed at least one page.
pub proof fn lemma_scan_issues_first_request<R, K>(pages: Seq<ScanPage<R, K>>)
    ensures
        !scan_model_is_done(scan_model_init::<R, K>()),
        scan_model_is_done(scan_model_after(pages)) ==> pages.len() >= 1,
{
}

/// A scan fails atomically: if any round trip fails — the remote call or the
/// deserialization of a page — the whole scan's outcome is that failure, and
/// no record list, partial or otherwise, is returned.
pub proof fn lemma_scan_fails_atomically<R, K>(
    events: Seq<Result<ScanPage<R, K>, ScanFailure>>,
)
    requires
        exists|i: int| 0 <= i < events.len() && events[i] is Err,
    ensures
        scan_run(events) is Err,
    decreases events.len(),
{
    let i = choose|i: int| 0 <= i < events.len() && events[i] is Err;
    if events.last() is Ok {
        assert(events.drop_last()[i] is Err);
        lemma_scan_fails_atomically(events.drop_last());
    }
}

/// When every round trip of a scan succeeds, the scan's outcome is exactly
/// the state after absorbing all the pages in arrival order.
pub proof fn lemma_scan_run_of_pages<R, K>(events: Seq<Result<ScanPage<R, K>, ScanFailure>>)
    requires
        forall|i: int| 0 <= i < events.len() ==> events[i] is Ok,
    ensures
        scan_run(events) == Ok::<_, ScanFailure>(scan_model_after(
            events.map_values(|e: Result<ScanPage<R, K>, ScanFailure>| e.unwrap()),
        )),
    decreases events.len(),
{
    let f = |e: Result<ScanPage<R, K>, ScanFailure>| e.unwrap();
    if events.len() == 0 {
        assert(events.map_values(f).len() == 0);
    } else {
        lemma_scan_run_of_pages(events.drop_last());
        lemma_map_values_drop_last(events, f);
        assert(events.map_values(f).last() == events.last().unwrap());
    }
}

} // verus!
