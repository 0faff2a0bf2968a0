//! The fetch loop and outcome aggregator: one fetch per URL, in list order,
//! each result classified and folded into running tallies; a single failure
//! never aborts the run.

use vstd::prelude::*;

use crate::errors::{FetchError, PreloadError};
use crate::is_success_status;
use crate::urls::url_list_entries;

verus! {

/// What the transport handed back for one URL: either the request completed
/// with some status, or it could not be completed at all.
#[derive(Debug, Clone, PartialEq, Eq)]
pub enum FetchEvent {
    /// The request completed; `status` is the HTTP status code.
    Completed { status: u16, elapsed_ms: u64 },
    /// The request could not be completed (DNS, connection, timeout, TLS,
    /// cache-storage I/O); `detail` is the underlying cause.
    TransportFailed { detail: String },
}

/// One emitted record per attempted URL.
#[derive(Debug, Clone, PartialEq, Eq)]
pub enum FetchOutcome {
    Success { url: String, elapsed_ms: u64 },
    Failure { url: String, elapsed_ms: Option<u64>, error: FetchError },
}

/// The aggregate counts of one run.
#[derive(Debug, Clone, Copy, PartialEq, Eq, Structural)]
pub struct RunSummary {
    pub success_count: u64,
    pub error_count: u64,
    pub total_elapsed_ms: u64,
}

/// An event counts as success exactly when the request completed with a 2xx
/// status; a non-2xx status or a transport failure counts as failure.
pub open spec fn event_succeeds(ev: FetchEvent) -> bool {
    ev matches FetchEvent::Completed { status, .. } && is_success_status(status)
}

/// How many of the events succeeded.
pub open spec fn successes(events: Seq<FetchEvent>) -> nat
    decreases events.len(),
{
    if events.len() == 0 {
        0
    } else {
        successes(events.drop_last()) + if event_succeeds(events.last()) {
            1nat
        } else {
            0nat
        }
    }
}

/// How many of the events failed.
pub open spec fn failures(events: Seq<FetchEvent>) -> nat
    decreases events.len(),
{
    if events.len() == 0 {
        0
    } else {
        failures(events.drop_last()) + if event_succeeds(events.last()) {
            0nat
        } else {
            1nat
        }
    }
}

/// The outcome record owed for one URL and the event its fetch produced.
pub open spec fn outcome_matches(url: Seq<char>, ev: FetchEvent, o: FetchOutcome) -> bool {
    match ev {
        FetchEvent::Completed { status, elapsed_ms } => {
            if is_success_status(status) {
                o matches FetchOutcome::Success { url: u, elapsed_ms: e } && u@ == url && e
                    == elapsed_ms
            } else {
                o matches FetchOutcome::Failure { url: u, elapsed_ms: e, error } && u@ == url && e
                    == Some(elapsed_ms) && error == (FetchError::UnsuccessfulStatus { status })
            }
        },
        FetchEvent::TransportFailed { detail } => {
            o matches FetchOutcome::Failure { url: u, elapsed_ms: e, error } && u@ == url
                && e is None && (error matches FetchError::Transport { detail: d } && d@ == detail@)
        },
    }
}

/// The URL a record speaks of.
pub open spec fn outcome_url(o: FetchOutcome) -> Seq<char> {
    match o {
        FetchOutcome::Success { url, .. } => url@,
        FetchOutcome::Failure { url, .. } => url@,
    }
}

/// The overall run fails when one or more URLs failed, or the archive step
/// failed — and only then.
pub open spec fn overall_failure(events: Seq<FetchEvent>, archive_failed: bool) -> bool {
    failures(events) > 0 || archive_failed
}

/// An archive is built exactly when a destination was supplied and the run had
/// at least one URL to fetch.
pub open spec fn archive_wanted(requested: bool, n_urls: nat) -> bool {
    requested && n_urls > 0
}

/// The fetch loop: drives the URL list in order, one fetch per URL, and
/// accumulates the tallies. `events` records, in ghost state, exactly what the
/// transport handed back so far, one event per attempted URL.
pub struct PreloadRun {
    pub urls: Vec<String>,
    pub attempted: usize,
    pub success_count: u64,
    pub error_count: u64,
    pub events: Ghost<Seq<FetchEvent>>,
}

impl PreloadRun {
    /// The loop's invariant: one event per attempted URL, tallies equal to the
    /// spec-level counts over those events.
    pub open spec fn wf(&self) -> bool {
        &&& self.attempted <= self.urls@.len()
        &&& self.events@.len() == self.attempted
        &&& self.success_count == successes(self.events@)
        &&& self.error_count == failures(self.events@)
    }

    /// All URLs have been attempted.
    pub open spec fn is_done(&self) -> bool {
        self.attempted == self.urls@.len()
    }

    /// Starts a run over an ordered URL list.
    pub fn new(urls: Vec<String>) -> (r: PreloadRun)
        ensures
            r.wf(),
            r.urls == urls,
            r.attempted == 0,
            r.events@ == Seq::<FetchEvent>::empty(),
    {
        PreloadRun {
            urls,
            attempted: 0,
            success_count: 0,
            error_count: 0,
            events: Ghost(Seq::empty()),
        }
    }

    /// Whether every URL has been attempted.
    pub fn done(&self) -> (r: bool)
        ensures
            r == self.is_done(),
    {
        self.attempted == self.urls.len()
    }

    /// The next URL to fetch, in list order.
    pub fn next_url(&self) -> (r: &String)
        requires
            self.wf(),
            !self.is_done(),
        ensures
            r == self.urls@[self.attempted as int],
    {
        &self.urls[self.attempted]
    }

    /// Folds in the event of the current URL's fetch and emits its outcome
    /// record: on a 2xx completion the success tally grows, on anything else
    /// the error tally grows, and the loop moves to the next URL either way.
    pub fn record(&mut self, event: FetchEvent) -> (outcome: FetchOutcome)
        requires
            old(self).wf(),
            !old(self).is_done(),
        ensures
            final(self).wf(),
            final(self).urls == old(self).urls,
            final(self).attempted == old(self).attempted + 1,
            final(self).events@ == old(self).events@.push(event),
            event_succeeds(event) ==> final(self).success_count == old(self).success_count + 1
                && final(self).error_count == old(self).error_count,
            !event_succeeds(event) ==> final(self).error_count == old(self).error_count + 1
                && final(self).success_count == old(self).success_count,
            outcome_matches(old(self).urls@[old(self).attempted as int]@, event, outcome),
    {
        let n = self.urls.len();
        proof {
            lemma_one_outcome_per_event(self.events@);
            assert(self.events@.push(event).drop_last() =~= self.events@);
            assert(self.attempted < n);
        }
        let url = self.urls[self.attempted].clone();
        let outcome = match &event {
            FetchEvent::Completed { status, elapsed_ms } => {
                if crate::status_is_success(*status) {
                    self.success_count = self.success_count + 1;
                    FetchOutcome::Success { url, elapsed_ms: *elapsed_ms }
                } else {
                    self.error_count = self.error_count + 1;
                    FetchOutcome::Failure {
                        url,
                        elapsed_ms: Some(*elapsed_ms),
                        error: FetchError::UnsuccessfulStatus { status: *status },
                    }
                }
            },
            FetchEvent::TransportFailed { detail } => {
                self.error_count = self.error_count + 1;
                FetchOutcome::Failure {
                    url,
                    elapsed_ms: None,
                    error: FetchError::Transport { detail: detail.clone() },
                }
            },
        };
        self.attempted = self.attempted + 1;
        self.events = Ghost(self.events@.push(event));
        outcome
    }

    /// The run summary, completed with the total wall time of the whole loop.
    pub fn summary(&self, total_elapsed_ms: u64) -> (r: RunSummary)
        ensures
            r.success_count == self.success_count,
            r.error_count == self.error_count,
            r.total_elapsed_ms == total_elapsed_ms,
    {
        RunSummary {
            success_count: self.success_count,
            error_count: self.error_count,
            total_elapsed_ms,
        }
    }

    /// Whether the archive step is owed: a destination was supplied and there
    /// was at least one URL to fetch. An empty list is a normal, successful
    /// termination with nothing to do and no archive.
    pub fn should_archive(&self, archive_requested: bool) -> (r: bool)
        requires
            self.is_done(),
        ensures
            r == archive_wanted(archive_requested, self.urls@.len()),
    {
        archive_requested && self.urls.len() > 0
    }

    /// The overall success/failure signal of the fetch loop alone: `Some`
    /// exactly when one or more URLs failed, carrying how many.
    pub fn failure_error(&self) -> (r: Option<PreloadError>)
        ensures
            match r {
                Some(e) => self.error_count > 0 && e == (PreloadError::UrlsFailed {
                    count: self.error_count,
                }),
                None => self.error_count == 0,
            },
    {
        if self.error_count > 0 {
            Some(PreloadError::UrlsFailed { count: self.error_count })
        } else {
            None
        }
    }
}

/// Every attempted URL produces exactly one outcome, success or failure: the
/// two tallies always sum to the number of events.
pub proof fn lemma_one_outcome_per_event(events: Seq<FetchEvent>)
    ensures
        successes(events) + failures(events) == events.len(),
    decreases events.len(),
{
    if events.len() > 0 {
        lemma_one_outcome_per_event(events.drop_last());
    }
}

/// An outcome record always names the URL whose fetch it records.
pub proof fn lemma_outcome_names_its_url(url: Seq<char>, ev: FetchEvent, o: FetchOutcome)
    requires
        outcome_matches(url, ev, o),
    ensures
        outcome_url(o) == url,
{
}

/// For every well-formed URL list, a completed run emits exactly one outcome
/// record per non-blank, non-comment line, preserving input order: record `k`
/// names the URL of entry `k`, and the two tallies sum to the number of
/// entries.
pub proof fn lemma_one_outcome_per_line(
    content: Seq<u8>,
    urls: Seq<Seq<char>>,
    events: Seq<FetchEvent>,
    outs: Seq<FetchOutcome>,
)
    requires
        urls.len() == url_list_entries(content).len(),
        forall|k: int| 0 <= k < urls.len() ==> #[trigger] urls[k] == url_list_entries(content)[k],
        events.len() == urls.len(),
        outs.len() == urls.len(),
        forall|k: int| 0 <= k < urls.len() ==> outcome_matches(urls[k], events[k], #[trigger] outs[k]),
    ensures
        outs.len() == url_list_entries(content).len(),
        forall|k: int|
            0 <= k < outs.len() ==> outcome_url(#[trigger] outs[k]) == url_list_entries(content)[k],
        successes(events) + failures(events) == url_list_entries(content).len(),
{
    lemma_one_outcome_per_event(events);
    assert forall|k: int| 0 <= k < outs.len() implies outcome_url(#[trigger] outs[k])
        == url_list_entries(content)[k] by {
        lemma_outcome_names_its_url(urls[k], events[k], outs[k]);
    }
}

/// Duplicate URLs in the input produce duplicate outcome records, not
/// deduplication: a completed run still has one record per list position, and
/// two positions holding the same URL get two records naming that same URL.
pub proof fn lemma_duplicates_not_merged(
    urls: Seq<Seq<char>>,
    events: Seq<FetchEvent>,
    outs: Seq<FetchOutcome>,
    i: int,
    j: int,
)
    requires
        events.len() == urls.len(),
        outs.len() == urls.len(),
        forall|k: int| 0 <= k < urls.len() ==> outcome_matches(urls[k], events[k], #[trigger] outs[k]),
        0 <= i < j < urls.len(),
        urls[i] == urls[j],
    ensures
        outs.len() == urls.len(),
        outcome_url(outs[i]) == urls[i],
        outcome_url(outs[j]) == urls[j],
        outcome_url(outs[i]) == outcome_url(outs[j]),
{
    assert(outcome_matches(urls[i], events[i], outs[i]));
    assert(outcome_matches(urls[j], events[j], outs[j]));
}

/// An input with only blank and comment lines yields no entries, a run with
/// zero fetches, counts of zero and zero, a successful overall result, and no
/// archive, whether or not one was requested.
pub proof fn lemma_blank_input_is_clean_run(content: Seq<u8>)
    requires
        forall|j: int|
            0 <= j < crate::urls::split_lines(content).len() ==> !crate::urls::keeps_line(
                #[trigger] crate::urls::split_lines(content)[j],
            ),
    ensures
        url_list_entries(content).len() == 0,
        successes(Seq::<FetchEvent>::empty()) == 0,
        failures(Seq::<FetchEvent>::empty()) == 0,
        !overall_failure(Seq::<FetchEvent>::empty(), false),
        forall|requested: bool| !archive_wanted(requested, url_list_entries(content).len()),
{
    lemma_no_kept_lines_no_entries(crate::urls::split_lines(content));
}

proof fn lemma_no_kept_lines_no_entries(lines: Seq<Seq<u8>>)
    requires
        forall|j: int| 0 <= j < lines.len() ==> !crate::urls::keeps_line(#[trigger] lines[j]),
    ensures
        crate::urls::url_entries(lines).len() == 0,
    decreases lines.len(),
{
    if lines.len() > 0 {
        assert(forall|j: int|
            0 <= j < lines.drop_last().len() ==> #[trigger] lines.drop_last()[j] == lines[j]);
        lemma_no_kept_lines_no_entries(lines.drop_last());
    }
}

/// A run where every URL fails yields zero successes, as many errors as URLs,
/// and overall run failure, regardless of whether an archive was requested or
/// how the archive step fared.
pub proof fn lemma_all_failures_fail_the_run(events: Seq<FetchEvent>)
    requires
        forall|k: int| 0 <= k < events.len() ==> !event_succeeds(#[trigger] events[k]),
    ensures
        successes(events) == 0,
        failures(events) == events.len(),
        events.len() > 0 ==> forall|archive_failed: bool| overall_failure(events, archive_failed),
    decreases events.len(),
{
    if events.len() > 0 {
        assert(forall|k: int|
            0 <= k < events.drop_last().len() ==> #[trigger] events.drop_last()[k] == events[k]);
        lemma_all_failures_fail_the_run(events.drop_last());
    }
}

} // verus!
