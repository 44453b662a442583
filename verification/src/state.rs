//! The resolution state machine: what is known of one input URL, and how each
//! poll of the user interface moves it on. The machine does no work itself:
//! a poll takes what is known of the worker and returns what the caller has
//! to do.

use crate::matcher::MESSAGING_HOST;
use crate::parts::{host_text, text_of, UrlPartsView};
use crate::resolve::{
    extract_real_url_sync, law_messaging_url_is_fetched_as_given, law_resolution_keeps_or_resolves,
    readable_parts, resolution,
};
use crate::scraper::{target_of_response, target_on_page, DESC_PATTERN};
use crate::text::occurs_in;
use crate::trusted::first_capture;
use vstd::prelude::*;

verus! {

/// How long to wait before looking at a running worker again, in
/// milliseconds.
pub const RECHECK_DELAY_MS: u64 = 100;

/// The reason given when the worker ended without a target.
pub const EXTRACTION_FAILED: &'static str = "extraction failed";

/// The reason given when the worker itself did not end as it should.
pub const REQUEST_FAILED: &'static str = "request failed";

/// Where the resolution of one input stands.
pub enum UrlExtractionState {
    /// The page has to be fetched, and no worker has been started yet.
    Pending,
    /// The worker is running.
    Loading,
    /// The URL to open is known.
    Success(String),
    /// The page gave no target; the reason is for the user to read.
    Failed(String),
}

/// The mathematical value of a [`UrlExtractionState`].
pub enum StateView {
    Pending,
    Loading,
    Success(Seq<char>),
    Failed(Seq<char>),
}

impl View for UrlExtractionState {
    type V = StateView;

    open spec fn view(&self) -> StateView {
        match self {
            UrlExtractionState::Pending => StateView::Pending,
            UrlExtractionState::Loading => StateView::Loading,
            UrlExtractionState::Success(url) => StateView::Success(url@),
            UrlExtractionState::Failed(reason) => StateView::Failed(reason@),
        }
    }
}

/// What the caller knows of the worker when it polls.
pub enum WorkerStatus {
    /// No worker has ended: none was started, or it is still at work.
    Running,
    /// The worker ended and handed back what it found.
    Finished(Option<String>),
    /// The worker ended without handing anything back.
    Crashed,
}

/// The mathematical value of a [`WorkerStatus`].
pub enum WorkerView {
    Running,
    Finished(Option<Seq<char>>),
    Crashed,
}

impl View for WorkerStatus {
    type V = WorkerView;

    open spec fn view(&self) -> WorkerView {
        match self {
            WorkerStatus::Running => WorkerView::Running,
            WorkerStatus::Finished(found) => WorkerView::Finished(text_of(*found)),
            WorkerStatus::Crashed => WorkerView::Crashed,
        }
    }
}

/// What the caller has to do after a poll.
pub enum PollAction {
    /// Nothing.
    Idle,
    /// Start the one worker, on the given URL, and repaint at once.
    StartWorker(String),
    /// Repaint at once: the state has changed.
    Repaint,
    /// Repaint after the given number of milliseconds, and poll again then.
    RepaintAfter(u64),
}

/// The mathematical value of a [`PollAction`].
pub enum ActionView {
    Idle,
    StartWorker(Seq<char>),
    Repaint,
    RepaintAfter(u64),
}

impl View for PollAction {
    type V = ActionView;

    open spec fn view(&self) -> ActionView {
        match self {
            PollAction::Idle => ActionView::Idle,
            PollAction::StartWorker(url) => ActionView::StartWorker(url@),
            PollAction::Repaint => ActionView::Repaint,
            PollAction::RepaintAfter(delay) => ActionView::RepaintAfter(*delay),
        }
    }
}

/// The resolution of one input URL.
pub struct Resolution {
    state: UrlExtractionState,
    original_url: String,
    url_to_open: String,
}

/// The mathematical value of a [`Resolution`].
pub struct ResolutionView {
    /// Where the resolution stands.
    pub state: StateView,
    /// The input, as it was handed over.
    pub original: Seq<char>,
    /// The URL to show and to open: the target once it is known, until then
    /// the input.
    pub shown: Seq<char>,
}

impl View for Resolution {
    type V = ResolutionView;

    closed spec fn view(&self) -> ResolutionView {
        ResolutionView {
            state: self.state@,
            original: self.original_url@,
            shown: self.url_to_open@,
        }
    }
}

/// What holds of every resolution: a success shows its target, and until
/// there is one the input is shown.
pub open spec fn well_formed(r: ResolutionView) -> bool {
    match r.state {
        StateView::Success(url) => r.shown == url,
        _ => r.shown == r.original,
    }
}

/// The resolution that starts from `input` when unwrapping gave `unwrapped`:
/// done, with the candidate as its target, where no fetch is needed; else
/// waiting for the first poll, with the input to show.
pub open spec fn created(input: Seq<char>, unwrapped: (Seq<char>, bool)) -> ResolutionView {
    if unwrapped.1 {
        ResolutionView { state: StateView::Pending, original: input, shown: input }
    } else {
        ResolutionView {
            state: StateView::Success(unwrapped.0),
            original: input,
            shown: unwrapped.0,
        }
    }
}

/// One poll: the resolution after it, and what the caller has to do.
pub open spec fn step(r: ResolutionView, worker: WorkerView) -> (ResolutionView, ActionView) {
    match r.state {
        StateView::Pending => (
            ResolutionView { state: StateView::Loading, ..r },
            ActionView::StartWorker(r.original),
        ),
        StateView::Loading => match worker {
            WorkerView::Running => (r, ActionView::RepaintAfter(RECHECK_DELAY_MS)),
            WorkerView::Finished(Some(url)) => (
                ResolutionView { state: StateView::Success(url), shown: url, ..r },
                ActionView::Repaint,
            ),
            WorkerView::Finished(None) => (
                ResolutionView { state: StateView::Failed(EXTRACTION_FAILED@), ..r },
                ActionView::Repaint,
            ),
            WorkerView::Crashed => (
                ResolutionView { state: StateView::Failed(REQUEST_FAILED@), ..r },
                ActionView::Repaint,
            ),
        },
        StateView::Success(_) => (r, ActionView::Idle),
        StateView::Failed(_) => (r, ActionView::Idle),
    }
}

impl Resolution {
    /// Every resolution is well formed.
    #[verifier::type_invariant]
    spec fn invariant_holds(self) -> bool {
        well_formed(self@)
    }

    /// Starts the resolution of `input` from what unwrapping gave: the
    /// candidate URL and whether the page has to be fetched.
    pub fn from_unwrapped(input: &str, candidate: String, needs_fetch: bool) -> (r: Resolution)
        ensures
            r@ == created(input@, (candidate@, needs_fetch)),
            well_formed(r@),
    {
        if needs_fetch {
            Resolution {
                state: UrlExtractionState::Pending,
                original_url: input.to_owned(),
                url_to_open: input.to_owned(),
            }
        } else {
            Resolution {
                state: UrlExtractionState::Success(candidate.clone()),
                original_url: input.to_owned(),
                url_to_open: candidate,
            }
        }
    }

    /// Starts the resolution of `input`: unwraps it, and waits for the first
    /// poll where the page has to be fetched. Does not touch the network.
    pub fn new(input: &str) -> (r: Resolution)
        ensures
            r@ == created(input@, resolution(input@, readable_parts(input@))),
            well_formed(r@),
            r@.original == input@,
            r@.state is Pending || r@.state is Success,
            r@.state is Pending <==> resolution(input@, readable_parts(input@)).1,
    {
        let (candidate, needs_fetch) = extract_real_url_sync(input);
        Resolution::from_unwrapped(input, candidate, needs_fetch)
    }

    /// Where the resolution stands.
    pub fn state(&self) -> (state: &UrlExtractionState)
        ensures
            state@ == self@.state,
            well_formed(self@),
    {
        proof {
            use_type_invariant(self);
        }
        &self.state
    }

    /// The input, as it was handed over.
    pub fn original_url(&self) -> (url: &str)
        ensures
            url@ == self@.original,
            well_formed(self@),
    {
        proof {
            use_type_invariant(self);
        }
        self.original_url.as_str()
    }

    /// The URL to show and to open: the target once the resolution is a
    /// success, until then the input.
    pub fn url_to_open(&self) -> (url: &str)
        ensures
            url@ == self@.shown,
            well_formed(self@),
    {
        proof {
            use_type_invariant(self);
        }
        self.url_to_open.as_str()
    }

    /// Moves the resolution on by one poll, given what is known of the
    /// worker, and says what the caller has to do.
    pub fn poll(&mut self, worker: WorkerStatus) -> (action: PollAction)
        ensures
            (final(self)@, action@) == step(old(self)@, worker@),
            well_formed(old(self)@),
            well_formed(final(self)@),
    {
        proof {
            use_type_invariant(&*self);
        }
        match &self.state {
            UrlExtractionState::Pending => {
                self.state = UrlExtractionState::Loading;
                PollAction::StartWorker(self.original_url.clone())
            },
            UrlExtractionState::Loading => match worker {
                WorkerStatus::Running => PollAction::RepaintAfter(RECHECK_DELAY_MS),
                WorkerStatus::Finished(Some(url)) => {
                    *self = Resolution {
                        state: UrlExtractionState::Success(url.clone()),
                        original_url: self.original_url.clone(),
                        url_to_open: url,
                    };
                    PollAction::Repaint
                },
                WorkerStatus::Finished(None) => {
                    self.state = UrlExtractionState::Failed(EXTRACTION_FAILED.to_owned());
                    PollAction::Repaint
                },
                WorkerStatus::Crashed => {
                    self.state = UrlExtractionState::Failed(REQUEST_FAILED.to_owned());
                    PollAction::Repaint
                },
            },
            UrlExtractionState::Success(_) => PollAction::Idle,
            UrlExtractionState::Failed(_) => PollAction::Idle,
        }
    }
}

/// The resolution after the polls that met the worker as `events` tell, one
/// after the other.
pub open spec fn after_polls(r: ResolutionView, events: Seq<WorkerView>) -> ResolutionView
    decreases events.len(),
{
    if events.len() == 0 {
        r
    } else {
        step(after_polls(r, events.drop_last()), events.last()).0
    }
}

/// What poll number `i` of `events` asks of the caller.
pub open spec fn action_of_poll(r: ResolutionView, events: Seq<WorkerView>, i: int) -> ActionView
    recommends
        0 <= i < events.len(),
{
    step(after_polls(r, events.take(i)), events[i]).1
}

/// The state is final: nothing moves it on.
pub open spec fn is_terminal(state: StateView) -> bool {
    state is Success || state is Failed
}

/// After at least one poll the resolution is no longer pending.
pub proof fn lemma_polled_is_not_pending(r: ResolutionView, events: Seq<WorkerView>)
    requires
        events.len() > 0,
    ensures
        !(after_polls(r, events).state is Pending),
{
}

/// Polls never change the input that the resolution keeps.
pub proof fn law_original_is_kept(r: ResolutionView, events: Seq<WorkerView>)
    ensures
        after_polls(r, events).original == r.original,
    decreases events.len(),
{
    if events.len() > 0 {
        law_original_is_kept(r, events.drop_last());
    }
}

/// The first poll of a pending resolution starts the worker on the input as
/// it was handed over, and the resolution is loading from then on.
pub proof fn law_first_poll_starts_worker(r: ResolutionView, worker: WorkerView)
    requires
        r.state is Pending,
    ensures
        step(r, worker).1 == ActionView::StartWorker(r.original),
        step(r, worker).0.state is Loading,
{
}

/// Over any run of polls at most one worker is started: a poll asks for one
/// only if it is the first poll of a pending resolution.
pub proof fn law_worker_started_once(r: ResolutionView, events: Seq<WorkerView>, i: int)
    requires
        0 <= i < events.len(),
        action_of_poll(r, events, i) is StartWorker,
    ensures
        i == 0,
        r.state is Pending,
        action_of_poll(r, events, i) == ActionView::StartWorker(r.original),
{
    let before = events.take(i);
    if i > 0 {
        lemma_polled_is_not_pending(r, before);
    } else {
        assert(before.len() == 0);
    }
}

/// While the worker runs, a loading resolution stays as it is and asks to be
/// polled again after the recheck delay.
pub proof fn law_loading_waits(r: ResolutionView)
    requires
        r.state is Loading,
    ensures
        step(r, WorkerView::Running) == (r, ActionView::RepaintAfter(RECHECK_DELAY_MS)),
{
}

/// A worker that hands back a target makes the resolution a success with
/// that target, which is then the URL to open.
pub proof fn law_found_target_succeeds(r: ResolutionView, url: Seq<char>)
    requires
        r.state is Loading,
    ensures
        step(r, WorkerView::Finished(Some(url))).0.state == StateView::Success(url),
        step(r, WorkerView::Finished(Some(url))).0.shown == url,
        step(r, WorkerView::Finished(Some(url))).1 == ActionView::Repaint,
{
}

/// A worker that hands back nothing makes the resolution fail for want of
/// a target, and the URL to open stays what it was.
pub proof fn law_missing_target_fails(r: ResolutionView)
    requires
        r.state is Loading,
    ensures
        step(r, WorkerView::Finished(None)).0.state == StateView::Failed(EXTRACTION_FAILED@),
        step(r, WorkerView::Finished(None)).0.shown == r.shown,
        step(r, WorkerView::Finished(None)).1 == ActionView::Repaint,
{
}

/// A worker that ends without a result makes a loading resolution fail for
/// want of an answer, and brings no resolution to a success.
pub proof fn law_crashed_worker_fails(r: ResolutionView)
    ensures
        r.state is Loading ==> step(r, WorkerView::Crashed).0.state == StateView::Failed(
            REQUEST_FAILED@,
        ),
        step(r, WorkerView::Crashed).0.state is Success ==> r.state is Success,
{
}

/// A resolution that succeeded or failed is what it was after any run of
/// polls.
pub proof fn lemma_terminal_stays(r: ResolutionView, events: Seq<WorkerView>)
    requires
        is_terminal(r.state),
    ensures
        after_polls(r, events) == r,
    decreases events.len(),
{
    if events.len() > 0 {
        lemma_terminal_stays(r, events.drop_last());
    }
}

/// A resolution that succeeded or failed stays as it is, whatever is polled,
/// and asks nothing more of the caller.
pub proof fn law_terminal_is_final(r: ResolutionView, events: Seq<WorkerView>)
    requires
        is_terminal(r.state),
    ensures
        after_polls(r, events) == r,
        forall|i: int| 0 <= i < events.len() ==> action_of_poll(r, events, i) == ActionView::Idle,
{
    lemma_terminal_stays(r, events);
    assert forall|i: int| 0 <= i < events.len() implies action_of_poll(r, events, i)
        == ActionView::Idle by {
        lemma_terminal_stays(r, events.take(i));
    }
}

/// Every poll that changes the resolution asks for a repaint at once (the
/// start of the worker includes one), and a poll asks nothing of the caller
/// only where the resolution has succeeded or failed.
pub proof fn law_progress_is_reported(r: ResolutionView, worker: WorkerView)
    ensures
        step(r, worker).0 != r ==> step(r, worker).1 is StartWorker || step(r, worker).1
            is Repaint,
        step(r, worker).1 is Idle <==> is_terminal(r.state),
{
}

/// A loading resolution leaves that state once, for good: after the poll
/// that met the worker ended, the state is terminal.
pub proof fn law_loading_ends_once(r: ResolutionView, worker: WorkerView)
    requires
        r.state is Loading,
        !(worker is Running),
    ensures
        is_terminal(step(r, worker).0.state),
        step(r, worker).1 == ActionView::Repaint,
{
}

/// A resolution is created as a success with what unwrapping gave, unless
/// the page has to be fetched: then, and only then, it is pending. Either
/// way it keeps the input.
pub proof fn law_created_pending_iff_fetch(input: Seq<char>, parts: Option<UrlPartsView>)
    ensures
        created(input, resolution(input, parts)).state is Pending <==> resolution(input, parts).1,
        !resolution(input, parts).1 ==> created(input, resolution(input, parts)).state
            == StateView::Success(resolution(input, parts).0),
        created(input, resolution(input, parts)).original == input,
        created(input, resolution(input, parts)).shown == resolution(input, parts).0,
{
    law_resolution_keeps_or_resolves(input, parts);
}

/// Polls keep a resolution well formed.
pub proof fn law_polls_keep_well_formed(r: ResolutionView, events: Seq<WorkerView>)
    requires
        well_formed(r),
    ensures
        well_formed(after_polls(r, events)),
    decreases events.len(),
{
    if events.len() > 0 {
        law_polls_keep_well_formed(r, events.drop_last());
    }
}

/// A page on which the search for the field finds nothing makes a loading
/// resolution fail for want of a target.
pub proof fn law_page_without_field_fails(r: ResolutionView, body: Seq<char>)
    requires
        r.state is Loading,
        first_capture(DESC_PATTERN@, body) is None,
    ensures
        target_on_page(body) is None,
        step(r, WorkerView::Finished(target_on_page(body))).0.state == StateView::Failed(
            EXTRACTION_FAILED@,
        ),
{
}

/// A fetch that brought nothing back makes a loading resolution fail, and
/// never succeed.
pub proof fn law_failed_fetch_fails(r: ResolutionView)
    requires
        r.state is Loading,
    ensures
        step(r, WorkerView::Finished(target_of_response(None))).0.state == StateView::Failed(
            EXTRACTION_FAILED@,
        ),
{
}

/// For a URL of the messaging host the worker is started on the input as it
/// was handed over.
pub proof fn law_messaging_url_fetched_unchanged(
    input: Seq<char>,
    parts: UrlPartsView,
    worker: WorkerView,
)
    requires
        occurs_in(host_text(parts), MESSAGING_HOST@),
    ensures
        created(input, resolution(input, Some(parts))).state is Pending,
        step(created(input, resolution(input, Some(parts))), worker).1 == ActionView::StartWorker(
            input,
        ),
{
    law_messaging_url_is_fetched_as_given(input, parts);
}

} // verus!
