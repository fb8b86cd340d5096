//! The intake boundary and the dispatch loop.
//!
//! Requests reach the prover side through one bounded queue. A single loop
//! takes them from it, one at a time: it fetches the input of a request,
//! submits it to the runtime, reports how that went, and only then asks for
//! the next request. The loop itself awaits the queue, the fetch and the
//! runtime; [`dispatch_step`] decides what it does next.
//!
//! Of the queue the loop asks two things: that it hands requests out in the
//! order in which they came in, and that it reports its closure only when
//! every producer is gone and no request is left in it. A producer that
//! finds the queue full waits for room; it does not drop its request.

use vstd::prelude::*;

use crate::fetch::{BlockSource, FetchError, FetchResult};

verus! {

/// The number of requests that the intake queue holds before a producer has
/// to wait.
pub const REQUEST_QUEUE_CAPACITY: usize = 50;

/// The body of the answer to a health check.
pub const HEALTH_BODY: &'static str = "OK";

/// How handing a request to the intake queue ended.
#[derive(Clone, Copy, Debug, PartialEq, Eq, Structural)]
pub enum EnqueueOutcome {
    /// The request is in the queue.
    Enqueued,
    /// The queue had no room, and the producer did not wait for room.
    Full,
    /// The queue is closed: nothing takes requests from it any more.
    Closed,
}

/// The answer to a posted request.
#[derive(Clone, Copy, Debug, PartialEq, Eq, Structural)]
pub enum PostResponse {
    /// The request was taken in; this says nothing of how proving it goes.
    Accepted,
    /// The request could not be taken in.
    InternalServerError,
}

/// The answer to a posted request, by how enqueueing it ended.
pub open spec fn spec_post_response(outcome: EnqueueOutcome) -> PostResponse {
    match outcome {
        EnqueueOutcome::Enqueued => PostResponse::Accepted,
        EnqueueOutcome::Full => PostResponse::InternalServerError,
        EnqueueOutcome::Closed => PostResponse::InternalServerError,
    }
}

/// Decides the answer to a posted request from how enqueueing it ended.
pub fn post_response(outcome: EnqueueOutcome) -> (response: PostResponse)
    ensures
        response == spec_post_response(outcome),
{
    match outcome {
        EnqueueOutcome::Enqueued => PostResponse::Accepted,
        _ => PostResponse::InternalServerError,
    }
}

/// A request to prove blocks: it names the source of its input, or brings
/// the input along.
#[derive(Debug, PartialEq, Eq)]
pub enum ProveRequest<B> {
    FromSource(BlockSource),
    Prefetched(FetchResult<B>),
}

/// Where the dispatch loop stands.
#[derive(Clone, Copy, Debug, PartialEq, Eq, Structural)]
pub enum DispatchState {
    /// No request is in work; the loop awaits the queue.
    Idle,
    /// The input of the request in work is being fetched.
    Fetching,
    /// The input of the request in work is with the runtime.
    Submitting,
    /// The queue is closed and the runtime is being closed.
    Closing,
    /// The loop has ended.
    Stopped,
}

/// What the loop awaited, and how it came back.
#[derive(Debug, PartialEq, Eq)]
pub enum DispatchEvent<B> {
    /// The queue gave a request.
    Received(ProveRequest<B>),
    /// The queue is closed and empty.
    QueueClosed,
    /// The fetch ended.
    Fetched(Result<FetchResult<B>, FetchError>),
    /// The runtime took the work and ended it, or said why not.
    Submitted(Result<(), String>),
    /// The runtime was closed, or said why not.
    RuntimeClosed(Result<(), String>),
}

/// What the loop is to do next.
#[derive(Debug, PartialEq, Eq)]
pub enum DispatchAction<B> {
    /// Await the next request from the queue.
    AwaitRequest,
    /// Fetch the input from the source.
    Fetch(BlockSource),
    /// Submit the input to the runtime.
    Submit(FetchResult<B>),
    /// Close the runtime.
    CloseRuntime,
    /// Leave the loop.
    Exit,
}

/// What there is to log after a step.
#[derive(Debug, PartialEq, Eq)]
pub enum DispatchReport {
    /// The request in work was proved.
    Completed,
    /// The input of the request in work could not be fetched.
    FetchFailed(FetchError),
    /// The runtime did not take or end the work of the request in work.
    SubmitFailed(String),
    /// The runtime is closed.
    RuntimeClosed,
    /// The runtime could not be closed; the loop ends all the same.
    CloseFailed(String),
}

/// One step of the loop: the state after it, what to log, what to do next.
#[derive(Debug, PartialEq, Eq)]
pub struct DispatchOutput<B> {
    pub state: DispatchState,
    pub report: Option<DispatchReport>,
    pub action: DispatchAction<B>,
}

/// The step that `event` makes in `state`, or `None` where `state` awaits
/// no such event.
pub open spec fn spec_dispatch_step<B>(state: DispatchState, event: DispatchEvent<B>) -> Option<
    DispatchOutput<B>,
> {
    match (state, event) {
        (DispatchState::Idle, DispatchEvent::Received(ProveRequest::FromSource(source))) => Some(
            DispatchOutput {
                state: DispatchState::Fetching,
                report: None,
                action: DispatchAction::Fetch(source),
            },
        ),
        (DispatchState::Idle, DispatchEvent::Received(ProveRequest::Prefetched(input))) => Some(
            DispatchOutput {
                state: DispatchState::Submitting,
                report: None,
                action: DispatchAction::Submit(input),
            },
        ),
        (DispatchState::Idle, DispatchEvent::QueueClosed) => Some(
            DispatchOutput {
                state: DispatchState::Closing,
                report: None,
                action: DispatchAction::CloseRuntime,
            },
        ),
        (DispatchState::Fetching, DispatchEvent::Fetched(Ok(input))) => Some(
            DispatchOutput {
                state: DispatchState::Submitting,
                report: None,
                action: DispatchAction::Submit(input),
            },
        ),
        (DispatchState::Fetching, DispatchEvent::Fetched(Err(e))) => Some(
            DispatchOutput {
                state: DispatchState::Idle,
                report: Some(DispatchReport::FetchFailed(e)),
                action: DispatchAction::AwaitRequest,
            },
        ),
        (DispatchState::Submitting, DispatchEvent::Submitted(Ok(_))) => Some(
            DispatchOutput {
                state: DispatchState::Idle,
                report: Some(DispatchReport::Completed),
                action: DispatchAction::AwaitRequest,
            },
        ),
        (DispatchState::Submitting, DispatchEvent::Submitted(Err(message))) => Some(
            DispatchOutput {
                state: DispatchState::Idle,
                report: Some(DispatchReport::SubmitFailed(message)),
                action: DispatchAction::AwaitRequest,
            },
        ),
        (DispatchState::Closing, DispatchEvent::RuntimeClosed(Ok(_))) => Some(
            DispatchOutput {
                state: DispatchState::Stopped,
                report: Some(DispatchReport::RuntimeClosed),
                action: DispatchAction::Exit,
            },
        ),
        (DispatchState::Closing, DispatchEvent::RuntimeClosed(Err(message))) => Some(
            DispatchOutput {
                state: DispatchState::Stopped,
                report: Some(DispatchReport::CloseFailed(message)),
                action: DispatchAction::Exit,
            },
        ),
        _ => None,
    }
}

/// The state in which the loop starts; its first action is to await a
/// request.
pub fn dispatch_start() -> (state: DispatchState)
    ensures
        state == DispatchState::Idle,
{
    DispatchState::Idle
}

/// Decides the next step of the loop: `event` is what came back from what
/// the loop awaited in `state`. Returns `None` where `state` awaits no such
/// event, and the loop is to stay as it is.
pub fn dispatch_step<B>(state: DispatchState, event: DispatchEvent<B>) -> (output: Option<
    DispatchOutput<B>,
>)
    ensures
        output == spec_dispatch_step(state, event),
{
    match state {
        DispatchState::Idle => match event {
            DispatchEvent::Received(ProveRequest::FromSource(source)) => Some(
                DispatchOutput {
                    state: DispatchState::Fetching,
                    report: None,
                    action: DispatchAction::Fetch(source),
                },
            ),
            DispatchEvent::Received(ProveRequest::Prefetched(input)) => Some(
                DispatchOutput {
                    state: DispatchState::Submitting,
                    report: None,
                    action: DispatchAction::Submit(input),
                },
            ),
            DispatchEvent::QueueClosed => Some(
                DispatchOutput {
                    state: DispatchState::Closing,
                    report: None,
                    action: DispatchAction::CloseRuntime,
                },
            ),
            _ => None,
        },
        DispatchState::Fetching => match event {
            DispatchEvent::Fetched(Ok(input)) => Some(
                DispatchOutput {
                    state: DispatchState::Submitting,
                    report: None,
                    action: DispatchAction::Submit(input),
                },
            ),
            DispatchEvent::Fetched(Err(e)) => Some(
                DispatchOutput {
                    state: DispatchState::Idle,
                    report: Some(DispatchReport::FetchFailed(e)),
                    action: DispatchAction::AwaitRequest,
                },
            ),
            _ => None,
        },
        DispatchState::Submitting => match event {
            DispatchEvent::Submitted(Ok(_)) => Some(
                DispatchOutput {
                    state: DispatchState::Idle,
                    report: Some(DispatchReport::Completed),
                    action: DispatchAction::AwaitRequest,
                },
            ),
            DispatchEvent::Submitted(Err(message)) => Some(
                DispatchOutput {
                    state: DispatchState::Idle,
                    report: Some(DispatchReport::SubmitFailed(message)),
                    action: DispatchAction::AwaitRequest,
                },
            ),
            _ => None,
        },
        DispatchState::Closing => match event {
            DispatchEvent::RuntimeClosed(Ok(_)) => Some(
                DispatchOutput {
                    state: DispatchState::Stopped,
                    report: Some(DispatchReport::RuntimeClosed),
                    action: DispatchAction::Exit,
                },
            ),
            DispatchEvent::RuntimeClosed(Err(message)) => Some(
                DispatchOutput {
                    state: DispatchState::Stopped,
                    report: Some(DispatchReport::CloseFailed(message)),
                    action: DispatchAction::Exit,
                },
            ),
            _ => None,
        },
        DispatchState::Stopped => None,
    }
}

/// The number of requests in work in `state`: one or none.
pub open spec fn in_work(state: DispatchState) -> nat {
    match state {
        DispatchState::Fetching => 1,
        DispatchState::Submitting => 1,
        _ => 0,
    }
}

/// The number of requests that `event` brings: one or none.
pub open spec fn brought<B>(event: DispatchEvent<B>) -> nat {
    match event {
        DispatchEvent::Received(_) => 1,
        _ => 0,
    }
}

/// The number of requests whose end `report` reports: one or none.
pub open spec fn settled(report: Option<DispatchReport>) -> nat {
    match report {
        Some(DispatchReport::Completed) => 1,
        Some(DispatchReport::FetchFailed(_)) => 1,
        Some(DispatchReport::SubmitFailed(_)) => 1,
        _ => 0,
    }
}

/// Work is submitted only when its fetch has ended well, or when the
/// request brought its input along.
pub proof fn lemma_fetch_before_submit<B>(
    state: DispatchState,
    event: DispatchEvent<B>,
    input: FetchResult<B>,
)
    requires
        spec_dispatch_step(state, event) matches Some(output) && output.action
            == DispatchAction::Submit(input),
    ensures
        (state == DispatchState::Fetching && event == DispatchEvent::Fetched(
            Ok::<FetchResult<B>, FetchError>(input),
        )) || (state == DispatchState::Idle && event == DispatchEvent::Received(
            ProveRequest::Prefetched(input),
        )),
{
}

/// Requests are taken one at a time: a request is taken only when none is
/// in work, and the next one is awaited only when none is in work.
pub proof fn lemma_one_at_a_time<B>(state: DispatchState, event: DispatchEvent<B>)
    ensures
        in_work(state) <= 1,
        event is Received && spec_dispatch_step(state, event).is_some() ==> state
            == DispatchState::Idle,
        spec_dispatch_step(state, event) matches Some(output) ==> (output.action
            == DispatchAction::<B>::AwaitRequest <==> output.state == DispatchState::Idle),
        spec_dispatch_step(state, event) matches Some(output) ==> (output.action is Fetch
            ==> event is Received),
{
}

/// No request is dropped: a step that takes a request has it in work, and
/// a step that ends the work on a request reports so.
pub proof fn lemma_requests_accounted<B>(state: DispatchState, event: DispatchEvent<B>)
    requires
        spec_dispatch_step(state, event).is_some(),
    ensures
        in_work(spec_dispatch_step(state, event).unwrap().state) + settled(
            spec_dispatch_step(state, event).unwrap().report,
        ) == in_work(state) + brought(event),
{
}

/// A request that fails does not end the loop: the loop ends only after the
/// queue was closed while no request was in work, and the runtime is closed
/// only then.
pub proof fn lemma_only_closure_stops<B>(state: DispatchState, event: DispatchEvent<B>)
    requires
        spec_dispatch_step(state, event).is_some(),
    ensures
        spec_dispatch_step(state, event).unwrap().action == DispatchAction::<B>::CloseRuntime
            <==> (state == DispatchState::Idle && event == DispatchEvent::<B>::QueueClosed),
        spec_dispatch_step(state, event).unwrap().action == DispatchAction::<B>::Exit <==> (state
            == DispatchState::Closing && event is RuntimeClosed),
        spec_dispatch_step(state, event).unwrap().state == DispatchState::Stopped
            <==> spec_dispatch_step(state, event).unwrap().action == DispatchAction::<B>::Exit,
        state != DispatchState::Stopped,
{
}

/// Once the runtime is being closed, no work reaches it any more: all that
/// is left to do is to leave the loop.
pub proof fn lemma_no_work_after_close<B>(state: DispatchState, event: DispatchEvent<B>)
    requires
        state == DispatchState::Closing || state == DispatchState::Stopped,
    ensures
        spec_dispatch_step(state, event) matches Some(output) ==> output.action
            == DispatchAction::<B>::Exit && output.state == DispatchState::Stopped,
{
}

/// The state that a run of events leads to from `state`, or `None` where
/// one of them is not awaited when it comes.
pub open spec fn spec_run<B>(state: DispatchState, events: Seq<DispatchEvent<B>>) -> Option<
    DispatchState,
>
    decreases events.len(),
{
    if events.len() == 0 {
        Some(state)
    } else {
        match spec_run(state, events.drop_last()) {
            None => None,
            Some(before) => match spec_dispatch_step(before, events.last()) {
                None => None,
                Some(output) => Some(output.state),
            },
        }
    }
}

/// The number of requests that a run of events reports the end of.
pub open spec fn run_settled<B>(state: DispatchState, events: Seq<DispatchEvent<B>>) -> nat
    decreases events.len(),
{
    if events.len() == 0 {
        0
    } else {
        run_settled(state, events.drop_last()) + match spec_run(state, events.drop_last()) {
            None => 0,
            Some(before) => match spec_dispatch_step(before, events.last()) {
                None => 0,
                Some(output) => settled(output.report),
            },
        }
    }
}

/// The number of requests that a run of events brings.
pub open spec fn run_brought<B>(events: Seq<DispatchEvent<B>>) -> nat
    decreases events.len(),
{
    if events.len() == 0 {
        0
    } else {
        run_brought(events.drop_last()) + brought(events.last())
    }
}

/// Over a whole run of the loop from its start, every request that the
/// queue gave is either reported as ended or still the one in work. When
/// the loop has stopped, every request that the queue gave is reported.
pub proof fn lemma_run_accounts_for_requests<B>(events: Seq<DispatchEvent<B>>)
    requires
        spec_run(DispatchState::Idle, events).is_some(),
    ensures
        run_brought(events) == run_settled(DispatchState::Idle, events) + in_work(
            spec_run(DispatchState::Idle, events).unwrap(),
        ),
        spec_run(DispatchState::Idle, events) == Some(DispatchState::Stopped) ==> run_brought(
            events,
        ) == run_settled(DispatchState::Idle, events),
    decreases events.len(),
{
    if events.len() > 0 {
        lemma_run_accounts_for_requests(events.drop_last());
        let before = spec_run(DispatchState::Idle, events.drop_last()).unwrap();
        lemma_requests_accounted(before, events.last());
    }
}

} // verus!
