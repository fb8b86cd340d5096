use coordinator::dispatch::{
    dispatch_start, dispatch_step, post_response, DispatchAction, DispatchEvent, DispatchOutput,
    DispatchReport, DispatchState, EnqueueOutcome, PostResponse, ProveRequest, HEALTH_BODY,
    REQUEST_QUEUE_CAPACITY,
};
use coordinator::fetch::{BlockSource, FetchCause, FetchError, FetchResult};

type Event = DispatchEvent<u32>;

fn file_request(path: &str) -> ProveRequest<u32> {
    ProveRequest::FromSource(BlockSource::LocalFile { filepath: String::from(path) })
}

fn input(blocks: Vec<u32>) -> FetchResult<u32> {
    FetchResult { proverinput: blocks, fetch_times: vec![] }
}

fn step(state: DispatchState, event: Event) -> DispatchOutput<u32> {
    dispatch_step(state, event).unwrap()
}

#[test]
fn queue_holds_fifty_requests() {
    assert_eq!(REQUEST_QUEUE_CAPACITY, 50);
    assert_eq!(HEALTH_BODY, "OK");
}

#[test]
fn posted_request_is_accepted_when_enqueued_and_refused_otherwise() {
    assert_eq!(post_response(EnqueueOutcome::Enqueued), PostResponse::Accepted);
    assert_eq!(post_response(EnqueueOutcome::Closed), PostResponse::InternalServerError);
    assert_eq!(post_response(EnqueueOutcome::Full), PostResponse::InternalServerError);
}

#[test]
fn first_request_is_submitted_before_the_second_is_fetched() {
    let state = dispatch_start();
    assert_eq!(state, DispatchState::Idle);

    let first = step(state, Event::Received(file_request("r1.json")));
    assert_eq!(first.state, DispatchState::Fetching);
    assert_eq!(
        first.action,
        DispatchAction::Fetch(BlockSource::LocalFile { filepath: String::from("r1.json") })
    );
    assert_eq!(dispatch_step(first.state, Event::Received(file_request("r2.json"))), None);

    let fetched = step(first.state, Event::Fetched(Ok(input(vec![1]))));
    assert_eq!(fetched.state, DispatchState::Submitting);
    assert_eq!(fetched.action, DispatchAction::Submit(input(vec![1])));
    assert_eq!(dispatch_step(fetched.state, Event::Received(file_request("r2.json"))), None);

    let submitted = step(fetched.state, Event::Submitted(Ok(())));
    assert_eq!(submitted.state, DispatchState::Idle);
    assert_eq!(submitted.report, Some(DispatchReport::Completed));
    assert_eq!(submitted.action, DispatchAction::AwaitRequest);

    let second = step(submitted.state, Event::Received(file_request("r2.json")));
    assert_eq!(
        second.action,
        DispatchAction::Fetch(BlockSource::LocalFile { filepath: String::from("r2.json") })
    );
}

#[test]
fn request_with_its_input_is_submitted_without_a_fetch() {
    let request = ProveRequest::Prefetched(input(vec![4, 5]));
    let output = step(DispatchState::Idle, Event::Received(request));
    assert_eq!(
        output,
        DispatchOutput {
            state: DispatchState::Submitting,
            report: None,
            action: DispatchAction::Submit(input(vec![4, 5])),
        }
    );
}

#[test]
fn failed_fetch_is_reported_and_the_loop_goes_on() {
    let failure = FetchError::LocalFileErr(FetchCause::Io(String::from("gone")));
    let output = step(DispatchState::Fetching, Event::Fetched(Err(failure)));
    assert_eq!(
        output,
        DispatchOutput {
            state: DispatchState::Idle,
            report: Some(DispatchReport::FetchFailed(FetchError::LocalFileErr(FetchCause::Io(
                String::from("gone")
            )))),
            action: DispatchAction::AwaitRequest,
        }
    );
    let next = step(output.state, Event::Received(file_request("next.json")));
    assert_eq!(next.state, DispatchState::Fetching);
}

#[test]
fn failed_submission_is_reported_and_the_loop_goes_on() {
    let output = step(DispatchState::Submitting, Event::Submitted(Err(String::from("no workers"))));
    assert_eq!(
        output,
        DispatchOutput {
            state: DispatchState::Idle,
            report: Some(DispatchReport::SubmitFailed(String::from("no workers"))),
            action: DispatchAction::AwaitRequest,
        }
    );
}

#[test]
fn closed_queue_closes_the_runtime_and_then_the_loop_ends() {
    let closing = step(DispatchState::Idle, Event::QueueClosed);
    assert_eq!(
        closing,
        DispatchOutput {
            state: DispatchState::Closing,
            report: None,
            action: DispatchAction::CloseRuntime,
        }
    );
    let stopped = step(closing.state, Event::RuntimeClosed(Ok(())));
    assert_eq!(
        stopped,
        DispatchOutput {
            state: DispatchState::Stopped,
            report: Some(DispatchReport::RuntimeClosed),
            action: DispatchAction::Exit,
        }
    );
}

#[test]
fn runtime_that_does_not_close_is_reported_and_the_loop_ends_all_the_same() {
    let stopped = step(DispatchState::Closing, Event::RuntimeClosed(Err(String::from("busy"))));
    assert_eq!(
        stopped,
        DispatchOutput {
            state: DispatchState::Stopped,
            report: Some(DispatchReport::CloseFailed(String::from("busy"))),
            action: DispatchAction::Exit,
        }
    );
}

#[test]
fn events_that_are_not_awaited_are_refused() {
    let events = || -> Vec<Event> {
        vec![
            Event::Received(file_request("r.json")),
            Event::QueueClosed,
            Event::Fetched(Ok(input(vec![]))),
            Event::Submitted(Ok(())),
            Event::RuntimeClosed(Ok(())),
        ]
    };
    let awaited = [
        (DispatchState::Idle, vec![true, true, false, false, false]),
        (DispatchState::Fetching, vec![false, false, true, false, false]),
        (DispatchState::Submitting, vec![false, false, false, true, false]),
        (DispatchState::Closing, vec![false, false, false, false, true]),
        (DispatchState::Stopped, vec![false, false, false, false, false]),
    ];
    for (state, expected) in awaited {
        for (event, accepted) in events().into_iter().zip(expected) {
            assert_eq!(dispatch_step(state, event).is_some(), accepted, "{:?}", state);
        }
    }
}

#[test]
fn every_request_of_a_run_is_reported_once() {
    let events: Vec<Event> = vec![
        Event::Received(file_request("a.json")),
        Event::Fetched(Ok(input(vec![1]))),
        Event::Submitted(Ok(())),
        Event::Received(ProveRequest::FromSource(BlockSource::Rpc {
            rpc_url: String::from("http://localhost:8545"),
            block_interval: String::from("2..=3"),
            checkpoint: None,
            backoff: None,
            max_retries: None,
            rpc_type: None,
        })),
        Event::Fetched(Err(FetchError::RpcFetchError(FetchCause::Client(String::from("down"))))),
        Event::Received(ProveRequest::Prefetched(input(vec![7]))),
        Event::Submitted(Err(String::from("rejected"))),
        Event::QueueClosed,
        Event::RuntimeClosed(Ok(())),
    ];
    let mut state = dispatch_start();
    let mut received = 0;
    let mut reports = Vec::new();
    for event in events {
        if matches!(event, Event::Received(_)) {
            received += 1;
        }
        let output = step(state, event);
        state = output.state;
        if let Some(report) = output.report {
            reports.push(report);
        }
    }
    assert_eq!(state, DispatchState::Stopped);
    assert_eq!(received, 3);
    assert_eq!(
        reports,
        vec![
            DispatchReport::Completed,
            DispatchReport::FetchFailed(FetchError::RpcFetchError(FetchCause::Client(
                String::from("down")
            ))),
            DispatchReport::SubmitFailed(String::from("rejected")),
            DispatchReport::RuntimeClosed,
        ]
    );
}
