//! The run: the inspection, then the commit, one request at a time.
//!
//! The run sends nothing and logs nothing itself. Each step takes what has
//! happened and says what is to be logged and which request is to be sent next;
//! whoever drives it sends the request and comes back with what the transport
//! handed over.

use crate::commit::{
    commit_notice, commit_pending_settings, commit_request, spec_commit, spec_commit_notice,
    spec_commit_request, CommitOutcome, CommitOutcomeView,
};
use crate::inspect::{
    check_pending_settings, pending_notice, pending_request, spec_inspection,
    spec_pending_notice, spec_pending_request, spec_read_failed,
};
use crate::level::Level;
use crate::record::{LogRecord, LogRecordView};
use crate::transport::{reply_of, Reply, Request, RequestView, TransportResult};
use vstd::prelude::*;

verus! {

/// Where a run stands.
#[derive(Debug, PartialEq, Eq)]
pub enum State {
    /// Nothing has been sent.
    Idle,
    /// The read of the pending settings is under way.
    Inspecting,
    /// The commit is under way.
    Committing,
    /// The run is over.
    Finished(CommitOutcome),
}

/// The place of a run as a mathematical value.
pub ghost enum StateView {
    Idle,
    Inspecting,
    Committing,
    Finished(CommitOutcomeView),
}

impl View for State {
    type V = StateView;

    open spec fn view(&self) -> StateView {
        match self {
            State::Idle => StateView::Idle,
            State::Inspecting => StateView::Inspecting,
            State::Committing => StateView::Committing,
            State::Finished(outcome) => StateView::Finished(outcome@),
        }
    }
}

/// What has happened since the last step.
#[derive(Debug, PartialEq, Eq)]
pub enum Event {
    /// The run is to begin.
    Start,
    /// The transport is done with the request of the last step.
    Replied(TransportResult),
}

/// What a step reads of an event.
pub ghost enum EventView {
    Start,
    Replied(Reply),
}

impl View for Event {
    type V = EventView;

    open spec fn view(&self) -> EventView {
        match self {
            Event::Start => EventView::Start,
            Event::Replied(result) => EventView::Replied(reply_of(*result)),
        }
    }
}

/// What a step asks for.
#[derive(Debug, PartialEq, Eq)]
pub struct Step {
    /// Where the run stands after the step.
    pub state: State,
    /// What is to be logged, in this order, before anything is sent.
    pub records: Vec<LogRecord>,
    /// The request to send next, if any.
    pub request: Option<Request>,
}

/// What is logged as the inspection begins.
pub open spec fn spec_inspection_heading() -> LogRecordView {
    LogRecordView { level: Level::Info, message: "Checking pending settings."@ }
}

/// What is logged as the commit begins.
pub open spec fn spec_commit_heading() -> LogRecordView {
    LogRecordView { level: Level::Info, message: "Committing settings."@ }
}

/// Where a run stands after an event.
///
/// The start leads to the inspection, any reply to the inspection leads to the
/// commit, and the reply to the commit ends the run with its outcome. An event
/// out of turn changes nothing; a run that is over stays so.
pub open spec fn spec_next_state(state: StateView, event: EventView) -> StateView {
    match (state, event) {
        (StateView::Idle, EventView::Start) => StateView::Inspecting,
        (StateView::Inspecting, EventView::Replied(_)) => StateView::Committing,
        (StateView::Committing, EventView::Replied(reply)) => StateView::Finished(
            spec_commit(reply),
        ),
        (unchanged, _) => unchanged,
    }
}

/// The request that is sent after an event, if any.
pub open spec fn spec_next_request(state: StateView, event: EventView) -> Option<RequestView> {
    match (state, event) {
        (StateView::Idle, EventView::Start) => Some(spec_pending_request()),
        (StateView::Inspecting, EventView::Replied(_)) => Some(spec_commit_request()),
        _ => None,
    }
}

/// What an event has logged.
///
/// Each request is announced by a heading and a notice. The reply to the read is
/// reported first, by the record of the inspection that it calls for. The reply
/// to the commit is reported only where the outcome has a notice of its own.
pub open spec fn spec_records(state: StateView, event: EventView) -> Seq<LogRecordView> {
    match (state, event) {
        (StateView::Idle, EventView::Start) => seq![
            spec_inspection_heading(),
            spec_pending_notice(),
        ],
        (StateView::Inspecting, EventView::Replied(reply)) => seq![
            spec_inspection(reply).record(),
            spec_commit_heading(),
            spec_commit_notice(),
        ],
        (StateView::Committing, EventView::Replied(reply)) => match spec_commit(reply).notice() {
            Some(notice) => seq![notice],
            None => Seq::<LogRecordView>::empty(),
        },
        _ => Seq::<LogRecordView>::empty(),
    }
}

/// Takes the run one step on.
pub fn step(state: State, event: Event) -> (next: Step)
    ensures
        next.state@ == spec_next_state(state@, event@),
        match next.request {
            Some(request) => spec_next_request(state@, event@) == Some(request@),
            None => spec_next_request(state@, event@) is None,
        },
        next.records.deep_view() == spec_records(state@, event@),
{
    let mut records: Vec<LogRecord> = Vec::new();
    match state {
        State::Idle => match event {
            Event::Start => {
                records.push(LogRecord::fixed(Level::Info, "Checking pending settings."));
                records.push(pending_notice());
                assert(records.deep_view() =~= seq![
                    spec_inspection_heading(),
                    spec_pending_notice(),
                ]);
                Step { state: State::Inspecting, records, request: Some(pending_request()) }
            },
            Event::Replied(_) => {
                assert(records.deep_view() =~= Seq::<LogRecordView>::empty());
                Step { state: State::Idle, records, request: None }
            },
        },
        State::Inspecting => match event {
            Event::Replied(result) => {
                let inspection = check_pending_settings(result);
                records.push(inspection.record());
                records.push(LogRecord::fixed(Level::Info, "Committing settings."));
                records.push(commit_notice());
                assert(records.deep_view() =~= seq![
                    inspection@.record(),
                    spec_commit_heading(),
                    spec_commit_notice(),
                ]);
                Step { state: State::Committing, records, request: Some(commit_request()) }
            },
            Event::Start => {
                assert(records.deep_view() =~= Seq::<LogRecordView>::empty());
                Step { state: State::Inspecting, records, request: None }
            },
        },
        State::Committing => match event {
            Event::Replied(result) => {
                let outcome = commit_pending_settings(result);
                match outcome.notice() {
                    Some(notice) => {
                        records.push(notice);
                        assert(records.deep_view() =~= seq![notice@]);
                    },
                    None => {
                        assert(records.deep_view() =~= Seq::<LogRecordView>::empty());
                    },
                }
                Step { state: State::Finished(outcome), records, request: None }
            },
            Event::Start => {
                assert(records.deep_view() =~= Seq::<LogRecordView>::empty());
                Step { state: State::Committing, records, request: None }
            },
        },
        State::Finished(outcome) => {
            assert(records.deep_view() =~= Seq::<LogRecordView>::empty());
            Step { state: State::Finished(outcome), records, request: None }
        },
    }
}

/// The inspection never fails the run. Whatever the transport hands back for
/// the read has an inspection; where the read failed, its record is a warning,
/// else it shows the settings to those who debug. Either way the step goes on to
/// the commit.
pub proof fn lemma_inspection_never_fails(reply: Reply)
    ensures
        spec_inspection(reply).record().level == (if spec_read_failed(reply) {
            Level::Warn
        } else {
            Level::Debug
        }),
        spec_next_state(StateView::Inspecting, EventView::Replied(reply)) == StateView::Committing,
        spec_next_request(StateView::Inspecting, EventView::Replied(reply)) == Some(
            spec_commit_request(),
        ),
        spec_records(StateView::Inspecting, EventView::Replied(reply))[0] == spec_inspection(
            reply,
        ).record(),
{
}

/// The commit is never asked for before the inspection is over: only the reply
/// to the read brings the commit request.
pub proof fn lemma_commit_follows_inspection(state: StateView, event: EventView)
    requires
        spec_next_request(state, event) == Some(spec_commit_request()),
    ensures
        state is Inspecting,
        event is Replied,
        spec_next_state(state, event) is Committing,
{
}

/// A run is the read, then the commit, and its end is the commit's alone:
/// whatever the reply to the read was, the run ends with the outcome that the
/// reply to the commit comes to, and asks for nothing more.
pub proof fn lemma_run_ends_with_the_commit(pending: Reply, commit: Reply)
    ensures
        ({
            let inspecting = spec_next_state(StateView::Idle, EventView::Start);
            let committing = spec_next_state(inspecting, EventView::Replied(pending));
            let finished = spec_next_state(committing, EventView::Replied(commit));
            &&& spec_next_request(StateView::Idle, EventView::Start) == Some(
                spec_pending_request(),
            )
            &&& spec_next_request(inspecting, EventView::Replied(pending)) == Some(
                spec_commit_request(),
            )
            &&& spec_next_request(committing, EventView::Replied(commit)) is None
            &&& finished == StateView::Finished(spec_commit(commit))
        }),
{
}

/// A run that is over stays over: no event moves it, asks for a request or
/// logs anything.
pub proof fn lemma_finished_is_final(outcome: CommitOutcomeView, event: EventView)
    ensures
        spec_next_state(StateView::Finished(outcome), event) == StateView::Finished(outcome),
        spec_next_request(StateView::Finished(outcome), event) is None,
        spec_records(StateView::Finished(outcome), event) == Seq::<LogRecordView>::empty(),
{
}

} // verus!
