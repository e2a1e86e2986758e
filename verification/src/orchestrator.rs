//! Orchestration of one ingestion run as a state machine.
//!
//! A run is a single pass: fetch the last hour's reports, write one audit
//! row, classify the records, persist the three typed collections
//! concurrently, and join. The machine is driven by the application: each
//! step consumes the outcome of the previous action and decides the next
//! state and action. Every decision of the sequence is verified here; the
//! application only performs the I/O the actions name.
//!
//! Failure policy: a fetch failure aborts the run before any audit row is
//! written; a failure of the audit-row insert aborts the run; a failure of
//! an individual typed insert is reported in the final state but neither
//! rolls back nor retries the other two — the audit row reflects what was
//! fetched, not what was fully stored.

use vstd::prelude::*;

use crate::classify::{process_ais_items, SplitAISMessages};
use crate::database::postgres::StorageError;
use crate::live_ais::ais_stream::ResponseErrorMessages;
use crate::live_ais::response_structs::GetAISLatestResponse;

verus! {

/// Length of the fetch look-back window, in seconds.
pub const LOOKBACK_SECONDS: i64 = 3600;

/// Coerces an HTTP status to the audit row's 32-bit column. Every 16-bit
/// status fits, so the coercion is exact.
pub fn coerce_status_code(status: u16) -> (r: i32)
    ensures
        r == status as i32,
{
    status as i32
}

/// The audit row's message count: the fetched count where it fits the
/// 64-bit signed column, zero otherwise (the fallback is logged by the
/// application, never fatal).
pub open spec fn spec_coerce_count(n: usize) -> i64 {
    if n <= i64::MAX {
        n as i64
    } else {
        0
    }
}

/// Coerces a message count to the audit row's 64-bit signed column,
/// falling back to zero where it does not fit.
pub fn coerce_message_count(n: usize) -> (r: i64)
    ensures
        r == spec_coerce_count(n),
{
    if (n as u64) <= (i64::MAX as u64) {
        n as i64
    } else {
        0
    }
}

/// The fetched record count a response reports: its content length, or
/// zero where none was recorded.
pub open spec fn spec_count_of(resp: GetAISLatestResponse) -> usize {
    match resp.content_length {
        Some(n) => n,
        None => 0,
    }
}

/// One fetch outcome summarized for the audit row: the HTTP status and
/// message count coerced to their column types, beside the response itself.
#[derive(Debug, Clone, PartialEq)]
pub struct LastHourAISMessage {
    pub status_code: i32,
    pub number_of_items: i64,
    pub ais_response: GetAISLatestResponse,
}

/// Summarizes a successful fetch for the audit row.
pub fn summarize_last_hour(last_hour: GetAISLatestResponse) -> (r: LastHourAISMessage)
    ensures
        r.status_code == last_hour.status_code as i32,
        r.number_of_items == spec_coerce_count(spec_count_of(last_hour)),
        r.ais_response == last_hour,
{
    let status_code = coerce_status_code(last_hour.status_code);
    let count: usize = match last_hour.content_length {
        Some(n) => n,
        None => 0,
    };
    let number_of_items = coerce_message_count(count);
    LastHourAISMessage { status_code, number_of_items, ais_response: last_hour }
}

/// Why a run was aborted.
#[derive(Debug, PartialEq)]
pub enum RunError {
    /// Authentication or fetch failed; no audit row was written.
    Fetch(ResponseErrorMessages),
    /// The audit-row insert failed.
    Storage(StorageError),
}

/// Where a run stands.
#[derive(Debug, PartialEq)]
pub enum OrchestratorState {
    /// Nothing has happened yet.
    Idle,
    /// The fetch of the window starting at `since` is in flight.
    Fetching { since: i64 },
    /// The fetch succeeded; the audit-row insert is in flight.
    Logging { summary: LastHourAISMessage },
    /// The audit row `run_id` is durable; the typed inserts are in flight.
    Persisting { run_id: u128 },
    /// The run finished; each flag reports one typed insert's outcome.
    Completed { run_id: u128, static_ok: bool, aton_ok: bool, position_ok: bool },
    /// The run ended on a fatal error.
    Aborted { error: RunError },
}

/// What the application reports back to the machine.
#[derive(Debug, PartialEq)]
pub enum OrchestratorEvent {
    /// The run begins at time `now` (epoch seconds).
    Started { now: i64 },
    /// The fetch finished.
    FetchCompleted { result: Result<GetAISLatestResponse, ResponseErrorMessages> },
    /// The audit-row insert finished; on success it carries the generated
    /// run identifier.
    RunInserted { result: Result<u128, StorageError> },
    /// All three typed inserts were joined; each flag reports one outcome.
    PersistJoined { static_ok: bool, aton_ok: bool, position_ok: bool },
}

/// What the application must do next.
#[derive(Debug, PartialEq)]
pub enum OrchestratorAction {
    /// Fetch the report window starting at `since`.
    Fetch { since: i64 },
    /// Insert the audit row with these column values.
    InsertRun { api_endpoint: String, status_code: i32, message_count: i64 },
    /// Run the three typed inserts concurrently, each tagged with `run_id`.
    Persist { run_id: u128, messages: SplitAISMessages },
    /// The run is over; nothing is left to do.
    Stop,
}

/// The records a summarized fetch carries: the decoded array, or nothing
/// where records are absent (all three collections are then empty).
pub open spec fn spec_records_of(summary: LastHourAISMessage) -> Seq<
    crate::live_ais::response_structs::GetAISLatestResponseItem,
> {
    match summary.ais_response.ais_latest_responses {
        Some(records) => records@,
        None => Seq::empty(),
    }
}

/// The transition relation of one run. Each arm pins the next state and
/// the action down; pairs of state and event that the run's sequence never
/// produces leave the state unchanged and do nothing.
pub open spec fn spec_step(
    state: OrchestratorState,
    event: OrchestratorEvent,
    next: OrchestratorState,
    action: OrchestratorAction,
) -> bool {
    match (state, event) {
        (OrchestratorState::Idle, OrchestratorEvent::Started { now }) => {
            &&& next == (OrchestratorState::Fetching { since: (now - LOOKBACK_SECONDS) as i64 })
            &&& action == (OrchestratorAction::Fetch { since: (now - LOOKBACK_SECONDS) as i64 })
        },
        (OrchestratorState::Fetching { since }, OrchestratorEvent::FetchCompleted { result }) => {
            match result {
                Ok(resp) => {
                    &&& next matches OrchestratorState::Logging { summary }
                    &&& summary.ais_response == resp
                    &&& summary.status_code == resp.status_code as i32
                    &&& summary.number_of_items == spec_coerce_count(spec_count_of(resp))
                    &&& action matches OrchestratorAction::InsertRun {
                        api_endpoint,
                        status_code,
                        message_count,
                    }
                    &&& api_endpoint == resp.api_endpoint
                    &&& status_code == resp.status_code as i32
                    &&& message_count == spec_coerce_count(spec_count_of(resp))
                },
                Err(e) => {
                    &&& next == (OrchestratorState::Aborted { error: RunError::Fetch(e) })
                    &&& action == OrchestratorAction::Stop
                },
            }
        },
        (OrchestratorState::Logging { summary }, OrchestratorEvent::RunInserted { result }) => {
            match result {
                Ok(run_id) => {
                    &&& next == (OrchestratorState::Persisting { run_id })
                    &&& action matches OrchestratorAction::Persist { run_id: rid, messages }
                    &&& rid == run_id
                    &&& messages.is_split_of(spec_records_of(summary))
                },
                Err(e) => {
                    &&& next == (OrchestratorState::Aborted { error: RunError::Storage(e) })
                    &&& action == OrchestratorAction::Stop
                },
            }
        },
        (
            OrchestratorState::Persisting { run_id },
            OrchestratorEvent::PersistJoined { static_ok, aton_ok, position_ok },
        ) => {
            &&& next == (OrchestratorState::Completed { run_id, static_ok, aton_ok, position_ok })
            &&& action == OrchestratorAction::Stop
        },
        (s, _) => next == s && action == OrchestratorAction::Stop,
    }
}

/// Takes one step of a run: consumes the previous action's outcome and
/// decides the next state and action.
pub fn step(state: OrchestratorState, event: OrchestratorEvent) -> (r: (
    OrchestratorState,
    OrchestratorAction,
))
    requires
        event matches OrchestratorEvent::Started { now } ==> now - LOOKBACK_SECONDS >= i64::MIN,
    ensures
        spec_step(state, event, r.0, r.1),
{
    match (state, event) {
        (OrchestratorState::Idle, OrchestratorEvent::Started { now }) => {
            let since = now - LOOKBACK_SECONDS;
            (OrchestratorState::Fetching { since }, OrchestratorAction::Fetch { since })
        },
        (OrchestratorState::Fetching { since: _ }, OrchestratorEvent::FetchCompleted { result }) => {
            match result {
                Ok(resp) => {
                    let summary = summarize_last_hour(resp);
                    let api_endpoint = summary.ais_response.api_endpoint.clone();
                    let status_code = summary.status_code;
                    let message_count = summary.number_of_items;
                    (
                        OrchestratorState::Logging { summary },
                        OrchestratorAction::InsertRun { api_endpoint, status_code, message_count },
                    )
                },
                Err(e) => {
                    (
                        OrchestratorState::Aborted { error: RunError::Fetch(e) },
                        OrchestratorAction::Stop,
                    )
                },
            }
        },
        (OrchestratorState::Logging { summary }, OrchestratorEvent::RunInserted { result }) => {
            match result {
                Ok(run_id) => {
                    let messages = match summary.ais_response.ais_latest_responses {
                        Some(records) => process_ais_items(records),
                        None => SplitAISMessages {
                            static_data: Vec::new(),
                            aton_data: Vec::new(),
                            position_data: Vec::new(),
                        },
                    };
                    (
                        OrchestratorState::Persisting { run_id },
                        OrchestratorAction::Persist { run_id, messages },
                    )
                },
                Err(e) => {
                    (
                        OrchestratorState::Aborted { error: RunError::Storage(e) },
                        OrchestratorAction::Stop,
                    )
                },
            }
        },
        (
            OrchestratorState::Persisting { run_id },
            OrchestratorEvent::PersistJoined { static_ok, aton_ok, position_ok },
        ) => {
            (
                OrchestratorState::Completed { run_id, static_ok, aton_ok, position_ok },
                OrchestratorAction::Stop,
            )
        },
        (s, _) => (s, OrchestratorAction::Stop),
    }
}

/// A failed fetch aborts the run before any database work: the machine
/// moves straight to `Aborted` and the application is told to stop, so no
/// audit row and no typed insert is ever requested.
pub proof fn lemma_fetch_failure_aborts_without_audit(
    since: i64,
    e: ResponseErrorMessages,
    next: OrchestratorState,
    action: OrchestratorAction,
)
    requires
        spec_step(
            OrchestratorState::Fetching { since },
            OrchestratorEvent::FetchCompleted { result: Err(e) },
            next,
            action,
        ),
    ensures
        next == (OrchestratorState::Aborted { error: RunError::Fetch(e) }),
        action == OrchestratorAction::Stop,
{
}

/// An audit row is requested only once per run: the only transition that
/// emits `InsertRun` is the one leaving `Fetching` on a successful fetch,
/// and it leaves `Fetching` behind for good.
pub proof fn lemma_audit_row_only_after_successful_fetch(
    state: OrchestratorState,
    event: OrchestratorEvent,
    next: OrchestratorState,
    action: OrchestratorAction,
)
    requires
        spec_step(state, event, next, action),
        action matches OrchestratorAction::InsertRun { .. },
    ensures
        state matches OrchestratorState::Fetching { .. },
        event matches OrchestratorEvent::FetchCompleted { result } && result is Ok,
        next matches OrchestratorState::Logging { .. },
{
}

/// How far a run has progressed; the machine never moves backwards.
pub open spec fn spec_phase(state: OrchestratorState) -> int {
    match state {
        OrchestratorState::Idle => 0,
        OrchestratorState::Fetching { .. } => 1,
        OrchestratorState::Logging { .. } => 2,
        OrchestratorState::Persisting { .. } => 3,
        OrchestratorState::Completed { .. } => 4,
        OrchestratorState::Aborted { .. } => 5,
    }
}

/// Structural facts about a single step: progress is monotone, `InsertRun`
/// is emitted exactly on the transition from `Fetching` into `Logging`,
/// and each state is entered only from its predecessor or from itself.
proof fn lemma_step_phase(
    state: OrchestratorState,
    event: OrchestratorEvent,
    next: OrchestratorState,
    action: OrchestratorAction,
)
    requires
        spec_step(state, event, next, action),
    ensures
        spec_phase(next) >= spec_phase(state),
        (action matches OrchestratorAction::InsertRun { .. }) <==> (state matches
            OrchestratorState::Fetching { .. } && next matches OrchestratorState::Logging { .. }),
        next matches OrchestratorState::Logging { .. } ==> (state matches
            OrchestratorState::Fetching { .. } || state matches OrchestratorState::Logging { .. }),
        next matches OrchestratorState::Persisting { .. } ==> (state matches
            OrchestratorState::Logging { .. } || state matches OrchestratorState::Persisting {
            ..
        }),
        next matches OrchestratorState::Completed { .. } ==> (state matches
            OrchestratorState::Persisting { .. } || state matches OrchestratorState::Completed {
            ..
        }),
{
}

/// One run as the machine saw it: `states` are the stations passed through,
/// and for each event the step relation connects a station to the next and
/// to the action taken.
pub open spec fn spec_run_trace(
    states: Seq<OrchestratorState>,
    events: Seq<OrchestratorEvent>,
    actions: Seq<OrchestratorAction>,
) -> bool {
    &&& states.len() == events.len() + 1
    &&& actions.len() == events.len()
    &&& forall|i: int|
        0 <= i < events.len() ==> spec_step(states[i], events[i], states[i + 1], actions[i])
}

/// How many audit-row inserts a run requested.
pub open spec fn spec_insert_run_count(actions: Seq<OrchestratorAction>) -> int
    decreases actions.len(),
{
    if actions.len() == 0 {
        0
    } else {
        spec_insert_run_count(actions.drop_last()) + if actions.last() matches
            OrchestratorAction::InsertRun { .. } {
            1int
        } else {
            0
        }
    }
}

/// Along a trace, progress never moves backwards.
proof fn lemma_phase_monotone(
    states: Seq<OrchestratorState>,
    events: Seq<OrchestratorEvent>,
    actions: Seq<OrchestratorAction>,
    i: int,
    j: int,
)
    requires
        spec_run_trace(states, events, actions),
        0 <= i <= j < states.len(),
    ensures
        spec_phase(states[i]) <= spec_phase(states[j]),
    decreases j - i,
{
    if i < j {
        lemma_phase_monotone(states, events, actions, i, j - 1);
        lemma_step_phase(states[j - 1], events[j - 1], states[j], actions[j - 1]);
    }
}

/// A run that stands at `Logging` or beyond (short of `Aborted`) passed
/// through `Logging`.
proof fn lemma_logging_precedes(
    states: Seq<OrchestratorState>,
    events: Seq<OrchestratorEvent>,
    actions: Seq<OrchestratorAction>,
    k: int,
)
    requires
        spec_run_trace(states, events, actions),
        states[0] is Idle,
        0 <= k < states.len(),
        2 <= spec_phase(states[k]) <= 4,
    ensures
        exists|i: int| 0 <= i <= k && (#[trigger] states[i]) matches OrchestratorState::Logging {
            ..
        },
    decreases k,
{
    if states[k] matches OrchestratorState::Logging { .. } {
        assert(0 <= k <= k && states[k] matches OrchestratorState::Logging { .. });
    } else {
        lemma_step_phase(states[k - 1], events[k - 1], states[k], actions[k - 1]);
        lemma_logging_precedes(states, events, actions, k - 1);
        let i = choose|i: int|
            0 <= i <= k - 1 && (#[trigger] states[i]) matches OrchestratorState::Logging { .. };
        assert(0 <= i <= k && states[i] matches OrchestratorState::Logging { .. });
    }
}

/// A run requests an audit row exactly as often as it reaches `Logging`:
/// once if it ever does, never otherwise.
proof fn lemma_count_is_logging_visited(
    states: Seq<OrchestratorState>,
    events: Seq<OrchestratorEvent>,
    actions: Seq<OrchestratorAction>,
)
    requires
        spec_run_trace(states, events, actions),
        states[0] is Idle,
    ensures
        spec_insert_run_count(actions) == if (exists|i: int|
            0 <= i < states.len() && (#[trigger] states[i]) matches OrchestratorState::Logging {
                ..
            }) {
            1int
        } else {
            0
        },
    decreases events.len(),
{
    let n = events.len() as int;
    if n == 0 {
        assert(forall|i: int|
            0 <= i < states.len() ==> !((#[trigger] states[i]) matches OrchestratorState::Logging {
                ..
            }));
    } else {
        let prefix_states = states.drop_last();
        let prefix_events = events.drop_last();
        let prefix_actions = actions.drop_last();
        assert forall|i: int| 0 <= i < prefix_events.len() implies spec_step(
            prefix_states[i],
            prefix_events[i],
            prefix_states[i + 1],
            prefix_actions[i],
        ) by {
            assert(spec_step(states[i], events[i], states[i + 1], actions[i]));
        }
        lemma_count_is_logging_visited(prefix_states, prefix_events, prefix_actions);
        lemma_step_phase(states[n - 1], events[n - 1], states[n], actions[n - 1]);
        if actions[n - 1] matches OrchestratorAction::InsertRun { .. } {
            // The step left `Fetching`, so no earlier station was `Logging`:
            // progress is monotone and `Logging` lies beyond `Fetching`.
            assert forall|i: int| 0 <= i < prefix_states.len() implies !(
            (#[trigger] prefix_states[i]) matches OrchestratorState::Logging { .. }) by {
                lemma_phase_monotone(states, events, actions, i, n - 1);
            }
            assert(spec_insert_run_count(actions) == 1);
            assert(0 <= n < states.len() && states[n] matches OrchestratorState::Logging { .. });
        } else {
            assert(spec_insert_run_count(actions) == spec_insert_run_count(prefix_actions));
            if exists|i: int|
                0 <= i < states.len() && (#[trigger] states[i]) matches OrchestratorState::Logging {
                    ..
                } {
                let i = choose|i: int|
                    0 <= i < states.len() && (#[trigger] states[i]) matches
                        OrchestratorState::Logging { .. };
                if i == n {
                    // Entered without `InsertRun`, so the previous station
                    // was already `Logging`.
                    assert(prefix_states[n - 1] matches OrchestratorState::Logging { .. });
                } else {
                    assert(prefix_states[i] matches OrchestratorState::Logging { .. });
                }
            } else {
                assert(forall|i: int|
                    0 <= i < prefix_states.len() ==> !((#[trigger] prefix_states[i]) matches
                        OrchestratorState::Logging { .. }));
            }
        }
    }
}

/// Exactly one audit row per run: a run that starts at `Idle` and ends
/// `Completed` requests the audit-row insert exactly once.
pub proof fn lemma_exactly_one_audit_row_per_completed_run(
    states: Seq<OrchestratorState>,
    events: Seq<OrchestratorEvent>,
    actions: Seq<OrchestratorAction>,
)
    requires
        spec_run_trace(states, events, actions),
        states.len() > 0,
        states[0] is Idle,
        states.last() matches OrchestratorState::Completed { .. },
    ensures
        spec_insert_run_count(actions) == 1,
{
    lemma_count_is_logging_visited(states, events, actions);
    lemma_logging_precedes(states, events, actions, states.len() - 1);
}

/// A run whose fetch delivered zero records still writes exactly one audit
/// row, with a message count of zero and the observed status, and then
/// requests three empty typed inserts.
pub proof fn lemma_zero_records_still_audited(
    since: i64,
    resp: GetAISLatestResponse,
    run_id: u128,
    next1: OrchestratorState,
    action1: OrchestratorAction,
    next2: OrchestratorState,
    action2: OrchestratorAction,
)
    requires
        resp.content_length == Some(0usize),
        resp.ais_latest_responses matches Some(records) && records@.len() == 0,
        spec_step(
            OrchestratorState::Fetching { since },
            OrchestratorEvent::FetchCompleted { result: Ok(resp) },
            next1,
            action1,
        ),
        spec_step(next1, OrchestratorEvent::RunInserted { result: Ok(run_id) }, next2, action2),
    ensures
        action1 matches OrchestratorAction::InsertRun { api_endpoint, status_code, message_count }
            && api_endpoint == resp.api_endpoint && status_code == resp.status_code as i32
            && message_count == 0,
        next2 == (OrchestratorState::Persisting { run_id }),
        action2 matches OrchestratorAction::Persist { run_id: rid, messages } && rid == run_id
            && messages.static_data@.len() == 0 && messages.aton_data@.len() == 0
            && messages.position_data@.len() == 0,
{
    let records = resp.ais_latest_responses->0;
    assert(records@ =~= Seq::<
        crate::live_ais::response_structs::GetAISLatestResponseItem,
    >::empty());
}

} // verus!
