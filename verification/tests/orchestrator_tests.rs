use barents::database::postgres::{DbMethods, StorageError};
use barents::live_ais::ais_stream::{AisFetchOutcome, interpret_latest_ais_response, ResponseErrorMessages};
use barents::live_ais::response_structs::{GetAISLatestResponse, GetAISLatestResponseItem};
use barents::orchestrator::{
    coerce_message_count, coerce_status_code, step, summarize_last_hour, OrchestratorAction,
    OrchestratorEvent, OrchestratorState,
};

fn item_of_kind(kind: &str, mmsi: i64) -> GetAISLatestResponseItem {
    GetAISLatestResponseItem {
        type_field: Some(kind.to_string()),
        message_type: None,
        mmsi: Some(mmsi),
        msgtime: None,
        imo_number: None,
        call_sign: None,
        destination: None,
        eta: None,
        name: None,
        draught: None,
        ship_length: None,
        ship_width: None,
        ship_type: None,
        dimension_a: None,
        dimension_b: None,
        dimension_c: None,
        dimension_d: None,
        position_fixing_device_type: None,
        report_class: None,
        type_of_aids_to_navigation: None,
        latitude: None,
        longitude: None,
        type_of_electronic_fixing_device: None,
        course_over_ground: None,
        ais_class: None,
        altitude: None,
        navigational_status: None,
        rate_of_turn: None,
        speed_over_ground: None,
        true_heading: None,
    }
}

const ENDPOINT: &str = "https://live.ais.barentswatch.no/v1/latest/ais?since=2023-06-01T11:00:00";

fn delivered(records: Vec<GetAISLatestResponseItem>) -> GetAISLatestResponse {
    interpret_latest_ais_response(
        ENDPOINT.to_string(),
        AisFetchOutcome::Delivered { status: 200, body: Ok(records) },
    )
    .unwrap()
}

#[test]
fn run_with_three_records_audits_and_persists_each_category_once() {
    let records = vec![
        item_of_kind("staticdata", 1),
        item_of_kind("aton", 2),
        item_of_kind("position", 3),
    ];
    let resp = delivered(records);
    assert_eq!(resp.status_code, 200);
    assert_eq!(resp.content_length, Some(3));

    let (state, action) = step(
        OrchestratorState::Idle,
        OrchestratorEvent::Started { now: 1685624400 },
    );
    assert_eq!(action, OrchestratorAction::Fetch { since: 1685624400 - 3600 });
    assert_eq!(state, OrchestratorState::Fetching { since: 1685620800 });

    let (state, action) = step(
        state,
        OrchestratorEvent::FetchCompleted { result: Ok(resp) },
    );
    assert_eq!(
        action,
        OrchestratorAction::InsertRun {
            api_endpoint: ENDPOINT.to_string(),
            status_code: 200,
            message_count: 3,
        }
    );

    let run_id: u128 = 0xfeed_beef;
    let (state, action) = step(
        state,
        OrchestratorEvent::RunInserted { result: Ok(run_id) },
    );
    assert_eq!(state, OrchestratorState::Persisting { run_id });
    match action {
        OrchestratorAction::Persist { run_id: rid, messages } => {
            assert_eq!(rid, run_id);
            assert_eq!(messages.static_data.len(), 1);
            assert_eq!(messages.aton_data.len(), 1);
            assert_eq!(messages.position_data.len(), 1);
            // Every persisted row of the run references the same run id.
            let db = DbMethods {};
            let static_rows = db.prepare_static_rows(messages.static_data, rid);
            let aton_rows = db.prepare_aton_rows(messages.aton_data, rid);
            let position_rows = db.prepare_position_rows(messages.position_data, rid);
            assert!(static_rows.iter().all(|r| r.log_id == run_id));
            assert!(aton_rows.iter().all(|r| r.log_id == run_id));
            assert!(position_rows.iter().all(|r| r.log_id == run_id));
        }
        other => panic!("expected a persist action, got {:?}", other),
    }

    let (state, action) = step(
        state,
        OrchestratorEvent::PersistJoined { static_ok: true, aton_ok: true, position_ok: true },
    );
    assert_eq!(action, OrchestratorAction::Stop);
    assert_eq!(
        state,
        OrchestratorState::Completed { run_id, static_ok: true, aton_ok: true, position_ok: true }
    );
}

#[test]
fn run_with_zero_records_still_writes_one_audit_row() {
    let resp = delivered(Vec::new());
    assert_eq!(resp.content_length, Some(0));

    let state = OrchestratorState::Fetching { since: 0 };
    let (state, action) = step(
        state,
        OrchestratorEvent::FetchCompleted { result: Ok(resp) },
    );
    assert_eq!(
        action,
        OrchestratorAction::InsertRun {
            api_endpoint: ENDPOINT.to_string(),
            status_code: 200,
            message_count: 0,
        }
    );

    let (_, action) = step(
        state,
        OrchestratorEvent::RunInserted { result: Ok(5) },
    );
    match action {
        OrchestratorAction::Persist { run_id, messages } => {
            assert_eq!(run_id, 5);
            assert!(messages.static_data.is_empty());
            assert!(messages.aton_data.is_empty());
            assert!(messages.position_data.is_empty());
        }
        other => panic!("expected a persist action, got {:?}", other),
    }
}

#[test]
fn http_503_aborts_before_any_audit_row() {
    let outcome = interpret_latest_ais_response(
        ENDPOINT.to_string(),
        AisFetchOutcome::Delivered { status: 503, body: Err("no body".to_string()) },
    );
    assert_eq!(outcome, Err(ResponseErrorMessages::UnexpectedStatusCode(503)));

    let (state, action) = step(
        OrchestratorState::Fetching { since: 0 },
        OrchestratorEvent::FetchCompleted { result: Err(outcome.unwrap_err()) },
    );
    // The run stops here: no InsertRun and no Persist action is ever emitted.
    assert_eq!(action, OrchestratorAction::Stop);
    match state {
        OrchestratorState::Aborted { .. } => {}
        other => panic!("expected an aborted run, got {:?}", other),
    }
}

#[test]
fn storage_failure_on_the_audit_row_aborts_the_run() {
    let resp = delivered(Vec::new());
    let state = OrchestratorState::Fetching { since: 0 };
    let (state, _) = step(state, OrchestratorEvent::FetchCompleted { result: Ok(resp) });
    let (state, action) = step(
        state,
        OrchestratorEvent::RunInserted {
            result: Err(StorageError { message: "connection lost".to_string() }),
        },
    );
    assert_eq!(action, OrchestratorAction::Stop);
    match state {
        OrchestratorState::Aborted { .. } => {}
        other => panic!("expected an aborted run, got {:?}", other),
    }
}

#[test]
fn failed_typed_inserts_do_not_abort_the_run() {
    let (state, action) = step(
        OrchestratorState::Persisting { run_id: 9 },
        OrchestratorEvent::PersistJoined { static_ok: false, aton_ok: true, position_ok: false },
    );
    assert_eq!(action, OrchestratorAction::Stop);
    assert_eq!(
        state,
        OrchestratorState::Completed {
            run_id: 9,
            static_ok: false,
            aton_ok: true,
            position_ok: false,
        }
    );
}

#[test]
fn malformed_fetch_body_is_a_deserialization_error() {
    let outcome = interpret_latest_ais_response(
        ENDPOINT.to_string(),
        AisFetchOutcome::Delivered { status: 200, body: Err("expected an array".to_string()) },
    );
    assert_eq!(
        outcome,
        Err(ResponseErrorMessages::DeserializationError("expected an array".to_string()))
    );
}

#[test]
fn transport_failure_is_a_network_error() {
    let outcome = interpret_latest_ais_response(
        ENDPOINT.to_string(),
        AisFetchOutcome::TransportFailed { message: "timed out".to_string() },
    );
    assert_eq!(
        outcome,
        Err(ResponseErrorMessages::NetworkError("timed out".to_string()))
    );
}

#[test]
fn coercions_to_audit_columns() {
    assert_eq!(coerce_status_code(200), 200);
    assert_eq!(coerce_status_code(u16::MAX), 65535);
    assert_eq!(coerce_message_count(0), 0);
    assert_eq!(coerce_message_count(12345), 12345);
    assert_eq!(coerce_message_count(i64::MAX as usize), i64::MAX);
    // Counts beyond the signed column fall back to zero.
    assert_eq!(coerce_message_count(usize::MAX), 0);
}

#[test]
fn summarize_reports_status_and_count() {
    let resp = delivered(vec![item_of_kind("aton", 1)]);
    let summary = summarize_last_hour(resp.clone());
    assert_eq!(summary.status_code, 200);
    assert_eq!(summary.number_of_items, 1);
    assert_eq!(summary.ais_response, resp);
}
