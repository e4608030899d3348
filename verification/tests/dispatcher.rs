use icq_relay::dispatch::{
    CrossChainQueryRequest, DispatchPlan, TransportOutcome, dispatch_plan, response_from_transport,
};

fn request_with_path(path: Option<&str>) -> CrossChainQueryRequest {
    CrossChainQueryRequest {
        id: "q-1".to_string(),
        sender: "cosmos1sender".to_string(),
        path: path.map(|p| p.to_string()),
        height: "42".to_string(),
    }
}

#[test]
fn undecodable_path_answers_failure_without_fetch() {
    let request = request_with_path(None);
    match dispatch_plan(&request) {
        DispatchPlan::Respond(resp) => {
            assert_eq!(resp.result, 2);
            assert_eq!(resp.data, "");
            assert_eq!(resp.id, "q-1");
            assert_eq!(resp.sender, "cosmos1sender");
            assert_eq!(resp.height, "42");
        }
        DispatchPlan::Fetch(..) => panic!("a request without a path must not be fetched"),
    }
}

#[test]
fn decoded_path_plans_fetch_at_height() {
    let request = request_with_path(Some("http://localhost:1317/balance"));
    match dispatch_plan(&request) {
        DispatchPlan::Fetch(path, height) => {
            assert_eq!(path, "http://localhost:1317/balance");
            assert_eq!(height, "42");
        }
        DispatchPlan::Respond(_) => panic!("a request with a path must be fetched"),
    }
}

#[test]
fn transport_error_becomes_failure_with_error_text() {
    let request = request_with_path(Some("http://unreachable.invalid/q"));
    let resp = response_from_transport(
        &request,
        TransportOutcome::TransportError("error sending request: connection refused".to_string()),
    );
    assert_eq!(resp.result, 2);
    assert_eq!(resp.data, "error sending request: connection refused");
    assert_eq!(resp.id, "q-1");
    assert_eq!(resp.sender, "cosmos1sender");
    assert_eq!(resp.height, "42");
}

#[test]
fn body_becomes_success_with_body_as_data() {
    let request = request_with_path(Some("http://localhost:1317/q"));
    let resp = response_from_transport(&request, TransportOutcome::Body("{\"ok\":true}".to_string()));
    assert_eq!(resp.result, 1);
    assert_eq!(resp.data, "{\"ok\":true}");
    assert_eq!(resp.height, "42");
}

#[test]
fn every_outcome_yields_success_or_failure_code() {
    let request = request_with_path(None);
    let outcomes = vec![
        TransportOutcome::Body("b".to_string()),
        TransportOutcome::TransportError("e".to_string()),
    ];
    for outcome in outcomes {
        let resp = response_from_transport(&request, outcome);
        assert!(resp.result == 1 || resp.result == 2);
    }
    match dispatch_plan(&request) {
        DispatchPlan::Respond(resp) => assert!(resp.result == 1 || resp.result == 2),
        DispatchPlan::Fetch(..) => unreachable!(),
    }
}
