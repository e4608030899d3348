use icq_relay::events::{Tag, new_tag};
use icq_relay::ident::ClientId;
use icq_relay::response::CrossChainQueryResponse;
use icq_relay::worker::{
    AfterDispatch, ConnectionEnd, Msg, TickPlan, WorkerError, assemble_transaction, extract_requests,
    is_fatal, on_client_result, on_connection_result, on_dispatch_result, on_submission_result,
    on_update_build_result, plan_tick, target_update_height,
};

fn event(query_id: &str, with_height: bool) -> Vec<Tag> {
    let mut tags = vec![
        new_tag("module", "message"),
        new_tag("action", "message"),
        new_tag("query_id", query_id),
        new_tag("chain_id", "chainB-1"),
        new_tag("connection_id", "connection-0"),
        new_tag("type", "/cosmos.bank.v1beta1.Query/Balance"),
        new_tag("request", "cXVlcnk="),
    ];
    if with_height {
        tags.push(new_tag("height", "500"));
    }
    tags
}

fn response(id: &str, height: &str) -> CrossChainQueryResponse {
    CrossChainQueryResponse::new(
        id.to_string(),
        "cosmos1sender".to_string(),
        1,
        "data".to_string(),
        height.to_string(),
    )
}

#[test]
fn extraction_keeps_decodable_events_only() {
    let batch = vec![event("q-1", true), event("q-2", false)];
    let requests = extract_requests(&batch);
    assert_eq!(requests.len(), 1);
    assert_eq!(requests[0].query_id, "q-1");
}

#[test]
fn tick_without_command_is_idle() {
    assert!(matches!(plan_tick(None), TickPlan::Idle));
}

#[test]
fn tick_with_undecodable_batch_is_idle() {
    let batch = vec![event("q-1", false)];
    assert!(matches!(plan_tick(Some(&batch)), TickPlan::Idle));
}

#[test]
fn tick_with_decodable_batch_dispatches() {
    let batch = vec![event("q-1", true), event("q-2", false), event("q-3", true)];
    match plan_tick(Some(&batch)) {
        TickPlan::Dispatch(ps) => {
            assert_eq!(ps.len(), 2);
            assert_eq!(ps[0].query_id, "q-1");
            assert_eq!(ps[1].query_id, "q-3");
        }
        TickPlan::Idle => panic!("a decodable batch must be dispatched"),
    }
}

#[test]
fn failed_or_empty_dispatch_waits() {
    assert!(matches!(on_dispatch_result(None), AfterDispatch::Wait));
    assert!(matches!(on_dispatch_result(Some(vec![])), AfterDispatch::Wait));
}

#[test]
fn connection_lookup_failure_is_fatal_and_submits_nothing() {
    let r = on_connection_result(None);
    match r {
        Err(e) => {
            assert!(matches!(e, WorkerError::ConnectionLookupFailure));
            assert!(is_fatal(&e));
        }
        Ok(_) => panic!("a failed lookup must not resolve a client"),
    }
}

#[test]
fn connection_lookup_success_hands_on_client_id() {
    let end = ConnectionEnd {
        client_id: ClientId::parse("07-tendermint-3").unwrap(),
        counterparty_client_id: ClientId::parse("07-tendermint-9").unwrap(),
    };
    let client_id = on_connection_result(Some(end)).unwrap();
    assert_eq!(client_id.id, "07-tendermint-3");
}

#[test]
fn client_resolution_failure_is_fatal() {
    let r: Result<u8, WorkerError> = on_client_result(None);
    match r {
        Err(e) => {
            assert!(matches!(e, WorkerError::ClientResolutionFailure));
            assert!(is_fatal(&e));
        }
        Ok(_) => panic!("a missing client must be fatal"),
    }
}

#[test]
fn update_build_failure_is_fatal() {
    let r: Result<Vec<u8>, WorkerError> = on_update_build_result(None);
    match r {
        Err(e) => {
            assert!(matches!(e, WorkerError::UpdateClientBuildFailure));
            assert!(is_fatal(&e));
        }
        Ok(_) => panic!("a failed update build must be fatal"),
    }
}

#[test]
fn batch_at_height_500_targets_501() {
    let responses = vec![response("q-1", "500"), response("q-2", "500"), response("q-3", "500")];
    let target = target_update_height(4, &responses).unwrap();
    assert_eq!(target.revision_number, 4);
    assert_eq!(target.revision_height, 501);
}

#[test]
fn unparsable_response_height_is_fatal() {
    let responses = vec![response("q-1", "not-a-height")];
    match target_update_height(4, &responses) {
        Err(e) => {
            assert!(matches!(e, WorkerError::MalformedResponseHeight));
            assert!(is_fatal(&e));
        }
        Ok(_) => panic!("an unparsable height must be fatal"),
    }
}

#[test]
fn transaction_puts_update_messages_before_all_responses() {
    let responses = vec![response("q-1", "500"), response("q-2", "500"), response("q-3", "500")];
    let update_msgs: Vec<&str> = vec!["update-client"];
    let msgs = assemble_transaction(
        update_msgs,
        &responses,
        "/chain.query.v1.MsgSubmitCrossChainQueryResult",
    )
    .unwrap();
    assert_eq!(msgs.len(), 4);
    assert!(matches!(msgs[0], Msg::UpdateClient("update-client")));
    for (i, expected_id) in ["q-1", "q-2", "q-3"].iter().enumerate() {
        match &msgs[i + 1] {
            Msg::SubmitResult(e) => {
                assert_eq!(e.id, *expected_id);
                assert_eq!(e.query_height, 500);
                assert_eq!(e.type_url, "/chain.query.v1.MsgSubmitCrossChainQueryResult");
                assert!(e.proof_specs.is_empty());
            }
            Msg::UpdateClient(_) => panic!("responses must follow the update messages"),
        }
    }
}

#[test]
fn transaction_fails_on_any_bad_response_height() {
    let responses = vec![response("q-1", "500"), response("q-2", "??")];
    let update_msgs: Vec<&str> = vec!["update-client"];
    match assemble_transaction(update_msgs, &responses, "/t") {
        Err(e) => assert!(matches!(e, WorkerError::MalformedResponseHeight)),
        Ok(_) => panic!("a bad height must fail the transaction build"),
    }
}

#[test]
fn submission_rejection_is_ignored_not_fatal() {
    assert!(on_submission_result(true).is_none());
    match on_submission_result(false) {
        Some(e) => {
            assert!(matches!(e, WorkerError::SubmissionFailure));
            assert!(!is_fatal(&e));
        }
        None => panic!("a rejected submission must be reported"),
    }
}
