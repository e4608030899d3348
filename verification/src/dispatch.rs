//! The REST query dispatcher's decision logic. Dispatch never fails: a
//! request whose path did not decode is answered immediately with a failure
//! response and no fetch; otherwise the fetch's outcome, success or transport
//! error, is folded into a definitive response. Every request thus yields
//! exactly one response.

use vstd::prelude::*;
use crate::response::{CrossChainQueryResponse, RESULT_FAILURE, RESULT_SUCCESS};

verus! {

/// A query request ready for dispatch: the path is already decoded, or
/// absent when its text failed to decode.
#[derive(Clone, Debug)]
pub struct CrossChainQueryRequest {
    pub id: String,
    pub sender: String,
    pub path: Option<String>,
    pub height: String,
}

/// What dispatch does with a request: answer at once, or fetch the path
/// pinned at the height and answer from the outcome.
#[derive(Clone, Debug)]
pub enum DispatchPlan {
    Respond(CrossChainQueryResponse),
    Fetch(String, String),
}

/// How the transport finished: a response body, or the error's text.
#[derive(Clone, Debug)]
pub enum TransportOutcome {
    Body(String),
    TransportError(String),
}

/// Decide the dispatch of a request. A request without a decoded path is
/// answered with a failure response carrying empty data, and nothing is
/// fetched; otherwise the plan is to fetch the path at the request's height.
pub fn dispatch_plan(request: &CrossChainQueryRequest) -> (r: DispatchPlan)
    ensures
        request.path is None ==> (r matches DispatchPlan::Respond(resp) && resp.id@ == request.id@
            && resp.sender@ == request.sender@ && resp.result == RESULT_FAILURE && resp.data@
            == Seq::<char>::empty() && resp.height@ == request.height@ && resp.wf()),
        request.path matches Some(p) ==> (r matches DispatchPlan::Fetch(path, h) && path@ == p@
            && h@ == request.height@),
{
    match &request.path {
        None => DispatchPlan::Respond(
            CrossChainQueryResponse::new(
                request.id.clone(),
                request.sender.clone(),
                RESULT_FAILURE,
                String::new(),
                request.height.clone(),
            ),
        ),
        Some(p) => DispatchPlan::Fetch(p.clone(), request.height.clone()),
    }
}

/// Fold a transport outcome into the request's definitive response: a body
/// answers with success and the body as data; a transport error answers with
/// failure and the error's text as data. The request's id, sender and height
/// are carried over unchanged either way.
pub fn response_from_transport(
    request: &CrossChainQueryRequest,
    outcome: TransportOutcome,
) -> (r: CrossChainQueryResponse)
    ensures
        r.id@ == request.id@,
        r.sender@ == request.sender@,
        r.height@ == request.height@,
        r.wf(),
        outcome matches TransportOutcome::Body(b) ==> r.result == RESULT_SUCCESS && r.data@ == b@,
        outcome matches TransportOutcome::TransportError(e) ==> r.result == RESULT_FAILURE
            && r.data@ == e@,
{
    match outcome {
        TransportOutcome::Body(b) => CrossChainQueryResponse::new(
            request.id.clone(),
            request.sender.clone(),
            RESULT_SUCCESS,
            b,
            request.height.clone(),
        ),
        TransportOutcome::TransportError(e) => CrossChainQueryResponse::new(
            request.id.clone(),
            request.sender.clone(),
            RESULT_FAILURE,
            e,
            request.height.clone(),
        ),
    }
}

} // verus!
