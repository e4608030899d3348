//! The cross-chain query worker's per-tick decisions. The worker alternates
//! chain calls with decisions; each decision is a function here, so the loop
//! around it only performs the calls and hands their outcomes back. Failures
//! split strictly into fatal ones, which stop the worker, and ignorable
//! ones, which drop the tick's unresolved work and keep the worker alive.

use vstd::prelude::*;
use crate::dec::parse_dec;
use crate::events::{CrossChainQueryPacket, SpecPacket, Tag, decode_spec, tags_view};
use crate::ident::ClientId;
use crate::response::{CrossChainQueryResponse, Envelope, envelope_matches};

verus! {

/// The connection end the querying chain reports, reduced to what the worker
/// reads from it: the two client identifiers.
#[derive(Clone, Debug)]
pub struct ConnectionEnd {
    pub client_id: ClientId,
    pub counterparty_client_id: ClientId,
}

/// An update-client target height: a revision and a height within it.
#[derive(Clone, Copy, Debug, PartialEq, Eq, Structural)]
pub struct IbcHeight {
    pub revision_number: u64,
    pub revision_height: u64,
}

/// The worker's failures, each classified fatal or ignorable.
#[derive(Clone, Debug)]
pub enum WorkerError {
    /// The connection end could not be looked up on the querying chain.
    ConnectionLookupFailure,
    /// The counterparty light client could not be located.
    ClientResolutionFailure,
    /// The update-client message set could not be built.
    UpdateClientBuildFailure,
    /// Transaction submission was not accepted by the mempool.
    SubmissionFailure,
    /// A response's height text was not a decimal numeral fitting a `u64`.
    MalformedResponseHeight,
}

/// Fatal failures stop the worker; ignorable ones only drop the tick's work.
pub open spec fn is_fatal_spec(e: WorkerError) -> bool {
    match e {
        WorkerError::SubmissionFailure => false,
        _ => true,
    }
}

pub fn is_fatal(e: &WorkerError) -> (r: bool)
    ensures
        r == is_fatal_spec(*e),
{
    match e {
        WorkerError::SubmissionFailure => false,
        _ => true,
    }
}

/// One message of the submission transaction: an update-client message as the
/// collaborator built it, or a query-result envelope.
#[derive(Clone, Debug)]
pub enum Msg<M> {
    UpdateClient(M),
    SubmitResult(Envelope),
}

pub open spec fn packets_view(ps: Seq<CrossChainQueryPacket>) -> Seq<SpecPacket> {
    ps.map_values(|p: CrossChainQueryPacket| p@)
}

pub open spec fn events_views(events: Seq<Vec<Tag>>) -> Seq<Seq<(Seq<char>, Seq<char>)>> {
    events.map_values(|v: Vec<Tag>| tags_view(v@))
}

/// The packets of the events that decode, in order; events that fail to
/// decode are skipped, not errors.
pub open spec fn extracted(events: Seq<Seq<(Seq<char>, Seq<char>)>>) -> Seq<SpecPacket>
    decreases events.len(),
{
    if events.len() == 0 {
        Seq::<SpecPacket>::empty()
    } else {
        extracted(events.drop_last()) + (if decode_spec(events.last()) is Ok {
            seq![decode_spec(events.last())->Ok_0]
        } else {
            Seq::<SpecPacket>::empty()
        })
    }
}

/// Extract every event of a batch that decodes into a query request,
/// silently skipping the rest.
pub fn extract_requests(events: &Vec<Vec<Tag>>) -> (r: Vec<CrossChainQueryPacket>)
    ensures
        packets_view(r@) == extracted(events_views(events@)),
{
    let n = events.len();
    let mut r: Vec<CrossChainQueryPacket> = Vec::new();
    let mut i: usize = 0;
    proof {
        assert(events_views(events@).take(0) =~= Seq::<Seq<(Seq<char>, Seq<char>)>>::empty());
        assert(packets_view(r@) =~= extracted(events_views(events@).take(0)));
    }
    while i < n
        invariant
            n == events@.len(),
            i <= n,
            packets_view(r@) == extracted(events_views(events@).take(i as int)),
        decreases n - i,
    {
        let ghost prev = r@;
        let ghost views = events_views(events@);
        match CrossChainQueryPacket::try_from_tags(&events[i]) {
            Ok(p) => {
                r.push(p);
                proof {
                    assert(packets_view(r@) =~= packets_view(prev) + seq![r@.last()@]);
                }
            },
            Err(_) => {},
        }
        i = i + 1;
        proof {
            assert(views.take(i as int).drop_last() =~= views.take(i - 1));
            assert(views.take(i as int).last() == views[i - 1]);
            assert(views[i - 1] == tags_view(events@[i - 1]@));
            assert(packets_view(r@) =~= extracted(views.take(i as int)));
        }
    }
    proof {
        assert(events_views(events@).take(n as int) =~= events_views(events@));
    }
    r
}

/// What a tick does after draining the command inbox: nothing, or dispatch
/// the batch's extracted requests.
#[derive(Clone, Debug)]
pub enum TickPlan {
    Idle,
    Dispatch(Vec<CrossChainQueryPacket>),
}

/// Decide the tick: no command, or a batch with no decodable query event, is
/// a heartbeat; otherwise the extracted requests are dispatched.
pub fn plan_tick(cmd: Option<&Vec<Vec<Tag>>>) -> (r: TickPlan)
    ensures
        cmd is None ==> r is Idle,
        cmd matches Some(evs) ==> {
            let ex = extracted(events_views(evs@));
            &&& ex.len() == 0 ==> r is Idle
            &&& ex.len() > 0 ==> (r matches TickPlan::Dispatch(ps) && packets_view(ps@) == ex)
        },
{
    match cmd {
        None => TickPlan::Idle,
        Some(evs) => {
            let ps = extract_requests(evs);
            if ps.len() == 0 {
                proof {
                    assert(extracted(events_views(evs@)).len() == 0);
                }
                TickPlan::Idle
            } else {
                TickPlan::Dispatch(ps)
            }
        },
    }
}

/// What follows the batched dispatch call: an opaque dispatch failure, or an
/// empty response list, leaves nothing to do this tick; a non-empty list
/// moves on to connection resolution.
#[derive(Clone, Debug)]
pub enum AfterDispatch {
    Wait,
    Resolve(Vec<CrossChainQueryResponse>),
}

pub fn on_dispatch_result(outcome: Option<Vec<CrossChainQueryResponse>>) -> (r: AfterDispatch)
    ensures
        outcome is None ==> r is Wait,
        outcome matches Some(rs) ==> {
            &&& rs@.len() == 0 ==> r is Wait
            &&& rs@.len() > 0 ==> (r matches AfterDispatch::Resolve(x) && x == rs)
        },
{
    match outcome {
        None => AfterDispatch::Wait,
        Some(rs) => {
            if rs.len() == 0 {
                AfterDispatch::Wait
            } else {
                AfterDispatch::Resolve(rs)
            }
        },
    }
}

/// The counterparty client to resolve comes from the connection end; a failed
/// lookup is fatal.
pub fn on_connection_result(conn: Option<ConnectionEnd>) -> (r: Result<ClientId, WorkerError>)
    ensures
        conn matches Some(end) ==> (r is Ok && r->Ok_0 == end.client_id),
        conn is None ==> (r matches Err(e) && e == WorkerError::ConnectionLookupFailure
            && is_fatal_spec(e)),
{
    match conn {
        Some(end) => Ok(end.client_id),
        None => Err(WorkerError::ConnectionLookupFailure),
    }
}

/// A failed light-client resolution is fatal; success hands the client on.
pub fn on_client_result<C>(client: Option<C>) -> (r: Result<C, WorkerError>)
    ensures
        client matches Some(c) ==> (r is Ok && r->Ok_0 == c),
        client is None ==> (r matches Err(e) && e == WorkerError::ClientResolutionFailure
            && is_fatal_spec(e)),
{
    match client {
        Some(c) => Ok(c),
        None => Err(WorkerError::ClientResolutionFailure),
    }
}

/// A failed update-client build is fatal; success hands the messages on.
pub fn on_update_build_result<M>(msgs: Option<Vec<M>>) -> (r: Result<Vec<M>, WorkerError>)
    ensures
        msgs matches Some(m) ==> (r is Ok && r->Ok_0 == m),
        msgs is None ==> (r matches Err(e) && e == WorkerError::UpdateClientBuildFailure
            && is_fatal_spec(e)),
{
    match msgs {
        Some(m) => Ok(m),
        None => Err(WorkerError::UpdateClientBuildFailure),
    }
}

/// The update target: the queried chain's revision, at one past the height of
/// the batch's first response. The whole batch is assumed to share that
/// height. A height that does not parse, or that cannot be incremented, is
/// fatal.
pub fn target_update_height(version: u64, responses: &Vec<CrossChainQueryResponse>) -> (r: Result<
    IbcHeight,
    WorkerError,
>)
    requires
        responses@.len() > 0,
    ensures
        r is Ok <==> (parse_dec(responses@[0].height@) is Some && parse_dec(
            responses@[0].height@,
        )->0 < u64::MAX),
        r is Ok ==> r->Ok_0.revision_number == version && r->Ok_0.revision_height == parse_dec(
            responses@[0].height@,
        )->0 + 1,
        r is Err ==> r->Err_0 == WorkerError::MalformedResponseHeight && is_fatal_spec(r->Err_0),
{
    let h = match crate::dec::parse_u64(responses[0].height.as_str()) {
        Some(h) => h,
        None => {
            return Err(WorkerError::MalformedResponseHeight);
        },
    };
    if h == u64::MAX {
        return Err(WorkerError::MalformedResponseHeight);
    }
    Ok(IbcHeight { revision_number: version, revision_height: h + 1 })
}

/// Assemble the tick's single transaction: every update-client message first,
/// then one envelope per response in batch order, all under one message-type
/// identifier. Fails, fatally, exactly when some response's height text does
/// not parse.
pub fn assemble_transaction<M>(
    update_msgs: Vec<M>,
    responses: &Vec<CrossChainQueryResponse>,
    type_url: &str,
) -> (r: Result<Vec<Msg<M>>, WorkerError>)
    ensures
        r is Ok <==> (forall|i: int|
            0 <= i < responses@.len() ==> parse_dec(#[trigger] responses@[i].height@) is Some),
        r is Err ==> r->Err_0 == WorkerError::MalformedResponseHeight && is_fatal_spec(r->Err_0),
        r matches Ok(msgs) ==> {
            &&& msgs@.len() == update_msgs@.len() + responses@.len()
            &&& forall|i: int|
                0 <= i < update_msgs@.len() ==> msgs@[i] == Msg::<M>::UpdateClient(
                    update_msgs@[i],
                )
            &&& forall|i: int|
                0 <= i < responses@.len() ==> (#[trigger] msgs@[update_msgs@.len() + i] matches
                Msg::<M>::SubmitResult(e) && envelope_matches(e, responses@[i], type_url@))
        },
{
    let ghost all_updates = update_msgs@;
    let mut update_msgs = update_msgs;
    let mut msgs: Vec<Msg<M>> = Vec::new();
    while update_msgs.len() > 0
        invariant
            msgs@.len() + update_msgs@.len() == all_updates.len(),
            update_msgs@ == all_updates.skip(msgs@.len() as int),
            forall|i: int|
                0 <= i < msgs@.len() ==> msgs@[i] == Msg::<M>::UpdateClient(all_updates[i]),
        decreases update_msgs@.len(),
    {
        let m = update_msgs.remove(0);
        proof {
            assert(all_updates.skip(msgs@.len() as int)[0] == all_updates[msgs@.len() as int]);
        }
        msgs.push(Msg::UpdateClient(m));
        proof {
            assert(update_msgs@ =~= all_updates.skip(msgs@.len() as int));
        }
    }
    let n = responses.len();
    let mut i: usize = 0;
    while i < n
        invariant
            n == responses@.len(),
            i <= n,
            msgs@.len() == all_updates.len() + i,
            forall|j: int|
                0 <= j < all_updates.len() ==> msgs@[j] == Msg::<M>::UpdateClient(all_updates[j]),
            forall|j: int|
                0 <= j < i ==> (#[trigger] msgs@[all_updates.len() + j] matches
                Msg::<M>::SubmitResult(e) && envelope_matches(e, responses@[j], type_url@)),
            forall|j: int|
                0 <= j < i ==> parse_dec(#[trigger] responses@[j].height@) is Some,
        decreases n - i,
    {
        match responses[i].to_any(type_url) {
            Ok(e) => {
                msgs.push(Msg::SubmitResult(e));
            },
            Err(_) => {
                return Err(WorkerError::MalformedResponseHeight);
            },
        }
        i = i + 1;
    }
    Ok(msgs)
}

/// A rejected submission is ignorable: the tick's work is dropped and the
/// worker keeps running; an accepted one raises nothing.
pub fn on_submission_result(accepted: bool) -> (r: Option<WorkerError>)
    ensures
        accepted ==> r is None,
        !accepted ==> (r matches Some(e) && e == WorkerError::SubmissionFailure && !is_fatal_spec(
            e,
        )),
{
    if accepted {
        None
    } else {
        Some(WorkerError::SubmissionFailure)
    }
}

} // verus!
