//! The owner-thread side of the bridge: classifying requests into plans once
//! per tick, and turning the outcome a background unit of work reports into
//! the one response event it owes.

use vstd::prelude::*;
use crate::channel::EventChannel;
use crate::events::{DecodedImage, FetchError, FetchOutcome, FetchPlan, FetchRequest, FetchResponse};
use crate::jpeg::{decode_jpeg, jpeg_decoding};

verus! {

/// The plan a request is classified into: the same url and, for a POST, the
/// same body; text fetches report text, image fetches report status and bytes.
pub open spec fn plan_spec(req: FetchRequest) -> FetchPlan {
    match req {
        FetchRequest::GetString(url) => FetchPlan::GetText(url),
        FetchRequest::PostString(url, body) => FetchPlan::PostText(url, body),
        FetchRequest::GetImage(url) => FetchPlan::GetBytes(url),
    }
}

/// Classifies one request into the plan for its background unit of work.
pub fn plan_for(req: FetchRequest) -> (plan: FetchPlan)
    ensures
        plan == plan_spec(req),
{
    match req {
        FetchRequest::GetString(url) => FetchPlan::GetText(url),
        FetchRequest::PostString(url, body) => FetchPlan::PostText(url, body),
        FetchRequest::GetImage(url) => FetchPlan::GetBytes(url),
    }
}

/// One dispatch tick: drains every request pending on the channel and
/// classifies each, in arrival order. Every request submitted before the tick
/// yields exactly one plan, none is lost, none is duplicated, and the channel
/// is left empty.
pub fn dispatch_tick(requests: &mut EventChannel<FetchRequest>) -> (plans: Vec<FetchPlan>)
    ensures
        final(requests)@ == Seq::<FetchRequest>::empty(),
        plans@ == old(requests)@.map_values(|req: FetchRequest| plan_spec(req)),
{
    let mut pending = requests.drain();
    let ghost all: Seq<FetchRequest> = pending@;
    let mut plans: Vec<FetchPlan> = Vec::new();
    while pending.len() > 0
        invariant
            plans@.len() + pending@.len() == all.len(),
            pending@ == all.skip(plans@.len() as int),
            plans@ == all.take(plans@.len() as int).map_values(|req: FetchRequest| plan_spec(req)),
        decreases pending@.len(),
    {
        let ghost k = plans@.len() as int;
        let req = pending.remove(0);
        let plan = plan_for(req);
        plans.push(plan);
        proof {
            assert(pending@ =~= all.skip(k + 1));
            assert(all.take(k + 1) =~= all.take(k).push(all[k]));
            assert(plans@ =~= all.take(k + 1).map_values(|r: FetchRequest| plan_spec(r)));
        }
    }
    proof {
        assert(all.take(all.len() as int) =~= all);
    }
    plans
}

/// Law: a dispatch tick owes exactly one plan, and so exactly one background
/// unit of work and one eventual response, per pending request: no request is
/// lost and none is duplicated.
pub proof fn lemma_one_plan_per_request(requests: Seq<FetchRequest>)
    ensures
        requests.map_values(|req: FetchRequest| plan_spec(req)).len() == requests.len(),
{
}

/// 200 through 299: the status codes that count as success for an image fetch.
pub open spec fn is_success_status(status: u16) -> bool {
    200 <= status < 300
}

/// Tests whether an HTTP status code counts as success.
pub fn status_is_success(status: u16) -> (r: bool)
    ensures
        r == is_success_status(status),
{
    200 <= status && status < 300
}

/// The one header value sent with every text POST.
pub fn post_content_type() -> (s: &'static str)
    ensures
        s@ == "application/json"@,
{
    "application/json"
}

/// Completes an image fetch from the HTTP status and body bytes the
/// background work saw: a non-success status fails with that status code and
/// the body is not looked at; on a success status the bytes are decoded as a
/// JPEG image, and bytes that are not a valid JPEG fail with a decode error.
pub fn complete_image(status: u16, body: &Vec<u8>) -> (r: Result<DecodedImage, FetchError>)
    ensures
        !is_success_status(status) ==> r == Result::<DecodedImage, FetchError>::Err(
            FetchError::Status(status),
        ),
        is_success_status(status) && jpeg_decoding(body@) is Some ==> (r matches Ok(img)
            && Some(img) == jpeg_decoding(body@) && img.wf()),
        is_success_status(status) && jpeg_decoding(body@) is None ==> r
            == Result::<DecodedImage, FetchError>::Err(FetchError::Decode),
{
    if !status_is_success(status) {
        Err(FetchError::Status(status))
    } else {
        match decode_jpeg(body) {
            Some(img) => Ok(img),
            None => Err(FetchError::Decode),
        }
    }
}

/// The one response event owed for an outcome: a completed text fetch
/// publishes its body verbatim, whatever the HTTP status was; a completed
/// byte fetch publishes the decoded image or the error `complete_image`
/// assigns it; a transport failure publishes that failure. Every outcome
/// yields exactly one response.
pub fn response_for(outcome: FetchOutcome) -> (r: FetchResponse)
    ensures
        outcome matches FetchOutcome::Text(body) ==> r == FetchResponse::Str(body),
        outcome matches FetchOutcome::Bytes(status, bytes) ==> ((!is_success_status(status)
            ==> r == FetchResponse::Failed(FetchError::Status(status))) && (is_success_status(
            status,
        ) && jpeg_decoding(bytes@) is Some ==> (jpeg_decoding(bytes@) matches Some(img) && r
            == FetchResponse::Image(img))) && (is_success_status(status) && jpeg_decoding(bytes@)
            is None ==> r == FetchResponse::Failed(FetchError::Decode))),
        outcome matches FetchOutcome::Transport(msg) ==> r == FetchResponse::Failed(
            FetchError::Transport(msg),
        ),
{
    match outcome {
        FetchOutcome::Text(body) => FetchResponse::Str(body),
        FetchOutcome::Bytes(status, bytes) => match complete_image(status, &bytes) {
            Ok(img) => FetchResponse::Image(img),
            Err(e) => FetchResponse::Failed(e),
        },
        FetchOutcome::Transport(msg) => FetchResponse::Failed(FetchError::Transport(msg)),
    }
}

} // verus!
