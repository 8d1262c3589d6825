//! The dispatcher.
//!
//! One invocation per inbound request. The request is looked up in the
//! route table; a non-GET method is answered 405 and an unknown GET path
//! 404. The index route is answered locally. Any other matched route has
//! its parameters bound; a failed bind is answered 400 and the backend is
//! never contacted. A successful bind yields the outbound URL in a
//! [`Plan::Forward`]; the surrounding process performs that single GET and
//! hands the outcome to [`conclude`], which relays the backend's status
//! and body verbatim or answers 502 with an empty body when the call
//! failed. Every request ends in exactly one response; nothing is retried.

use vstd::prelude::*;
use vstd::slice::slice_to_vec;
use vstd::string::StringSliceAdditionalSpecFns;

use crate::binder::bind;
use crate::binder::lemma_bind_len;
use crate::binder::spec_bind;
use crate::config::BackendEndpoint;
use crate::forward::ForwardOutcome;
use crate::forward::OutcomeModel;
use crate::forward::build_url;
use crate::forward::spec_url;
use crate::handlers::index_handler;
use crate::routes::Method;
use crate::routes::RouteId;
use crate::routes::match_route;
use crate::routes::route_params;
use crate::routes::spec_match_route;
use crate::routes::spec_route_params;

verus! {

/// Status of a locally answered index request.
pub const STATUS_OK: u16 = 200;

/// Status of a request whose parameters failed to bind.
pub const STATUS_BAD_REQUEST: u16 = 400;

/// Status of a GET for an unknown path.
pub const STATUS_NOT_FOUND: u16 = 404;

/// Status of a request with a non-GET method.
pub const STATUS_METHOD_NOT_ALLOWED: u16 = 405;

/// Status answered when the outbound call failed.
pub const STATUS_BAD_GATEWAY: u16 = 502;

/// One final HTTP response: status and raw body bytes.
pub struct Response {
    pub status: u16,
    pub body: Vec<u8>,
}

/// The mathematical reading of a [`Response`].
pub struct ResponseModel {
    pub status: u16,
    pub body: Seq<u8>,
}

impl View for Response {
    type V = ResponseModel;

    open spec fn view(&self) -> ResponseModel {
        ResponseModel { status: self.status, body: self.body@ }
    }
}

/// What one inbound request leads to: an immediate response, or a single
/// outbound GET to the given URL whose outcome then decides the response.
pub enum Plan {
    Respond(Response),
    Forward(Vec<u8>),
}

/// The mathematical reading of a [`Plan`].
pub enum PlanModel {
    Respond(ResponseModel),
    Forward(Seq<u8>),
}

impl View for Plan {
    type V = PlanModel;

    open spec fn view(&self) -> PlanModel {
        match self {
            Plan::Respond(r) => PlanModel::Respond(r@),
            Plan::Forward(u) => PlanModel::Forward(u@),
        }
    }
}

/// An immediate response with an empty body.
pub open spec fn spec_empty_response(status: u16) -> PlanModel {
    PlanModel::Respond(ResponseModel { status: status, body: Seq::empty() })
}

/// The body of the index route, as bytes.
pub open spec fn spec_index_body_bytes() -> Seq<u8> {
    "Hello world!\r\n".spec_bytes()
}

/// What the dispatcher does with one request.
pub open spec fn spec_plan(base: Seq<u8>, m: Method, path: Seq<u8>, q: Seq<u8>) -> PlanModel {
    match spec_match_route(m, path) {
        None => if m == Method::Get {
            spec_empty_response(STATUS_NOT_FOUND)
        } else {
            spec_empty_response(STATUS_METHOD_NOT_ALLOWED)
        },
        Some(RouteId::Index) => PlanModel::Respond(
            ResponseModel { status: STATUS_OK, body: spec_index_body_bytes() },
        ),
        Some(r) => match spec_bind(spec_route_params(r), q) {
            Err(_) => spec_empty_response(STATUS_BAD_REQUEST),
            Ok(vs) => PlanModel::Forward(spec_url(base, r, vs)),
        },
    }
}

/// The final response for one outbound outcome: the backend's status and
/// body relayed verbatim (non-2xx statuses included), or 502 with an empty
/// body when the backend was unreachable or its body unreadable.
pub open spec fn spec_conclude(o: OutcomeModel) -> ResponseModel {
    match o {
        OutcomeModel::Delivered(status, body) => ResponseModel { status: status, body: body },
        OutcomeModel::Failed(_) => ResponseModel { status: STATUS_BAD_GATEWAY, body: Seq::empty() },
    }
}

/// Decide one inbound request: respond immediately, or name the single
/// outbound GET to perform.
pub fn plan(backend: &BackendEndpoint, m: Method, path: &[u8], q: &[u8]) -> (p: Plan)
    ensures
        p@ == spec_plan(backend@, m, path@, q@),
{
    match match_route(m, path) {
        None => {
            if matches!(m, Method::Get) {
                Plan::Respond(Response { status: STATUS_NOT_FOUND, body: Vec::new() })
            } else {
                Plan::Respond(Response { status: STATUS_METHOD_NOT_ALLOWED, body: Vec::new() })
            }
        },
        Some(RouteId::Index) => {
            let body = slice_to_vec(index_handler().as_bytes());
            Plan::Respond(Response { status: STATUS_OK, body })
        },
        Some(r) => {
            let ps = route_params(r);
            match bind(&ps, q) {
                Err(_) => Plan::Respond(Response { status: STATUS_BAD_REQUEST, body: Vec::new() }),
                Ok(b) => {
                    proof {
                        lemma_bind_len(ps.deep_view(), q@, 0);
                    }
                    let url = build_url(&backend.base, r, &ps, &b);
                    Plan::Forward(url)
                },
            }
        },
    }
}

/// Map the outcome of the outbound call to the final response.
pub fn conclude(outcome: ForwardOutcome) -> (r: Response)
    ensures
        r@ == spec_conclude(outcome@),
{
    match outcome {
        ForwardOutcome::Delivered(status, body) => Response { status, body },
        ForwardOutcome::Failed(_) => Response {
            status: STATUS_BAD_GATEWAY,
            body: Vec::new(),
        },
    }
}

} // verus!
