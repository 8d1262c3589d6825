//! Laws of the forwarding engine.
//!
//! Each proof function here states, over the same spec functions the
//! executable contracts use, a property that holds of every request the
//! engine handles.

use vstd::prelude::*;

use crate::binder::BindError;
use crate::binder::BoundModel;
use crate::binder::lemma_bind_at;
use crate::binder::spec_bind;
use crate::dispatch::ResponseModel;
use crate::dispatch::STATUS_BAD_GATEWAY;
use crate::dispatch::STATUS_BAD_REQUEST;
use crate::dispatch::STATUS_METHOD_NOT_ALLOWED;
use crate::dispatch::STATUS_NOT_FOUND;
use crate::dispatch::spec_conclude;
use crate::dispatch::spec_empty_response;
use crate::dispatch::spec_plan;
use crate::forward::ForwardError;
use crate::forward::OutcomeModel;
use crate::forward::spec_pairs_from;
use crate::forward::spec_render_value;
use crate::query::query_has;
use crate::routes::Method;
use crate::routes::ParamReq;
use crate::routes::RouteId;
use crate::routes::spec_match_route;
use crate::routes::spec_route_params;

verus! {

/// Every default in the route table is the numeral `0`.
pub proof fn lemma_route_default_is_zero(r: RouteId, i: int)
    requires
        0 <= i < spec_route_params(r).len(),
        spec_route_params(r)[i].req is Defaulted,
    ensures
        spec_route_params(r)[i].req == ParamReq::Defaulted(0usize),
{
}

/// Idempotent default law: a defaulted parameter omitted from the query
/// binds to `0`, and the outbound query string therefore carries its pair
/// as `name=0` (the rendered value is the single digit `0`), in its
/// declared position.
pub proof fn lemma_omitted_default_binds_zero(r: RouteId, q: Seq<u8>, vs: Seq<BoundModel>, i: int)
    requires
        spec_bind(spec_route_params(r), q) == Ok::<Seq<BoundModel>, BindError>(vs),
        0 <= i < spec_route_params(r).len(),
        spec_route_params(r)[i].req is Defaulted,
        !query_has(q, spec_route_params(r)[i].name),
    ensures
        vs[i] == BoundModel::Number(0usize),
        spec_render_value(vs[i]) == seq![48u8],
        spec_pairs_from(spec_route_params(r), vs, i) == seq![38u8] + spec_route_params(r)[i].name
            + seq![61u8, 48u8] + spec_pairs_from(spec_route_params(r), vs, i + 1),
{
    let ps = spec_route_params(r);
    lemma_route_default_is_zero(r, i);
    lemma_bind_at(ps, q, 0, i);
    assert(spec_render_value(vs[i]) =~= seq![48u8]);
    assert(spec_pairs_from(ps, vs, i) =~= seq![38u8] + ps[i].name + seq![61u8, 48u8]
        + spec_pairs_from(ps, vs, i + 1));
}

/// Fail fast: a matched request whose parameters do not bind is answered
/// 400 immediately; no forward is planned, so the backend is never
/// contacted.
pub proof fn lemma_bind_failure_responds_400(base: Seq<u8>, m: Method, path: Seq<u8>, q: Seq<u8>)
    requires
        spec_match_route(m, path) is Some,
        spec_bind(spec_route_params(spec_match_route(m, path)->0), q) is Err,
    ensures
        spec_plan(base, m, path, q) == spec_empty_response(STATUS_BAD_REQUEST),
{
    let r = spec_match_route(m, path)->0;
    if r is Index {
        assert(spec_bind(spec_route_params(r), q) is Ok);
    }
}

/// A request with a non-GET method is answered 405, whatever its path.
pub proof fn lemma_non_get_responds_405(base: Seq<u8>, m: Method, path: Seq<u8>, q: Seq<u8>)
    requires
        m != Method::Get,
    ensures
        spec_plan(base, m, path, q) == spec_empty_response(STATUS_METHOD_NOT_ALLOWED),
{
}

/// A GET for a path outside the route table is answered 404.
pub proof fn lemma_unknown_get_responds_404(base: Seq<u8>, path: Seq<u8>, q: Seq<u8>)
    requires
        spec_match_route(Method::Get, path) is None,
    ensures
        spec_plan(base, Method::Get, path, q) == spec_empty_response(STATUS_NOT_FOUND),
{
}

/// A failed outbound call — backend unreachable or body unreadable — is
/// answered 502 with an empty body: the transport error itself is never
/// relayed.
pub proof fn lemma_failed_forward_concludes_502(e: ForwardError)
    ensures
        spec_conclude(OutcomeModel::Failed(e)) == (ResponseModel {
            status: STATUS_BAD_GATEWAY,
            body: Seq::<u8>::empty(),
        }),
{
}

/// A delivered backend response is relayed verbatim: its status (non-2xx
/// included) and raw body reach the caller unchanged.
pub proof fn lemma_delivered_relayed(status: u16, body: Seq<u8>)
    ensures
        spec_conclude(OutcomeModel::Delivered(status, body)) == (ResponseModel {
            status: status,
            body: body,
        }),
{
}

} // verus!
