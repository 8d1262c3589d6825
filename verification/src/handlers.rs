//! Per-route request records.
//!
//! The index route is answered locally by [`index_handler`]; every other
//! route forwards. The three record types here are the typed shapes of a
//! successfully bound request for the forwarding routes that take
//! parameters: one for the routes that take `accountId` alone, one for the
//! movements route, one for the movements-top route. Each record binds
//! itself from a raw query with exactly the semantics of the generic
//! binder, in declaration order.

use vstd::prelude::*;
use vstd::string::StringSliceAdditionalSpecFns;

use crate::binder::BindError;
use crate::binder::BoundModel;
use crate::binder::spec_bind;
use crate::binder::spec_bind_from;
use crate::binder::spec_bind_one;
use crate::numeric::parse_uint;
use crate::query::lookup;
use crate::routes::RouteId;
use crate::routes::account_id_model;
use crate::routes::spec_route_params;

verus! {

/// The body of the index route.
pub open spec fn spec_index_body() -> Seq<char> {
    "Hello world!\r\n"@
}

/// Answer the index route locally; nothing is forwarded for it.
pub fn index_handler() -> (r: &'static str)
    ensures
        r@ == spec_index_body(),
{
    "Hello world!\r\n"
}

/// The default value of an omitted optional numeric parameter.
pub fn default_numeric() -> (r: usize)
    ensures
        r == 0,
{
    0
}

/// The default value of an omitted `totalElements` parameter.
pub fn default_elements() -> (r: usize)
    ensures
        r == 0,
{
    0
}

/// The bound request of a route taking `accountId` alone.
#[derive(Debug)]
pub struct Parameters {
    pub account_id: Vec<u8>,
}

/// The bound request of the movements route: `accountId`, `sort`, `asc`.
#[derive(Debug)]
pub struct SortedParameters {
    pub account_id: Vec<u8>,
    pub sort: usize,
    pub asc: usize,
}

/// The bound request of the movements-top route: `accountId`,
/// `totalElements`, `asc`.
#[derive(Debug)]
pub struct TopSortedParameters {
    pub account_id: Vec<u8>,
    pub total_elements: usize,
    pub asc: usize,
}

impl Parameters {
    /// Bind `accountId` from the raw query; fail when it is absent.
    pub fn bind(q: &[u8]) -> (r: Result<Parameters, BindError>)
        ensures
            match r {
                Ok(p) => spec_bind_one(account_id_model(), q@) == Ok::<BoundModel, BindError>(
                    BoundModel::Text(p.account_id@),
                ),
                Err(e) => spec_bind_one(account_id_model(), q@) == Err::<BoundModel, BindError>(e),
            },
    {
        match lookup(q, "accountId".as_bytes()) {
            Some(v) => Ok(Parameters { account_id: v }),
            None => Err(BindError::MissingRequired),
        }
    }
}

impl SortedParameters {
    /// Bind the movements route's parameters in declaration order:
    /// `accountId` is required, `sort` and `asc` default to `0`.
    pub fn bind(q: &[u8]) -> (r: Result<SortedParameters, BindError>)
        ensures
            match r {
                Ok(p) => spec_bind(spec_route_params(RouteId::CustomerAccountMovements), q@)
                    == Ok::<Seq<BoundModel>, BindError>(
                    seq![
                        BoundModel::Text(p.account_id@),
                        BoundModel::Number(p.sort),
                        BoundModel::Number(p.asc),
                    ],
                ),
                Err(e) => spec_bind(spec_route_params(RouteId::CustomerAccountMovements), q@)
                    == Err::<Seq<BoundModel>, BindError>(e),
            },
    {
        let ghost ps = spec_route_params(RouteId::CustomerAccountMovements);
        let account_id = match lookup(q, "accountId".as_bytes()) {
            Some(v) => v,
            None => {
                return Err(BindError::MissingRequired);
            },
        };
        let sort = match lookup(q, "sort".as_bytes()) {
            Some(v) => match parse_uint(v.as_slice()) {
                Some(n) => n,
                None => {
                    proof {
                        assert(spec_bind_from(ps, q@, 1) == Err::<Seq<BoundModel>, BindError>(
                            BindError::InvalidType,
                        ));
                    }
                    return Err(BindError::InvalidType);
                },
            },
            None => default_numeric(),
        };
        let asc = match lookup(q, "asc".as_bytes()) {
            Some(v) => match parse_uint(v.as_slice()) {
                Some(n) => n,
                None => {
                    proof {
                        assert(spec_bind_from(ps, q@, 2) == Err::<Seq<BoundModel>, BindError>(
                            BindError::InvalidType,
                        ));
                        assert(spec_bind_from(ps, q@, 1) == Err::<Seq<BoundModel>, BindError>(
                            BindError::InvalidType,
                        ));
                    }
                    return Err(BindError::InvalidType);
                },
            },
            None => default_numeric(),
        };
        proof {
            lemma_three_param_bind(
                ps,
                q@,
                BoundModel::Text(account_id@),
                BoundModel::Number(sort),
                BoundModel::Number(asc),
            );
        }
        Ok(SortedParameters { account_id, sort, asc })
    }
}

impl TopSortedParameters {
    /// Bind the movements-top route's parameters in declaration order:
    /// `accountId` is required, `totalElements` and `asc` default to `0`.
    pub fn bind(q: &[u8]) -> (r: Result<TopSortedParameters, BindError>)
        ensures
            match r {
                Ok(p) => spec_bind(spec_route_params(RouteId::CustomerAccountMovementsTop), q@)
                    == Ok::<Seq<BoundModel>, BindError>(
                    seq![
                        BoundModel::Text(p.account_id@),
                        BoundModel::Number(p.total_elements),
                        BoundModel::Number(p.asc),
                    ],
                ),
                Err(e) => spec_bind(spec_route_params(RouteId::CustomerAccountMovementsTop), q@)
                    == Err::<Seq<BoundModel>, BindError>(e),
            },
    {
        let ghost ps = spec_route_params(RouteId::CustomerAccountMovementsTop);
        let account_id = match lookup(q, "accountId".as_bytes()) {
            Some(v) => v,
            None => {
                return Err(BindError::MissingRequired);
            },
        };
        let total_elements = match lookup(q, "totalElements".as_bytes()) {
            Some(v) => match parse_uint(v.as_slice()) {
                Some(n) => n,
                None => {
                    proof {
                        assert(spec_bind_from(ps, q@, 1) == Err::<Seq<BoundModel>, BindError>(
                            BindError::InvalidType,
                        ));
                    }
                    return Err(BindError::InvalidType);
                },
            },
            None => default_elements(),
        };
        let asc = match lookup(q, "asc".as_bytes()) {
            Some(v) => match parse_uint(v.as_slice()) {
                Some(n) => n,
                None => {
                    proof {
                        assert(spec_bind_from(ps, q@, 2) == Err::<Seq<BoundModel>, BindError>(
                            BindError::InvalidType,
                        ));
                        assert(spec_bind_from(ps, q@, 1) == Err::<Seq<BoundModel>, BindError>(
                            BindError::InvalidType,
                        ));
                    }
                    return Err(BindError::InvalidType);
                },
            },
            None => default_numeric(),
        };
        proof {
            lemma_three_param_bind(
                ps,
                q@,
                BoundModel::Text(account_id@),
                BoundModel::Number(total_elements),
                BoundModel::Number(asc),
            );
        }
        Ok(TopSortedParameters { account_id, total_elements, asc })
    }
}

/// Assemble the result of binding a three-parameter list from the three
/// individual outcomes.
proof fn lemma_three_param_bind(ps: Seq<crate::routes::ParamModel>, q: Seq<u8>, v0: BoundModel, v1: BoundModel, v2: BoundModel)
    requires
        ps.len() == 3,
        spec_bind_one(ps[0], q) == Ok::<BoundModel, BindError>(v0),
        spec_bind_one(ps[1], q) == Ok::<BoundModel, BindError>(v1),
        spec_bind_one(ps[2], q) == Ok::<BoundModel, BindError>(v2),
    ensures
        spec_bind(ps, q) == Ok::<Seq<BoundModel>, BindError>(seq![v0, v1, v2]),
{
    assert(spec_bind_from(ps, q, 3) == Ok::<Seq<BoundModel>, BindError>(Seq::<BoundModel>::empty()));
    assert(seq![v2] + Seq::<BoundModel>::empty() =~= seq![v2]);
    assert(spec_bind_from(ps, q, 2) == Ok::<Seq<BoundModel>, BindError>(seq![v2]));
    assert(seq![v1] + seq![v2] =~= seq![v1, v2]);
    assert(spec_bind_from(ps, q, 1) == Ok::<Seq<BoundModel>, BindError>(seq![v1, v2]));
    assert(seq![v0] + seq![v1, v2] =~= seq![v0, v1, v2]);
    assert(spec_bind_from(ps, q, 0) == Ok::<Seq<BoundModel>, BindError>(seq![v0, v1, v2]));
}

} // verus!
