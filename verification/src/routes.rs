//! The static route table.
//!
//! Routing is an exact lookup on (method, path): there are no wildcards, no
//! prefix matching and no path parameters. Every defined route answers GET
//! only. Each forwarding route carries a fixed backend path suffix and an
//! ordered list of parameter specifications; the suffix is fixed at
//! definition time, so no request can steer the backend path.

use vstd::prelude::*;
use vstd::string::StringSliceAdditionalSpecFns;

verus! {

/// An inbound HTTP method. Only `Get` is ever routed; everything else is
/// answered with 405 by the dispatcher.
#[derive(Clone, Copy, PartialEq, Eq, Structural, Debug)]
pub enum Method {
    Get,
    Head,
    Post,
    Put,
    Delete,
    Patch,
    Options,
    Other,
}

/// The defined routes, one per inbound path.
#[derive(Clone, Copy, PartialEq, Eq, Structural, Debug)]
pub enum RouteId {
    Index,
    Hello,
    CustomerAccounts,
    CustomerAccount,
    CustomerAccountDetail,
    CustomerAccountMovements,
    CustomerAccountMovementsTop,
    CustomerAccountMovementsBalance,
}

/// The semantic type of one query parameter.
#[derive(Clone, Copy, PartialEq, Eq, Structural, Debug)]
pub enum ParamKind {
    Text,
    Uint,
}

/// Whether a parameter must be present, or may be absent and then takes the
/// given default. A required parameter has no default and an optional one
/// always has one, by construction.
#[derive(Clone, Copy, PartialEq, Eq, Structural, Debug)]
pub enum ParamReq {
    Required,
    Defaulted(usize),
}

/// The specification of one query parameter of a route.
pub struct ParamSpec {
    pub name: Vec<u8>,
    pub kind: ParamKind,
    pub req: ParamReq,
}

/// The mathematical reading of a [`ParamSpec`].
pub struct ParamModel {
    pub name: Seq<u8>,
    pub kind: ParamKind,
    pub req: ParamReq,
}

impl View for ParamSpec {
    type V = ParamModel;

    open spec fn view(&self) -> ParamModel {
        ParamModel { name: self.name@, kind: self.kind, req: self.req }
    }
}

impl DeepView for ParamSpec {
    type V = ParamModel;

    open spec fn deep_view(&self) -> ParamModel {
        self.view()
    }
}

impl ParamModel {
    /// A defaulted parameter is always numeric; only numeric parameters
    /// carry a compiled-in default.
    pub open spec fn wf(self) -> bool {
        self.req is Defaulted ==> self.kind is Uint
    }
}

/// The inbound path of a route.
pub open spec fn spec_route_path(r: RouteId) -> Seq<u8> {
    match r {
        RouteId::Index => "/".spec_bytes(),
        RouteId::Hello => "/hello".spec_bytes(),
        RouteId::CustomerAccounts => "/customer/accounts".spec_bytes(),
        RouteId::CustomerAccount => "/customer/account".spec_bytes(),
        RouteId::CustomerAccountDetail => "/customer/account/detail".spec_bytes(),
        RouteId::CustomerAccountMovements => "/customer/account/movements".spec_bytes(),
        RouteId::CustomerAccountMovementsTop => "/customer/account/movements/top".spec_bytes(),
        RouteId::CustomerAccountMovementsBalance => "/customer/account/movements/balance".spec_bytes(),
    }
}

/// The backend path suffix of a forwarding route. Every forwarding route
/// keeps its inbound path as the backend suffix; the index route forwards
/// nothing and has no suffix.
pub open spec fn spec_route_suffix(r: RouteId) -> Seq<u8> {
    spec_route_path(r)
}

/// The parameter specifications of a route, in declaration order.
pub open spec fn spec_route_params(r: RouteId) -> Seq<ParamModel> {
    match r {
        RouteId::Index => Seq::empty(),
        RouteId::Hello => Seq::empty(),
        RouteId::CustomerAccounts => Seq::empty(),
        RouteId::CustomerAccount => seq![account_id_model()],
        RouteId::CustomerAccountDetail => seq![account_id_model()],
        RouteId::CustomerAccountMovements => seq![
            account_id_model(),
            numeric_model("sort".spec_bytes()),
            numeric_model("asc".spec_bytes()),
        ],
        RouteId::CustomerAccountMovementsTop => seq![
            account_id_model(),
            numeric_model("totalElements".spec_bytes()),
            numeric_model("asc".spec_bytes()),
        ],
        RouteId::CustomerAccountMovementsBalance => seq![account_id_model()],
    }
}

/// The required string parameter `accountId`, common to all account routes.
pub open spec fn account_id_model() -> ParamModel {
    ParamModel { name: "accountId".spec_bytes(), kind: ParamKind::Text, req: ParamReq::Required }
}

/// An optional numeric parameter defaulting to `0`.
pub open spec fn numeric_model(name: Seq<u8>) -> ParamModel {
    ParamModel { name: name, kind: ParamKind::Uint, req: ParamReq::Defaulted(0) }
}

/// Every parameter of every route is well formed.
pub proof fn lemma_route_params_wf(r: RouteId)
    ensures
        forall|i: int|
            0 <= i < spec_route_params(r).len() ==> (#[trigger] spec_route_params(r)[i]).wf(),
{
}

/// Exact route lookup: `Some` only for a GET on one of the defined paths.
pub open spec fn spec_match_route(m: Method, path: Seq<u8>) -> Option<RouteId> {
    if m != Method::Get {
        None
    } else if path == spec_route_path(RouteId::Index) {
        Some(RouteId::Index)
    } else if path == spec_route_path(RouteId::Hello) {
        Some(RouteId::Hello)
    } else if path == spec_route_path(RouteId::CustomerAccounts) {
        Some(RouteId::CustomerAccounts)
    } else if path == spec_route_path(RouteId::CustomerAccount) {
        Some(RouteId::CustomerAccount)
    } else if path == spec_route_path(RouteId::CustomerAccountDetail) {
        Some(RouteId::CustomerAccountDetail)
    } else if path == spec_route_path(RouteId::CustomerAccountMovements) {
        Some(RouteId::CustomerAccountMovements)
    } else if path == spec_route_path(RouteId::CustomerAccountMovementsTop) {
        Some(RouteId::CustomerAccountMovementsTop)
    } else if path == spec_route_path(RouteId::CustomerAccountMovementsBalance) {
        Some(RouteId::CustomerAccountMovementsBalance)
    } else {
        None
    }
}

/// Look a request up in the route table.
pub fn match_route(m: Method, path: &[u8]) -> (r: Option<RouteId>)
    ensures
        r == spec_match_route(m, path@),
{
    if !matches!(m, Method::Get) {
        None
    } else if crate::query::bytes_eq(path, "/".as_bytes()) {
        Some(RouteId::Index)
    } else if crate::query::bytes_eq(path, "/hello".as_bytes()) {
        Some(RouteId::Hello)
    } else if crate::query::bytes_eq(path, "/customer/accounts".as_bytes()) {
        Some(RouteId::CustomerAccounts)
    } else if crate::query::bytes_eq(path, "/customer/account".as_bytes()) {
        Some(RouteId::CustomerAccount)
    } else if crate::query::bytes_eq(path, "/customer/account/detail".as_bytes()) {
        Some(RouteId::CustomerAccountDetail)
    } else if crate::query::bytes_eq(path, "/customer/account/movements".as_bytes()) {
        Some(RouteId::CustomerAccountMovements)
    } else if crate::query::bytes_eq(path, "/customer/account/movements/top".as_bytes()) {
        Some(RouteId::CustomerAccountMovementsTop)
    } else if crate::query::bytes_eq(path, "/customer/account/movements/balance".as_bytes()) {
        Some(RouteId::CustomerAccountMovementsBalance)
    } else {
        None
    }
}

/// The backend path suffix of a forwarding route, as bytes.
pub fn route_suffix(r: RouteId) -> (s: Vec<u8>)
    requires
        !(r is Index),
    ensures
        s@ == spec_route_suffix(r),
{
    let lit: &str = match r {
        RouteId::Index => "/",
        RouteId::Hello => "/hello",
        RouteId::CustomerAccounts => "/customer/accounts",
        RouteId::CustomerAccount => "/customer/account",
        RouteId::CustomerAccountDetail => "/customer/account/detail",
        RouteId::CustomerAccountMovements => "/customer/account/movements",
        RouteId::CustomerAccountMovementsTop => "/customer/account/movements/top",
        RouteId::CustomerAccountMovementsBalance => "/customer/account/movements/balance",
    };
    lit.as_bytes_vec()
}

/// Build the parameter list of a route, in declaration order.
pub fn route_params(r: RouteId) -> (ps: Vec<ParamSpec>)
    ensures
        ps.deep_view() == spec_route_params(r),
{
    let mut ps: Vec<ParamSpec> = Vec::new();
    match r {
        RouteId::Index => {},
        RouteId::Hello => {},
        RouteId::CustomerAccounts => {},
        RouteId::CustomerAccount => {
            ps.push(account_id_param());
        },
        RouteId::CustomerAccountDetail => {
            ps.push(account_id_param());
        },
        RouteId::CustomerAccountMovements => {
            ps.push(account_id_param());
            ps.push(numeric_param("sort"));
            ps.push(numeric_param("asc"));
        },
        RouteId::CustomerAccountMovementsTop => {
            ps.push(account_id_param());
            ps.push(numeric_param("totalElements"));
            ps.push(numeric_param("asc"));
        },
        RouteId::CustomerAccountMovementsBalance => {
            ps.push(account_id_param());
        },
    }
    proof {
        assert(ps.deep_view() =~= spec_route_params(r));
    }
    ps
}

/// The `accountId` parameter specification.
fn account_id_param() -> (p: ParamSpec)
    ensures
        p@ == account_id_model(),
{
    ParamSpec {
        name: "accountId".as_bytes_vec(),
        kind: ParamKind::Text,
        req: ParamReq::Required,
    }
}

/// An optional numeric parameter specification defaulting to `0`.
fn numeric_param(name: &str) -> (p: ParamSpec)
    ensures
        p@ == numeric_model(name.spec_bytes()),
{
    ParamSpec { name: name.as_bytes_vec(), kind: ParamKind::Uint, req: ParamReq::Defaulted(0) }
}

} // verus!
