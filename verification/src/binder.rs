//! The parameter binder.
//!
//! Binding resolves each parameter of a route against the raw query, in
//! declaration order: a present string parameter is taken verbatim, a
//! present numeric parameter must be a plain decimal numeral (digits only,
//! no other form is coerced), an absent optional parameter takes its
//! declared default, and an absent required parameter fails the bind.
//! Unknown query keys are ignored. Binding never contacts the backend; a
//! failed bind stops the request before any outbound call.

use vstd::prelude::*;

use crate::numeric::dec_val;
use crate::numeric::is_dec_bytes;
use crate::numeric::parse_uint;
use crate::query::lookup;
use crate::query::query_lookup;
use crate::routes::ParamKind;
use crate::routes::ParamModel;
use crate::routes::ParamReq;
use crate::routes::ParamSpec;

verus! {

/// Why a bind failed.
#[derive(Clone, Copy, PartialEq, Eq, Structural, Debug)]
pub enum BindError {
    /// A required parameter is absent from the query.
    MissingRequired,
    /// A numeric parameter is present but is not a decimal numeral that
    /// fits the numeric kind.
    InvalidType,
}

/// One bound parameter value.
#[derive(Debug)]
pub enum BoundValue {
    Text(Vec<u8>),
    Number(usize),
}

/// The mathematical reading of a [`BoundValue`].
pub enum BoundModel {
    Text(Seq<u8>),
    Number(usize),
}

impl View for BoundValue {
    type V = BoundModel;

    open spec fn view(&self) -> BoundModel {
        match self {
            BoundValue::Text(v) => BoundModel::Text(v@),
            BoundValue::Number(n) => BoundModel::Number(*n),
        }
    }
}

impl DeepView for BoundValue {
    type V = BoundModel;

    open spec fn deep_view(&self) -> BoundModel {
        self.view()
    }
}

/// The values bound for one request, one per parameter of the matched
/// route, in declaration order.
#[derive(Debug)]
pub struct BoundRequest {
    pub values: Vec<BoundValue>,
}

impl View for BoundRequest {
    type V = Seq<BoundModel>;

    open spec fn view(&self) -> Seq<BoundModel> {
        self.values.deep_view()
    }
}

/// The outcome of binding one parameter against the raw query.
pub open spec fn spec_bind_one(p: ParamModel, q: Seq<u8>) -> Result<BoundModel, BindError> {
    match query_lookup(q, p.name) {
        Some(raw) => match p.kind {
            ParamKind::Text => Ok(BoundModel::Text(raw)),
            ParamKind::Uint => if is_dec_bytes(raw) && dec_val(raw) <= usize::MAX {
                Ok(BoundModel::Number(dec_val(raw) as usize))
            } else {
                Err(BindError::InvalidType)
            },
        },
        None => match p.req {
            ParamReq::Required => Err(BindError::MissingRequired),
            ParamReq::Defaulted(d) => Ok(BoundModel::Number(d)),
        },
    }
}

/// The outcome of binding the parameters from index `i` on: the bound
/// values in order, or the error of the first parameter that fails.
pub open spec fn spec_bind_from(ps: Seq<ParamModel>, q: Seq<u8>, i: int) -> Result<
    Seq<BoundModel>,
    BindError,
>
    decreases ps.len() - i,
{
    if i < 0 || i >= ps.len() {
        Ok(Seq::empty())
    } else {
        match spec_bind_one(ps[i], q) {
            Err(e) => Err(e),
            Ok(v) => match spec_bind_from(ps, q, i + 1) {
                Err(e) => Err(e),
                Ok(rest) => Ok(seq![v] + rest),
            },
        }
    }
}

/// The outcome of binding a whole parameter list against the raw query.
pub open spec fn spec_bind(ps: Seq<ParamModel>, q: Seq<u8>) -> Result<Seq<BoundModel>, BindError> {
    spec_bind_from(ps, q, 0)
}

/// A successful bind yields exactly one value per parameter.
pub proof fn lemma_bind_len(ps: Seq<ParamModel>, q: Seq<u8>, i: int)
    requires
        0 <= i <= ps.len(),
        spec_bind_from(ps, q, i) is Ok,
    ensures
        spec_bind_from(ps, q, i)->Ok_0.len() == ps.len() - i,
    decreases ps.len() - i,
{
    if i < ps.len() {
        lemma_bind_len(ps, q, i + 1);
    }
}

/// In a successful bind, the value at each index is the one its own
/// parameter binds to.
pub proof fn lemma_bind_at(ps: Seq<ParamModel>, q: Seq<u8>, i: int, k: int)
    requires
        0 <= i <= k < ps.len(),
        spec_bind_from(ps, q, i) is Ok,
    ensures
        spec_bind_one(ps[k], q) is Ok,
        spec_bind_from(ps, q, i)->Ok_0[k - i] == spec_bind_one(ps[k], q)->Ok_0,
    decreases ps.len() - i,
{
    if i < k {
        lemma_bind_at(ps, q, i + 1, k);
        lemma_bind_len(ps, q, i + 1);
    }
}

/// Bind one parameter against the raw query.
fn bind_one(p: &ParamSpec, q: &[u8]) -> (r: Result<BoundValue, BindError>)
    ensures
        match r {
            Ok(v) => spec_bind_one(p@, q@) == Ok::<BoundModel, BindError>(v@),
            Err(e) => spec_bind_one(p@, q@) == Err::<BoundModel, BindError>(e),
        },
{
    match lookup(q, p.name.as_slice()) {
        Some(raw) => match p.kind {
            ParamKind::Text => Ok(BoundValue::Text(raw)),
            ParamKind::Uint => match parse_uint(raw.as_slice()) {
                Some(n) => Ok(BoundValue::Number(n)),
                None => Err(BindError::InvalidType),
            },
        },
        None => match p.req {
            ParamReq::Required => Err(BindError::MissingRequired),
            ParamReq::Defaulted(d) => Ok(BoundValue::Number(d)),
        },
    }
}

/// Bind a route's parameters against the raw query, in declaration order.
/// Fails with the error of the first parameter that cannot be bound; the
/// backend is never involved.
pub fn bind(ps: &Vec<ParamSpec>, q: &[u8]) -> (r: Result<BoundRequest, BindError>)
    ensures
        match r {
            Ok(b) => spec_bind(ps.deep_view(), q@) == Ok::<Seq<BoundModel>, BindError>(b@),
            Err(e) => spec_bind(ps.deep_view(), q@) == Err::<Seq<BoundModel>, BindError>(e),
        },
{
    let ghost psm = ps.deep_view();
    let mut values: Vec<BoundValue> = Vec::new();
    let mut i: usize = 0;
    proof {
        assert(Seq::<BoundModel>::empty() + spec_bind_from(psm, q@, 0)->Ok_0 =~= spec_bind_from(
            psm,
            q@,
            0,
        )->Ok_0);
    }
    while i < ps.len()
        invariant
            0 <= i <= ps@.len(),
            psm == ps.deep_view(),
            psm.len() == ps@.len(),
            values.deep_view().len() == i,
            match spec_bind_from(psm, q@, i as int) {
                Ok(rest) => spec_bind(psm, q@) == Ok::<Seq<BoundModel>, BindError>(
                    values.deep_view() + rest,
                ),
                Err(e) => spec_bind(psm, q@) == Err::<Seq<BoundModel>, BindError>(e),
            },
        decreases ps@.len() - i,
    {
        match bind_one(&ps[i], q) {
            Ok(v) => {
                let ghost prev = values.deep_view();
                values.push(v);
                proof {
                    assert(psm[i as int] == ps@[i as int]@);
                    assert(values.deep_view() =~= prev.push(v@));
                    if spec_bind_from(psm, q@, i + 1) is Ok {
                        let rest = spec_bind_from(psm, q@, i + 1)->Ok_0;
                        assert(prev + (seq![v@] + rest) =~= prev.push(v@) + rest);
                    }
                }
            },
            Err(e) => {
                proof {
                    assert(psm[i as int] == ps@[i as int]@);
                }
                return Err(e);
            },
        }
        i = i + 1;
    }
    proof {
        assert(values.deep_view() + Seq::<BoundModel>::empty() =~= values.deep_view());
    }
    Ok(BoundRequest { values })
}

} // verus!
