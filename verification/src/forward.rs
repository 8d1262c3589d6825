//! The forwarder.
//!
//! One inbound request becomes at most one outbound GET. The outbound URL
//! is built deterministically: the configured backend base, the route's
//! fixed path suffix, then a `?`-prefixed, `&`-joined query string with one
//! `name=value` pair per bound parameter, in declaration order. String
//! values are percent-encoded; numeric values are rendered as their
//! canonical decimal numeral. The outbound call itself is performed by the
//! surrounding process; its outcome comes back here as a [`ForwardOutcome`]
//! and is mapped by the dispatcher, never retried.

use vstd::prelude::*;

use crate::binder::BoundModel;
use crate::binder::BoundRequest;
use crate::binder::BoundValue;
use crate::numeric::dec_repr;
use crate::numeric::render_uint;
use crate::query::push_all;
use crate::routes::ParamModel;
use crate::routes::ParamSpec;
use crate::routes::RouteId;
use crate::routes::route_suffix;
use crate::routes::spec_route_params;
use crate::routes::spec_route_suffix;

verus! {

/// How an outbound call failed.
#[derive(Clone, Copy, PartialEq, Eq, Structural, Debug)]
pub enum ForwardError {
    /// The backend could not be reached: connection refused, timeout, or
    /// name resolution failure.
    Transport,
    /// The backend answered but its response body could not be read.
    BodyRead,
}

/// The outcome of one outbound call: the backend's status and raw body to
/// relay verbatim, or the failure class.
pub enum ForwardOutcome {
    Delivered(u16, Vec<u8>),
    Failed(ForwardError),
}

/// The mathematical reading of a [`ForwardOutcome`].
pub enum OutcomeModel {
    Delivered(u16, Seq<u8>),
    Failed(ForwardError),
}

impl View for ForwardOutcome {
    type V = OutcomeModel;

    open spec fn view(&self) -> OutcomeModel {
        match self {
            ForwardOutcome::Delivered(status, body) => OutcomeModel::Delivered(*status, body@),
            ForwardOutcome::Failed(e) => OutcomeModel::Failed(*e),
        }
    }
}

/// A byte that percent-encoding leaves as itself: ASCII letters, digits,
/// `-`, `.`, `_` and `~`.
pub open spec fn is_unreserved(b: u8) -> bool {
    ||| 48 <= b <= 57
    ||| 65 <= b <= 90
    ||| 97 <= b <= 122
    ||| b == 45
    ||| b == 46
    ||| b == 95
    ||| b == 126
}

/// The lower-case hex digit of a value below 16.
pub open spec fn spec_hex_digit(n: u8) -> u8 {
    if n < 10 {
        (48 + n) as u8
    } else {
        (87 + n) as u8
    }
}

/// The percent-encoding of one byte.
pub open spec fn pct_byte(b: u8) -> Seq<u8> {
    if is_unreserved(b) {
        seq![b]
    } else {
        seq![37u8, spec_hex_digit(b / 16), spec_hex_digit(b % 16)]
    }
}

/// The percent-encoding of a byte string.
pub open spec fn pct_encoded(s: Seq<u8>) -> Seq<u8>
    decreases s.len(),
{
    if s.len() == 0 {
        Seq::empty()
    } else {
        pct_byte(s[0]) + pct_encoded(s.drop_first())
    }
}

/// How one bound value appears in the outbound query string.
pub open spec fn spec_render_value(v: BoundModel) -> Seq<u8> {
    match v {
        BoundModel::Text(s) => pct_encoded(s),
        BoundModel::Number(n) => dec_repr(n as nat),
    }
}

/// The `&`-prefixed pairs of the outbound query string from parameter `i`
/// on: `&name=value` for each parameter, in declaration order.
pub open spec fn spec_pairs_from(ps: Seq<ParamModel>, vs: Seq<BoundModel>, i: int) -> Seq<u8>
    decreases ps.len() - i,
{
    if i < 0 || i >= ps.len() {
        Seq::empty()
    } else {
        seq![38u8] + ps[i].name + seq![61u8] + spec_render_value(vs[i]) + spec_pairs_from(
            ps,
            vs,
            i + 1,
        )
    }
}

/// The full outbound query part: empty for a route without parameters,
/// otherwise `?` followed by the `&`-joined pairs.
pub open spec fn spec_query_string(ps: Seq<ParamModel>, vs: Seq<BoundModel>) -> Seq<u8> {
    if ps.len() == 0 {
        Seq::empty()
    } else {
        seq![63u8] + ps[0].name + seq![61u8] + spec_render_value(vs[0]) + spec_pairs_from(ps, vs, 1)
    }
}

/// The full outbound URL of a forwarding route.
pub open spec fn spec_url(base: Seq<u8>, r: RouteId, vs: Seq<BoundModel>) -> Seq<u8> {
    base + spec_route_suffix(r) + spec_query_string(spec_route_params(r), vs)
}

/// Percent-encode a byte string.
pub fn pct_encode(out: &mut Vec<u8>, s: &[u8])
    ensures
        final(out)@ == old(out)@ + pct_encoded(s@),
{
    let mut i: usize = 0;
    proof {
        assert(s@.skip(0) =~= s@);
    }
    while i < s.len()
        invariant
            0 <= i <= s@.len(),
            out@ + pct_encoded(s@.skip(i as int)) == old(out)@ + pct_encoded(s@),
        decreases s@.len() - i,
    {
        let b = s[i];
        proof {
            assert(s@.skip(i as int)[0] == s@[i as int]);
            assert(s@.skip(i as int).drop_first() =~= s@.skip(i + 1));
        }
        let ghost mid = out@;
        if (48 <= b && b <= 57) || (65 <= b && b <= 90) || (97 <= b && b <= 122) || b == 45 || b
            == 46 || b == 95 || b == 126 {
            out.push(b);
            proof {
                assert(mid + pct_byte(s@[i as int]) =~= mid.push(b));
            }
        } else {
            out.push(37);
            out.push(hex_digit(b / 16));
            out.push(hex_digit(b % 16));
            proof {
                assert(mid + pct_byte(s@[i as int]) =~= mid.push(37u8).push(
                    spec_hex_digit(b / 16),
                ).push(spec_hex_digit(b % 16)));
            }
        }
        proof {
            assert(out@ + pct_encoded(s@.skip(i + 1)) =~= mid + pct_byte(s@[i as int])
                + pct_encoded(s@.skip(i + 1)));
            assert(mid + pct_byte(s@[i as int]) + pct_encoded(s@.skip(i + 1)) =~= mid + (pct_byte(
                s@[i as int],
            ) + pct_encoded(s@.skip(i + 1))));
        }
        i = i + 1;
    }
    proof {
        assert(s@.skip(s@.len() as int) =~= Seq::<u8>::empty());
        assert(out@ + Seq::<u8>::empty() =~= out@);
    }
}

/// The lower-case hex digit of a value below 16.
fn hex_digit(n: u8) -> (d: u8)
    requires
        n < 16,
    ensures
        d == spec_hex_digit(n),
{
    if n < 10 {
        48 + n
    } else {
        87 + n
    }
}

/// Append one rendered bound value.
fn render_value(out: &mut Vec<u8>, v: &BoundValue)
    ensures
        final(out)@ == old(out)@ + spec_render_value(v@),
{
    match v {
        BoundValue::Text(s) => pct_encode(out, s.as_slice()),
        BoundValue::Number(n) => {
            let digits = render_uint(*n);
            push_all(out, digits.as_slice());
        },
    }
}

/// Build the outbound URL for one bound request: backend base, route
/// suffix, then the query string with every pair in declaration order.
pub fn build_url(base: &Vec<u8>, r: RouteId, ps: &Vec<ParamSpec>, bound: &BoundRequest) -> (url:
    Vec<u8>)
    requires
        !(r is Index),
        ps.deep_view() == spec_route_params(r),
        bound@.len() == ps@.len(),
    ensures
        url@ == spec_url(base@, r, bound@),
{
    let ghost psm = ps.deep_view();
    let ghost vsm = bound@;
    let mut url: Vec<u8> = Vec::new();
    push_all(&mut url, base.as_slice());
    let suffix = route_suffix(r);
    push_all(&mut url, suffix.as_slice());
    proof {
        assert(url@ == base@ + spec_route_suffix(r));
    }
    if ps.len() == 0 {
        proof {
            assert(url@ =~= spec_url(base@, r, vsm));
        }
        return url;
    }
    url.push(63);
    push_all(&mut url, ps[0].name.as_slice());
    url.push(61);
    render_value(&mut url, &bound.values[0]);
    proof {
        assert(psm[0] == ps@[0]@);
        assert(vsm[0] == bound.values@[0]@);
        assert(url@ =~= base@ + spec_route_suffix(r) + (seq![63u8] + psm[0].name + seq![61u8]
            + spec_render_value(vsm[0])));
        assert(url@ + spec_pairs_from(psm, vsm, 1) =~= spec_url(base@, r, vsm));
    }
    let mut i: usize = 1;
    while i < ps.len()
        invariant
            1 <= i <= ps@.len(),
            psm == ps.deep_view(),
            vsm == bound@,
            psm.len() == ps@.len(),
            vsm.len() == ps@.len(),
            bound.values@.len() == ps@.len(),
            url@ + spec_pairs_from(psm, vsm, i as int) == spec_url(base@, r, vsm),
        decreases ps@.len() - i,
    {
        let ghost mid = url@;
        url.push(38);
        push_all(&mut url, ps[i].name.as_slice());
        url.push(61);
        render_value(&mut url, &bound.values[i]);
        proof {
            assert(psm[i as int] == ps@[i as int]@);
            assert(vsm[i as int] == bound.values@[i as int]@);
            assert(url@ =~= mid + (seq![38u8] + psm[i as int].name + seq![61u8]
                + spec_render_value(vsm[i as int])));
            assert(mid + (seq![38u8] + psm[i as int].name + seq![61u8] + spec_render_value(
                vsm[i as int],
            )) + spec_pairs_from(psm, vsm, i + 1) =~= mid + spec_pairs_from(psm, vsm, i as int));
        }
        i = i + 1;
    }
    proof {
        assert(url@ + Seq::<u8>::empty() =~= url@);
    }
    url
}

} // verus!
