//! What the verified leg sends and gives back, and how its proxy is judged.

use vstd::prelude::*;

use crate::calls::settle_verified;
use crate::error::RpcError;
use crate::json::{Json, JsonView};
use crate::router::{
    classify_status, dispatch_args, read_envelope, RouterStep, VerifiedProxyRouter,
    HEALTH_TTL_NANOS, PROBE_BUDGET_MILLIS,
};
use crate::text::{
    decimal, hex, hex_bytes, hex_quantity, law_hex_quantity_reads_back, parsed_u64, signed_decimal,
};
use crate::text_laws::law_bytes_are_written_out;
use crate::verified::{
    bytes_of, class_of, coerced, coerced_params, normalize_verified_result, normalized, quantity_of,
    verified_class, verified_params, VerifiedClass,
};

verus! {

// ---------------------------------------------------------------------------
// Results
// ---------------------------------------------------------------------------

/// Whether a value is a byte.
pub open spec fn is_byte(v: JsonView) -> bool {
    v matches JsonView::Integer(n) && 0 <= n <= 255
}

/// A list of bytes is normalised to `0x` and the two digits of every byte, in order: nothing of
/// it is left out.
pub proof fn law_byte_lists_are_normalised_whole(items: Seq<JsonView>, i: int)
    requires
        0 <= i < items.len(),
        forall|k: int| 0 <= k < items.len() ==> is_byte(#[trigger] items[k]),
    ensures
        normalized(JsonView::Array(items)) matches JsonView::Str(s) && s.len() == 2 + 2
            * items.len() && s[0] == '0' && s[1] == 'x' && s[2 + 2 * i]
            == "0123456789abcdef"@[items[i]->Integer_0 / 16] && s[3 + 2 * i]
            == "0123456789abcdef"@[items[i]->Integer_0 % 16],
{
    assert forall|k: int| 0 <= k < items.len() implies (#[trigger] items[k]).as_u64() is Some
        && items[k].as_u64()->Some_0 <= 255 by {
        assert(is_byte(items[k]));
    }
    let bytes = bytes_of(items)->Some_0;
    assert(is_byte(items[i]));
    assert(bytes[i] as int == items[i]->Integer_0);
    law_bytes_are_written_out(bytes, i);
    reveal_strlit("0x");
    let s = "0x"@ + hex_bytes(bytes);
    assert(s[2 + 2 * i] == hex_bytes(bytes)[2 * i]);
    assert(s[3 + 2 * i] == hex_bytes(bytes)[2 * i + 1]);
}

/// An unsigned number is normalised to `0x` and the number in hexadecimal, which denotes it.
pub proof fn law_numbers_are_normalised(n: u64)
    ensures
        normalized(JsonView::Integer(n as int)) == JsonView::Str("0x"@ + hex(n as nat)),
        hex_quantity("0x"@ + hex(n as nat)) == Some(n),
{
    law_hex_quantity_reads_back(n);
}

/// Everything else is left as it is.
pub proof fn law_other_results_are_left_alone(v: JsonView)
    requires
        v matches JsonView::Array(items) ==> items.len() == 0 || exists|k: int|
            0 <= k < items.len() && !is_byte(#[trigger] items[k]),
        v matches JsonView::Integer(n) ==> n < 0 || n > u64::MAX,
    ensures
        normalized(v) == v,
{
    match v {
        JsonView::Array(items) => {
            if items.len() > 0 {
                let k = choose|k: int| 0 <= k < items.len() && !is_byte(#[trigger] items[k]);
                assert(!(items[k].as_u64() is Some && items[k].as_u64()->Some_0 <= 255));
            }
        },
        _ => {},
    }
}

/// The three laws above are of what normalising a result gives, and a reply of the router is
/// settled by it: a reply gives the normalised value, a refusal its reason.
pub proof fn law_replies_are_normalised(
    method: &str,
    v: Json,
    r: Json,
    reply: Result<Json, String>,
    o: Result<(Json, VerifiedClass), RpcError>,
)
    requires
        call_ensures(normalize_verified_result, (v,), r),
        call_ensures(settle_verified, (method, reply), o),
    ensures
        r@ == normalized(v@),
        (match reply {
            Ok(w) => o matches Ok((x, class)) && x@ == normalized(w@) && class == class_of(method@),
            Err(e) => o matches Err(RpcError::VerifiedProxy(f)) && f@ == e@,
        }),
{
}

/// An answer counts as verified exactly for the five methods that read state which a header proves.
pub proof fn law_verified_methods(method: &str, class: VerifiedClass)
    requires
        call_ensures(verified_class, (method,), class),
    ensures
        class == class_of(method@),
        class == VerifiedClass::Verified <==> seq![
            "eth_getBalance"@,
            "eth_getTransactionCount"@,
            "eth_getCode"@,
            "eth_getStorageAt"@,
            "eth_call"@,
        ].contains(method@),
{
    let all = seq![
        "eth_getBalance"@,
        "eth_getTransactionCount"@,
        "eth_getCode"@,
        "eth_getStorageAt"@,
        "eth_call"@,
    ];
    assert(all[0] == "eth_getBalance"@ && all[1] == "eth_getTransactionCount"@);
    assert(all[2] == "eth_getCode"@ && all[3] == "eth_getStorageAt"@ && all[4] == "eth_call"@);
}

// ---------------------------------------------------------------------------
// Parameters
// ---------------------------------------------------------------------------

/// The parameters in a value: none where it is not a list.
pub open spec fn given_list(params: JsonView) -> Seq<JsonView> {
    match params {
        JsonView::Array(p) => p,
        _ => Seq::empty(),
    }
}

/// Whether `q` are the parameters that the proxy is sent where `p` were given: each method has its
/// rule, and what no rule speaks of stays.
pub open spec fn speaks_the_dialect(method: Seq<char>, p: Seq<JsonView>, q: Seq<JsonView>) -> bool {
    let latest = JsonView::Str("latest"@);
    if method == "eth_feeHistory"@ {
        &&& q.len() == p.len()
        &&& forall|i: int| 0 < i < p.len() ==> q[i] == #[trigger] p[i]
        &&& p.len() > 0 ==> q[0] == (match p[0] {
            JsonView::Str(h) => if h.len() >= 2 && h[0] == '0' && h[1] == 'x' && parsed_u64(
                h.skip(2),
                16,
            ) is Some {
                JsonView::Integer(parsed_u64(h.skip(2), 16)->Some_0 as int)
            } else {
                p[0]
            },
            _ => p[0],
        })
    } else if method == "eth_getTransactionCount"@ {
        &&& q.len() == p.len()
        &&& forall|i: int| 0 <= i < p.len() && i != 1 ==> q[i] == #[trigger] p[i]
        &&& p.len() >= 2 ==> q[1] == (if p[1] == JsonView::Str("pending"@) {
            latest
        } else {
            p[1]
        })
    } else if method == "eth_call"@ || method == "eth_estimateGas"@ || method
        == "eth_createAccessList"@ {
        &&& q.len() == (if p.len() < 3 {
            3
        } else {
            p.len()
        })
        &&& forall|i: int| 0 <= i < p.len() ==> q[i] == #[trigger] p[i]
        &&& p.len() < 1 ==> q[0] == latest
        &&& p.len() < 2 ==> q[1] == latest
        &&& p.len() < 3 ==> q[2] == JsonView::Bool(false)
    } else {
        q == p
    }
}

/// The proxy is sent the parameters in its dialect; what is not a list counts as no parameters.
pub proof fn law_parameters_speak_the_dialect(method: &str, params: &Json, r: Json)
    requires
        call_ensures(verified_params, (method, params), r),
    ensures
        r@ == coerced_params(method@, params@),
        r@ matches JsonView::Array(q) && speaks_the_dialect(method@, given_list(params@), q),
{
    law_coerced_parameters_speak_the_dialect(method@, given_list(params@));
}

/// Coerced parameters are in the dialect of the proxy.
pub proof fn law_coerced_parameters_speak_the_dialect(method: Seq<char>, p: Seq<JsonView>)
    ensures
        coerced_params(method, JsonView::Array(p)) == JsonView::Array(coerced(method, p)),
        speaks_the_dialect(method, p, coerced(method, p)),
{
    reveal_strlit("0x");
    if p.len() > 0 {
        match p[0] {
            JsonView::Str(h) => {
                if h.len() >= 2 && h[0] == '0' && h[1] == 'x' {
                    assert("0x"@ =~= h.subrange(0, 2));
                }
                if "0x"@.is_prefix_of(h) {
                    assert(h.subrange(0, 2)[0] == '0' && h.subrange(0, 2)[1] == 'x');
                }
                assert(quantity_of(p[0]) == (if h.len() >= 2 && h[0] == '0' && h[1] == 'x' {
                    parsed_u64(h.skip(2), 16)
                } else {
                    None
                }));
            },
            _ => {},
        }
    }
}

// ---------------------------------------------------------------------------
// The proxy's health
// ---------------------------------------------------------------------------

/// Whether a verdict is the one that a proxy's status deserves: it must be running, on the chain
/// that is asked for, and have a verified head, and the first of these that fails is the reason.
pub open spec fn judged(id: u64, status: JsonView, verdict: Result<(), Seq<char>>) -> bool {
    let chain = if id < 0x8000_0000_0000_0000 {
        id as int
    } else {
        id - 0x1_0000_0000_0000_0000
    };
    let theirs = match status.get("chainId"@) {
        Some(JsonView::Integer(n)) => if -0x8000_0000_0000_0000 <= n < 0x8000_0000_0000_0000 {
            n
        } else {
            0
        },
        _ => 0,
    };
    let head = match status.get("head"@) {
        Some(h) => match h.get("blockNumber"@) {
            Some(JsonView::Str(s)) => s.len() > 0,
            _ => false,
        },
        None => false,
    };
    match status.get("state"@) {
        Some(JsonView::Str(state)) => if state == "running"@ {
            if theirs != chain {
                verdict == Err::<(), Seq<char>>(
                    "proxy is on chain "@ + signed_decimal(theirs) + ", this request is for "@
                        + decimal(id as nat),
                )
            } else if !head {
                verdict == Err::<(), Seq<char>>("proxy has no verified head yet"@)
            } else {
                verdict is Ok
            }
        } else {
            match status.get("lastError"@) {
                Some(JsonView::Str(why)) => if why.len() > 0 {
                    verdict == Err::<(), Seq<char>>("state is '"@ + state + "': "@ + why)
                } else {
                    verdict == Err::<(), Seq<char>>("state is '"@ + state + "', not running"@)
                },
                _ => verdict == Err::<(), Seq<char>>("state is '"@ + state + "', not running"@),
            }
        },
        _ => verdict == Err::<(), Seq<char>>("status carried no state"@),
    }
}

/// A proxy is judged by its status, and one that does not answer is not reachable.
pub proof fn law_a_proxy_is_judged_by_its_status(
    id: u64,
    status: &Json,
    verdict: Result<(), String>,
    reply: Result<Json, String>,
    probed: Result<(), String>,
)
    requires
        call_ensures(classify_status, (id, status), verdict),
        call_ensures(VerifiedProxyRouter::probe, (id, reply), probed),
    ensures
        judged(id, status@, verdict_of(verdict)),
        (match reply {
            Ok(v) => judged(id, v@, verdict_of(probed)),
            Err(e) => verdict_of(probed) == Err::<(), Seq<char>>(
                "not reachable ("@ + e@ + ")"@,
            ),
        }),
{
    reveal_strlit("");
}

/// A verdict, with its reason as characters.
pub open spec fn verdict_of(verdict: Result<(), String>) -> Result<(), Seq<char>> {
    match verdict {
        Ok(_) => Ok(()),
        Err(e) => Err(e@),
    }
}

/// A verdict that was just given is reused for five seconds, and then no more; before any was given
/// the proxy is asked. A verdict on one chain says nothing of another.
pub proof fn law_verdicts_are_reused_for_five_seconds(
    router: &mut VerifiedProxyRouter,
    id: u64,
    at: u64,
    status: Result<Json, String>,
    step: RouterStep,
    other: u64,
    now: u64,
    verdict: Result<(), String>,
    mine: Option<Result<(), String>>,
    theirs: Option<Result<(), String>>,
    before: Option<Result<(), String>>,
)
    requires
        call_ensures(VerifiedProxyRouter::probe, (id, status), verdict),
        call_ensures(VerifiedProxyRouter::probed, (router, id, at, status), step),
        call_ensures(VerifiedProxyRouter::healthy, (final(router), id, now), mine),
        call_ensures(VerifiedProxyRouter::healthy, (final(router), other, now), theirs),
        call_ensures(VerifiedProxyRouter::healthy, (&*old(router), other, now), before),
        other != id,
    ensures
        now - at < 5_000_000_000 ==> (mine matches Some(m) && verdict_of(m) == verdict_of(verdict)),
        now - at >= 5_000_000_000 ==> mine is None,
        (match (theirs, before) {
            (Some(t), Some(b)) => verdict_of(t) == verdict_of(b),
            (None, None) => true,
            _ => false,
        }),
{
}

/// A call is put to the proxy on a good verdict, refused with its reason on a bad one, and the
/// proxy is asked first where there is none.
pub proof fn law_a_call_follows_the_verdict(
    router: &VerifiedProxyRouter,
    id: u64,
    now: u64,
    verdict: Option<Result<(), String>>,
    budget: u64,
    step: RouterStep,
)
    requires
        call_ensures(VerifiedProxyRouter::healthy, (router, id, now), verdict),
        call_ensures(VerifiedProxyRouter::budget_for, (router, id), budget),
        call_ensures(VerifiedProxyRouter::start, (router, id, now), step),
    ensures
        (match verdict {
            None => step is Probe,
            Some(Ok(_)) => step matches RouterStep::Dispatch(secs) && secs == budget,
            Some(Err(e)) => step matches RouterStep::Refuse(why) && why@ == e@,
        }),
{
}

/// So does a call whose proxy was just asked.
pub proof fn law_a_probed_call_follows_the_verdict(
    router: &mut VerifiedProxyRouter,
    id: u64,
    now: u64,
    status: Result<Json, String>,
    verdict: Result<(), String>,
    budget: u64,
    kept: u64,
    other: u64,
    step: RouterStep,
)
    requires
        call_ensures(VerifiedProxyRouter::probe, (id, status), verdict),
        call_ensures(VerifiedProxyRouter::budget_for, (&*old(router), other), budget),
        call_ensures(VerifiedProxyRouter::probed, (router, id, now, status), step),
        call_ensures(VerifiedProxyRouter::budget_for, (final(router), other), kept),
    ensures
        kept == budget,
        (match verdict {
            Ok(_) => other == id ==> (step matches RouterStep::Dispatch(secs) && secs == budget),
            Err(e) => step matches RouterStep::Refuse(why) && why@ == e@,
        }),
{
}

/// A chain's budget is the one that was set, kept between a second and a minute, and 15 seconds
/// where none was; setting one leaves the others, and the verdicts, as they are.
pub proof fn law_budgets(
    fresh: VerifiedProxyRouter,
    none: u64,
    unknown: Option<Result<(), String>>,
    router: &mut VerifiedProxyRouter,
    id: u64,
    secs: u64,
    mine: u64,
    other: u64,
    before: u64,
    after: u64,
    now: u64,
    known: Option<Result<(), String>>,
    still: Option<Result<(), String>>,
)
    requires
        call_ensures(VerifiedProxyRouter::new, (), fresh),
        call_ensures(VerifiedProxyRouter::budget_for, (&fresh, id), none),
        call_ensures(VerifiedProxyRouter::healthy, (&fresh, id, now), unknown),
        call_ensures(VerifiedProxyRouter::set_budget, (router, id, secs), ()),
        call_ensures(VerifiedProxyRouter::budget_for, (final(router), id), mine),
        call_ensures(VerifiedProxyRouter::budget_for, (&*old(router), other), before),
        call_ensures(VerifiedProxyRouter::budget_for, (final(router), other), after),
        call_ensures(VerifiedProxyRouter::healthy, (&*old(router), id, now), known),
        call_ensures(VerifiedProxyRouter::healthy, (final(router), id, now), still),
    ensures
        none == 15,
        unknown is None,
        secs < 1 ==> mine == 1,
        1 <= secs <= 60 ==> mine == secs,
        secs > 60 ==> mine == 60,
        other != id ==> after == before,
        (match (known, still) {
            (Some(k), Some(s)) => verdict_of(k) == verdict_of(s),
            (None, None) => true,
            _ => false,
        }),
        PROBE_BUDGET_MILLIS == 1500,
        HEALTH_TTL_NANOS == 5_000_000_000,
{
}

/// The proxy is asked for a call by its method and parameters. Its answer is the value in it where
/// it says that it succeeded, and the reason otherwise.
pub proof fn law_the_envelope_is_taken_off(
    method: &str,
    params: &Json,
    args: Json,
    reply: Result<Json, String>,
    r: Result<Json, String>,
)
    requires
        call_ensures(dispatch_args, (method, params), args),
        call_ensures(read_envelope, (method, reply), r),
    ensures
        args@ == JsonView::Array(seq![JsonView::Str(method@), params@]),
        (match reply {
            Err(e) => r matches Err(f) && f@ == method@ + " failed ("@ + e@ + ")"@,
            Ok(v) => if v@.get("success"@) == Some(JsonView::Bool(true)) {
                r matches Ok(w) && w@ == (match v@.get("value"@) {
                    Some(value) => value,
                    None => JsonView::Null,
                })
            } else {
                r matches Err(f) && f@ == (match v@.get("error"@) {
                    Some(JsonView::Str(why)) => method@ + ": "@ + why,
                    _ => method@ + ": no detail"@,
                })
            },
        }),
{
}

} // verus!
