//! The verified leg: calls that go through a light-client proxy.
//!
//! The proxy speaks its own dialect of JSON-RPC. [`verified_params`] puts a call into it and
//! [`normalize_verified_result`] takes a result out of it, so that what is sent to ordinary
//! nodes need not change.

use vstd::prelude::*;

use crate::json::{items_view, push_item, set_item, Json, JsonView};
use crate::text::{
    after_prefix, hex, hex_bytes, hex_bytes_text, hex_text, joined, parse_u64, parsed_u64,
    same_text, strip_prefix,
};

verus! {

/// What the verified proxy can say about an answer.
///
/// A light client proves state against a header's state root. It cannot prove a fee oracle's
/// opinion or that a broadcast was accepted: those are forwarded to its own execution provider
/// and come back on trust.
#[derive(Clone, Copy, Debug, PartialEq, Eq, Structural)]
pub enum VerifiedClass {
    Verified,
    Proxied,
}

/// Whether a light client can prove the answer to a method.
pub open spec fn proof_backed(method: Seq<char>) -> bool {
    ||| method == "eth_getBalance"@
    ||| method == "eth_getTransactionCount"@
    ||| method == "eth_getCode"@
    ||| method == "eth_getStorageAt"@
    ||| method == "eth_call"@
}

/// The class of the answers to a method.
pub open spec fn class_of(method: Seq<char>) -> VerifiedClass {
    if proof_backed(method) {
        VerifiedClass::Verified
    } else {
        VerifiedClass::Proxied
    }
}

/// The class of the answers to a method.
pub fn verified_class(method: &str) -> (r: VerifiedClass)
    ensures
        r == class_of(method@),
{
    if same_text(method, "eth_getBalance") || same_text(method, "eth_getTransactionCount")
        || same_text(method, "eth_getCode") || same_text(method, "eth_getStorageAt") || same_text(
        method,
        "eth_call",
    ) {
        VerifiedClass::Verified
    } else {
        VerifiedClass::Proxied
    }
}

/// The methods that the proxy extends by a third parameter.
pub open spec fn takes_state_fetch_flag(method: Seq<char>) -> bool {
    ||| method == "eth_call"@
    ||| method == "eth_estimateGas"@
    ||| method == "eth_createAccessList"@
}

/// The number that a `0x` quantity denotes.
pub open spec fn quantity_of(v: JsonView) -> Option<u64> {
    match v {
        JsonView::Str(h) => match after_prefix(h, "0x"@) {
            Some(digits) => parsed_u64(digits, 16),
            None => None,
        },
        _ => None,
    }
}

/// The parameters that the proxy is sent for a list of parameters.
pub open spec fn coerced(method: Seq<char>, p: Seq<JsonView>) -> Seq<JsonView> {
    if method == "eth_feeHistory"@ {
        if p.len() > 0 && quantity_of(p[0]) is Some {
            p.update(0, JsonView::Integer(quantity_of(p[0])->Some_0 as int))
        } else {
            p
        }
    } else if method == "eth_getTransactionCount"@ {
        if p.len() >= 2 && p[1] == JsonView::Str("pending"@) {
            p.update(1, JsonView::Str("latest"@))
        } else {
            p
        }
    } else if takes_state_fetch_flag(method) {
        let latest = JsonView::Str("latest"@);
        if p.len() == 0 {
            seq![latest, latest, JsonView::Bool(false)]
        } else if p.len() == 1 {
            p.push(latest).push(JsonView::Bool(false))
        } else if p.len() == 2 {
            p.push(JsonView::Bool(false))
        } else {
            p
        }
    } else {
        p
    }
}

/// The list of parameters in a JSON value: none where it is not an array.
pub open spec fn params_list(params: JsonView) -> Seq<JsonView> {
    match params {
        JsonView::Array(p) => p,
        _ => Seq::empty(),
    }
}

/// The parameters that the proxy is sent.
pub open spec fn coerced_params(method: Seq<char>, params: JsonView) -> JsonView {
    JsonView::Array(coerced(method, params_list(params)))
}

/// A copy of a list of parameters.
fn copied_params(params: &Json) -> (p: Vec<Json>)
    ensures
        items_view(p@) == params_list(params@),
{
    match params.clone() {
        Json::Array(p) => p,
        _ => {
            let p: Vec<Json> = Vec::new();
            assert(items_view(p@) =~= Seq::empty());
            p
        },
    }
}

/// Rewrites parameters for the verified leg only.
///
/// - A hexadecimal block count of `eth_feeHistory` becomes a number: with a string the proxy
///   answers empty arrays and no error.
/// - The tag `pending` of `eth_getTransactionCount` becomes `latest`: a light client proves
///   against a header, and `pending` has none.
/// - `eth_call`, `eth_estimateGas` and `eth_createAccessList` get the block tag that they may
///   leave out, and the proxy's own third parameter.
pub fn verified_params(method: &str, params: &Json) -> (r: Json)
    ensures
        r@ == coerced_params(method@, params@),
{
    let mut p: Vec<Json> = copied_params(params);
    let ghost given = items_view(p@);
    if same_text(method, "eth_feeHistory") {
        if p.len() > 0 {
            let count: Option<u64> = match &p[0] {
                Json::Str(h) => match strip_prefix(h, "0x") {
                    Some(digits) => parse_u64(digits, 16),
                    None => None,
                },
                _ => None,
            };
            if let Some(n) = count {
                set_item(&mut p, 0, Json::Uint(n));
            }
        }
    } else if same_text(method, "eth_getTransactionCount") {
        if p.len() >= 2 {
            let pending: bool = match &p[1] {
                Json::Str(tag) => same_text(tag, "pending"),
                _ => false,
            };
            if pending {
                set_item(&mut p, 1, Json::string("latest"));
            }
        }
    } else if same_text(method, "eth_call") || same_text(method, "eth_estimateGas") || same_text(
        method,
        "eth_createAccessList",
    ) {
        if p.len() == 0 {
            push_item(&mut p, Json::string("latest"));
        }
        if p.len() == 1 {
            push_item(&mut p, Json::string("latest"));
        }
        if p.len() == 2 {
            push_item(&mut p, Json::Bool(false));
        }
    }
    assert(items_view(p@) =~= coerced(method@, given));
    Json::Array(p)
}

/// The bytes in a list of small integers.
pub open spec fn bytes_of(items: Seq<JsonView>) -> Option<Seq<u8>> {
    if forall|i: int|
        0 <= i < items.len() ==> (#[trigger] items[i]).as_u64() is Some && items[i].as_u64()->Some_0
            <= 255 {
        Some(Seq::new(items.len(), |i: int| items[i].as_u64()->Some_0 as u8))
    } else {
        None
    }
}

/// What a node would have answered where the proxy answered `v`.
pub open spec fn normalized(v: JsonView) -> JsonView {
    match v {
        JsonView::Array(items) => match bytes_of(items) {
            Some(bytes) => if items.len() > 0 {
                JsonView::Str("0x"@ + hex_bytes(bytes))
            } else {
                v
            },
            None => v,
        },
        JsonView::Integer(_) => match v.as_u64() {
            Some(n) => JsonView::Str("0x"@ + hex(n as nat)),
            None => v,
        },
        _ => v,
    }
}

/// The bytes in a list of small integers.
fn read_bytes(items: &Vec<Json>) -> (r: Option<Vec<u8>>)
    ensures
        (match r {
            Some(bytes) => bytes_of(items_view(items@)) == Some(bytes@),
            None => bytes_of(items_view(items@)) is None,
        }),
{
    let ghost models = items_view(items@);
    let mut bytes: Vec<u8> = Vec::new();
    let mut i: usize = 0;
    while i < items.len()
        invariant
            models == items_view(items@),
            i <= items@.len(),
            bytes@.len() == i,
            forall|k: int|
                0 <= k < i ==> (#[trigger] models[k]).as_u64() == Some(bytes@[k] as u64),
        decreases items@.len() - i,
    {
        assert(models[i as int] == items@[i as int]@);
        match items[i].as_u64() {
            Some(n) => {
                if n > 255 {
                    return None;
                }
                bytes.push(n as u8);
            },
            None => {
                return None;
            },
        }
        i += 1;
    }
    assert(bytes_of(models)->Some_0 =~= bytes@);
    Some(bytes)
}

/// Normalises a result of the verified leg back to what a JSON-RPC node would have returned.
///
/// The proxy answers bytes as an array of numbers where a node answers a hexadecimal string,
/// and a quantity as a number where a node answers one in hexadecimal. Only these two shapes
/// are rewritten; anything already in the form of the wire passes through untouched.
pub fn normalize_verified_result(v: Json) -> (r: Json)
    ensures
        r@ == normalized(v@),
{
    match &v {
        Json::Array(items) => {
            if items.len() > 0 {
                if let Some(bytes) = read_bytes(items) {
                    return Json::Str(joined("0x", &hex_bytes_text(&bytes)));
                }
            }
        },
        Json::Uint(_) | Json::Int(_) | Json::Number(_) => {
            if let Some(n) = v.as_u64() {
                return Json::Str(joined("0x", &hex_text(n)));
            }
        },
        _ => {},
    }
    v
}

/// Supplies the verified leg.
pub trait VerifiedRouter: Send + Sync {
    /// Whether the router may be asked for a call. A router that says nothing may be asked for
    /// any. Whoever asks it owes this, so what can be called without it never asks the router.
    open spec fn may_be_asked(&self, chain_id: u64, method: Seq<char>, params: JsonView) -> bool {
        true
    }

    /// Dispatches a call through the proxy. `Err` is a refusal, never a licence to fall back.
    fn call(&self, chain_id: u64, method: &str, params: &Json) -> Result<Json, String>
        requires
            self.may_be_asked(chain_id, method@, params@),
    ;
}

} // verus!
