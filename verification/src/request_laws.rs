//! What is sent, and what is handed back.
//!
//! Each call is told by the configuration that the store gives for its chain: where it goes, with
//! which client, what it carries, and what comes of the reply.

use std::sync::Arc;

use vstd::prelude::*;

use crate::calls::{
    chain_id_outcome, read_reply, reply_view, request_body, request_body_view, result_chain_id,
    result_text, result_view, router_replies, router_settles, settled, text_outcome, value_outcome,
    Call, CallView, PostRequest, Posted, Routed, RoutedView,
};
use crate::client_laws::same_optional;
use crate::config::{ChainConfig, VerifiedProxyMode};
use crate::error::{RpcError, RpcErrorView};
use crate::json::{json_text, Json, JsonView};
use crate::json_laws::lemma_members;
use crate::rpc::{EthRpc, StoredChain};
use crate::text::{hex, hex_quantity, law_hex_quantity_reads_back};
use crate::verified::{class_of, coerced_params, normalized, VerifiedRouter};
use crate::verified_laws::{
    given_list, law_coerced_parameters_speak_the_dialect, speaks_the_dialect,
};

verus! {

// ---------------------------------------------------------------------------
// Requests
// ---------------------------------------------------------------------------

/// Whether `body` is the JSON-RPC request for a method and parameters, and holds nothing else.
pub open spec fn is_request(body: JsonView, method: Seq<char>, params: JsonView) -> bool {
    &&& body.get("jsonrpc"@) == Some(JsonView::Str("2.0"@))
    &&& body.get("id"@) == Some(JsonView::Integer(1))
    &&& body.get("method"@) == Some(JsonView::Str(method))
    &&& body.get("params"@) == Some(params)
    &&& forall|key: Seq<char>|
        (#[trigger] body.get(key)) is Some ==> key == "jsonrpc"@ || key == "id"@ || key
            == "method"@ || key == "params"@
}

/// Whether a request goes to `url`, through the chain's own proxy and with its own timeout, and
/// carries the method and the parameters as they were given.
pub open spec fn request_for(
    p: PostRequest,
    c: &ChainConfig,
    url: Seq<char>,
    method: Seq<char>,
    params: JsonView,
) -> bool {
    &&& same_optional(p.client.proxy, c.proxy)
    &&& p.client.timeout_secs == c.timeout_secs
    &&& p.url@ == url
    &&& is_request(p.body@, method, params)
}

/// Whether a chain requires a network proxy and has none.
pub open spec fn lacks_proxy(c: &ChainConfig) -> bool {
    c.proxy_required && c.proxy is None
}

/// The body of a request is the JSON-RPC request for its method and parameters.
pub proof fn law_request_bodies(method: &str, params: Json, r: Json)
    requires
        call_ensures(request_body, (method, params), r),
    ensures
        is_request(r@, method@, params@),
{
    lemma_request(method@, params@);
}

pub(crate) proof fn lemma_request(method: Seq<char>, params: JsonView)
    ensures
        is_request(request_body_view(method, params), method, params),
{
    let members = seq![
        ("jsonrpc"@, JsonView::Str("2.0"@)),
        ("id"@, JsonView::Integer(1)),
        ("method"@, JsonView::Str(method)),
        ("params"@, params),
    ];
    reveal_strlit("jsonrpc");
    reveal_strlit("id");
    reveal_strlit("method");
    reveal_strlit("params");
    assert("method"@[0] != "params"@[0]);
    assert(members[0].0 == "jsonrpc"@ && members[1].0 == "id"@);
    assert(members[2].0 == "method"@ && members[3].0 == "params"@);
    lemma_members(members);
}

/// A request to an explicit address goes there and nowhere else, through the chain's own proxy,
/// required or not. It is refused where the chain is unknown, or lacks a proxy that it requires.
pub proof fn law_explicit_addresses<R: VerifiedRouter>(
    rpc: &EthRpc<R>,
    id: u64,
    url: &str,
    method: &str,
    params: Json,
    config: Option<&ChainConfig>,
    r: Result<PostRequest, RpcError>,
)
    requires
        call_ensures(EthRpc::<R>::get_chain_config, (rpc, id), config),
        call_ensures(EthRpc::<R>::rpc_call_url, (rpc, id, url, method, params), r),
    ensures
        (match config {
            None => r matches Err(RpcError::UnknownChain(n)) && n == id,
            Some(c) => if lacks_proxy(c) {
                r matches Err(RpcError::Proxy(e)) && e@
                    == "a proxy is required but none is configured"@
            } else {
                r matches Ok(p) && request_for(p, c, url@, method@, params@)
            },
        }),
{
    lemma_request(method@, params@);
}

// ---------------------------------------------------------------------------
// Routing
// ---------------------------------------------------------------------------

/// Whether `reply` is one that the router may give to a call.
pub open spec fn router_gives<R: VerifiedRouter>(
    router: Arc<R>,
    id: u64,
    method: &str,
    sent: Json,
    reply: Result<Json, String>,
) -> bool {
    call_ensures(R::call, (&*router, id, method, &sent), reply)
}

/// Whether `sent` are the parameters in the dialect of the verified leg.
pub open spec fn asked_with(sent: Json, method: Seq<char>, params: JsonView) -> bool {
    sent@ matches JsonView::Array(q) && speaks_the_dialect(
        method,
        given_list(params),
        q,
    )
}

/// Whether `r` is what a call comes to. An unknown chain is refused. A chain in mode off is sent a
/// request, unless it lacks a proxy that it requires. A chain that requires verification is
/// answered by what the router replied, normalised and then read by `read`, or refused with what
/// the router, or `read`, gave as the reason.
pub open spec fn comes_to<R: VerifiedRouter, T: View>(
    rpc: &EthRpc<R>,
    id: u64,
    config: Option<&ChainConfig>,
    method: &str,
    params: JsonView,
    read: spec_fn(JsonView) -> Result<T::V, RpcErrorView>,
    r: Result<Call<T>, RpcError>,
) -> bool {
    match config {
        None => r matches Err(RpcError::UnknownChain(n)) && n == id,
        Some(c) => match c.verified_proxy_mode {
            VerifiedProxyMode::Off => if lacks_proxy(c) {
                r matches Err(RpcError::Proxy(e)) && e@
                    == "a proxy is required but none is configured"@
            } else {
                r matches Ok(Call::Post(p)) && request_for(p, c, c.endpoint@, method@, params)
            },
            VerifiedProxyMode::Required => match rpc.router() {
                None => r matches Err(RpcError::VerifiedProxy(e)) && e@
                    == "no verified proxy is wired up"@,
                Some(router) => exists|sent: Json, reply: Result<Json, String>|
                    {
                        &&& #[trigger] router_gives(router, id, method, sent, reply)
                        &&& asked_with(sent, method@, params)
                        &&& match reply {
                            Err(e) => r matches Err(RpcError::VerifiedProxy(f)) && f@ == e@,
                            Ok(v) => match read(normalized(v@)) {
                                Ok(x) => r matches Ok(Call::Done(y)) && y@ == x,
                                Err(e) => r matches Err(f) && f@ == e,
                            },
                        }
                    },
            },
        },
    }
}

/// A result is taken as it is.
pub open spec fn as_it_is() -> spec_fn(JsonView) -> Result<JsonView, RpcErrorView> {
    |v: JsonView| Ok(v)
}

/// The text of a result: a string as it is, anything else as JSON.
pub open spec fn text_in(v: JsonView) -> Seq<char> {
    match v {
        JsonView::Str(s) => s,
        _ => json_text(v),
    }
}

/// A result is taken as text.
pub open spec fn as_text() -> spec_fn(JsonView) -> Result<Seq<char>, RpcErrorView> {
    |v: JsonView| Ok(text_in(v))
}

/// A result is taken as a chain id: the quantity in its text.
pub open spec fn as_chain_id() -> spec_fn(JsonView) -> Result<u64, RpcErrorView> {
    |v: JsonView|
        match hex_quantity(text_in(v)) {
            Some(n) => Ok(n),
            None => Err(RpcErrorView::Parse("bad chainId: "@ + text_in(v))),
        }
}

/// What a routed call comes to.
proof fn lemma_comes_to<R: VerifiedRouter, T: View>(
    rpc: &EthRpc<R>,
    id: u64,
    config: Option<&ChainConfig>,
    method: &str,
    params: JsonView,
    read: spec_fn(JsonView) -> Result<T::V, RpcErrorView>,
    r: Result<Call<T>, RpcError>,
    o: Result<RoutedView, RpcErrorView>,
)
    requires
        call_ensures(EthRpc::<R>::get_chain_config, (rpc, id), config),
        rpc.routes(id, method, params, o),
        result_view(r) == (match o {
            Ok(RoutedView::Verified(v, _)) => match read(v) {
                Ok(x) => Ok(CallView::Done(x)),
                Err(e) => Err(e),
            },
            Ok(RoutedView::Direct(p)) => Ok(CallView::Post(p)),
            Err(e) => Err(e),
        }),
    ensures
        comes_to(rpc, id, config, method, params, read, r),
{
    lemma_request(method@, params);
    match config {
        Some(c) => {
            if c.verified_proxy_mode == VerifiedProxyMode::Required {
                match rpc.router() {
                    Some(router) => {
                        assert(router_settles(router, id, method, params, o));
                        let (sent, reply) = choose|sent: Json, reply: Result<Json, String>|
                            {
                                &&& #[trigger] router_replies(router, id, method, sent, reply)
                                &&& sent@ == coerced_params(method@, params)
                                &&& o == settled(
                                    method@,
                                    reply_view(reply),
                                )
                            };
                        law_coerced_parameters_speak_the_dialect(method@, given_list(params));
                        assert(router_gives(router, id, method, sent, reply));
                        assert(asked_with(sent, method@, params));
                    },
                    None => {},
                }
            }
        },
        None => {},
    }
}

/// The routing decision: a direct request is the one that the chain's configuration calls for, and
/// a verified answer is the router's, normalised, with the class of its method.
pub proof fn law_routing<R: VerifiedRouter>(
    rpc: &EthRpc<R>,
    id: u64,
    method: &str,
    params: Json,
    config: Option<&ChainConfig>,
    r: Result<Routed, RpcError>,
)
    requires
        call_ensures(EthRpc::<R>::get_chain_config, (rpc, id), config),
        call_ensures(EthRpc::<R>::rpc_call_routed, (rpc, id, method, params), r),
    ensures
        comes_to(
            rpc,
            id,
            config,
            method,
            params@,
            as_it_is(),
            match r {
                Ok(Routed::Verified(v, _)) => Ok(Call::Done(v)),
                Ok(Routed::Direct(p)) => Ok(Call::Post(p)),
                Err(e) => Err(e),
            },
        ),
        r matches Ok(Routed::Verified(_, class)) ==> class == class_of(method@),
{
    let call: Result<Call<Json>, RpcError> = match r {
        Ok(Routed::Verified(v, _)) => Ok(Call::Done(v)),
        Ok(Routed::Direct(p)) => Ok(Call::Post(p)),
        Err(e) => Err(e),
    };
    lemma_comes_to(rpc, id, config, method, params@, as_it_is(), call, result_view(r));
}

/// Any call whose result is taken as it is.
pub proof fn law_rpc_call<R: VerifiedRouter>(
    rpc: &EthRpc<R>,
    id: u64,
    method: &str,
    params: Json,
    config: Option<&ChainConfig>,
    r: Result<Call<Json>, RpcError>,
)
    requires
        call_ensures(EthRpc::<R>::get_chain_config, (rpc, id), config),
        call_ensures(EthRpc::<R>::rpc_call, (rpc, id, method, params), r),
    ensures
        comes_to(rpc, id, config, method, params@, as_it_is(), r),
{
    lemma_value_call(rpc, id, method, params@, config, r);
}

proof fn lemma_value_call<R: VerifiedRouter>(
    rpc: &EthRpc<R>,
    id: u64,
    method: &str,
    params: JsonView,
    config: Option<&ChainConfig>,
    r: Result<Call<Json>, RpcError>,
)
    requires
        call_ensures(EthRpc::<R>::get_chain_config, (rpc, id), config),
        rpc.calls_value(id, method, params, result_view(r)),
    ensures
        comes_to(rpc, id, config, method, params, as_it_is(), r),
{
    let o = choose|o: Result<RoutedView, RpcErrorView>| #[trigger]
        rpc.routes(id, method, params, o) && result_view(r) == value_outcome(o);
    lemma_comes_to(rpc, id, config, method, params, as_it_is(), r, o);
}

proof fn lemma_text_call<R: VerifiedRouter>(
    rpc: &EthRpc<R>,
    id: u64,
    method: &str,
    params: JsonView,
    config: Option<&ChainConfig>,
    r: Result<Call<String>, RpcError>,
)
    requires
        call_ensures(EthRpc::<R>::get_chain_config, (rpc, id), config),
        rpc.calls_text(id, method, params, result_view(r)),
    ensures
        comes_to(rpc, id, config, method, params, as_text(), r),
{
    let o = choose|o: Result<RoutedView, RpcErrorView>| #[trigger]
        rpc.routes(id, method, params, o) && result_view(r) == text_outcome(o);
    lemma_comes_to(rpc, id, config, method, params, as_text(), r, o);
}

/// The chain id of a chain's node.
pub proof fn law_verify_chain_id<R: VerifiedRouter>(
    rpc: &EthRpc<R>,
    id: u64,
    config: Option<&ChainConfig>,
    r: Result<Call<u64>, RpcError>,
)
    requires
        call_ensures(EthRpc::<R>::get_chain_config, (rpc, id), config),
        call_ensures(EthRpc::<R>::verify_chain_id, (rpc, id), r),
    ensures
        comes_to(
            rpc,
            id,
            config,
            "eth_chainId",
            JsonView::Array(Seq::empty()),
            as_chain_id(),
            r,
        ),
{
    let params = JsonView::Array(Seq::empty());
    let o = choose|o: Result<RoutedView, RpcErrorView>| #[trigger]
        rpc.routes(id, "eth_chainId", params, o) && result_view(r)
            == chain_id_outcome(o);
    lemma_comes_to(rpc, id, config, "eth_chainId", params, as_chain_id(), r, o);
}

/// The latest block.
pub proof fn law_block_number<R: VerifiedRouter>(
    rpc: &EthRpc<R>,
    id: u64,
    config: Option<&ChainConfig>,
    r: Result<Call<String>, RpcError>,
)
    requires
        call_ensures(EthRpc::<R>::get_chain_config, (rpc, id), config),
        call_ensures(EthRpc::<R>::block_number, (rpc, id), r),
    ensures
        comes_to(
            rpc,
            id,
            config,
            "eth_blockNumber",
            JsonView::Array(Seq::empty()),
            as_text(),
            r,
        ),
{
    lemma_text_call(
        rpc,
        id,
        "eth_blockNumber",
        JsonView::Array(Seq::empty()),
        config,
        r,
    );
}

/// A balance is asked for the account that was given, at the latest block.
pub proof fn law_get_balance<R: VerifiedRouter>(
    rpc: &EthRpc<R>,
    id: u64,
    address: &str,
    config: Option<&ChainConfig>,
    r: Result<Call<String>, RpcError>,
)
    requires
        call_ensures(EthRpc::<R>::get_chain_config, (rpc, id), config),
        call_ensures(EthRpc::<R>::get_balance, (rpc, id, address), r),
    ensures
        comes_to(
            rpc,
            id,
            config,
            "eth_getBalance",
            JsonView::Array(seq![JsonView::Str(address@), JsonView::Str("latest"@)]),
            as_text(),
            r,
        ),
{
    lemma_text_call(
        rpc,
        id,
        "eth_getBalance",
        JsonView::Array(seq![JsonView::Str(address@), JsonView::Str("latest"@)]),
        config,
        r,
    );
}

/// A contract is called with what was given, at the latest block.
pub proof fn law_call<R: VerifiedRouter>(
    rpc: &EthRpc<R>,
    id: u64,
    call: Json,
    config: Option<&ChainConfig>,
    r: Result<Call<String>, RpcError>,
)
    requires
        call_ensures(EthRpc::<R>::get_chain_config, (rpc, id), config),
        call_ensures(EthRpc::<R>::call, (rpc, id, call), r),
    ensures
        comes_to(
            rpc,
            id,
            config,
            "eth_call",
            JsonView::Array(seq![call@, JsonView::Str("latest"@)]),
            as_text(),
            r,
        ),
{
    lemma_text_call(
        rpc,
        id,
        "eth_call",
        JsonView::Array(seq![call@, JsonView::Str("latest"@)]),
        config,
        r,
    );
}

/// Transactions are counted for the account that was given, those under way included.
pub proof fn law_get_transaction_count<R: VerifiedRouter>(
    rpc: &EthRpc<R>,
    id: u64,
    address: &str,
    config: Option<&ChainConfig>,
    r: Result<Call<String>, RpcError>,
)
    requires
        call_ensures(EthRpc::<R>::get_chain_config, (rpc, id), config),
        call_ensures(EthRpc::<R>::get_transaction_count, (rpc, id, address), r),
    ensures
        comes_to(
            rpc,
            id,
            config,
            "eth_getTransactionCount",
            JsonView::Array(seq![JsonView::Str(address@), JsonView::Str("pending"@)]),
            as_text(),
            r,
        ),
{
    lemma_text_call(
        rpc,
        id,
        "eth_getTransactionCount",
        JsonView::Array(seq![JsonView::Str(address@), JsonView::Str("pending"@)]),
        config,
        r,
    );
}

/// The gas price.
pub proof fn law_gas_price<R: VerifiedRouter>(
    rpc: &EthRpc<R>,
    id: u64,
    config: Option<&ChainConfig>,
    r: Result<Call<String>, RpcError>,
)
    requires
        call_ensures(EthRpc::<R>::get_chain_config, (rpc, id), config),
        call_ensures(EthRpc::<R>::gas_price, (rpc, id), r),
    ensures
        comes_to(
            rpc,
            id,
            config,
            "eth_gasPrice",
            JsonView::Array(Seq::empty()),
            as_text(),
            r,
        ),
{
    lemma_text_call(
        rpc,
        id,
        "eth_gasPrice",
        JsonView::Array(Seq::empty()),
        config,
        r,
    );
}

/// A fee history is asked for the number of blocks and the percentiles that were given.
pub proof fn law_fee_history<R: VerifiedRouter>(
    rpc: &EthRpc<R>,
    id: u64,
    blocks: u64,
    percentiles: Json,
    config: Option<&ChainConfig>,
    r: Result<Call<Json>, RpcError>,
)
    requires
        call_ensures(EthRpc::<R>::get_chain_config, (rpc, id), config),
        call_ensures(EthRpc::<R>::fee_history, (rpc, id, blocks, percentiles), r),
    ensures
        comes_to(
            rpc,
            id,
            config,
            "eth_feeHistory",
            JsonView::Array(
                seq![
                    JsonView::Str("0x"@ + hex(blocks as nat)),
                    JsonView::Str("latest"@),
                    percentiles@,
                ],
            ),
            as_it_is(),
            r,
        ),
{
    lemma_value_call(
        rpc,
        id,
        "eth_feeHistory",
        JsonView::Array(
                seq![
                    JsonView::Str("0x"@ + hex(blocks as nat)),
                    JsonView::Str("latest"@),
                    percentiles@,
                ],
            ),
        config,
        r,
    );
}

/// Gas is estimated for the transaction that was given.
pub proof fn law_estimate_gas<R: VerifiedRouter>(
    rpc: &EthRpc<R>,
    id: u64,
    tx: Json,
    config: Option<&ChainConfig>,
    r: Result<Call<String>, RpcError>,
)
    requires
        call_ensures(EthRpc::<R>::get_chain_config, (rpc, id), config),
        call_ensures(EthRpc::<R>::estimate_gas, (rpc, id, tx), r),
    ensures
        comes_to(
            rpc,
            id,
            config,
            "eth_estimateGas",
            JsonView::Array(seq![tx@]),
            as_text(),
            r,
        ),
{
    lemma_text_call(
        rpc,
        id,
        "eth_estimateGas",
        JsonView::Array(seq![tx@]),
        config,
        r,
    );
}

/// The transaction that was given is broadcast.
pub proof fn law_send_raw_transaction<R: VerifiedRouter>(
    rpc: &EthRpc<R>,
    id: u64,
    raw: &str,
    config: Option<&ChainConfig>,
    r: Result<Call<String>, RpcError>,
)
    requires
        call_ensures(EthRpc::<R>::get_chain_config, (rpc, id), config),
        call_ensures(EthRpc::<R>::send_raw_transaction, (rpc, id, raw), r),
    ensures
        comes_to(
            rpc,
            id,
            config,
            "eth_sendRawTransaction",
            JsonView::Array(seq![JsonView::Str(raw@)]),
            as_text(),
            r,
        ),
{
    lemma_text_call(
        rpc,
        id,
        "eth_sendRawTransaction",
        JsonView::Array(seq![JsonView::Str(raw@)]),
        config,
        r,
    );
}

/// A receipt is asked for the hash that was given.
pub proof fn law_get_transaction_receipt<R: VerifiedRouter>(
    rpc: &EthRpc<R>,
    id: u64,
    hash: &str,
    config: Option<&ChainConfig>,
    r: Result<Call<Json>, RpcError>,
)
    requires
        call_ensures(EthRpc::<R>::get_chain_config, (rpc, id), config),
        call_ensures(EthRpc::<R>::get_transaction_receipt, (rpc, id, hash), r),
    ensures
        comes_to(
            rpc,
            id,
            config,
            "eth_getTransactionReceipt",
            JsonView::Array(seq![JsonView::Str(hash@)]),
            as_it_is(),
            r,
        ),
{
    lemma_value_call(
        rpc,
        id,
        "eth_getTransactionReceipt",
        JsonView::Array(seq![JsonView::Str(hash@)]),
        config,
        r,
    );
}

/// A transaction is asked for by the hash that was given.
pub proof fn law_get_transaction_by_hash<R: VerifiedRouter>(
    rpc: &EthRpc<R>,
    id: u64,
    hash: &str,
    config: Option<&ChainConfig>,
    r: Result<Call<Json>, RpcError>,
)
    requires
        call_ensures(EthRpc::<R>::get_chain_config, (rpc, id), config),
        call_ensures(EthRpc::<R>::get_transaction_by_hash, (rpc, id, hash), r),
    ensures
        comes_to(
            rpc,
            id,
            config,
            "eth_getTransactionByHash",
            JsonView::Array(seq![JsonView::Str(hash@)]),
            as_it_is(),
            r,
        ),
{
    lemma_value_call(
        rpc,
        id,
        "eth_getTransactionByHash",
        JsonView::Array(seq![JsonView::Str(hash@)]),
        config,
        r,
    );
}

// ---------------------------------------------------------------------------
// Replies
// ---------------------------------------------------------------------------

/// What a reply says: the member `result` exactly as it stands, whatever kind of value it is, or
/// the code and message of the member `error`, where there is one.
pub open spec fn unwraps_to(reply: JsonView, r: Result<Json, RpcError>) -> bool {
    match reply.get("error"@) {
        Some(error) => {
            let code = match error.get("code"@) {
                Some(JsonView::Integer(n)) => if i64::MIN <= n <= i64::MAX {
                    n
                } else {
                    0
                },
                _ => 0,
            };
            &&& r matches Err(RpcError::Rpc { code: c, message })
            &&& c == code
            &&& match error.get("message"@) {
                Some(JsonView::Str(s)) => message@ == s,
                _ => message@.len() == 0,
            }
        },
        None => match reply.get("result"@) {
            Some(result) => r matches Ok(v) && v@ == result,
            None => r matches Err(RpcError::Parse(e)) && e@ == "response had no `result`"@,
        },
    }
}

/// A reply is unwrapped; a request that was not sent, or got no reply, is an error with its reason.
pub proof fn law_replies_are_unwrapped(
    reply: &Json,
    r: Result<Json, RpcError>,
    posted: Posted,
    outcome: Result<Json, RpcError>,
)
    requires
        call_ensures(read_reply, (reply,), r),
        call_ensures(Posted::settle, (posted,), outcome),
    ensures
        unwraps_to(reply@, r),
        (match posted {
            Posted::NoClient(e) => outcome matches Err(RpcError::Proxy(f)) && f@ == e@,
            Posted::Failed(e) => outcome matches Err(RpcError::Http(f)) && f@ == e@,
            Posted::Reply(v) => unwraps_to(v@, outcome),
        }),
{
    reveal_strlit("");
}

/// A result is read as text, a string as it is; a chain id is the whole quantity in that text, so
/// that every number reads back from its own quantity.
pub proof fn law_results_are_read(
    v: Json,
    text: String,
    id: Result<u64, RpcError>,
    n: u64,
)
    requires
        call_ensures(result_text, (v,), text),
        call_ensures(result_chain_id, (v,), id),
    ensures
        (match v@ {
            JsonView::Str(s) => text@ == s,
            other => text@ == json_text(other),
        }),
        v@ == JsonView::Str("0x"@ + hex(n as nat)) ==> (id matches Ok(m) && m == n),
        (match hex_quantity(text@) {
            Some(m) => id matches Ok(k) && k == m,
            None => id matches Err(RpcError::Parse(e)) && e@ == "bad chainId: "@ + text@,
        }),
{
    law_hex_quantity_reads_back(n);
}

// ---------------------------------------------------------------------------
// What is asked of a caller
// ---------------------------------------------------------------------------

/// Whether the router of a client may be asked for whatever a chain's calls need of it.
pub open spec fn router_permits<R: VerifiedRouter>(
    rpc: &EthRpc<R>,
    id: u64,
    config: Option<&ChainConfig>,
) -> bool {
    match (config, rpc.router()) {
        (Some(c), Some(router)) => c.verified_proxy_mode == VerifiedProxyMode::Required
            ==> forall|method: Seq<char>, q: Seq<JsonView>| #[trigger]
            router.may_be_asked(id, method, JsonView::Array(q)),
        _ => true,
    }
}

/// Every call may be made, with any arguments, where the router may be asked for what it needs;
/// on a chain in mode off, and to an explicit address, that is always.
pub proof fn law_every_call_may_be_made<R: VerifiedRouter>(
    rpc: &EthRpc<R>,
    id: u64,
    config: Option<&ChainConfig>,
    text: &str,
    v: Json,
    n: u64,
)
    requires
        call_ensures(EthRpc::<R>::get_chain_config, (rpc, id), config),
        router_permits(rpc, id, config),
    ensures
        call_requires(EthRpc::<R>::rpc_call, (rpc, id, text, v)),
        call_requires(EthRpc::<R>::rpc_call_routed, (rpc, id, text, v)),
        call_requires(EthRpc::<R>::rpc_call_url, (rpc, id, text, text, v)),
        call_requires(EthRpc::<R>::verify_chain_id, (rpc, id)),
        call_requires(EthRpc::<R>::block_number, (rpc, id)),
        call_requires(EthRpc::<R>::get_balance, (rpc, id, text)),
        call_requires(EthRpc::<R>::call, (rpc, id, v)),
        call_requires(EthRpc::<R>::get_transaction_count, (rpc, id, text)),
        call_requires(EthRpc::<R>::gas_price, (rpc, id)),
        call_requires(EthRpc::<R>::fee_history, (rpc, id, n, v)),
        call_requires(EthRpc::<R>::estimate_gas, (rpc, id, v)),
        call_requires(EthRpc::<R>::send_raw_transaction, (rpc, id, text)),
        call_requires(EthRpc::<R>::get_transaction_receipt, (rpc, id, text)),
        call_requires(EthRpc::<R>::get_transaction_by_hash, (rpc, id, text)),
        call_requires(EthRpc::<R>::get_chain_config, (rpc, id)),
        call_requires(EthRpc::<R>::list_chains, (rpc,)),
        call_requires(EthRpc::<R>::config_source, (rpc, id)),
        call_requires(EthRpc::<R>::stored, (rpc,)),
{
}

/// The store may be changed at any time, with any arguments.
pub proof fn law_the_store_may_be_changed<R: VerifiedRouter>(
    rpc: &mut EthRpc<R>,
    id: u64,
    cfg: ChainConfig,
    secs: Option<u64>,
    mode: VerifiedProxyMode,
    path: String,
    saved: Vec<StoredChain>,
)
    ensures
        call_requires(EthRpc::<R>::with_store, (path, saved)),
        call_requires(EthRpc::<R>::set_chain_config, (rpc, id, cfg)),
        call_requires(EthRpc::<R>::ensure_chain_config, (rpc, id, &cfg)),
        call_requires(EthRpc::<R>::patch_chain_transport, (rpc, id, secs, secs)),
        call_requires(EthRpc::<R>::set_verified_proxy_mode, (rpc, id, mode)),
        call_requires(EthRpc::<R>::remove_chain_config, (rpc, id)),
        call_requires(EthRpc::<R>::init_defaults, (rpc,)),
        call_requires(EthRpc::<R>::take_save, (rpc,)),
{
}

} // verus!
