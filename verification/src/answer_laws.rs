//! What a host is told.
//!
//! Each answer is given by its members, and each operation by the client's own: the module does
//! what the client does, and tells of it.

use std::sync::Arc;

use vstd::prelude::*;

use crate::calls::{
    reply_result, reply_view, router_replies, router_settles, settled, Posted, RoutedView,
};
use crate::client_laws::lemma_config_members;
use crate::config::{ChainConfig, ConfigSource, VerifiedProxyMode};
use crate::error::RpcErrorView;
use crate::json::{
    entries_map, json_read, json_text, json_text_pretty, plain, writes, Json, JsonView,
};
use crate::json_laws::lemma_members;
use crate::module::{
    chains_reply, err, error_json, ids_json, listing, ok_result, outcome_answered, reply_json,
    status_reply, store_source, success_json, texts_json, to_chain_key, usable_members,
    EthRpcModuleImpl, ModuleCall, PendingCall, ReplyKind,
};
use crate::request_laws::{
    asked_with, lacks_proxy, lemma_request, request_for, router_gives, router_permits,
    text_in,
};
use crate::router::VerifiedProxyRouter;
use crate::rpc::{
    lists, store_json, stored_view, texts_view, EthRpc, SaveRequest, StoredChain,
};
use crate::store_laws::law_listing_is_unique;
use crate::text::{ascii_lower, decimal, hex, hex_quantity, signed_decimal, trimmed};
use crate::verified::{coerced_params, normalized, VerifiedRouter};
use crate::verified_laws::{given_list, law_coerced_parameters_speak_the_dialect};

verus! {

// ---------------------------------------------------------------------------
// Answers
// ---------------------------------------------------------------------------

/// Whether an object has the given members and no others.
pub open spec fn holds_exactly(v: JsonView, members: Seq<(Seq<char>, JsonView)>) -> bool {
    &&& v is Object
    &&& forall|i: int|
        0 <= i < members.len() ==> v.get((#[trigger] members[i]).0) == Some(members[i].1)
    &&& forall|key: Seq<char>|
        (#[trigger] v.get(key)) is Some ==> exists|i: int|
            0 <= i < members.len() && (#[trigger] members[i]).0 == key
}

/// Whether a text is that of an object with the given members and no others; it reads back as that
/// object, where the object is plain.
pub open spec fn told(text: Seq<char>, members: Seq<(Seq<char>, JsonView)>) -> bool {
    exists|v: JsonView|
        {
            &&& #[trigger] holds_exactly(v, members)
            &&& text == json_text(v)
            &&& plain(v, 127) ==> json_read(text) == Ok::<JsonView, Seq<char>>(v)
        }
}

/// The members of an answer that reports an error.
pub open spec fn failure(e: Seq<char>) -> Seq<(Seq<char>, JsonView)> {
    seq![("ok"@, JsonView::Bool(false)), ("error"@, JsonView::Str(e))]
}

/// The members of an answer that reports success and one thing more.
pub open spec fn done(key: Seq<char>, v: JsonView) -> Seq<(Seq<char>, JsonView)> {
    seq![("ok"@, JsonView::Bool(true)), (key, v)]
}

/// The members of the answer to a call that has a result.
pub open spec fn result_members(kind: ReplyKind, v: JsonView) -> Seq<(Seq<char>, JsonView)> {
    match kind {
        ReplyKind::Value => done("result"@, v),
        ReplyKind::Text => done("result"@, JsonView::Str(text_in(v))),
        ReplyKind::Hash => done("hash"@, JsonView::Str(text_in(v))),
        ReplyKind::ChainId => match hex_quantity(text_in(v)) {
            Some(n) => done("chainId"@, JsonView::Integer(n as int)),
            None => failure("parse: "@ + ("bad chainId: "@ + text_in(v))),
        },
    }
}

/// What is answered while the context is not ready.
pub open spec fn unready() -> Seq<char> {
    "eth_rpc not initialized (context not ready)"@
}

/// A signed id as the unsigned number with the same bits.
pub open spec fn unsigned(id: i64) -> u64 {
    if id < 0 {
        (id + 18446744073709551616) as u64
    } else {
        id as u64
    }
}

/// Chain ids are taken by their bits.
pub proof fn law_chain_keys(id: i64, key: u64)
    requires
        call_ensures(to_chain_key, (id,), key),
    ensures
        key == unsigned(id),
{
}

proof fn lemma_told(text: Seq<char>, members: Seq<(Seq<char>, JsonView)>)
    requires
        writes(text, JsonView::Object(entries_map(members))),
        forall|i: int, j: int|
            0 <= i < j < members.len() ==> (#[trigger] members[i]).0 != (#[trigger] members[j]).0,
    ensures
        told(text, members),
{
    lemma_members(members);
    assert(holds_exactly(JsonView::Object(entries_map(members)), members));
}

proof fn lemma_failure(text: Seq<char>, e: Seq<char>)
    requires
        writes(text, error_json(e)),
    ensures
        told(text, failure(e)),
{
    reveal_strlit("ok");
    reveal_strlit("error");
    assert(failure(e)[0].0.len() == 2 && failure(e)[1].0.len() == 5);
    lemma_told(text, failure(e));
}

proof fn lemma_done(text: Seq<char>, key: Seq<char>, v: JsonView)
    requires
        writes(text, success_json(key, v)),
        key.len() != 2,
    ensures
        told(text, done(key, v)),
{
    reveal_strlit("ok");
    assert(done(key, v)[0].0.len() == 2 && done(key, v)[1].0 == key);
    lemma_told(text, done(key, v));
}

proof fn lemma_reply(text: Seq<char>, kind: ReplyKind, v: JsonView)
    requires
        writes(text, reply_json(kind, Ok(v))),
    ensures
        told(text, result_members(kind, v)),
{
    reveal_strlit("result");
    reveal_strlit("hash");
    reveal_strlit("chainId");
    match kind {
        ReplyKind::Value => lemma_done(text, "result"@, v),
        ReplyKind::Text => lemma_done(text, "result"@, JsonView::Str(text_in(v))),
        ReplyKind::Hash => lemma_done(text, "hash"@, JsonView::Str(text_in(v))),
        ReplyKind::ChainId => match hex_quantity(text_in(v)) {
            Some(n) => lemma_done(text, "chainId"@, JsonView::Integer(n as int)),
            None => lemma_failure(text, "parse: "@ + ("bad chainId: "@ + text_in(v))),
        },
    }
}

/// An error is told by its message, and a result as it is.
pub proof fn law_plain_answers(e: &str, failed: String, v: Json, succeeded: String)
    requires
        call_ensures(err, (e,), failed),
        call_ensures(ok_result, (v,), succeeded),
    ensures
        told(failed@, failure(e@)),
        told(succeeded@, done("result"@, v@)),
{
    reveal_strlit("result");
    lemma_failure(failed@, e@);
    lemma_done(succeeded@, "result"@, v@);
}

/// Whether the answer to a call whose reply came is told for that reply: its error, or its member
/// `result`, unchanged where the kind passes a value on.
pub open spec fn told_of_reply(text: Seq<char>, kind: ReplyKind, reply: JsonView) -> bool {
    match reply.get("error"@) {
        Some(error) => {
            let code = match error.get("code"@) {
                Some(JsonView::Integer(n)) => if i64::MIN <= n <= i64::MAX {
                    n
                } else {
                    0
                },
                _ => 0,
            };
            let message = match error.get("message"@) {
                Some(JsonView::Str(s)) => s,
                _ => Seq::empty(),
            };
            told(text, failure("rpc error "@ + signed_decimal(code) + ": "@ + message))
        },
        None => match reply.get("result"@) {
            Some(result) => told(text, result_members(kind, result)),
            None => told(text, failure("parse: "@ + "response had no `result`"@)),
        },
    }
}

/// A call whose request was sent is answered for what came of it.
pub proof fn law_what_came_of_a_request_is_told(call: &PendingCall, posted: Posted, text: String)
    requires
        call_ensures(PendingCall::finish, (call, posted), text),
    ensures
        (match posted {
            Posted::NoClient(e) => told(text@, failure("proxy: "@ + e@)),
            Posted::Failed(e) => told(text@, failure("http: "@ + e@)),
            Posted::Reply(v) => told_of_reply(text@, call.kind, v@),
        }),
{
    reveal_strlit("");
    assert(""@ =~= Seq::<char>::empty());
    match posted {
        Posted::NoClient(e) => lemma_failure(text@, "proxy: "@ + e@),
        Posted::Failed(e) => lemma_failure(text@, "http: "@ + e@),
        Posted::Reply(v) => match reply_result(v@) {
            Ok(result) => lemma_reply(text@, call.kind, result),
            Err(e) => lemma_failure(text@, e.message()),
        },
    }
}

// ---------------------------------------------------------------------------
// Calls
// ---------------------------------------------------------------------------

/// Whether `r` is the answer to a call, or the request that it needs: refused before the context is
/// ready, and otherwise as the chain's configuration has it.
pub open spec fn call_told<R: VerifiedRouter>(
    m: &EthRpcModuleImpl<R>,
    id: i64,
    config: Option<&ChainConfig>,
    method: &str,
    params: JsonView,
    kind: ReplyKind,
    r: ModuleCall,
) -> bool {
    match m.rpc {
        None => r matches ModuleCall::Reply(t) && told(t@, failure(unready())),
        Some(rpc) => match config {
            None => r matches ModuleCall::Reply(t) && told(
                t@,
                failure("no configuration for chain "@ + decimal(unsigned(id) as nat)),
            ),
            Some(c) => match c.verified_proxy_mode {
                VerifiedProxyMode::Off => if lacks_proxy(c) {
                    r matches ModuleCall::Reply(t) && told(
                        t@,
                        failure("proxy: "@ + "a proxy is required but none is configured"@),
                    )
                } else {
                    r matches ModuleCall::Post(p) && p.kind == kind && request_for(
                        p.request,
                        c,
                        c.endpoint@,
                        method@,
                        params,
                    )
                },
                VerifiedProxyMode::Required => match rpc.router() {
                    None => r matches ModuleCall::Reply(t) && told(
                        t@,
                        failure("verified proxy: "@ + "no verified proxy is wired up"@),
                    ),
                    Some(router) => exists|sent: Json, reply: Result<Json, String>|
                        {
                            &&& #[trigger] router_gives(router, unsigned(id), method, sent, reply)
                            &&& asked_with(sent, method@, params)
                            &&& r matches ModuleCall::Reply(t)
                            &&& match reply {
                                Err(e) => told(t@, failure("verified proxy: "@ + e@)),
                                Ok(v) => told(t@, result_members(kind, normalized(v@))),
                            }
                        },
                },
            },
        },
    }
}

/// Whether `config` is what the client of a module gives for a chain.
pub open spec fn configured<R: VerifiedRouter>(
    m: &EthRpcModuleImpl<R>,
    id: i64,
    config: Option<&ChainConfig>,
) -> bool {
    m.rpc matches Some(rpc) ==> call_ensures(
        EthRpc::<R>::get_chain_config,
        (&rpc, unsigned(id)),
        config,
    )
}

proof fn lemma_call_told<R: VerifiedRouter>(
    m: &EthRpcModuleImpl<R>,
    id: i64,
    config: Option<&ChainConfig>,
    method: &str,
    params: JsonView,
    kind: ReplyKind,
    r: ModuleCall,
)
    requires
        configured(m, id, config),
        m.answers(id, method, params, kind, r@),
    ensures
        call_told(m, id, config, method, params, kind, r),
{
    match m.rpc {
        None => lemma_failure(r->Reply_0@, unready()),
        Some(rpc) => {
            let key = unsigned(id);
            let o = choose|o: Result<RoutedView, RpcErrorView>| #[trigger]
                rpc.routes(key, method, params, o) && outcome_answered(kind, o, r@);
            match o {
                Ok(RoutedView::Direct(p)) => {
                    lemma_request(method@, params);
                },
                Ok(RoutedView::Verified(v, _)) => lemma_reply(r->Reply_0@, kind, v),
                Err(e) => lemma_failure(r->Reply_0@, e.message()),
            }
            match (config, rpc.router()) {
                (Some(c), Some(router)) => {
                    if c.verified_proxy_mode == VerifiedProxyMode::Required {
                        assert(router_settles(router, key, method, params, o));
                        let (sent, reply) = choose|sent: Json, reply: Result<Json, String>|
                            {
                                &&& #[trigger] router_replies(router, key, method, sent, reply)
                                &&& sent@ == coerced_params(method@, params)
                                &&& o == settled(method@, reply_view(reply))
                            };
                        law_coerced_parameters_speak_the_dialect(method@, given_list(params));
                        assert(router_gives(router, key, method, sent, reply));
                        assert(asked_with(sent, method@, params));
                    }
                },
                _ => {},
            }
        },
    }
}

/// The chain id of a node is told under `chainId`.
pub proof fn law_module_verify_chain_id<R: VerifiedRouter>(
    m: &EthRpcModuleImpl<R>,
    id: i64,
    config: Option<&ChainConfig>,
    r: ModuleCall,
)
    requires
        configured(m, id, config),
        call_ensures(EthRpcModuleImpl::<R>::verify_chain_id, (m, id), r),
    ensures
        call_told(
            m,
            id,
            config,
            "eth_chainId",
            JsonView::Array(Seq::empty()),
            ReplyKind::ChainId,
            r,
        ),
{
    lemma_call_told(
        m,
        id,
        config,
        "eth_chainId",
        JsonView::Array(Seq::empty()),
        ReplyKind::ChainId,
        r,
    );
}

/// The latest block is told under `result`.
pub proof fn law_module_block_number<R: VerifiedRouter>(
    m: &EthRpcModuleImpl<R>,
    id: i64,
    config: Option<&ChainConfig>,
    r: ModuleCall,
)
    requires
        configured(m, id, config),
        call_ensures(EthRpcModuleImpl::<R>::block_number, (m, id), r),
    ensures
        call_told(
            m,
            id,
            config,
            "eth_blockNumber",
            JsonView::Array(Seq::empty()),
            ReplyKind::Text,
            r,
        ),
{
    lemma_call_told(
        m,
        id,
        config,
        "eth_blockNumber",
        JsonView::Array(Seq::empty()),
        ReplyKind::Text,
        r,
    );
}

/// A balance is told under `result`.
pub proof fn law_module_get_balance<R: VerifiedRouter>(
    m: &EthRpcModuleImpl<R>,
    id: i64,
    address: &str,
    config: Option<&ChainConfig>,
    r: ModuleCall,
)
    requires
        configured(m, id, config),
        call_ensures(EthRpcModuleImpl::<R>::get_balance, (m, id, address), r),
    ensures
        call_told(
            m,
            id,
            config,
            "eth_getBalance",
            JsonView::Array(seq![JsonView::Str(address@), JsonView::Str("latest"@)]),
            ReplyKind::Text,
            r,
        ),
{
    lemma_call_told(
        m,
        id,
        config,
        "eth_getBalance",
        JsonView::Array(seq![JsonView::Str(address@), JsonView::Str("latest"@)]),
        ReplyKind::Text,
        r,
    );
}

/// The answer of a contract is told under `result`.
pub proof fn law_module_call<R: VerifiedRouter>(
    m: &EthRpcModuleImpl<R>,
    id: i64,
    call_json: &str,
    config: Option<&ChainConfig>,
    r: ModuleCall,
)
    requires
        configured(m, id, config),
        call_ensures(EthRpcModuleImpl::<R>::call, (m, id, call_json), r),
    ensures
        (match json_read(call_json@) {
            Err(e) => r matches ModuleCall::Reply(t) && told(t@, failure(e)),
            Ok(call) => call_told(
            m,
            id,
            config,
            "eth_call",
            JsonView::Array(seq![call, JsonView::Str("latest"@)]),
            ReplyKind::Text,
            r,
        ),
        }),
{
    match json_read(call_json@) {
        Err(e) => lemma_failure(r->Reply_0@, e),
        Ok(call) => lemma_call_told(
        m,
        id,
        config,
        "eth_call",
        JsonView::Array(seq![call, JsonView::Str("latest"@)]),
        ReplyKind::Text,
        r,
    ),
    }
}

/// A count of transactions is told under `result`.
pub proof fn law_module_get_transaction_count<R: VerifiedRouter>(
    m: &EthRpcModuleImpl<R>,
    id: i64,
    address: &str,
    config: Option<&ChainConfig>,
    r: ModuleCall,
)
    requires
        configured(m, id, config),
        call_ensures(EthRpcModuleImpl::<R>::get_transaction_count, (m, id, address), r),
    ensures
        call_told(
            m,
            id,
            config,
            "eth_getTransactionCount",
            JsonView::Array(seq![JsonView::Str(address@), JsonView::Str("pending"@)]),
            ReplyKind::Text,
            r,
        ),
{
    lemma_call_told(
        m,
        id,
        config,
        "eth_getTransactionCount",
        JsonView::Array(seq![JsonView::Str(address@), JsonView::Str("pending"@)]),
        ReplyKind::Text,
        r,
    );
}

/// The gas price is told under `result`.
pub proof fn law_module_gas_price<R: VerifiedRouter>(
    m: &EthRpcModuleImpl<R>,
    id: i64,
    config: Option<&ChainConfig>,
    r: ModuleCall,
)
    requires
        configured(m, id, config),
        call_ensures(EthRpcModuleImpl::<R>::gas_price, (m, id), r),
    ensures
        call_told(
            m,
            id,
            config,
            "eth_gasPrice",
            JsonView::Array(Seq::empty()),
            ReplyKind::Text,
            r,
        ),
{
    lemma_call_told(
        m,
        id,
        config,
        "eth_gasPrice",
        JsonView::Array(Seq::empty()),
        ReplyKind::Text,
        r,
    );
}

/// A fee history is told under `result`; a negative number of blocks counts as 0.
pub proof fn law_module_fee_history<R: VerifiedRouter>(
    m: &EthRpcModuleImpl<R>,
    id: i64,
    blocks: i64,
    percentiles_json: &str,
    config: Option<&ChainConfig>,
    r: ModuleCall,
)
    requires
        configured(m, id, config),
        call_ensures(EthRpcModuleImpl::<R>::fee_history, (m, id, blocks, percentiles_json), r),
    ensures
        (match json_read(percentiles_json@) {
            Err(e) => r matches ModuleCall::Reply(t) && told(t@, failure(e)),
            Ok(percentiles) => call_told(
            m,
            id,
            config,
            "eth_feeHistory",
            JsonView::Array(
                seq![
                    JsonView::Str(
                        "0x"@ + hex(
                            if blocks < 0 {
                                0
                            } else {
                                blocks as nat
                            },
                        ),
                    ),
                    JsonView::Str("latest"@),
                    percentiles,
                ],
            ),
            ReplyKind::Value,
            r,
        ),
        }),
{
    match json_read(percentiles_json@) {
        Err(e) => lemma_failure(r->Reply_0@, e),
        Ok(percentiles) => lemma_call_told(
        m,
        id,
        config,
        "eth_feeHistory",
        JsonView::Array(
                seq![
                    JsonView::Str(
                        "0x"@ + hex(
                            if blocks < 0 {
                                0
                            } else {
                                blocks as nat
                            },
                        ),
                    ),
                    JsonView::Str("latest"@),
                    percentiles,
                ],
            ),
        ReplyKind::Value,
        r,
    ),
    }
}

/// An estimate of gas is told under `result`.
pub proof fn law_module_estimate_gas<R: VerifiedRouter>(
    m: &EthRpcModuleImpl<R>,
    id: i64,
    tx_json: &str,
    config: Option<&ChainConfig>,
    r: ModuleCall,
)
    requires
        configured(m, id, config),
        call_ensures(EthRpcModuleImpl::<R>::estimate_gas, (m, id, tx_json), r),
    ensures
        (match json_read(tx_json@) {
            Err(e) => r matches ModuleCall::Reply(t) && told(t@, failure(e)),
            Ok(tx) => call_told(
            m,
            id,
            config,
            "eth_estimateGas",
            JsonView::Array(seq![tx]),
            ReplyKind::Text,
            r,
        ),
        }),
{
    match json_read(tx_json@) {
        Err(e) => lemma_failure(r->Reply_0@, e),
        Ok(tx) => lemma_call_told(
        m,
        id,
        config,
        "eth_estimateGas",
        JsonView::Array(seq![tx]),
        ReplyKind::Text,
        r,
    ),
    }
}

/// The hash of a transaction that was broadcast is told under `hash`.
pub proof fn law_module_send_raw_transaction<R: VerifiedRouter>(
    m: &EthRpcModuleImpl<R>,
    id: i64,
    raw: &str,
    config: Option<&ChainConfig>,
    r: ModuleCall,
)
    requires
        configured(m, id, config),
        call_ensures(EthRpcModuleImpl::<R>::send_raw_transaction, (m, id, raw), r),
    ensures
        call_told(
            m,
            id,
            config,
            "eth_sendRawTransaction",
            JsonView::Array(seq![JsonView::Str(raw@)]),
            ReplyKind::Hash,
            r,
        ),
{
    lemma_call_told(
        m,
        id,
        config,
        "eth_sendRawTransaction",
        JsonView::Array(seq![JsonView::Str(raw@)]),
        ReplyKind::Hash,
        r,
    );
}

/// A receipt is told under `result`, as it came.
pub proof fn law_module_get_transaction_receipt<R: VerifiedRouter>(
    m: &EthRpcModuleImpl<R>,
    id: i64,
    hash: &str,
    config: Option<&ChainConfig>,
    r: ModuleCall,
)
    requires
        configured(m, id, config),
        call_ensures(EthRpcModuleImpl::<R>::get_transaction_receipt, (m, id, hash), r),
    ensures
        call_told(
            m,
            id,
            config,
            "eth_getTransactionReceipt",
            JsonView::Array(seq![JsonView::Str(hash@)]),
            ReplyKind::Value,
            r,
        ),
{
    lemma_call_told(
        m,
        id,
        config,
        "eth_getTransactionReceipt",
        JsonView::Array(seq![JsonView::Str(hash@)]),
        ReplyKind::Value,
        r,
    );
}

/// A transaction is told under `result`, as it came.
pub proof fn law_module_get_transaction_by_hash<R: VerifiedRouter>(
    m: &EthRpcModuleImpl<R>,
    id: i64,
    hash: &str,
    config: Option<&ChainConfig>,
    r: ModuleCall,
)
    requires
        configured(m, id, config),
        call_ensures(EthRpcModuleImpl::<R>::get_transaction_by_hash, (m, id, hash), r),
    ensures
        call_told(
            m,
            id,
            config,
            "eth_getTransactionByHash",
            JsonView::Array(seq![JsonView::Str(hash@)]),
            ReplyKind::Value,
            r,
        ),
{
    lemma_call_told(
        m,
        id,
        config,
        "eth_getTransactionByHash",
        JsonView::Array(seq![JsonView::Str(hash@)]),
        ReplyKind::Value,
        r,
    );
}

/// The result of any method is told under `result`, as it came.
pub proof fn law_module_raw_rpc<R: VerifiedRouter>(
    m: &EthRpcModuleImpl<R>,
    id: i64,
    method: &str,
    params_json: &str,
    config: Option<&ChainConfig>,
    r: ModuleCall,
)
    requires
        configured(m, id, config),
        call_ensures(EthRpcModuleImpl::<R>::raw_rpc, (m, id, method, params_json), r),
    ensures
        (match json_read(params_json@) {
            Err(e) => r matches ModuleCall::Reply(t) && told(t@, failure(e)),
            Ok(params) => call_told(
            m,
            id,
            config,
            method,
            params,
            ReplyKind::Value,
            r,
        ),
        }),
{
    match json_read(params_json@) {
        Err(e) => lemma_failure(r->Reply_0@, e),
        Ok(params) => lemma_call_told(
        m,
        id,
        config,
        method,
        params,
        ReplyKind::Value,
        r,
    ),
    }
}

/// A call to an explicit address asks for a request there, through the chain's own proxy.
pub proof fn law_module_raw_rpc_url<R: VerifiedRouter>(
    m: &EthRpcModuleImpl<R>,
    id: i64,
    url: &str,
    method: &str,
    params_json: &str,
    config: Option<&ChainConfig>,
    r: ModuleCall,
)
    requires
        configured(m, id, config),
        call_ensures(EthRpcModuleImpl::<R>::raw_rpc_url, (m, id, url, method, params_json), r),
    ensures
        (match json_read(params_json@) {
            Err(e) => r matches ModuleCall::Reply(t) && told(t@, failure(e)),
            Ok(params) => match (m.rpc, config) {
                (None, _) => r matches ModuleCall::Reply(t) && told(t@, failure(unready())),
                (Some(_), None) => r matches ModuleCall::Reply(t) && told(
                    t@,
                    failure("no configuration for chain "@ + decimal(unsigned(id) as nat)),
                ),
                (Some(_), Some(c)) => if lacks_proxy(c) {
                    r matches ModuleCall::Reply(t) && told(
                        t@,
                        failure("proxy: "@ + "a proxy is required but none is configured"@),
                    )
                } else {
                    r matches ModuleCall::Post(p) && p.kind == ReplyKind::Value && request_for(
                        p.request,
                        c,
                        url@,
                        method@,
                        params,
                    )
                },
            },
        }),
{
    match json_read(params_json@) {
        Err(e) => lemma_failure(r->Reply_0@, e),
        Ok(params) => {
            lemma_request(method@, params);
            match (m.rpc, config) {
                (None, _) => lemma_failure(r->Reply_0@, unready()),
                (Some(_), None) => lemma_failure(
                    r->Reply_0@,
                    "no configuration for chain "@ + decimal(unsigned(id) as nat),
                ),
                (Some(_), Some(c)) => if lacks_proxy(c) {
                    lemma_failure(
                        r->Reply_0@,
                        "proxy: "@ + "a proxy is required but none is configured"@,
                    );
                },
            }
        },
    }
}

// ---------------------------------------------------------------------------
// Configurations
// ---------------------------------------------------------------------------

/// Whether the module's client became what `client` became, and tells of nothing else.
pub open spec fn same_client<R: VerifiedRouter>(
    m: &EthRpcModuleImpl<R>,
    client: &EthRpc<R>,
) -> bool {
    m.rpc matches Some(rpc) && rpc@ == client@ && rpc.router() == client.router()
}

/// Whether an object is a configuration, each field under its name.
pub open spec fn config_in(o: JsonView, c: &ChainConfig) -> bool {
    holds_exactly(
        o,
        seq![
            ("endpoint"@, JsonView::Str(c.endpoint@)),
            (
                "proxy"@,
                match c.proxy {
                    Some(p) => JsonView::Str(p@),
                    None => JsonView::Null,
                },
            ),
            ("proxyRequired"@, JsonView::Bool(c.proxy_required)),
            ("timeoutSecs"@, JsonView::Integer(c.timeout_secs as int)),
            (
                "verifiedProxyMode"@,
                JsonView::Str(
                    match c.verified_proxy_mode {
                        VerifiedProxyMode::Off => "off"@,
                        VerifiedProxyMode::Required => "required"@,
                    },
                ),
            ),
            ("verifiedTimeoutSecs"@, JsonView::Integer(c.verified_timeout_secs as int)),
        ],
    )
}

/// A module has no client at first; one whose context is ready has the client of the store that it
/// was given, with its router.
pub proof fn law_module_context<R: VerifiedRouter>(
    fresh: EthRpcModuleImpl<R>,
    m: &mut EthRpcModuleImpl<R>,
    path: String,
    saved: Vec<StoredChain>,
    router: Arc<R>,
    opened: EthRpc<R>,
    usual: EthRpcModuleImpl<R>,
    client: EthRpc<R>,
    made: EthRpc<R>,
)
    requires
        call_ensures(EthRpcModuleImpl::<R>::new, (), fresh),
        call_ensures(EthRpcModuleImpl::<R>::on_context_ready, (m, path, saved, router), ()),
        call_ensures(EthRpc::<R>::with_store, (path, saved), opened),
        call_ensures(EthRpcModuleImpl::<R>::default, (), usual),
        call_ensures(EthRpc::<R>::default, (), client),
        call_ensures(EthRpc::<R>::new, (), made),
    ensures
        fresh.rpc is None,
        usual.rpc is None,
        client@ == made@,
        client.router() == made.router(),
        final(m).rpc matches Some(rpc) && rpc@ == opened@ && rpc.router() == Some(router),
{
}

/// A configuration is set as the client sets it, and the answer says whether it was.
pub proof fn law_module_set_chain_config<R: VerifiedRouter>(
    m: &mut EthRpcModuleImpl<R>,
    id: i64,
    cfg: Option<ChainConfig>,
    r: bool,
    client: &mut EthRpc<R>,
    done: Result<(), String>,
)
    requires
        call_ensures(EthRpcModuleImpl::<R>::set_chain_config, (m, id, cfg), r),
        old(m).rpc matches Some(rpc) ==> *old(client) == rpc,
        cfg matches Some(c) ==> call_ensures(
            EthRpc::<R>::set_chain_config,
            (client, unsigned(id), c),
            done,
        ),
    ensures
        old(m).rpc is Some && cfg is Some ==> r == (done is Ok) && same_client(
            final(m),
            final(client),
        ),
        old(m).rpc is None || cfg is None ==> !r && final(m).rpc == old(m).rpc,
{
}

/// A configuration is told field by field.
pub proof fn law_module_get_chain_config<R: VerifiedRouter>(
    m: &EthRpcModuleImpl<R>,
    id: i64,
    config: Option<&ChainConfig>,
    text: String,
)
    requires
        configured(m, id, config),
        call_ensures(EthRpcModuleImpl::<R>::get_chain_config, (m, id), text),
    ensures
        (match (m.rpc, config) {
            (None, _) => told(text@, failure(unready())),
            (Some(_), None) => told(
                text@,
                failure("no config for chain "@ + signed_decimal(id as int)),
            ),
            (Some(_), Some(c)) => exists|o: JsonView| #[trigger]
                config_in(o, c) && told(text@, done("config"@, o)),
        }),
{
    reveal_strlit("config");
    match (m.rpc, config) {
        (None, _) => lemma_failure(text@, unready()),
        (Some(_), None) => lemma_failure(
            text@,
            "no config for chain "@ + signed_decimal(id as int),
        ),
        (Some(_), Some(c)) => {
            let fields = c@.json_members();
            let o = JsonView::Object(entries_map(fields));
            lemma_config_members(c@);
            reveal_strlit("endpoint");
            reveal_strlit("proxy");
            reveal_strlit("proxyRequired");
            reveal_strlit("timeoutSecs");
            reveal_strlit("verifiedProxyMode");
            reveal_strlit("verifiedTimeoutSecs");
            let lengths = seq![8nat, 5, 13, 11, 17, 19];
            assert forall|i: int| 0 <= i < 6 implies (#[trigger] fields[i]).0.len()
                == lengths[i] by {}
            lemma_members(fields);
            assert(holds_exactly(o, fields));
            assert(config_in(o, c));
            lemma_done(text@, "config"@, o);
        },
    }
}

/// A chain is removed as the client removes it.
pub proof fn law_module_remove_chain_config<R: VerifiedRouter>(
    m: &mut EthRpcModuleImpl<R>,
    id: i64,
    r: bool,
    client: &mut EthRpc<R>,
    removed: bool,
)
    requires
        call_ensures(EthRpcModuleImpl::<R>::remove_chain_config, (m, id), r),
        old(m).rpc matches Some(rpc) ==> *old(client) == rpc,
        call_ensures(EthRpc::<R>::remove_chain_config, (client, unsigned(id)), removed),
    ensures
        old(m).rpc is Some ==> r == removed && same_client(final(m), final(client)),
        old(m).rpc is None ==> !r && final(m).rpc is None,
{
}

/// Ids as a list in JSON.
pub open spec fn id_array(ids: Seq<u64>) -> JsonView {
    JsonView::Array(Seq::new(ids.len(), |i: int| JsonView::Integer(ids[i] as int)))
}

/// The chains that the client lists are told under `chains`.
pub proof fn law_module_list_chains<R: VerifiedRouter>(
    m: &EthRpcModuleImpl<R>,
    text: String,
    ids: Vec<u64>,
)
    requires
        call_ensures(EthRpcModuleImpl::<R>::list_chains, (m,), text),
        m.rpc matches Some(rpc) ==> call_ensures(EthRpc::<R>::list_chains, (&rpc,), ids),
    ensures
        m.rpc is None ==> told(text@, failure(unready())),
        m.rpc is Some ==> told(text@, done("chains"@, id_array(ids@))),
{
    reveal_strlit("chains");
    let found = choose|found: Seq<u64>| #[trigger]
        listing(m.store(), found) && writes(text@, chains_reply(m.store(), found));
    match m.rpc {
        None => lemma_failure(text@, unready()),
        Some(rpc) => {
            law_listing_is_unique(ids@, found, rpc@.chains);
            assert(ids_json(ids@)->Array_0 =~= id_array(ids@)->Array_0);
            lemma_done(text@, "chains"@, id_array(ids@));
        },
    }
}

/// A chain is seeded as the client seeds it, and the fields that were written are told. What is no
/// configuration, or a contradictory one, is refused with its reason, and nothing changes.
pub proof fn law_module_ensure_chain_config<R: VerifiedRouter>(
    m: &mut EthRpcModuleImpl<R>,
    id: i64,
    cfg: Result<ChainConfig, String>,
    text: String,
    valid: Result<(), String>,
    client: &mut EthRpc<R>,
    fields: Vec<String>,
)
    requires
        call_ensures(EthRpcModuleImpl::<R>::ensure_chain_config, (m, id, cfg), text),
        old(m).rpc matches Some(rpc) ==> *old(client) == rpc,
        cfg matches Ok(c) ==> call_ensures(ChainConfig::validate, (&c,), valid) && call_ensures(
            EthRpc::<R>::ensure_chain_config,
            (client, unsigned(id), &c),
            fields,
        ),
    ensures
        cfg matches Err(e) ==> told(text@, failure(e@)),
        cfg is Ok ==> (match (valid, old(m).rpc) {
            (Err(e), _) => told(text@, failure(e@)),
            (Ok(_), None) => told(text@, failure(unready())),
            (Ok(_), Some(_)) => same_client(final(m), final(client)) && told(
                text@,
                done(
                    "seeded"@,
                    JsonView::Array(
                        Seq::new(fields@.len(), |i: int| JsonView::Str(fields@[i]@)),
                    ),
                ),
            ),
        }),
        cfg is Err || valid is Err || old(m).rpc is None ==> final(m).rpc == old(m).rpc,
{
    reveal_strlit("seeded");
    match cfg {
        Err(e) => lemma_failure(text@, e@),
        Ok(c) => match (valid, old(m).rpc) {
            (Err(e), _) => lemma_failure(text@, e@),
            (Ok(_), None) => lemma_failure(text@, unready()),
            (Ok(_), Some(_)) => {
                let list = Seq::new(fields@.len(), |i: int| JsonView::Str(fields@[i]@));
                assert(texts_json(texts_view(fields@))->Array_0 =~= list);
                lemma_done(text@, "seeded"@, JsonView::Array(list));
            },
        },
    }
}

/// The seconds that a patch sets: none for 0 and less.
pub open spec fn seconds(n: i64) -> Option<u64> {
    if n <= 0 {
        None
    } else {
        Some(n as u64)
    }
}

/// Timeouts are patched as the client patches them; an unknown chain is told as an error.
pub proof fn law_module_patch_chain_transport<R: VerifiedRouter>(
    m: &mut EthRpcModuleImpl<R>,
    id: i64,
    timeout_secs: i64,
    verified_timeout_secs: i64,
    text: String,
    client: &mut EthRpc<R>,
    known: bool,
)
    requires
        call_ensures(
            EthRpcModuleImpl::<R>::patch_chain_transport,
            (m, id, timeout_secs, verified_timeout_secs),
            text,
        ),
        old(m).rpc matches Some(rpc) ==> *old(client) == rpc,
        call_ensures(
            EthRpc::<R>::patch_chain_transport,
            (client, unsigned(id), seconds(timeout_secs), seconds(verified_timeout_secs)),
            known,
        ),
    ensures
        old(m).rpc is None ==> told(text@, failure(unready())) && final(m).rpc is None,
        old(m).rpc is Some ==> same_client(final(m), final(client)),
        old(m).rpc is Some && known ==> told(text@, seq![("ok"@, JsonView::Bool(true))]),
        old(m).rpc is Some && !known ==> told(
            text@,
            failure("no configuration for chain "@ + decimal(unsigned(id) as nat)),
        ),
{
    if old(m).rpc is None {
        lemma_failure(text@, unready());
    } else if known {
        lemma_told(text@, seq![("ok"@, JsonView::Bool(true))]);
    } else {
        lemma_failure(text@, "no configuration for chain "@ + decimal(unsigned(id) as nat));
    }
}

/// A mode is switched as the client switches it, by its name in any case and with blanks around
/// it; a name that is no mode changes nothing.
pub proof fn law_module_set_verified_proxy_mode<R: VerifiedRouter>(
    m: &mut EthRpcModuleImpl<R>,
    id: i64,
    name: &str,
    text: String,
    mode: VerifiedProxyMode,
    client: &mut EthRpc<R>,
    switched: Result<(), String>,
)
    requires
        call_ensures(EthRpcModuleImpl::<R>::set_verified_proxy_mode, (m, id, name), text),
        ascii_lower(trimmed(name@)) == "off"@ ==> mode == VerifiedProxyMode::Off,
        ascii_lower(trimmed(name@)) == "required"@ ==> mode == VerifiedProxyMode::Required,
        old(m).rpc matches Some(rpc) ==> *old(client) == rpc,
        call_ensures(
            EthRpc::<R>::set_verified_proxy_mode,
            (client, unsigned(id), mode),
            switched,
        ),
    ensures
        ({
            let n = ascii_lower(trimmed(name@));
            if n != "off"@ && n != "required"@ {
                told(
                    text@,
                    failure(
                        "unknown verified proxy mode '"@ + n + "' (expected off or required)"@,
                    ),
                ) && final(m).rpc == old(m).rpc
            } else if old(m).rpc is None {
                told(text@, failure(unready())) && final(m).rpc is None
            } else {
                same_client(final(m), final(client)) && (match switched {
                    Ok(_) => told(
                        text@,
                        seq![
                            ("ok"@, JsonView::Bool(true)),
                            ("chainId"@, JsonView::Integer(id as int)),
                            ("verifiedProxyMode"@, JsonView::Str(n)),
                        ],
                    ),
                    Err(e) => told(text@, failure(e@)),
                })
            }
        }),
{
    let n = ascii_lower(trimmed(name@));
    reveal_strlit("ok");
    reveal_strlit("chainId");
    reveal_strlit("verifiedProxyMode");
    reveal_strlit("off");
    reveal_strlit("required");
    assert("off"@.len() != "required"@.len());
    if n != "off"@ && n != "required"@ {
        lemma_failure(
            text@,
            "unknown verified proxy mode '"@ + n + "' (expected off or required)"@,
        );
    } else if old(m).rpc is None {
        lemma_failure(text@, unready());
    } else {
        match switched {
            Ok(_) => {
                let members = seq![
                    ("ok"@, JsonView::Bool(true)),
                    ("chainId"@, JsonView::Integer(id as int)),
                    ("verifiedProxyMode"@, JsonView::Str(n)),
                ];
                let lengths = seq![2nat, 7, 17];
                assert forall|i: int| 0 <= i < 3 implies (#[trigger] members[i]).0.len()
                    == lengths[i] by {}
                lemma_told(text@, members);
            },
            Err(e) => lemma_failure(text@, e@),
        }
    }
}

/// Whether the proxy is usable for a chain is told as the router judges it, with the reason.
pub proof fn law_module_verified_proxy_status<R: VerifiedRouter>(
    id: i64,
    status: Result<Json, String>,
    text: String,
    verdict: Result<(), String>,
)
    requires
        call_ensures(EthRpcModuleImpl::<R>::verified_proxy_status, (id, status), text),
        call_ensures(VerifiedProxyRouter::probe, (unsigned(id), status), verdict),
    ensures
        (match verdict {
            Ok(_) => told(
                text@,
                seq![
                    ("ok"@, JsonView::Bool(true)),
                    ("usable"@, JsonView::Bool(true)),
                    ("chainId"@, JsonView::Integer(id as int)),
                ],
            ),
            Err(e) => told(
                text@,
                seq![
                    ("ok"@, JsonView::Bool(true)),
                    ("usable"@, JsonView::Bool(false)),
                    ("chainId"@, JsonView::Integer(id as int)),
                    ("reason"@, JsonView::Str(e@)),
                ],
            ),
        }),
{
    reveal_strlit("ok");
    reveal_strlit("usable");
    reveal_strlit("chainId");
    reveal_strlit("reason");
    assert("usable"@[0] != "reason"@[0]);
    let lengths = seq![2nat, 6, 7, 6];
    match verdict {
        Ok(_) => {
            let members = seq![
                ("ok"@, JsonView::Bool(true)),
                ("usable"@, JsonView::Bool(true)),
                ("chainId"@, JsonView::Integer(id as int)),
            ];
            assert forall|i: int| 0 <= i < 3 implies (#[trigger] members[i]).0.len()
                == lengths[i] by {}
            assert(usable_members(id, true) =~= members);
            lemma_told(text@, members);
        },
        Err(e) => {
            let members = seq![
                ("ok"@, JsonView::Bool(true)),
                ("usable"@, JsonView::Bool(false)),
                ("chainId"@, JsonView::Integer(id as int)),
                ("reason"@, JsonView::Str(e@)),
            ];
            assert forall|i: int| 0 <= i < 4 implies (#[trigger] members[i]).0.len()
                == lengths[i] by {}
            assert(members[1].0 == "usable"@ && members[3].0 == "reason"@);
            assert(usable_members(id, false).push(("reason"@, JsonView::Str(e@))) =~= members);
            lemma_told(text@, members);
        },
    }
}

/// The state of a module that is ready.
pub open spec fn configured_state(ids: Seq<u64>) -> Seq<char> {
    if ids.len() > 0 {
        "configured"@
    } else {
        "unconfigured"@
    }
}

/// The members of a status.
pub open spec fn status_members(state: Seq<char>, source: JsonView, chains: JsonView) -> Seq<
    (Seq<char>, JsonView),
> {
    seq![
        ("ok"@, JsonView::Bool(true)),
        ("state"@, JsonView::Str(state)),
        ("source"@, source),
        ("chains"@, chains),
    ]
}

/// The status tells whether the module is ready and configured, which chains the client lists, and
/// whether any caller has configured one of them.
pub proof fn law_module_config_status<R: VerifiedRouter>(
    m: &EthRpcModuleImpl<R>,
    text: String,
    ids: Vec<u64>,
    id: u64,
    source: Option<ConfigSource>,
)
    requires
        call_ensures(EthRpcModuleImpl::<R>::config_status, (m,), text),
        m.rpc matches Some(rpc) ==> call_ensures(EthRpc::<R>::list_chains, (&rpc,), ids)
            && call_ensures(EthRpc::<R>::config_source, (&rpc, id), source),
    ensures
        m.rpc is None ==> told(
            text@,
            status_members("unready"@, JsonView::Null, JsonView::Array(Seq::empty())),
        ),
        m.rpc is Some ==> exists|s: JsonView|
            {
                &&& #[trigger] told(
                    text@,
                    status_members(configured_state(ids@), s, id_array(ids@)),
                )
                &&& ids@.len() == 0 ==> s == JsonView::Null
                &&& ids@.len() > 0 ==> s == JsonView::Str("default"@) || s == JsonView::Str(
                    "external"@,
                )
                &&& source == Some(ConfigSource::External) ==> s == JsonView::Str("external"@)
                &&& s == JsonView::Str("external"@) ==> exists|k: u64| #[trigger]
                    m.rpc->Some_0@.chains.contains_key(k) && m.rpc->Some_0@.chains[k].source
                        == ConfigSource::External
            },
{
    reveal_strlit("ok");
    reveal_strlit("state");
    reveal_strlit("source");
    reveal_strlit("chains");
    reveal_strlit("default");
    reveal_strlit("external");
    assert("source"@[0] != "chains"@[0]);
    assert("default"@.len() != "external"@.len());
    let lengths = seq![2nat, 5, 6, 6];
    let found = choose|found: Seq<u64>| #[trigger]
        listing(m.store(), found) && writes(text@, status_reply(m.store(), found));
    match m.rpc {
        None => {
            let members = status_members(
                "unready"@,
                JsonView::Null,
                JsonView::Array(Seq::empty()),
            );
            assert(ids_json(found)->Array_0 =~= Seq::empty());
            assert forall|i: int| 0 <= i < 4 implies (#[trigger] members[i]).0.len()
                == lengths[i] by {}
            assert(members[2].0 == "source"@ && members[3].0 == "chains"@);
            lemma_told(text@, members);
        },
        Some(rpc) => {
            law_listing_is_unique(ids@, found, rpc@.chains);
            assert(ids_json(ids@)->Array_0 =~= id_array(ids@)->Array_0);
            let s = store_source(rpc@.chains);
            let members = status_members(configured_state(ids@), s, id_array(ids@));
            assert forall|i: int| 0 <= i < 4 implies (#[trigger] members[i]).0.len()
                == lengths[i] by {}
            assert(members[2].0 == "source"@ && members[3].0 == "chains"@);
            lemma_told(text@, members);
            if ids@.len() > 0 {
                assert(ids@.contains(ids@[0]));
                assert(rpc@.chains.contains_key(ids@[0]));
            } else {
                assert forall|k: u64| !#[trigger] rpc@.chains.contains_key(k) by {
                    assert(!ids@.contains(k));
                }
            }
            if source == Some(ConfigSource::External) {
                assert(rpc@.chains.contains_key(id));
            }
        },
    }
}

/// Defaults are seeded as the client seeds them, and whether any was absent is told.
pub proof fn law_module_init_defaults<R: VerifiedRouter>(
    m: &mut EthRpcModuleImpl<R>,
    text: String,
    client: &mut EthRpc<R>,
    applied: bool,
)
    requires
        call_ensures(EthRpcModuleImpl::<R>::init_defaults, (m,), text),
        old(m).rpc matches Some(rpc) ==> *old(client) == rpc,
        call_ensures(EthRpc::<R>::init_defaults, (client,), applied),
    ensures
        old(m).rpc is None ==> told(text@, failure(unready())) && final(m).rpc is None,
        old(m).rpc is Some ==> told(text@, done("applied"@, JsonView::Bool(applied)))
            && same_client(final(m), final(client)),
{
    reveal_strlit("applied");
    if old(m).rpc is None {
        lemma_failure(text@, unready());
    } else {
        lemma_done(text@, "applied"@, JsonView::Bool(applied));
    }
}

/// What the module has to save is what its client has to save, and is then saved.
pub proof fn law_module_take_save<R: VerifiedRouter>(
    m: &mut EthRpcModuleImpl<R>,
    save: Option<SaveRequest>,
    client: &mut EthRpc<R>,
    theirs: Option<SaveRequest>,
)
    requires
        call_ensures(EthRpcModuleImpl::<R>::take_save, (m,), save),
        old(m).rpc matches Some(rpc) ==> *old(client) == rpc,
        call_ensures(EthRpc::<R>::take_save, (client,), theirs),
    ensures
        old(m).rpc is None ==> save is None && final(m).rpc is None,
        old(m).rpc is Some ==> same_client(final(m), final(client)) && (match (save, theirs) {
            (Some(a), Some(b)) => a.path@ == b.path@ && a.text@ == b.text@,
            (None, None) => true,
            _ => false,
        }),
{
    match old(m).rpc {
        Some(rpc) => {
            let store = rpc@;
            if store.unsaved && store.store_path is Some {
                let a = choose|ids: Seq<u64>| #[trigger]
                    lists(ids, store.chains) && save->Some_0.text@ == json_text_pretty(
                        store_json(stored_view(ids, store.chains)),
                    );
                let b = choose|ids: Seq<u64>| #[trigger]
                    lists(ids, store.chains) && theirs->Some_0.text@ == json_text_pretty(
                        store_json(stored_view(ids, store.chains)),
                    );
                law_listing_is_unique(a, b, store.chains);
            }
        },
        None => {},
    }
}

/// Every call of the module may be made, with any arguments, where the router may be asked for
/// what it needs.
pub proof fn law_module_calls_may_be_made<R: VerifiedRouter>(
    m: &EthRpcModuleImpl<R>,
    id: i64,
    config: Option<&ChainConfig>,
    text: &str,
    n: i64,
)
    requires
        configured(m, id, config),
        m.rpc matches Some(rpc) ==> router_permits(&rpc, unsigned(id), config),
    ensures
        call_requires(EthRpcModuleImpl::<R>::verify_chain_id, (m, id)),
        call_requires(EthRpcModuleImpl::<R>::block_number, (m, id)),
        call_requires(EthRpcModuleImpl::<R>::get_balance, (m, id, text)),
        call_requires(EthRpcModuleImpl::<R>::call, (m, id, text)),
        call_requires(EthRpcModuleImpl::<R>::get_transaction_count, (m, id, text)),
        call_requires(EthRpcModuleImpl::<R>::gas_price, (m, id)),
        call_requires(EthRpcModuleImpl::<R>::fee_history, (m, id, n, text)),
        call_requires(EthRpcModuleImpl::<R>::estimate_gas, (m, id, text)),
        call_requires(EthRpcModuleImpl::<R>::send_raw_transaction, (m, id, text)),
        call_requires(EthRpcModuleImpl::<R>::get_transaction_receipt, (m, id, text)),
        call_requires(EthRpcModuleImpl::<R>::get_transaction_by_hash, (m, id, text)),
        call_requires(EthRpcModuleImpl::<R>::raw_rpc, (m, id, text, text)),
        call_requires(EthRpcModuleImpl::<R>::raw_rpc_url, (m, id, text, text, text)),
        call_requires(EthRpcModuleImpl::<R>::get_chain_config, (m, id)),
        call_requires(EthRpcModuleImpl::<R>::list_chains, (m,)),
        call_requires(EthRpcModuleImpl::<R>::config_status, (m,)),
{
}

} // verus!
