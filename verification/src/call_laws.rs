//! What holds of calls: how they are routed, and what goes to the verified leg and comes back.

use vstd::prelude::*;

use crate::calls::{
    chain_id_of, direct, fee_history_params, settled, text_of, PostRequestView, RoutedView,
};
use crate::config::{mode_name, ChainConfigView, VerifiedProxyMode};
use crate::error::RpcErrorView;
use crate::json::{
    depth_limit, entries_map, json_read, lemma_distinct_entries, lemma_entries_map_from,
    lemma_object_plain, plain, writes, JsonView,
};
use crate::module::{
    chain_key, chains_reply, config_reply, defaults_reply, error_json, ids_json, mode_named,
    mode_reply, patch_reply, reply_json, seed_reply, status_json, status_reply, success_json,
    texts_json, usable_json, usable_members, EthRpcModuleImpl, ModuleCallView, ReplyKind,
};
use crate::proxy::proxy_missing;
use crate::router::{
    clamped_budget, signed_id, status_chain, status_head, status_verdict, text_member,
    RouterStepView, RouterView, HEALTH_TTL_NANOS,
};
use crate::rpc::{EthRpc, EthRpcView};
use crate::text::{digit_char, hex, hex_bytes, hex_quantity, law_hex_quantity_reads_back};
use crate::verified::{
    bytes_of, class_of, coerced, normalized, proof_backed, quantity_of, takes_state_fetch_flag,
    VerifiedClass, VerifiedRouter,
};
use crate::verified_laws::{
    given_list, law_coerced_parameters_speak_the_dialect, speaks_the_dialect,
};

verus! {

// ---------------------------------------------------------------------------
// Routing
// ---------------------------------------------------------------------------

/// Where a chain requires verification, no call of it ever becomes a direct request: it is
/// answered by the verified leg or refused by it.
pub proof fn law_required_never_falls_back<R: VerifiedRouter>(
    rpc: &EthRpc<R>,
    id: u64,
    method: &str,
    params: JsonView,
    o: Result<RoutedView, RpcErrorView>,
)
    requires
        rpc@.config(id) matches Some(c) && c.verified_proxy_mode == VerifiedProxyMode::Required,
        rpc.routes(id, method, params, o),
    ensures
        (match o {
            Ok(RoutedView::Verified(_, class)) => class == class_of(method@),
            Ok(RoutedView::Direct(_)) => false,
            Err(e) => e is VerifiedProxy,
        }),
{
}

/// Where a chain does not require verification, the router has no part in a call: the call may be
/// made though the router may be asked for nothing, and what it comes to is settled by the store
/// alone.
pub proof fn law_off_mode_never_touches_the_router<R: VerifiedRouter>(
    rpc: &EthRpc<R>,
    other: &EthRpc<R>,
    id: u64,
    method: &str,
    params: JsonView,
    o: Result<RoutedView, RpcErrorView>,
    p: Result<RoutedView, RpcErrorView>,
)
    requires
        rpc@ == other@,
        rpc@.config(id) matches Some(c) && c.verified_proxy_mode == VerifiedProxyMode::Off,
        rpc.routes(id, method, params, o),
        other.routes(id, method, params, p),
    ensures
        rpc.may_ask(id, method@, params),
        o == p,
        !(o matches Ok(RoutedView::Verified(..))),
{
}

/// The router is asked only for calls of a chain that requires verification, and with parameters in
/// its dialect: any other call may be made, whatever the router may be asked for.
pub proof fn law_router_is_asked_only_where_verification_is_required<R: VerifiedRouter>(
    rpc: &EthRpc<R>,
    id: u64,
    method: Seq<char>,
    params: JsonView,
)
    ensures
        !rpc.may_ask(id, method, params) ==> (rpc@.config(id) matches Some(c)
            && c.verified_proxy_mode == VerifiedProxyMode::Required) && (
        rpc.router() matches Some(router) && exists|q: Seq<JsonView>| #[trigger]
            speaks_the_dialect(method, given_list(params), q) && !router.may_be_asked(
                id,
                method,
                JsonView::Array(q),
            )),
{
    law_coerced_parameters_speak_the_dialect(method, given_list(params));
}

/// A chain that requires a network proxy and has none is sent nothing, neither to its endpoint
/// nor to an explicit address.
pub proof fn law_fail_closed_without_a_proxy(
    store: EthRpcView,
    id: u64,
    url: Option<Seq<char>>,
    method: Seq<char>,
    params: JsonView,
)
    requires
        store.config(id) matches Some(c) && c.proxy_required && c.proxy is None,
    ensures
        direct(store, id, url, method, params) == Err::<PostRequestView, RpcErrorView>(
            RpcErrorView::Proxy(proxy_missing()),
        ),
{
}

/// No call of a chain that requires a network proxy is ever sent around it.
pub proof fn law_required_proxy_is_always_used<R: VerifiedRouter>(
    rpc: &EthRpc<R>,
    id: u64,
    method: &str,
    params: JsonView,
    o: Result<RoutedView, RpcErrorView>,
    url: Seq<char>,
)
    requires
        rpc@.config(id) matches Some(c) && c.proxy_required,
        rpc.routes(id, method, params, o),
    ensures
        o matches Ok(RoutedView::Direct(p)) ==> p.client.proxy is Some && p.client.proxy
            == rpc@.config(id)->Some_0.proxy,
        direct(rpc@, id, Some(url), method@, params) matches Ok(p) ==> p.client.proxy is Some
            && p.client.proxy == rpc@.config(id)->Some_0.proxy,
{
}

/// A chain without a configuration is called nowhere.
pub proof fn law_unknown_chain_is_refused<R: VerifiedRouter>(
    rpc: &EthRpc<R>,
    id: u64,
    method: &str,
    params: JsonView,
    o: Result<RoutedView, RpcErrorView>,
    url: Seq<char>,
)
    requires
        rpc@.config(id) is None,
        rpc.routes(id, method, params, o),
    ensures
        o == Err::<RoutedView, RpcErrorView>(RpcErrorView::UnknownChain(id)),
        direct(rpc@, id, Some(url), method@, params) == Err::<PostRequestView, RpcErrorView>(
            RpcErrorView::UnknownChain(id),
        ),
{
}

/// A direct request carries the method and the parameters as they were given: the dialect of the
/// verified leg stays on the verified leg.
pub proof fn law_direct_leg_sends_what_was_given(
    store: EthRpcView,
    id: u64,
    url: Option<Seq<char>>,
    method: Seq<char>,
    params: JsonView,
)
    ensures
        direct(store, id, url, method, params) matches Ok(p) ==> {
            &&& p.body.get("method"@) == Some(JsonView::Str(method))
            &&& p.body.get("params"@) == Some(params)
            &&& p.body.get("jsonrpc"@) == Some(JsonView::Str("2.0"@))
            &&& p.body.get("id"@) == Some(JsonView::Integer(1))
            &&& p.url == (match url {
                Some(u) => u,
                None => store.config(id)->Some_0.endpoint,
            })
        },
{
    let members = seq![
        ("jsonrpc"@, JsonView::Str("2.0"@)),
        ("id"@, JsonView::Integer(1)),
        ("method"@, JsonView::Str(method)),
        ("params"@, params),
    ];
    reveal_strlit("jsonrpc");
    reveal_strlit("id");
    reveal_strlit("method");
    reveal_strlit("params");
    assert("method"@[0] != "params"@[0]);
    assert(members[0].0 == "jsonrpc"@ && members[1].0 == "id"@);
    assert(members[2].0 == "method"@ && members[3].0 == "params"@);
    lemma_distinct_entries(members);
}

/// An answer is badged as verified exactly where a light client can prove it.
pub proof fn law_only_proof_backed_answers_are_verified(
    method: Seq<char>,
    reply: Result<JsonView, Seq<char>>,
)
    ensures
        settled(method, reply) matches Ok(RoutedView::Verified(_, class)) ==> (class
            == VerifiedClass::Verified <==> proof_backed(method)),
        settled(method, reply) is Ok <==> reply is Ok,
        reply matches Err(e) ==> settled(method, reply) == Err::<RoutedView, RpcErrorView>(
            RpcErrorView::VerifiedProxy(e),
        ),
{
}

// ---------------------------------------------------------------------------
// The dialect of the verified leg
// ---------------------------------------------------------------------------

/// Parameters that are already in the dialect of the verified leg stay as they are.
pub proof fn law_coercion_is_idempotent(method: Seq<char>, p: Seq<JsonView>)
    ensures
        coerced(method, coerced(method, p)) == coerced(method, p),
{
    let once = coerced(method, p);
    reveal_strlit("pending");
    reveal_strlit("latest");
    assert("pending"@.len() != "latest"@.len());
    assert(coerced(method, once) =~= once);
}

/// Coercion drops no parameter, and of those given it rewrites only the block count of
/// `eth_feeHistory` and the tag of `eth_getTransactionCount`.
pub proof fn law_coercion_keeps_parameters(method: Seq<char>, p: Seq<JsonView>, i: int)
    requires
        0 <= i < p.len(),
    ensures
        coerced(method, p).len() >= p.len(),
        !(method == "eth_feeHistory"@ && i == 0) && !(method == "eth_getTransactionCount"@ && i
            == 1) ==> coerced(method, p)[i] == p[i],
{
}

/// Any other method's parameters are not touched.
pub proof fn law_coercion_leaves_other_methods_alone(method: Seq<char>, p: Seq<JsonView>)
    requires
        method != "eth_feeHistory"@,
        method != "eth_getTransactionCount"@,
        !takes_state_fetch_flag(method),
    ensures
        coerced(method, p) == p,
{
}

/// The verified leg is never asked for a transaction count at the tag `pending`.
pub proof fn law_pending_is_never_sent(p: Seq<JsonView>)
    requires
        p.len() >= 2,
    ensures
        coerced("eth_getTransactionCount"@, p)[1] != JsonView::Str("pending"@),
        p[1] == JsonView::Str("pending"@) ==> coerced("eth_getTransactionCount"@, p)[1]
            == JsonView::Str("latest"@),
{
    reveal_strlit("eth_getTransactionCount");
    reveal_strlit("eth_feeHistory");
    reveal_strlit("pending");
    reveal_strlit("latest");
    assert("eth_getTransactionCount"@.len() != "eth_feeHistory"@.len());
    assert("pending"@.len() != "latest"@.len());
}

/// The methods that the proxy extends get its third parameter, and the block tag before it.
pub proof fn law_state_fetch_flag_is_supplied(method: Seq<char>, p: Seq<JsonView>)
    requires
        takes_state_fetch_flag(method),
    ensures
        coerced(method, p).len() >= 3,
        p.len() <= 2 ==> coerced(method, p).len() == 3 && coerced(method, p)[2] == JsonView::Bool(
            false,
        ),
        p.len() <= 1 ==> coerced(method, p)[1] == JsonView::Str("latest"@),
{
    reveal_strlit("eth_call");
    reveal_strlit("eth_estimateGas");
    reveal_strlit("eth_createAccessList");
    reveal_strlit("eth_getTransactionCount");
    reveal_strlit("eth_feeHistory");
    assert(method.len() == 8 || method.len() == 15 || method.len() == 20);
    assert("eth_getTransactionCount"@.len() == 23);
    assert("eth_feeHistory"@.len() == 14);
}

/// The number of blocks of a fee history reaches the verified leg as a number.
pub proof fn law_fee_history_count_becomes_a_number(blocks: u64, percentiles: JsonView)
    ensures
        coerced("eth_feeHistory"@, fee_history_params(blocks, percentiles)->Array_0) == seq![
            JsonView::Integer(blocks as int),
            JsonView::Str("latest"@),
            percentiles,
        ],
{
    let p = fee_history_params(blocks, percentiles)->Array_0;
    law_hex_quantity_reads_back(blocks);
    reveal_strlit("0x");
    let s = "0x"@ + hex(blocks as nat);
    assert(s.skip(2) =~= hex(blocks as nat));
    assert("0x"@.is_prefix_of(s));
    assert(quantity_of(p[0]) == Some(blocks));
    assert(coerced("eth_feeHistory"@, p) =~= seq![
        JsonView::Integer(blocks as int),
        JsonView::Str("latest"@),
        percentiles,
    ]);
}

/// A result that is neither a list of bytes nor an unsigned number is in the form of the wire
/// already, and is not touched.
pub proof fn law_wire_form_is_left_alone(v: JsonView)
    requires
        v matches JsonView::Array(items) ==> items.len() == 0 || bytes_of(items) is None,
        v.as_u64() is None,
    ensures
        normalized(v) == v,
{
}

/// Normalising twice is normalising once.
pub proof fn law_normalising_is_idempotent(v: JsonView)
    ensures
        normalized(normalized(v)) == normalized(v),
{
}

/// A number is normalised to a quantity that denotes it.
pub proof fn law_normalised_number_reads_back(n: u64)
    ensures
        normalized(JsonView::Integer(n as int)) matches JsonView::Str(s) && hex_quantity(s) == Some(
            n,
        ),
{
    law_hex_quantity_reads_back(n);
}

/// Bytes are normalised to two digits each, and different bytes to different texts.
pub proof fn law_normalised_bytes_are_told_apart(a: Seq<u8>, b: Seq<u8>)
    requires
        hex_bytes(a) == hex_bytes(b),
    ensures
        a == b,
{
    assert(hex_bytes(a).len() == 2 * a.len());
    assert(hex_bytes(b).len() == 2 * b.len());
    assert forall|i: int| 0 <= i < a.len() implies #[trigger] a[i] == b[i] by {
        assert(hex_bytes(a)[2 * i] == digit_char(a[i] as int / 16));
        assert(hex_bytes(b)[2 * i] == digit_char(b[i] as int / 16));
        assert(hex_bytes(a)[2 * i + 1] == digit_char(a[i] as int % 16));
        assert(hex_bytes(b)[2 * i + 1] == digit_char(b[i] as int % 16));
        assert(a[i] as int == 16 * (a[i] as int / 16) + a[i] as int % 16);
        assert(b[i] as int == 16 * (b[i] as int / 16) + b[i] as int % 16);
    }
    assert(a =~= b);
}

// ---------------------------------------------------------------------------
// The health of the proxy
// ---------------------------------------------------------------------------

/// A proxy is found usable exactly where it is running, on the chain that is asked for, and has
/// a verified head.
pub proof fn law_usable_proxy(id: u64, status: JsonView)
    ensures
        status_verdict(id, status) is Ok <==> text_member(status, "state"@) == Some("running"@)
            && status_chain(status) == signed_id(id) && status_head(status).len() > 0,
{
}

/// A burst of calls costs one probe: as long as a verdict is fresh it is reused, and once it is
/// not, the proxy is asked again.
pub proof fn law_a_burst_costs_one_probe(
    router: RouterView,
    id: u64,
    at: u64,
    now: u64,
    verdict: Result<(), Seq<char>>,
)
    ensures
        now - at < HEALTH_TTL_NANOS ==> router.remember(id, at, verdict).fresh_verdict(id, now)
            == Some(verdict),
        now - at >= HEALTH_TTL_NANOS ==> router.remember(id, at, verdict).fresh_verdict(
            id,
            now,
        ) is None,
{
}

/// A verdict on one chain says nothing of another.
pub proof fn law_verdicts_are_per_chain(
    router: RouterView,
    id: u64,
    other: u64,
    at: u64,
    now: u64,
    verdict: Result<(), Seq<char>>,
)
    requires
        id != other,
    ensures
        router.remember(id, at, verdict).fresh_verdict(other, now) == router.fresh_verdict(
            other,
            now,
        ),
{
}

/// A call is put to the proxy only on a good verdict.
pub proof fn law_dispatch_needs_a_good_verdict(
    router: RouterView,
    id: u64,
    verdict: Result<(), Seq<char>>,
)
    ensures
        router.step_for(id, verdict) is Dispatch <==> verdict is Ok,
        verdict matches Err(e) ==> router.step_for(id, verdict) == RouterStepView::Refuse(e),
{
}

/// Whether every budget that was set is between 1 and 60 seconds.
pub open spec fn budgets_bounded(router: RouterView) -> bool {
    forall|id: u64| #[trigger]
        router.budget.contains_key(id) ==> 1 <= router.budget[id] <= 60
}

/// A call always gets between 1 and 60 seconds, whatever budget was asked for.
pub proof fn law_budgets_stay_bounded(
    router: RouterView,
    id: u64,
    secs: u64,
    at: u64,
    verdict: Result<(), Seq<char>>,
)
    requires
        budgets_bounded(router),
    ensures
        budgets_bounded(
            RouterView { budget: router.budget.insert(id, clamped_budget(secs)), ..router },
        ),
        budgets_bounded(router.remember(id, at, verdict)),
        1 <= router.budget_for(id) <= 60,
{
}

// ---------------------------------------------------------------------------
// Answers
// ---------------------------------------------------------------------------

/// A signed chain id and the unsigned one with the same bits stand for each other.
pub proof fn law_chain_keys_are_told_apart(id: i64, key: u64)
    ensures
        signed_id(chain_key(id)) == id,
        chain_key(signed_id(key) as i64) == key,
{
}

/// Every answer to a call says whether it succeeded: `ok` is true exactly where there is a
/// result, and where it is false the error's message is given.
pub proof fn law_every_answer_says_whether_it_succeeded(
    kind: ReplyKind,
    result: Result<JsonView, RpcErrorView>,
)
    ensures
        ({
            let error = match result {
                Err(e) => Some(e),
                Ok(v) => if kind == ReplyKind::ChainId {
                    match chain_id_of(v) {
                        Err(e) => Some(e),
                        Ok(_) => None,
                    }
                } else {
                    None
                },
            };
            let reply = reply_json(kind, result);
            &&& reply.get("ok"@) == Some(JsonView::Bool(error is None))
            &&& error matches Some(e) ==> reply.get("error"@) == Some(JsonView::Str(e.message()))
            &&& error is None ==> reply.get("error"@) is None
        }),
{
    reveal_strlit("ok");
    reveal_strlit("error");
    reveal_strlit("result");
    reveal_strlit("hash");
    reveal_strlit("chainId");
    match result {
        Err(e) => {
            lemma_two_members("ok"@, JsonView::Bool(false), "error"@, JsonView::Str(e.message()));
        },
        Ok(v) => {
            match chain_id_of(v) {
                Err(e) => lemma_two_members(
                    "ok"@,
                    JsonView::Bool(false),
                    "error"@,
                    JsonView::Str(e.message()),
                ),
                Ok(id) => lemma_two_members(
                    "ok"@,
                    JsonView::Bool(true),
                    "chainId"@,
                    JsonView::Integer(id as int),
                ),
            }
            let text = JsonView::Str(text_of(v));
            lemma_two_members("ok"@, JsonView::Bool(true), "result"@, v);
            lemma_two_members("ok"@, JsonView::Bool(true), "result"@, text);
            lemma_two_members("ok"@, JsonView::Bool(true), "hash"@, text);
            assert("error"@.len() != "result"@.len());
            assert("error"@.len() != "hash"@.len());
            assert("error"@.len() != "chainId"@.len());
        },
    }
}

/// Whether an answer says that it succeeded, or, where it did not, why.
pub open spec fn says_whether(answer: JsonView, ok: bool) -> bool {
    &&& answer.get("ok"@) == Some(JsonView::Bool(ok))
    &&& ok ==> answer.get("error"@) is None
    &&& !ok ==> (answer.get("error"@) matches Some(JsonView::Str(_)))
}

/// Every answer about configurations says whether it succeeded: `ok` is true exactly where it did,
/// and where it is false the reason is given under `error`.
pub proof fn law_every_configuration_answer_says_whether_it_succeeded(
    store: Option<EthRpcView>,
    id: i64,
    ids: Seq<u64>,
    cfg: Result<ChainConfigView, Seq<char>>,
    mode: Seq<char>,
    verdict: Result<(), Seq<char>>,
)
    ensures
        ({
            let known = store is Some && store->Some_0.chains.contains_key(chain_key(id));
            let m = mode_named(mode);
            &&& says_whether(config_reply(store, id), known)
            &&& says_whether(chains_reply(store, ids), store is Some)
            &&& says_whether(
                seed_reply(store, id, cfg),
                store is Some && (cfg matches Ok(c) && c.valid()),
            )
            &&& says_whether(patch_reply(store, id), known)
            &&& says_whether(
                mode_reply(store, id, mode),
                known && m is Some && store->Some_0.in_mode(chain_key(id), m->Some_0).valid(),
            )
            &&& says_whether(usable_json(id, verdict), true)
            &&& says_whether(status_reply(store, ids), true)
            &&& says_whether(defaults_reply(store), store is Some)
        }),
{
    reveal_keys();
    assert forall|e: Seq<char>| says_whether(#[trigger] error_json(e), false) by {
        lemma_first_member(seq![("ok"@, JsonView::Bool(false)), ("error"@, JsonView::Str(e))]);
        lemma_two_members("ok"@, JsonView::Bool(false), "error"@, JsonView::Str(e));
    }
    assert forall|key: Seq<char>, v: JsonView| key != "ok"@ && key != "error"@ implies says_whether(
        #[trigger] success_json(key, v),
        true,
    ) by {
        lemma_first_member(seq![("ok"@, JsonView::Bool(true)), (key, v)]);
    }
    lemma_first_member(seq![("ok"@, JsonView::Bool(true))]);
    lemma_first_member(
        seq![
            ("ok"@, JsonView::Bool(true)),
            ("chainId"@, JsonView::Integer(id as int)),
            ("verifiedProxyMode"@, JsonView::Str(mode_name(VerifiedProxyMode::Off))),
        ],
    );
    lemma_first_member(
        seq![
            ("ok"@, JsonView::Bool(true)),
            ("chainId"@, JsonView::Integer(id as int)),
            ("verifiedProxyMode"@, JsonView::Str(mode_name(VerifiedProxyMode::Required))),
        ],
    );
    lemma_first_member(usable_members(id, true));
    match verdict {
        Ok(_) => {},
        Err(e) => {
            lemma_first_member(usable_members(id, false).push(("reason"@, JsonView::Str(e))));
        },
    }
    assert forall|state: Seq<char>, source: JsonView, chains: JsonView| says_whether(
        #[trigger] status_json(state, source, chains),
        true,
    ) by {
        lemma_first_member(
            seq![
                ("ok"@, JsonView::Bool(true)),
                ("state"@, JsonView::Str(state)),
                ("source"@, source),
                ("chains"@, chains),
            ],
        );
    }
}

/// What the keys of answers are.
proof fn reveal_keys()
    ensures
        "ok"@.len() == 2,
        "error"@.len() == 5,
        "error"@[0] == 'e',
        "config"@.len() == 6,
        "chains"@.len() == 6,
        "seeded"@.len() == 6,
        "applied"@.len() == 7,
        "state"@.len() == 5,
        "state"@[0] == 's',
        "source"@.len() == 6,
        "usable"@.len() == 6,
        "chainId"@.len() == 7,
        "reason"@.len() == 6,
        "verifiedProxyMode"@.len() == 17,
{
    reveal_strlit("ok");
    reveal_strlit("error");
    reveal_strlit("config");
    reveal_strlit("chains");
    reveal_strlit("seeded");
    reveal_strlit("applied");
    reveal_strlit("state");
    reveal_strlit("source");
    reveal_strlit("usable");
    reveal_strlit("chainId");
    reveal_strlit("reason");
    reveal_strlit("verifiedProxyMode");
}

/// A first member whose key does not come again is found under it; a key that does not come at all
/// is not found.
proof fn lemma_first_member(members: Seq<(Seq<char>, JsonView)>)
    requires
        members.len() > 0,
        forall|i: int| 0 < i < members.len() ==> (#[trigger] members[i]).0 != members[0].0,
    ensures
        entries_map(members).contains_key(members[0].0),
        entries_map(members)[members[0].0] == members[0].1,
        forall|key: Seq<char>|
            (forall|i: int| 0 <= i < members.len() ==> (#[trigger] members[i]).0 != key)
                ==> !#[trigger] entries_map(members).contains_key(key),
    decreases members.len(),
{
    let shorter = members.drop_last();
    assert forall|key: Seq<char>|
        (forall|i: int| 0 <= i < members.len() ==> (#[trigger] members[i]).0 != key)
            implies !#[trigger] entries_map(members).contains_key(key) by {
        if entries_map(members).contains_key(key) {
            lemma_entries_map_from(members, key);
        }
    }
    if members.len() > 1 {
        assert forall|i: int| 0 < i < shorter.len() implies (#[trigger] shorter[i]).0
            != shorter[0].0 by {
            assert(shorter[i] == members[i]);
        }
        lemma_first_member(shorter);
        assert(members[members.len() - 1].0 != members[0].0);
    }
}

/// An object of two members.
proof fn lemma_two_members(a: Seq<char>, x: JsonView, b: Seq<char>, y: JsonView)
    requires
        a.len() != b.len(),
    ensures
        entries_map(seq![(a, x), (b, y)]) == Map::empty().insert(a, x).insert(b, y),
{
    let members = seq![(a, x), (b, y)];
    reveal_with_fuel(entries_map, 3);
    assert(members.drop_last() =~= seq![(a, x)]);
    assert(members.drop_last().drop_last() =~= Seq::empty());
}

/// Whether any text of a value reads back as that value.
pub open spec fn reads_back(v: JsonView) -> bool {
    forall|text: Seq<char>| #[trigger]
        writes(text, v) ==> json_read(text) == Ok::<JsonView, Seq<char>>(v)
}

/// Every answer about configurations reads back as the object that it is the text of.
pub proof fn law_every_configuration_answer_reads_back(
    store: Option<EthRpcView>,
    id: i64,
    ids: Seq<u64>,
    cfg: Result<ChainConfigView, Seq<char>>,
    mode: Seq<char>,
    verdict: Result<(), Seq<char>>,
)
    ensures
        reads_back(config_reply(store, id)),
        reads_back(chains_reply(store, ids)),
        reads_back(seed_reply(store, id, cfg)),
        reads_back(patch_reply(store, id)),
        reads_back(mode_reply(store, id, mode)),
        reads_back(usable_json(id, verdict)),
        reads_back(status_reply(store, ids)),
        reads_back(defaults_reply(store)),
{
    assert forall|e: Seq<char>| plain(#[trigger] error_json(e), depth_limit()) by {
        lemma_error_plain(e);
    }
    assert forall|key: Seq<char>, v: JsonView| plain(v, 126) implies plain(
        #[trigger] success_json(key, v),
        depth_limit(),
    ) by {
        lemma_success_plain(key, v);
    }
    match store {
        Some(s) => {
            match s.config(chain_key(id)) {
                Some(c) => lemma_object_plain(c.json_members(), 125),
                None => {},
            }
        },
        None => {},
    }
    assert forall|texts: Seq<Seq<char>>| plain(#[trigger] texts_json(texts), 126) by {
        lemma_lists_plain(ids, texts);
    }
    lemma_lists_plain(ids, Seq::empty());
    lemma_object_plain(seq![("ok"@, JsonView::Bool(true))], 126);
    assert forall|m: VerifiedProxyMode| plain(
        JsonView::Object(
            entries_map(
                seq![
                    ("ok"@, JsonView::Bool(true)),
                    ("chainId"@, JsonView::Integer(id as int)),
                    ("verifiedProxyMode"@, JsonView::Str(#[trigger] mode_name(m))),
                ],
            ),
        ),
        depth_limit(),
    ) by {
        lemma_object_plain(
            seq![
                ("ok"@, JsonView::Bool(true)),
                ("chainId"@, JsonView::Integer(id as int)),
                ("verifiedProxyMode"@, JsonView::Str(mode_name(m))),
            ],
            126,
        );
    }
    lemma_object_plain(usable_members(id, true), 126);
    match verdict {
        Ok(_) => {},
        Err(e) => lemma_object_plain(
            usable_members(id, false).push(("reason"@, JsonView::Str(e))),
            126,
        ),
    }
    assert forall|state: Seq<char>, source: JsonView, chains: JsonView|
        plain(source, 126) && plain(chains, 126) implies plain(
        #[trigger] status_json(state, source, chains),
        depth_limit(),
    ) by {
        lemma_object_plain(
            seq![
                ("ok"@, JsonView::Bool(true)),
                ("state"@, JsonView::Str(state)),
                ("source"@, source),
                ("chains"@, chains),
            ],
            126,
        );
    }
}

/// An answer to a call reads back as the object that it is the text of, unless it passes on a
/// result that holds a number other than an integer, or that nests too deep to be read.
pub proof fn law_every_answer_reads_back(kind: ReplyKind, result: Result<JsonView, RpcErrorView>)
    requires
        kind == ReplyKind::Value ==> (result matches Ok(v) ==> plain(
            v,
            (depth_limit() - 1) as nat,
        )),
    ensures
        reads_back(reply_json(kind, result)),
{
    assert forall|e: Seq<char>| plain(#[trigger] error_json(e), depth_limit()) by {
        lemma_error_plain(e);
    }
    assert forall|key: Seq<char>, v: JsonView| plain(v, 126) implies plain(
        #[trigger] success_json(key, v),
        depth_limit(),
    ) by {
        lemma_success_plain(key, v);
    }
}

proof fn lemma_lists_plain(ids: Seq<u64>, texts: Seq<Seq<char>>)
    ensures
        plain(ids_json(ids), 126),
        plain(texts_json(texts), 126),
{
    reveal_with_fuel(plain, 2);
}

proof fn lemma_error_plain(e: Seq<char>)
    ensures
        plain(error_json(e), depth_limit()),
{
    lemma_object_plain(seq![("ok"@, JsonView::Bool(false)), ("error"@, JsonView::Str(e))], 126);
}

proof fn lemma_success_plain(key: Seq<char>, v: JsonView)
    requires
        plain(v, 126),
    ensures
        plain(success_json(key, v), depth_limit()),
{
    lemma_object_plain(seq![("ok"@, JsonView::Bool(true)), (key, v)], 126);
}

/// A module whose chain requires verification never asks its host to send a request to the
/// chain's endpoint: each call is answered at once.
pub proof fn law_module_never_posts_around_verification<R: VerifiedRouter>(
    module: &EthRpcModuleImpl<R>,
    id: i64,
    method: &str,
    params: JsonView,
    kind: ReplyKind,
    m: ModuleCallView,
)
    requires
        module.rpc matches Some(rpc) && (rpc@.config(chain_key(id)) matches Some(c)
            && c.verified_proxy_mode == VerifiedProxyMode::Required),
        module.answers(id, method, params, kind, m),
    ensures
        m is Reply,
{
}

/// A module whose chain requires a network proxy never asks its host to send a request without
/// one; where there is none, and the chain is not routed through the verified leg, each call is
/// answered with the refusal.
pub proof fn law_module_fails_closed<R: VerifiedRouter>(
    module: &EthRpcModuleImpl<R>,
    id: i64,
    method: &str,
    params: JsonView,
    kind: ReplyKind,
    m: ModuleCallView,
)
    requires
        module.rpc matches Some(rpc) && (rpc@.config(chain_key(id)) matches Some(c)
            && c.proxy_required),
        module.answers(id, method, params, kind, m),
    ensures
        m matches ModuleCallView::Post(request, _) ==> request.client.proxy is Some,
        ({
            let c = module.rpc->Some_0@.config(chain_key(id))->Some_0;
            c.proxy is None && c.verified_proxy_mode == VerifiedProxyMode::Off ==> m.says(
                error_json(RpcErrorView::Proxy(proxy_missing()).message()),
            )
        }),
{
}

} // verus!
