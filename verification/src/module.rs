//! The module's contract: what a host calls, and what it is told.
//!
//! Structured values cross as JSON texts, `{ "ok": true, ... }` or
//! `{ "ok": false, "error": "..." }`. [`EthRpcModuleImpl`] decides every answer. Where a call
//! needs a request to be sent, the host gets a [`PendingCall`], sends its request, and turns
//! what came back into the answer with [`PendingCall::finish`].

use std::sync::Arc;

use vstd::prelude::*;

use crate::calls::{
    chain_id_of, chain_id_outcome, direct, fee_history_params, posted_result, reply_view,
    result_chain_id, result_text, result_view, text_of, text_outcome, value_outcome, Call,
    PostRequest, PostRequestView, Posted, RoutedView,
};
use crate::config::{
    contradiction, mode_name, source_name, ChainConfig, ChainConfigView, ConfigSource,
    VerifiedProxyMode,
};
use crate::error::{unknown_chain, unknown_chain_text, RpcError, RpcErrorView};
use crate::json::{
    entries_map, items_view, json_read, members_view, parse_json, push_item, push_member, writes,
    Json, JsonView,
};
use crate::router::{probe_verdict, VerifiedProxyRouter};
use crate::rpc::{
    loaded, lists, stored_chains_view, texts_view, ChainRecordView, EthRpc, EthRpcView, SaveRequest,
    StoredChain,
};
use crate::text::{
    ascii_lower, joined, joined3, same_text, signed_decimal, signed_decimal_text,
    to_ascii_lowercase, trim, trimmed,
};
use crate::verified::VerifiedRouter;

verus! {

/// What the host tells the module about itself.
#[derive(Debug)]
pub struct RustModuleContext {
    /// The directory in which this instance keeps its files.
    pub instance_persistence_path: String,
}

/// The calls that a host can make.
pub trait EthRpcModule: Send + Sync + 'static {
    /// Stores the configuration of a chain: `{ endpoint, proxy?, proxyRequired?, timeoutSecs? }`.
    fn set_chain_config(&self, chain_id: i64, config_json: String) -> bool;

    fn get_chain_config(&self, chain_id: i64) -> String;

    fn remove_chain_config(&self, chain_id: i64) -> bool;

    /// `{ ok, chains: [chainId, ...] }`.
    fn list_chains(&self) -> String;

    /// Asks the node for its chain id: `{ ok, chainId }`.
    fn verify_chain_id(&self, chain_id: i64) -> String;

    fn block_number(&self, chain_id: i64) -> String;

    fn get_balance(&self, chain_id: i64, address: String) -> String;

    /// `eth_call`; `call_json` is a `{ to, data }` object.
    fn call(&self, chain_id: i64, call_json: String) -> String;

    fn get_transaction_count(&self, chain_id: i64, address: String) -> String;

    fn gas_price(&self, chain_id: i64) -> String;

    fn fee_history(&self, chain_id: i64, blocks: i64, reward_percentiles_json: String) -> String;

    fn estimate_gas(&self, chain_id: i64, tx_json: String) -> String;

    fn send_raw_transaction(&self, chain_id: i64, raw_hex: String) -> String;

    fn get_transaction_receipt(&self, chain_id: i64, hash_hex: String) -> String;

    fn get_transaction_by_hash(&self, chain_id: i64, hash_hex: String) -> String;

    /// Any standard JSON-RPC method. `params_json` is a JSON array.
    fn raw_rpc(&self, chain_id: i64, method: String, params_json: String) -> String;

    /// Like `raw_rpc`, but to an explicit `url`, with the chain's fail-closed client.
    fn raw_rpc_url(&self, chain_id: i64, url: String, method: String, params_json: String) -> String;

    /// Seeds a chain only where it is absent, per field, and says which fields were written.
    fn ensure_chain_config(&self, chain_id: i64, config_json: String) -> String;

    /// Overwrites only the transport timeouts that this module owns. 0 leaves one as it is.
    fn patch_chain_transport(
        &self,
        chain_id: i64,
        timeout_secs: i64,
        verified_timeout_secs: i64,
    ) -> String;

    /// `"off"` talks to the endpoint; `"required"` routes through the light-client proxy and
    /// refuses rather than falling back.
    fn set_verified_proxy_mode(&self, chain_id: i64, mode: String) -> String;

    /// `{ ok, usable, reason? }`: whether this chain could route right now, and why not.
    fn verified_proxy_status(&self, chain_id: i64) -> String;

    /// `{ ok, state, source, chains }`: whether the module is ready and configured.
    fn config_status(&self) -> String;

    /// Seeds the endpoints that ship with the module, where they are absent: `{ ok, applied }`.
    fn init_defaults(&self) -> String;

    fn on_context_ready(&self, _ctx: &RustModuleContext) {
    }
}

/// How the result of a call becomes an answer.
#[derive(Clone, Copy, Debug, PartialEq, Eq, Structural)]
pub enum ReplyKind {
    /// As it is, under `result`.
    Value,
    /// As text, under `result`.
    Text,
    /// As text, under `hash`.
    Hash,
    /// As a chain id, under `chainId`.
    ChainId,
}

/// A call whose request is to be sent.
#[derive(Debug)]
pub struct PendingCall {
    pub request: PostRequest,
    pub kind: ReplyKind,
}

/// A call that is answered, or whose request is to be sent.
#[derive(Debug)]
pub enum ModuleCall {
    Reply(String),
    Post(PendingCall),
}

/// The model of a [`ModuleCall`].
#[verifier::ext_equal]
pub enum ModuleCallView {
    Reply(Seq<char>),
    Post(PostRequestView, ReplyKind),
}

impl ModuleCallView {
    /// Whether the call is answered by the text of `v`.
    pub open spec fn says(self, v: JsonView) -> bool {
        self matches ModuleCallView::Reply(text) && writes(text, v)
    }
}

impl View for ModuleCall {
    type V = ModuleCallView;

    open spec fn view(&self) -> ModuleCallView {
        match self {
            ModuleCall::Reply(s) => ModuleCallView::Reply(s@),
            ModuleCall::Post(p) => ModuleCallView::Post(p.request@, p.kind),
        }
    }
}

/// The decisions of the module. It has no client until its context is ready.
pub struct EthRpcModuleImpl<R: VerifiedRouter> {
    pub rpc: Option<EthRpc<R>>,
}

/// What is answered while the context is not ready.
pub open spec fn not_ready() -> Seq<char> {
    "eth_rpc not initialized (context not ready)"@
}

/// A signed chain id as the unsigned number with the same bits.
pub open spec fn chain_key(chain_id: i64) -> u64 {
    if chain_id >= 0 {
        chain_id as u64
    } else {
        (chain_id + 0x1_0000_0000_0000_0000) as u64
    }
}

/// The answer that reports an error.
pub open spec fn error_json(e: Seq<char>) -> JsonView {
    JsonView::Object(
        entries_map(seq![("ok"@, JsonView::Bool(false)), ("error"@, JsonView::Str(e))]),
    )
}

/// The answer that reports success and one thing more.
pub open spec fn success_json(key: Seq<char>, v: JsonView) -> JsonView {
    JsonView::Object(entries_map(seq![("ok"@, JsonView::Bool(true)), (key, v)]))
}

/// The answer to a call, for its result.
pub open spec fn reply_json(kind: ReplyKind, result: Result<JsonView, RpcErrorView>) -> JsonView {
    match result {
        Err(e) => error_json(e.message()),
        Ok(v) => match kind {
            ReplyKind::Value => success_json("result"@, v),
            ReplyKind::Text => success_json("result"@, JsonView::Str(text_of(v))),
            ReplyKind::Hash => success_json("hash"@, JsonView::Str(text_of(v))),
            ReplyKind::ChainId => match chain_id_of(v) {
                Ok(id) => success_json("chainId"@, JsonView::Integer(id as int)),
                Err(e) => error_json(e.message()),
            },
        },
    }
}

/// Whether `m` is the answer to a call that was routed, or the request that it needs.
pub open spec fn outcome_answered(
    kind: ReplyKind,
    o: Result<RoutedView, RpcErrorView>,
    m: ModuleCallView,
) -> bool {
    match o {
        Ok(RoutedView::Direct(p)) => m == ModuleCallView::Post(p, kind),
        Ok(RoutedView::Verified(v, _)) => m.says(reply_json(kind, Ok(v))),
        Err(e) => m.says(reply_json(kind, Err(e))),
    }
}

/// The mode that a text names.
pub open spec fn mode_named(name: Seq<char>) -> Option<VerifiedProxyMode> {
    let n = ascii_lower(trimmed(name));
    if n == "off"@ {
        Some(VerifiedProxyMode::Off)
    } else if n == "required"@ {
        Some(VerifiedProxyMode::Required)
    } else {
        None
    }
}

/// A number of seconds, where it is one: 0 and less leave a timeout as it is.
pub open spec fn positive_secs(n: i64) -> Option<u64> {
    if n > 0 {
        Some(n as u64)
    } else {
        None
    }
}

/// The models of chain ids in JSON.
pub open spec fn ids_json(ids: Seq<u64>) -> JsonView {
    JsonView::Array(ids.map_values(|id: u64| JsonView::Integer(id as int)))
}

/// The models of texts in JSON.
pub open spec fn texts_json(texts: Seq<Seq<char>>) -> JsonView {
    JsonView::Array(texts.map_values(|s: Seq<char>| JsonView::Str(s)))
}

/// Who configured a store: nobody, the defaults alone, or some caller too.
pub open spec fn store_source(chains: Map<u64, ChainRecordView>) -> JsonView {
    if exists|id: u64| #[trigger]
        chains.contains_key(id) && chains[id].source == ConfigSource::External {
        JsonView::Str(source_name(ConfigSource::External))
    } else if exists|id: u64| #[trigger] chains.contains_key(id) {
        JsonView::Str(source_name(ConfigSource::Default))
    } else {
        JsonView::Null
    }
}

/// The answer that reports how the module is configured.
pub open spec fn status_json(state: Seq<char>, source: JsonView, chains: JsonView) -> JsonView {
    JsonView::Object(
        entries_map(
            seq![
                ("ok"@, JsonView::Bool(true)),
                ("state"@, JsonView::Str(state)),
                ("source"@, source),
                ("chains"@, chains),
            ],
        ),
    )
}

/// A number of blocks, where a negative one counts as 0.
pub open spec fn block_count(blocks: i64) -> u64 {
    if blocks > 0 {
        blocks as u64
    } else {
        0
    }
}

/// What is answered to a mode that there is not.
pub open spec fn unknown_mode(name: Seq<char>) -> Seq<char> {
    "unknown verified proxy mode '"@ + ascii_lower(trimmed(name))
        + "' (expected off or required)"@
}

/// The answer to the question how a chain is configured.
pub open spec fn config_reply(store: Option<EthRpcView>, chain_id: i64) -> JsonView {
    match store {
        None => error_json(not_ready()),
        Some(s) => match s.config(chain_key(chain_id)) {
            Some(c) => success_json("config"@, JsonView::Object(entries_map(c.json_members()))),
            None => error_json("no config for chain "@ + signed_decimal(chain_id as int)),
        },
    }
}

/// Whether `ids` are the chains of a store, in ascending order; there are none before there is a
/// store.
pub open spec fn listing(store: Option<EthRpcView>, ids: Seq<u64>) -> bool {
    match store {
        None => ids.len() == 0,
        Some(s) => lists(ids, s.chains),
    }
}

/// The answer that lists the chains.
pub open spec fn chains_reply(store: Option<EthRpcView>, ids: Seq<u64>) -> JsonView {
    match store {
        None => error_json(not_ready()),
        Some(_) => success_json("chains"@, ids_json(ids)),
    }
}

/// The answer to seeding a chain.
pub open spec fn seed_reply(
    store: Option<EthRpcView>,
    chain_id: i64,
    cfg: Result<ChainConfigView, Seq<char>>,
) -> JsonView {
    match (cfg, store) {
        (Err(e), _) => error_json(e),
        (Ok(c), _) if !c.valid() => error_json(contradiction()),
        (Ok(_), None) => error_json(not_ready()),
        (Ok(c), Some(s)) => success_json(
            "seeded"@,
            texts_json(s.seeded_fields(chain_key(chain_id), c)),
        ),
    }
}

/// The answer to a change of the timeouts.
pub open spec fn patch_reply(store: Option<EthRpcView>, chain_id: i64) -> JsonView {
    let key = chain_key(chain_id);
    match store {
        None => error_json(not_ready()),
        Some(s) => if s.chains.contains_key(key) {
            JsonView::Object(entries_map(seq![("ok"@, JsonView::Bool(true))]))
        } else {
            error_json(unknown_chain(key))
        },
    }
}

/// The answer to a change of mode.
pub open spec fn mode_reply(
    store: Option<EthRpcView>,
    chain_id: i64,
    name: Seq<char>,
) -> JsonView {
    let key = chain_key(chain_id);
    match (mode_named(name), store) {
        (None, _) => error_json(unknown_mode(name)),
        (Some(_), None) => error_json(not_ready()),
        (Some(mode), Some(s)) => if !s.chains.contains_key(key) {
            error_json(unknown_chain(key))
        } else if !s.in_mode(key, mode).valid() {
            error_json(contradiction())
        } else {
            JsonView::Object(
                entries_map(
                    seq![
                        ("ok"@, JsonView::Bool(true)),
                        ("chainId"@, JsonView::Integer(chain_id as int)),
                        ("verifiedProxyMode"@, JsonView::Str(mode_name(mode))),
                    ],
                ),
            )
        },
    }
}

/// The answer to the question whether the module is ready and configured.
pub open spec fn status_reply(store: Option<EthRpcView>, ids: Seq<u64>) -> JsonView {
    match store {
        None => status_json("unready"@, JsonView::Null, ids_json(ids)),
        Some(s) => status_json(
            if ids.len() > 0 {
                "configured"@
            } else {
                "unconfigured"@
            },
            store_source(s.chains),
            ids_json(ids),
        ),
    }
}

/// The answer to seeding the defaults.
pub open spec fn defaults_reply(store: Option<EthRpcView>) -> JsonView {
    match store {
        None => error_json(not_ready()),
        Some(s) => success_json("applied"@, JsonView::Bool(s.lacks_defaults())),
    }
}

/// What is always answered to the question whether a chain could be routed.
pub open spec fn usable_members(chain_id: i64, usable: bool) -> Seq<(Seq<char>, JsonView)> {
    seq![
        ("ok"@, JsonView::Bool(true)),
        ("usable"@, JsonView::Bool(usable)),
        ("chainId"@, JsonView::Integer(chain_id as int)),
    ]
}

/// The answer to the question whether a chain could be routed.
pub open spec fn usable_json(chain_id: i64, verdict: Result<(), Seq<char>>) -> JsonView {
    JsonView::Object(
        entries_map(
            match verdict {
                Ok(_) => usable_members(chain_id, true),
                Err(e) => usable_members(chain_id, false).push(("reason"@, JsonView::Str(e))),
            },
        ),
    )
}

/// Chain ids in JSON.
fn id_list(ids: &Vec<u64>) -> (r: Json)
    ensures
        r@ == ids_json(ids@),
{
    let mut items: Vec<Json> = Vec::new();
    let mut i: usize = 0;
    while i < ids.len()
        invariant
            i <= ids@.len(),
            items_view(items@) =~= ids@.take(i as int).map_values(
                |id: u64| JsonView::Integer(id as int),
            ),
        decreases ids@.len() - i,
    {
        push_item(&mut items, Json::Uint(ids[i]));
        i += 1;
    }
    assert(ids@.take(ids@.len() as int) =~= ids@);
    Json::Array(items)
}

/// Texts in JSON.
fn text_list(texts: &Vec<String>) -> (r: Json)
    ensures
        r@ == texts_json(texts_view(texts@)),
{
    let mut items: Vec<Json> = Vec::new();
    let mut i: usize = 0;
    while i < texts.len()
        invariant
            i <= texts@.len(),
            items_view(items@) =~= texts_view(texts@).take(i as int).map_values(
                |s: Seq<char>| JsonView::Str(s),
            ),
        decreases texts@.len() - i,
    {
        push_item(&mut items, Json::string(&texts[i]));
        i += 1;
    }
    assert(texts_view(texts@).take(texts@.len() as int) =~= texts_view(texts@));
    Json::Array(items)
}

/// The answer that reports how the module is configured.
fn status_text(state: &str, source: Json, chains: Json) -> (r: String)
    ensures
        writes(r@, status_json(state@, source@, chains@)),
{
    let mut members: Vec<(String, Json)> = Vec::new();
    push_member(&mut members, "ok", Json::Bool(true));
    push_member(&mut members, "state", Json::string(state));
    push_member(&mut members, "source", source);
    push_member(&mut members, "chains", chains);
    assert(members_view(members@) =~= seq![
        ("ok"@, JsonView::Bool(true)),
        ("state"@, JsonView::Str(state@)),
        ("source"@, source@),
        ("chains"@, chains@),
    ]);
    Json::Object(members).to_text()
}

/// A signed chain id as the unsigned number with the same bits.
pub fn to_chain_key(chain_id: i64) -> (r: u64)
    ensures
        r == chain_key(chain_id),
{
    if chain_id >= 0 {
        chain_id as u64
    } else {
        u64::MAX - ((-(chain_id + 1)) as u64)
    }
}

/// The answer that reports an error.
pub fn err(e: &str) -> (r: String)
    ensures
        writes(r@, error_json(e@)),
{
    let mut members: Vec<(String, Json)> = Vec::new();
    push_member(&mut members, "ok", Json::Bool(false));
    push_member(&mut members, "error", Json::string(e));
    assert(members_view(members@) =~= seq![
        ("ok"@, JsonView::Bool(false)),
        ("error"@, JsonView::Str(e@)),
    ]);
    Json::Object(members).to_text()
}

/// The answer that reports success and one thing more.
fn success(key: &str, v: Json) -> (r: String)
    ensures
        writes(r@, success_json(key@, v@)),
{
    let mut members: Vec<(String, Json)> = Vec::new();
    push_member(&mut members, "ok", Json::Bool(true));
    push_member(&mut members, key, v);
    assert(members_view(members@) =~= seq![("ok"@, JsonView::Bool(true)), (key@, v@)]);
    Json::Object(members).to_text()
}

/// The answer that gives a result.
pub fn ok_result(v: Json) -> (r: String)
    ensures
        writes(r@, success_json("result"@, v@)),
{
    success("result", v)
}

/// The answer to a call, for its result.
fn reply_text(kind: ReplyKind, result: Result<Json, RpcError>) -> (r: String)
    ensures
        writes(r@, reply_json(kind, result_view(result))),
{
    match result {
        Err(e) => err(&e.to_string()),
        Ok(v) => match kind {
            ReplyKind::Value => ok_result(v),
            ReplyKind::Text => ok_result(Json::Str(result_text(v))),
            ReplyKind::Hash => success("hash", Json::Str(result_text(v))),
            ReplyKind::ChainId => match result_chain_id(v) {
                Ok(id) => success("chainId", Json::Uint(id)),
                Err(e) => err(&e.to_string()),
            },
        },
    }
}

impl PendingCall {
    /// The answer, once the request was sent.
    pub fn finish(&self, posted: Posted) -> (r: String)
        ensures
            writes(r@, reply_json(self.kind, posted_result(posted@))),
    {
        reply_text(self.kind, posted.settle())
    }
}

/// The answer to a call whose result is taken as it is.
fn value_reply(r: Result<Call<Json>, RpcError>) -> (m: ModuleCall)
    ensures
        forall|o: Result<RoutedView, RpcErrorView>|
            result_view(r) == #[trigger] value_outcome(o) ==> outcome_answered(
                ReplyKind::Value,
                o,
                m@,
            ),
{
    match r {
        Ok(Call::Done(v)) => ModuleCall::Reply(ok_result(v)),
        Ok(Call::Post(request)) => ModuleCall::Post(
            PendingCall { request, kind: ReplyKind::Value },
        ),
        Err(e) => ModuleCall::Reply(err(&e.to_string())),
    }
}

/// The answer to a call whose result is taken as text, under `result` or `hash`.
fn text_reply(hash: bool, r: Result<Call<String>, RpcError>) -> (m: ModuleCall)
    ensures
        forall|o: Result<RoutedView, RpcErrorView>|
            result_view(r) == #[trigger] text_outcome(o) ==> outcome_answered(
                if hash {
                    ReplyKind::Hash
                } else {
                    ReplyKind::Text
                },
                o,
                m@,
            ),
{
    match r {
        Ok(Call::Done(s)) => ModuleCall::Reply(
            success(
                if hash {
                    "hash"
                } else {
                    "result"
                },
                Json::Str(s),
            ),
        ),
        Ok(Call::Post(request)) => ModuleCall::Post(
            PendingCall {
                request,
                kind: if hash {
                    ReplyKind::Hash
                } else {
                    ReplyKind::Text
                },
            },
        ),
        Err(e) => ModuleCall::Reply(err(&e.to_string())),
    }
}

/// The answer to a call whose result is taken as a chain id.
fn chain_id_reply(r: Result<Call<u64>, RpcError>) -> (m: ModuleCall)
    ensures
        forall|o: Result<RoutedView, RpcErrorView>|
            result_view(r) == #[trigger] chain_id_outcome(o) ==> outcome_answered(
                ReplyKind::ChainId,
                o,
                m@,
            ),
{
    match r {
        Ok(Call::Done(id)) => ModuleCall::Reply(success("chainId", Json::Uint(id))),
        Ok(Call::Post(request)) => ModuleCall::Post(
            PendingCall { request, kind: ReplyKind::ChainId },
        ),
        Err(e) => ModuleCall::Reply(err(&e.to_string())),
    }
}

impl<R: VerifiedRouter> Default for EthRpcModuleImpl<R> {
    fn default() -> (r: Self)
        ensures
            r.rpc is None,
    {
        Self::new()
    }
}

impl<R: VerifiedRouter> EthRpcModuleImpl<R> {
    /// Whether `m` is an answer that a call may get.
    pub open spec fn answers(
        &self,
        chain_id: i64,
        method: &str,
        params: JsonView,
        kind: ReplyKind,
        m: ModuleCallView,
    ) -> bool {
        match self.rpc {
            None => m.says(error_json(not_ready())),
            Some(rpc) => exists|o: Result<RoutedView, RpcErrorView>| #[trigger]
                rpc.routes(chain_key(chain_id), method, params, o) && outcome_answered(kind, o, m),
        }
    }

    /// Whether a call may be made: where its chain requires verification, the router may be asked
    /// for it. Any other call is made without asking the router.
    pub open spec fn may_ask(&self, chain_id: i64, method: Seq<char>, params: JsonView) -> bool {
        match self.rpc {
            Some(rpc) => rpc.may_ask(chain_key(chain_id), method, params),
            None => true,
        }
    }

    /// The store, once the context is ready.
    pub open spec fn store(&self) -> Option<EthRpcView> {
        match self.rpc {
            Some(rpc) => Some(rpc@),
            None => None,
        }
    }

    /// Whether the module differs from `before` in its store alone, which is now `store`.
    pub open spec fn stores(&self, before: &Self, store: EthRpcView) -> bool {
        &&& self.rpc matches Some(now)
        &&& before.rpc matches Some(then)
        &&& now@ == store
        &&& now.router() == then.router()
    }

    /// A module whose context is not ready.
    pub fn new() -> (r: Self)
        ensures
            r.rpc is None,
    {
        EthRpcModuleImpl { rpc: None }
    }

    /// Makes the module ready: its store is kept at `path`, where `saved` was found.
    ///
    /// The router costs nothing until a chain requires it, and is not called before.
    pub fn on_context_ready(&mut self, path: String, saved: Vec<StoredChain>, router: Arc<R>)
        ensures
            final(self).rpc matches Some(rpc) && rpc@ == (EthRpcView {
                chains: loaded(stored_chains_view(saved@)),
                store_path: Some(path@),
                unsaved: false,
            }) && rpc.router() == Some(router),
    {
        let mut rpc: EthRpc<R> = EthRpc::with_store(path, saved);
        rpc.set_verified_router(router);
        self.rpc = Some(rpc);
    }

    /// The chain id that the node of a chain reports.
    pub fn verify_chain_id(&self, chain_id: i64) -> (r: ModuleCall)
        requires
            self.may_ask(chain_id, "eth_chainId"@, JsonView::Array(Seq::empty())),
        ensures
            self.answers(
                chain_id,
                "eth_chainId",
                JsonView::Array(Seq::empty()),
                ReplyKind::ChainId,
                r@,
            ),
    {
        match &self.rpc {
            Some(rpc) => chain_id_reply(rpc.verify_chain_id(to_chain_key(chain_id))),
            None => ModuleCall::Reply(err("eth_rpc not initialized (context not ready)")),
        }
    }

    /// The number of the latest block.
    pub fn block_number(&self, chain_id: i64) -> (r: ModuleCall)
        requires
            self.may_ask(chain_id, "eth_blockNumber"@, JsonView::Array(Seq::empty())),
        ensures
            self.answers(
                chain_id,
                "eth_blockNumber",
                JsonView::Array(Seq::empty()),
                ReplyKind::Text,
                r@,
            ),
    {
        match &self.rpc {
            Some(rpc) => text_reply(false, rpc.block_number(to_chain_key(chain_id))),
            None => ModuleCall::Reply(err("eth_rpc not initialized (context not ready)")),
        }
    }

    /// The balance of an account.
    pub fn get_balance(&self, chain_id: i64, address: &str) -> (r: ModuleCall)
        requires
            self.may_ask(
                chain_id,
                "eth_getBalance"@,
                JsonView::Array(seq![JsonView::Str(address@), JsonView::Str("latest"@)]),
            ),
        ensures
            self.answers(
                chain_id,
                "eth_getBalance",
                JsonView::Array(seq![JsonView::Str(address@), JsonView::Str("latest"@)]),
                ReplyKind::Text,
                r@,
            ),
    {
        match &self.rpc {
            Some(rpc) => text_reply(false, rpc.get_balance(to_chain_key(chain_id), address)),
            None => ModuleCall::Reply(err("eth_rpc not initialized (context not ready)")),
        }
    }

    /// The answer of a contract.
    pub fn call(&self, chain_id: i64, call_json: &str) -> (r: ModuleCall)
        requires
            forall|params: JsonView| #[trigger] self.may_ask(chain_id, "eth_call"@, params),
        ensures
            (match json_read(call_json@) {
                Err(e) => r@.says(error_json(e)),
                Ok(call) => self.answers(
                    chain_id,
                    "eth_call",
                    JsonView::Array(seq![call, JsonView::Str("latest"@)]),
                    ReplyKind::Text,
                    r@,
                ),
            }),
    {
        let call: Json = match parse_json(call_json) {
            Ok(v) => v,
            Err(e) => {
                return ModuleCall::Reply(err(&e));
            },
        };
        assert(self.may_ask(
            chain_id,
            "eth_call"@,
            JsonView::Array(seq![call@, JsonView::Str("latest"@)]),
        ));
        match &self.rpc {
            Some(rpc) => text_reply(false, rpc.call(to_chain_key(chain_id), call)),
            None => ModuleCall::Reply(err("eth_rpc not initialized (context not ready)")),
        }
    }

    /// The number of transactions that an account has sent.
    pub fn get_transaction_count(&self, chain_id: i64, address: &str) -> (r: ModuleCall)
        requires
            self.may_ask(
                chain_id,
                "eth_getTransactionCount"@,
                JsonView::Array(seq![JsonView::Str(address@), JsonView::Str("pending"@)]),
            ),
        ensures
            self.answers(
                chain_id,
                "eth_getTransactionCount",
                JsonView::Array(seq![JsonView::Str(address@), JsonView::Str("pending"@)]),
                ReplyKind::Text,
                r@,
            ),
    {
        match &self.rpc {
            Some(rpc) => text_reply(
                false,
                rpc.get_transaction_count(to_chain_key(chain_id), address),
            ),
            None => ModuleCall::Reply(err("eth_rpc not initialized (context not ready)")),
        }
    }

    /// The gas price that the node suggests.
    pub fn gas_price(&self, chain_id: i64) -> (r: ModuleCall)
        requires
            self.may_ask(chain_id, "eth_gasPrice"@, JsonView::Array(Seq::empty())),
        ensures
            self.answers(
                chain_id,
                "eth_gasPrice",
                JsonView::Array(Seq::empty()),
                ReplyKind::Text,
                r@,
            ),
    {
        match &self.rpc {
            Some(rpc) => text_reply(false, rpc.gas_price(to_chain_key(chain_id))),
            None => ModuleCall::Reply(err("eth_rpc not initialized (context not ready)")),
        }
    }

    /// The fees of the latest blocks; a negative number of blocks counts as 0.
    pub fn fee_history(&self, chain_id: i64, blocks: i64, reward_percentiles_json: &str) -> (r:
        ModuleCall)
        requires
            forall|params: JsonView| #[trigger] self.may_ask(chain_id, "eth_feeHistory"@, params),
        ensures
            (match json_read(reward_percentiles_json@) {
                Err(e) => r@.says(error_json(e)),
                Ok(percentiles) => self.answers(
                    chain_id,
                    "eth_feeHistory",
                    fee_history_params(block_count(blocks), percentiles),
                    ReplyKind::Value,
                    r@,
                ),
            }),
    {
        let percentiles: Json = match parse_json(reward_percentiles_json) {
            Ok(v) => v,
            Err(e) => {
                return ModuleCall::Reply(err(&e));
            },
        };
        let count: u64 = if blocks > 0 {
            blocks as u64
        } else {
            0
        };
        assert(self.may_ask(chain_id, "eth_feeHistory"@, fee_history_params(count, percentiles@)));
        match &self.rpc {
            Some(rpc) => value_reply(rpc.fee_history(to_chain_key(chain_id), count, percentiles)),
            None => ModuleCall::Reply(err("eth_rpc not initialized (context not ready)")),
        }
    }

    /// The gas that a transaction would take.
    pub fn estimate_gas(&self, chain_id: i64, tx_json: &str) -> (r: ModuleCall)
        requires
            forall|params: JsonView| #[trigger] self.may_ask(chain_id, "eth_estimateGas"@, params),
        ensures
            (match json_read(tx_json@) {
                Err(e) => r@.says(error_json(e)),
                Ok(tx) => self.answers(
                    chain_id,
                    "eth_estimateGas",
                    JsonView::Array(seq![tx]),
                    ReplyKind::Text,
                    r@,
                ),
            }),
    {
        let tx: Json = match parse_json(tx_json) {
            Ok(v) => v,
            Err(e) => {
                return ModuleCall::Reply(err(&e));
            },
        };
        assert(self.may_ask(chain_id, "eth_estimateGas"@, JsonView::Array(seq![tx@])));
        match &self.rpc {
            Some(rpc) => text_reply(false, rpc.estimate_gas(to_chain_key(chain_id), tx)),
            None => ModuleCall::Reply(err("eth_rpc not initialized (context not ready)")),
        }
    }

    /// Broadcasts a signed transaction.
    pub fn send_raw_transaction(&self, chain_id: i64, raw_hex: &str) -> (r: ModuleCall)
        requires
            self.may_ask(
                chain_id,
                "eth_sendRawTransaction"@,
                JsonView::Array(seq![JsonView::Str(raw_hex@)]),
            ),
        ensures
            self.answers(
                chain_id,
                "eth_sendRawTransaction",
                JsonView::Array(seq![JsonView::Str(raw_hex@)]),
                ReplyKind::Hash,
                r@,
            ),
    {
        match &self.rpc {
            Some(rpc) => text_reply(
                true,
                rpc.send_raw_transaction(to_chain_key(chain_id), raw_hex),
            ),
            None => ModuleCall::Reply(err("eth_rpc not initialized (context not ready)")),
        }
    }

    /// The receipt of a transaction.
    pub fn get_transaction_receipt(&self, chain_id: i64, hash_hex: &str) -> (r: ModuleCall)
        requires
            self.may_ask(
                chain_id,
                "eth_getTransactionReceipt"@,
                JsonView::Array(seq![JsonView::Str(hash_hex@)]),
            ),
        ensures
            self.answers(
                chain_id,
                "eth_getTransactionReceipt",
                JsonView::Array(seq![JsonView::Str(hash_hex@)]),
                ReplyKind::Value,
                r@,
            ),
    {
        match &self.rpc {
            Some(rpc) => value_reply(rpc.get_transaction_receipt(to_chain_key(chain_id), hash_hex)),
            None => ModuleCall::Reply(err("eth_rpc not initialized (context not ready)")),
        }
    }

    /// A transaction.
    pub fn get_transaction_by_hash(&self, chain_id: i64, hash_hex: &str) -> (r: ModuleCall)
        requires
            self.may_ask(
                chain_id,
                "eth_getTransactionByHash"@,
                JsonView::Array(seq![JsonView::Str(hash_hex@)]),
            ),
        ensures
            self.answers(
                chain_id,
                "eth_getTransactionByHash",
                JsonView::Array(seq![JsonView::Str(hash_hex@)]),
                ReplyKind::Value,
                r@,
            ),
    {
        match &self.rpc {
            Some(rpc) => value_reply(rpc.get_transaction_by_hash(to_chain_key(chain_id), hash_hex)),
            None => ModuleCall::Reply(err("eth_rpc not initialized (context not ready)")),
        }
    }

    /// Any JSON-RPC method.
    pub fn raw_rpc(&self, chain_id: i64, method: &str, params_json: &str) -> (r: ModuleCall)
        requires
            forall|params: JsonView| #[trigger] self.may_ask(chain_id, method@, params),
        ensures
            (match json_read(params_json@) {
                Err(e) => r@.says(error_json(e)),
                Ok(params) => self.answers(
                    chain_id,
                    method,
                    params,
                    ReplyKind::Value,
                    r@,
                ),
            }),
    {
        let params: Json = match parse_json(params_json) {
            Ok(v) => v,
            Err(e) => {
                return ModuleCall::Reply(err(&e));
            },
        };
        assert(self.may_ask(chain_id, method@, params@));
        match &self.rpc {
            Some(rpc) => value_reply(rpc.rpc_call(to_chain_key(chain_id), method, params)),
            None => ModuleCall::Reply(err("eth_rpc not initialized (context not ready)")),
        }
    }

    /// Any JSON-RPC method, to an explicit `url`, with the chain's fail-closed client.
    pub fn raw_rpc_url(&self, chain_id: i64, url: &str, method: &str, params_json: &str) -> (r:
        ModuleCall)
        ensures
            (match json_read(params_json@) {
                Err(e) => r@.says(error_json(e)),
                Ok(params) => match self.rpc {
                    None => r@.says(error_json(not_ready())),
                    Some(rpc) => match direct(
                        rpc@,
                        chain_key(chain_id),
                        Some(url@),
                        method@,
                        params,
                    ) {
                        Ok(p) => r@ == ModuleCallView::Post(p, ReplyKind::Value),
                        Err(e) => r@.says(error_json(e.message())),
                    },
                },
            }),
    {
        let params: Json = match parse_json(params_json) {
            Ok(v) => v,
            Err(e) => {
                return ModuleCall::Reply(err(&e));
            },
        };
        match &self.rpc {
            Some(rpc) => match rpc.rpc_call_url(to_chain_key(chain_id), url, method, params) {
                Ok(request) => ModuleCall::Post(PendingCall { request, kind: ReplyKind::Value }),
                Err(e) => ModuleCall::Reply(err(&e.to_string())),
            },
            None => ModuleCall::Reply(err("eth_rpc not initialized (context not ready)")),
        }
    }
}

impl<R: VerifiedRouter> EthRpcModuleImpl<R> {
    /// Stores the configuration of a chain, and says whether it was stored. `cfg` is what the
    /// caller's text denotes, where it denotes a configuration.
    pub fn set_chain_config(&mut self, chain_id: i64, cfg: Option<ChainConfig>) -> (r: bool)
        ensures
            (match (old(self).rpc, cfg) {
                (Some(rpc), Some(c)) => r == c@.valid() && final(self).stores(
                    old(self),
                    rpc@.set_config(chain_key(chain_id), c@),
                ),
                _ => !r && final(self).rpc == old(self).rpc,
            }),
    {
        match (&mut self.rpc, cfg) {
            (Some(rpc), Some(c)) => rpc.set_chain_config(to_chain_key(chain_id), c).is_ok(),
            _ => false,
        }
    }

    /// The configuration of a chain.
    pub fn get_chain_config(&self, chain_id: i64) -> (r: String)
        ensures
            writes(r@, config_reply(self.store(), chain_id)),
    {
        match &self.rpc {
            Some(rpc) => match rpc.get_chain_config(to_chain_key(chain_id)) {
                Some(c) => success("config", c.to_json()),
                None => err(&joined("no config for chain ", &signed_decimal_text(chain_id))),
            },
            None => err("eth_rpc not initialized (context not ready)"),
        }
    }

    /// Forgets a chain, and says whether it was known.
    pub fn remove_chain_config(&mut self, chain_id: i64) -> (r: bool)
        ensures
            (match old(self).rpc {
                Some(rpc) => {
                    &&& r == rpc@.chains.contains_key(chain_key(chain_id))
                    &&& final(self).stores(old(self), rpc@.remove(chain_key(chain_id)))
                },
                None => !r && final(self).rpc is None,
            }),
    {
        match &mut self.rpc {
            Some(rpc) => rpc.remove_chain_config(to_chain_key(chain_id)),
            None => false,
        }
    }

    /// The known chains, in ascending order.
    pub fn list_chains(&self) -> (r: String)
        ensures
            exists|ids: Seq<u64>| #[trigger]
                listing(self.store(), ids) && writes(r@, chains_reply(self.store(), ids)),
    {
        match &self.rpc {
            Some(rpc) => {
                let ids: Vec<u64> = rpc.list_chains();
                assert(listing(self.store(), ids@));
                success("chains", id_list(&ids))
            },
            None => {
                assert(listing(self.store(), Seq::empty()));
                err("eth_rpc not initialized (context not ready)")
            },
        }
    }

    /// Seeds a chain only where it is absent, per field, and says which fields were written.
    /// `cfg` is what the caller's text denotes, or why it denotes no configuration. A
    /// configuration that contradicts itself is refused.
    pub fn ensure_chain_config(&mut self, chain_id: i64, cfg: Result<ChainConfig, String>) -> (r:
        String)
        ensures
            writes(
                r@,
                seed_reply(
                    old(self).store(),
                    chain_id,
                    match cfg {
                        Ok(c) => Ok(c@),
                        Err(e) => Err(e@),
                    },
                ),
            ),
            (match (cfg, old(self).rpc) {
                (Ok(c), Some(rpc)) if c@.valid() => final(self).stores(
                    old(self),
                    rpc@.seed(chain_key(chain_id), c@, ConfigSource::External),
                ),
                _ => final(self).rpc == old(self).rpc,
            }),
    {
        let c: ChainConfig = match cfg {
            Ok(c) => c,
            Err(e) => {
                return err(&e);
            },
        };
        match c.validate() {
            Ok(_) => {},
            Err(e) => {
                return err(&e);
            },
        }
        match &mut self.rpc {
            Some(rpc) => {
                let seeded: Vec<String> = rpc.ensure_chain_config(to_chain_key(chain_id), &c);
                success("seeded", text_list(&seeded))
            },
            None => err("eth_rpc not initialized (context not ready)"),
        }
    }

    /// Overwrites only the transport timeouts that this module owns. 0 leaves one as it is.
    pub fn patch_chain_transport(
        &mut self,
        chain_id: i64,
        timeout_secs: i64,
        verified_timeout_secs: i64,
    ) -> (r: String)
        ensures
            writes(r@, patch_reply(old(self).store(), chain_id)),
            (match old(self).rpc {
                None => final(self).rpc is None,
                Some(rpc) => final(self).stores(
                    old(self),
                    rpc@.patch_transport(
                        chain_key(chain_id),
                        positive_secs(timeout_secs),
                        positive_secs(verified_timeout_secs),
                    ),
                ),
            }),
    {
        let t: Option<u64> = if timeout_secs > 0 {
            Some(timeout_secs as u64)
        } else {
            None
        };
        let vt: Option<u64> = if verified_timeout_secs > 0 {
            Some(verified_timeout_secs as u64)
        } else {
            None
        };
        match &mut self.rpc {
            Some(rpc) => {
                let key: u64 = to_chain_key(chain_id);
                if !rpc.patch_chain_transport(key, t, vt) {
                    return err(&unknown_chain_text(key));
                }
                let mut members: Vec<(String, Json)> = Vec::new();
                push_member(&mut members, "ok", Json::Bool(true));
                assert(members_view(members@) =~= seq![("ok"@, JsonView::Bool(true))]);
                Json::Object(members).to_text()
            },
            None => err("eth_rpc not initialized (context not ready)"),
        }
    }

    /// Sets how a chain is routed: `off` or `required`, in any case and with blanks around it.
    /// There is no `preferred`: answering from an unverified source when verification was asked
    /// for is the failure that this prevents.
    pub fn set_verified_proxy_mode(&mut self, chain_id: i64, mode: &str) -> (r: String)
        ensures
            writes(r@, mode_reply(old(self).store(), chain_id, mode@)),
            (match (mode_named(mode@), old(self).rpc) {
                (Some(m), Some(rpc)) => final(self).stores(
                    old(self),
                    rpc@.set_mode(chain_key(chain_id), m),
                ),
                _ => final(self).rpc == old(self).rpc,
            }),
    {
        let name: String = to_ascii_lowercase(trim(mode));
        let m: VerifiedProxyMode = if same_text(&name, "off") {
            VerifiedProxyMode::Off
        } else if same_text(&name, "required") {
            VerifiedProxyMode::Required
        } else {
            return err(
                &joined3("unknown verified proxy mode '", &name, "' (expected off or required)"),
            );
        };
        match &mut self.rpc {
            Some(rpc) => match rpc.set_verified_proxy_mode(to_chain_key(chain_id), m) {
                Ok(_) => {
                    let mut members: Vec<(String, Json)> = Vec::new();
                    push_member(&mut members, "ok", Json::Bool(true));
                    push_member(&mut members, "chainId", Json::Int(chain_id));
                    push_member(&mut members, "verifiedProxyMode", Json::string(m.name()));
                    assert(members_view(members@) =~= seq![
                        ("ok"@, JsonView::Bool(true)),
                        ("chainId"@, JsonView::Integer(chain_id as int)),
                        ("verifiedProxyMode"@, JsonView::Str(mode_name(m))),
                    ]);
                    Json::Object(members).to_text()
                },
                Err(e) => err(&e),
            },
            None => err("eth_rpc not initialized (context not ready)"),
        }
    }

    /// Whether a chain could be routed through the proxy right now, and why not. `status` is
    /// what the proxy answered when asked for its status, or why it did not answer.
    pub fn verified_proxy_status(chain_id: i64, status: Result<Json, String>) -> (r: String)
        ensures
            writes(
                r@,
                usable_json(chain_id, probe_verdict(chain_key(chain_id), reply_view(status))),
            ),
    {
        let verdict: Result<(), String> = VerifiedProxyRouter::probe(
            to_chain_key(chain_id),
            status,
        );
        let mut members: Vec<(String, Json)> = Vec::new();
        push_member(&mut members, "ok", Json::Bool(true));
        push_member(&mut members, "usable", Json::Bool(verdict.is_ok()));
        push_member(&mut members, "chainId", Json::Int(chain_id));
        assert(members_view(members@) =~= usable_members(chain_id, verdict is Ok));
        if let Err(e) = verdict {
            push_member(&mut members, "reason", Json::Str(e));
        }
        Json::Object(members).to_text()
    }

    /// Whether the module is ready and configured, by whom, and for which chains.
    pub fn config_status(&self) -> (r: String)
        ensures
            exists|ids: Seq<u64>| #[trigger]
                listing(self.store(), ids) && writes(r@, status_reply(self.store(), ids)),
    {
        match &self.rpc {
            None => {
                let none: Vec<u64> = Vec::new();
                assert(listing(self.store(), none@));
                status_text("unready", Json::Null, id_list(&none))
            },
            Some(rpc) => {
                let ids: Vec<u64> = rpc.list_chains();
                assert(listing(self.store(), ids@));
                let mut external: bool = false;
                let mut i: usize = 0;
                while i < ids.len()
                    invariant
                        i <= ids@.len(),
                        lists(ids@, rpc@.chains),
                        external <==> exists|j: int|
                            0 <= j < i && rpc@.chains[#[trigger] ids@[j]].source
                                == ConfigSource::External,
                    decreases ids@.len() - i,
                {
                    assert(ids@.contains(ids@[i as int]));
                    if let Some(ConfigSource::External) = rpc.config_source(ids[i]) {
                        external = true;
                    }
                    i += 1;
                }
                proof {
                    if external {
                        let j = choose|j: int|
                            0 <= j < ids@.len() && rpc@.chains[#[trigger] ids@[j]].source
                                == ConfigSource::External;
                        assert(ids@.contains(ids@[j]));
                        assert(rpc@.chains.contains_key(ids@[j]));
                    } else {
                        assert forall|id: u64| #[trigger] rpc@.chains.contains_key(id) implies
                            rpc@.chains[id].source != ConfigSource::External by {
                            assert(ids@.contains(id));
                            let j = ids@.index_of(id);
                            assert(ids@[j] == id);
                        }
                    }
                    if ids@.len() > 0 {
                        assert(ids@.contains(ids@[0]));
                        assert(rpc@.chains.contains_key(ids@[0]));
                    } else {
                        assert forall|id: u64| !#[trigger] rpc@.chains.contains_key(id) by {
                            assert(!ids@.contains(id));
                        }
                    }
                }
                let source: Json = if external {
                    Json::string(ConfigSource::External.name())
                } else if ids.len() > 0 {
                    Json::string(ConfigSource::Default.name())
                } else {
                    Json::Null
                };
                status_text(
                    if ids.len() > 0 {
                        "configured"
                    } else {
                        "unconfigured"
                    },
                    source,
                    id_list(&ids),
                )
            },
        }
    }

    /// Seeds the endpoints that ship with the module, per chain and per field, only where they
    /// are absent, and says whether any was. It is idempotent, so it may be called at any time.
    pub fn init_defaults(&mut self) -> (r: String)
        ensures
            writes(r@, defaults_reply(old(self).store())),
            (match old(self).rpc {
                None => final(self).rpc is None,
                Some(rpc) => final(self).stores(old(self), rpc@.init_defaults()),
            }),
    {
        match &mut self.rpc {
            Some(rpc) => {
                let applied: bool = rpc.init_defaults();
                success("applied", Json::Bool(applied))
            },
            None => err("eth_rpc not initialized (context not ready)"),
        }
    }

    /// What to write where, if a change waits to be saved. The change then counts as saved.
    pub fn take_save(&mut self) -> (r: Option<SaveRequest>)
        ensures
            (match old(self).rpc {
                None => r is None && final(self).rpc is None,
                Some(rpc) => final(self).stores(
                    old(self),
                    EthRpcView { unsaved: false, ..rpc@ },
                ) && rpc@.saves(r),
            }),
    {
        match &mut self.rpc {
            Some(rpc) => rpc.take_save(),
            None => None,
        }
    }
}

} // verus!
