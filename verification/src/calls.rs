//! JSON-RPC calls, keyed by chain id.
//!
//! A call is routed first. Where the chain requires verification it is put to the router and
//! answered, or refused, at once. Otherwise it becomes a [`PostRequest`]: the host sends it and
//! hands what came back, a [`Posted`], to [`Posted::settle`] and the functions that read a
//! result.

use std::sync::Arc;

use vstd::prelude::*;

use crate::config::{clone_optional, ChainConfig, VerifiedProxyMode};
use crate::error::{RpcError, RpcErrorView};
use crate::json::{
    entries_map, items_view, json_text, members_view, push_item, push_member, Json, JsonView,
};
use crate::proxy::{planned_client, ClientPlan, ClientPlanView, ProxyConfig};
use crate::rpc::{EthRpc, EthRpcView};
use crate::text::{hex, hex_quantity, hex_text, joined, parse_hex_u64};
use crate::verified::{
    class_of, coerced_params, normalize_verified_result, normalized, verified_class,
    verified_params, VerifiedClass, VerifiedRouter,
};

verus! {

/// A request for the host to send: `body` to `url`, with a client built as planned.
#[derive(Debug)]
pub struct PostRequest {
    pub client: ClientPlan,
    pub url: String,
    pub body: Json,
}

/// The model of a [`PostRequest`].
#[verifier::ext_equal]
pub struct PostRequestView {
    pub client: ClientPlanView,
    pub url: Seq<char>,
    pub body: JsonView,
}

impl View for PostRequest {
    type V = PostRequestView;

    open spec fn view(&self) -> PostRequestView {
        PostRequestView { client: self.client@, url: self.url@, body: self.body@ }
    }
}

/// What came of a [`PostRequest`].
#[derive(Debug)]
pub enum Posted {
    /// The planned client could not be built; nothing was sent.
    NoClient(String),
    /// The request could not be sent, or its reply was not JSON.
    Failed(String),
    /// The reply.
    Reply(Json),
}

/// The model of a [`Posted`].
#[verifier::ext_equal]
pub enum PostedView {
    NoClient(Seq<char>),
    Failed(Seq<char>),
    Reply(JsonView),
}

impl View for Posted {
    type V = PostedView;

    open spec fn view(&self) -> PostedView {
        match self {
            Posted::NoClient(e) => PostedView::NoClient(e@),
            Posted::Failed(e) => PostedView::Failed(e@),
            Posted::Reply(v) => PostedView::Reply(v@),
        }
    }
}

/// A call that has been routed.
#[derive(Debug)]
pub enum Routed {
    /// The verified leg answered.
    Verified(Json, VerifiedClass),
    /// The direct leg: the request is to be sent.
    Direct(PostRequest),
}

/// The model of a [`Routed`].
#[verifier::ext_equal]
pub enum RoutedView {
    Verified(JsonView, VerifiedClass),
    Direct(PostRequestView),
}

impl View for Routed {
    type V = RoutedView;

    open spec fn view(&self) -> RoutedView {
        match self {
            Routed::Verified(v, class) => RoutedView::Verified(v@, *class),
            Routed::Direct(p) => RoutedView::Direct(p@),
        }
    }
}

/// A call that is answered, or whose request is to be sent.
#[derive(Debug)]
pub enum Call<T> {
    Done(T),
    Post(PostRequest),
}

/// The model of a [`Call`].
#[verifier::ext_equal]
pub enum CallView<V> {
    Done(V),
    Post(PostRequestView),
}

impl<T: View> View for Call<T> {
    type V = CallView<T::V>;

    open spec fn view(&self) -> CallView<T::V> {
        match self {
            Call::Done(v) => CallView::Done(v@),
            Call::Post(p) => CallView::Post(p@),
        }
    }
}

/// The model of a result that may be an [`RpcError`].
pub open spec fn result_view<T: View>(r: Result<T, RpcError>) -> Result<T::V, RpcErrorView> {
    match r {
        Ok(v) => Ok(v@),
        Err(e) => Err(e@),
    }
}

/// The model of a router's reply.
pub open spec fn reply_view(reply: Result<Json, String>) -> Result<JsonView, Seq<char>> {
    match reply {
        Ok(v) => Ok(v@),
        Err(e) => Err(e@),
    }
}

/// The body of a JSON-RPC request.
pub open spec fn request_body_view(method: Seq<char>, params: JsonView) -> JsonView {
    JsonView::Object(
        entries_map(
            seq![
                ("jsonrpc"@, JsonView::Str("2.0"@)),
                ("id"@, JsonView::Integer(1)),
                ("method"@, JsonView::Str(method)),
                ("params"@, params),
            ],
        ),
    )
}

/// The direct leg of a call: a request to `url`, or to the chain's endpoint where `url` is
/// `None`, through the client that the chain's proxy policy allows.
pub open spec fn direct(
    store: EthRpcView,
    chain_id: u64,
    url: Option<Seq<char>>,
    method: Seq<char>,
    params: JsonView,
) -> Result<PostRequestView, RpcErrorView> {
    match store.config(chain_id) {
        None => Err(RpcErrorView::UnknownChain(chain_id)),
        Some(c) => match planned_client(c.proxy, c.proxy_required, c.timeout_secs) {
            Err(e) => Err(RpcErrorView::Proxy(e)),
            Ok(client) => Ok(
                PostRequestView {
                    client,
                    url: match url {
                        Some(u) => u,
                        None => c.endpoint,
                    },
                    body: request_body_view(method, params),
                },
            ),
        },
    }
}

/// What a call comes to for a reply of the router.
pub open spec fn settled(method: Seq<char>, reply: Result<JsonView, Seq<char>>) -> Result<
    RoutedView,
    RpcErrorView,
> {
    match reply {
        Ok(v) => Ok(RoutedView::Verified(normalized(v), class_of(method))),
        Err(e) => Err(RpcErrorView::VerifiedProxy(e)),
    }
}

/// Whether `reply` is one that the router may give to the call `sent`.
pub open spec fn router_replies<R: VerifiedRouter>(
    router: Arc<R>,
    chain_id: u64,
    method: &str,
    sent: Json,
    reply: Result<Json, String>,
) -> bool {
    call_ensures(R::call, (&*router, chain_id, method, &sent), reply)
}

/// Whether `o` is what a call may come to that is put to the router: the parameters go to it in
/// its own dialect, and its reply decides.
pub open spec fn router_settles<R: VerifiedRouter>(
    router: Arc<R>,
    chain_id: u64,
    method: &str,
    params: JsonView,
    o: Result<RoutedView, RpcErrorView>,
) -> bool {
    exists|sent: Json, reply: Result<Json, String>|
        {
            &&& #[trigger] router_replies(router, chain_id, method, sent, reply)
            &&& sent@ == coerced_params(method@, params)
            &&& o == settled(method@, reply_view(reply))
        }
}

/// A result as text: a string as it is, anything else as JSON.
pub open spec fn text_of(v: JsonView) -> Seq<char> {
    match v {
        JsonView::Str(s) => s,
        _ => json_text(v),
    }
}

/// The chain id in a result.
pub open spec fn chain_id_of(v: JsonView) -> Result<u64, RpcErrorView> {
    match hex_quantity(text_of(v)) {
        Some(id) => Ok(id),
        None => Err(RpcErrorView::Parse("bad chainId: "@ + text_of(v))),
    }
}

/// A routed call whose result is taken as it is.
pub open spec fn value_outcome(o: Result<RoutedView, RpcErrorView>) -> Result<
    CallView<JsonView>,
    RpcErrorView,
> {
    match o {
        Ok(RoutedView::Verified(v, _)) => Ok(CallView::Done(v)),
        Ok(RoutedView::Direct(p)) => Ok(CallView::Post(p)),
        Err(e) => Err(e),
    }
}

/// A routed call whose result is taken as text.
pub open spec fn text_outcome(o: Result<RoutedView, RpcErrorView>) -> Result<
    CallView<Seq<char>>,
    RpcErrorView,
> {
    match o {
        Ok(RoutedView::Verified(v, _)) => Ok(CallView::Done(text_of(v))),
        Ok(RoutedView::Direct(p)) => Ok(CallView::Post(p)),
        Err(e) => Err(e),
    }
}

/// A routed call whose result is taken as a chain id.
pub open spec fn chain_id_outcome(o: Result<RoutedView, RpcErrorView>) -> Result<
    CallView<u64>,
    RpcErrorView,
> {
    match o {
        Ok(RoutedView::Verified(v, _)) => match chain_id_of(v) {
            Ok(id) => Ok(CallView::Done(id)),
            Err(e) => Err(e),
        },
        Ok(RoutedView::Direct(p)) => Ok(CallView::Post(p)),
        Err(e) => Err(e),
    }
}

/// What a JSON-RPC reply says: its result, or its error.
pub open spec fn reply_result(v: JsonView) -> Result<JsonView, RpcErrorView> {
    match v.get("error"@) {
        Some(err) => Err(
            RpcErrorView::Rpc {
                code: match err.get("code"@) {
                    Some(c) => match c.as_i64() {
                        Some(code) => code,
                        None => 0,
                    },
                    None => 0,
                },
                message: match err.get("message"@) {
                    Some(m) => match m.as_str() {
                        Some(message) => message,
                        None => ""@,
                    },
                    None => ""@,
                },
            },
        ),
        None => match v.get("result"@) {
            Some(result) => Ok(result),
            None => Err(RpcErrorView::Parse("response had no `result`"@)),
        },
    }
}

/// The result of a request that was sent.
pub open spec fn posted_result(posted: PostedView) -> Result<JsonView, RpcErrorView> {
    match posted {
        PostedView::NoClient(e) => Err(RpcErrorView::Proxy(e)),
        PostedView::Failed(e) => Err(RpcErrorView::Http(e)),
        PostedView::Reply(v) => reply_result(v),
    }
}

impl<R: VerifiedRouter> EthRpc<R> {
    /// Whether `o` is what a call may come to when it is routed.
    ///
    /// Where the chain requires verification, the router decides and nothing else.
    pub open spec fn routes(
        &self,
        chain_id: u64,
        method: &str,
        params: JsonView,
        o: Result<RoutedView, RpcErrorView>,
    ) -> bool {
        match self@.config(chain_id) {
            None => o == Err::<RoutedView, RpcErrorView>(RpcErrorView::UnknownChain(chain_id)),
            Some(c) => match c.verified_proxy_mode {
                VerifiedProxyMode::Off => o == (match direct(
                    self@,
                    chain_id,
                    None,
                    method@,
                    params,
                ) {
                    Ok(p) => Ok(RoutedView::Direct(p)),
                    Err(e) => Err(e),
                }),
                VerifiedProxyMode::Required => match self.router() {
                    None => o == Err::<RoutedView, RpcErrorView>(
                        RpcErrorView::VerifiedProxy("no verified proxy is wired up"@),
                    ),
                    Some(router) => router_settles(router, chain_id, method, params, o),
                },
            },
        }
    }

    /// Whether a call may be made: where its chain requires verification and there is a router,
    /// the router may be asked for it. Any other call is made without asking the router.
    pub open spec fn may_ask(&self, chain_id: u64, method: Seq<char>, params: JsonView) -> bool {
        match (self@.config(chain_id), self.router()) {
            (Some(c), Some(router)) => c.verified_proxy_mode == VerifiedProxyMode::Required
                ==> router.may_be_asked(chain_id, method, coerced_params(method, params)),
            _ => true,
        }
    }

    /// Whether `r` is what a call may come to whose result is taken as it is.
    pub open spec fn calls_value(
        &self,
        chain_id: u64,
        method: &str,
        params: JsonView,
        r: Result<CallView<JsonView>, RpcErrorView>,
    ) -> bool {
        exists|o: Result<RoutedView, RpcErrorView>| #[trigger]
            self.routes(chain_id, method, params, o) && r == value_outcome(o)
    }

    /// Whether `r` is what a call may come to whose result is taken as text.
    pub open spec fn calls_text(
        &self,
        chain_id: u64,
        method: &str,
        params: JsonView,
        r: Result<CallView<Seq<char>>, RpcErrorView>,
    ) -> bool {
        exists|o: Result<RoutedView, RpcErrorView>| #[trigger]
            self.routes(chain_id, method, params, o) && r == text_outcome(o)
    }

    /// Plans the fail-closed client of a chain and gives it with the endpoint.
    fn client_for(&self, chain_id: u64) -> (r: Result<(ClientPlan, String), RpcError>)
        ensures
            (match self@.config(chain_id) {
                None => r matches Err(e) && e@ == RpcErrorView::UnknownChain(chain_id),
                Some(c) => match planned_client(c.proxy, c.proxy_required, c.timeout_secs) {
                    Ok(client) => r matches Ok(pair) && pair.0@ == client && pair.1@ == c.endpoint,
                    Err(text) => r matches Err(e) && e@ == RpcErrorView::Proxy(text),
                },
            }),
    {
        let c: &ChainConfig = match self.get_chain_config(chain_id) {
            Some(c) => c,
            None => {
                return Err(RpcError::UnknownChain(chain_id));
            },
        };
        let policy: ProxyConfig = ProxyConfig::new(
            clone_optional(&c.proxy),
            c.proxy_required,
            c.timeout_secs,
        );
        match policy.plan_client() {
            Ok(client) => Ok((client, c.endpoint.clone())),
            Err(e) => Err(RpcError::Proxy(e)),
        }
    }

    /// Routes a JSON-RPC call whose result is taken as it is.
    pub fn rpc_call(&self, chain_id: u64, method: &str, params: Json) -> (r: Result<
        Call<Json>,
        RpcError,
    >)
        requires
            self.may_ask(chain_id, method@, params@),
        ensures
            self.calls_value(chain_id, method, params@, result_view(r)),
    {
        let routed: Result<Routed, RpcError> = self.rpc_call_routed(chain_id, method, params);
        let ghost o = result_view(routed);
        assert(self.routes(chain_id, method, params@, o));
        match routed {
            Ok(Routed::Verified(v, _)) => Ok(Call::Done(v)),
            Ok(Routed::Direct(p)) => Ok(Call::Post(p)),
            Err(e) => Err(e),
        }
    }

    /// The routing decision, in the one place that every call funnels through. The result says
    /// whether it is backed by a proof, so that a caller can report which it got.
    pub fn rpc_call_routed(&self, chain_id: u64, method: &str, params: Json) -> (r: Result<
        Routed,
        RpcError,
    >)
        requires
            self.may_ask(chain_id, method@, params@),
        ensures
            self.routes(chain_id, method, params@, result_view(r)),
    {
        let mode: VerifiedProxyMode = match self.get_chain_config(chain_id) {
            Some(c) => c.verified_proxy_mode,
            None => {
                return Err(RpcError::UnknownChain(chain_id));
            },
        };
        if mode == VerifiedProxyMode::Required {
            let router: &Arc<R> = match self.verified_router() {
                Some(router) => router,
                None => {
                    return Err(
                        RpcError::VerifiedProxy("no verified proxy is wired up".to_owned()),
                    );
                },
            };
            let sent: Json = verified_params(method, &params);
            // A failure is refused. Falling back would answer a request for a verified number
            // with an unverified one, which is worse than no answer at all.
            let reply: Result<Json, String> = router.call(chain_id, method, &sent);
            assert(router_replies(*router, chain_id, method, sent, reply));
            let routed: Result<Routed, RpcError> = match settle_verified(method, reply) {
                Ok((v, class)) => Ok(Routed::Verified(v, class)),
                Err(e) => Err(e),
            };
            proof {
                let o = result_view(routed);
                assert(o == settled(method@, reply_view(reply)));
                assert(router_settles(*router, chain_id, method, params@, o));
                assert(self.routes(chain_id, method, params@, o));
            }
            return routed;
        }
        match self.client_for(chain_id) {
            Ok((client, endpoint)) => Ok(
                Routed::Direct(
                    PostRequest { client, url: endpoint, body: request_body(method, params) },
                ),
            ),
            Err(e) => Err(e),
        }
    }

    /// Like [`EthRpc::rpc_call`], but to an explicit `url` instead of the chain's endpoint,
    /// still through the chain's fail-closed client, and without asking the router in any mode. For
    /// services tied to a chain, such as an ERC-4337 bundler: a private send must not leak the
    /// user's address to it either.
    pub fn rpc_call_url(&self, chain_id: u64, url: &str, method: &str, params: Json) -> (r: Result<
        PostRequest,
        RpcError,
    >)
        ensures
            result_view(r) == direct(self@, chain_id, Some(url@), method@, params@),
    {
        match self.client_for(chain_id) {
            Ok((client, _)) => Ok(
                PostRequest { client, url: url.to_owned(), body: request_body(method, params) },
            ),
            Err(e) => Err(e),
        }
    }

    /// Routes a JSON-RPC call whose result is taken as text.
    fn result_str(&self, chain_id: u64, method: &str, params: Json) -> (r: Result<
        Call<String>,
        RpcError,
    >)
        requires
            self.may_ask(chain_id, method@, params@),
        ensures
            self.calls_text(chain_id, method, params@, result_view(r)),
    {
        let routed: Result<Routed, RpcError> = self.rpc_call_routed(chain_id, method, params);
        let ghost o = result_view(routed);
        assert(self.routes(chain_id, method, params@, o));
        match routed {
            Ok(Routed::Verified(v, _)) => Ok(Call::Done(result_text(v))),
            Ok(Routed::Direct(p)) => Ok(Call::Post(p)),
            Err(e) => Err(e),
        }
    }
}

impl<R: VerifiedRouter> EthRpc<R> {
    /// The chain id that the node of a chain reports, by `eth_chainId`.
    pub fn verify_chain_id(&self, chain_id: u64) -> (r: Result<Call<u64>, RpcError>)
        requires
            self.may_ask(chain_id, "eth_chainId"@, JsonView::Array(Seq::empty())),
        ensures
            exists|o: Result<RoutedView, RpcErrorView>| #[trigger]
                self.routes(chain_id, "eth_chainId", JsonView::Array(Seq::empty()), o)
                    && result_view(r) == chain_id_outcome(o),
    {
        let routed: Result<Routed, RpcError> = self.rpc_call_routed(
            chain_id,
            "eth_chainId",
            no_params(),
        );
        let ghost o = result_view(routed);
        assert(self.routes(chain_id, "eth_chainId", JsonView::Array(Seq::empty()), o));
        match routed {
            Ok(Routed::Verified(v, _)) => match result_chain_id(v) {
                Ok(id) => Ok(Call::Done(id)),
                Err(e) => Err(e),
            },
            Ok(Routed::Direct(p)) => Ok(Call::Post(p)),
            Err(e) => Err(e),
        }
    }

    /// The number of the latest block.
    pub fn block_number(&self, chain_id: u64) -> (r: Result<Call<String>, RpcError>)
        requires
            self.may_ask(chain_id, "eth_blockNumber"@, JsonView::Array(Seq::empty())),
        ensures
            self.calls_text(
                chain_id,
                "eth_blockNumber",
                JsonView::Array(Seq::empty()),
                result_view(r),
            ),
    {
        self.result_str(chain_id, "eth_blockNumber", no_params())
    }

    /// The balance of an account.
    pub fn get_balance(&self, chain_id: u64, address: &str) -> (r: Result<Call<String>, RpcError>)
        requires
            self.may_ask(
                chain_id,
                "eth_getBalance"@,
                JsonView::Array(seq![JsonView::Str(address@), JsonView::Str("latest"@)]),
            ),
        ensures
            self.calls_text(
                chain_id,
                "eth_getBalance",
                JsonView::Array(seq![JsonView::Str(address@), JsonView::Str("latest"@)]),
                result_view(r),
            ),
    {
        self.result_str(
            chain_id,
            "eth_getBalance",
            two_params(Json::string(address), Json::string("latest")),
        )
    }

    /// The answer of a contract; `call` is a `{to, data, ...}` object.
    pub fn call(&self, chain_id: u64, call: Json) -> (r: Result<Call<String>, RpcError>)
        requires
            self.may_ask(
                chain_id,
                "eth_call"@,
                JsonView::Array(seq![call@, JsonView::Str("latest"@)]),
            ),
        ensures
            self.calls_text(
                chain_id,
                "eth_call",
                JsonView::Array(seq![call@, JsonView::Str("latest"@)]),
                result_view(r),
            ),
    {
        self.result_str(chain_id, "eth_call", two_params(call, Json::string("latest")))
    }

    /// The number of transactions that an account has sent, those under way included.
    pub fn get_transaction_count(&self, chain_id: u64, address: &str) -> (r: Result<
        Call<String>,
        RpcError,
    >)
        requires
            self.may_ask(
                chain_id,
                "eth_getTransactionCount"@,
                JsonView::Array(seq![JsonView::Str(address@), JsonView::Str("pending"@)]),
            ),
        ensures
            self.calls_text(
                chain_id,
                "eth_getTransactionCount",
                JsonView::Array(seq![JsonView::Str(address@), JsonView::Str("pending"@)]),
                result_view(r),
            ),
    {
        self.result_str(
            chain_id,
            "eth_getTransactionCount",
            two_params(Json::string(address), Json::string("pending")),
        )
    }

    /// The gas price that the node suggests.
    pub fn gas_price(&self, chain_id: u64) -> (r: Result<Call<String>, RpcError>)
        requires
            self.may_ask(chain_id, "eth_gasPrice"@, JsonView::Array(Seq::empty())),
        ensures
            self.calls_text(
                chain_id,
                "eth_gasPrice",
                JsonView::Array(Seq::empty()),
                result_view(r),
            ),
    {
        self.result_str(chain_id, "eth_gasPrice", no_params())
    }

    /// The fees of the latest `blocks` blocks.
    pub fn fee_history(&self, chain_id: u64, blocks: u64, reward_percentiles: Json) -> (r: Result<
        Call<Json>,
        RpcError,
    >)
        requires
            self.may_ask(
                chain_id,
                "eth_feeHistory"@,
                fee_history_params(blocks, reward_percentiles@),
            ),
        ensures
            self.calls_value(
                chain_id,
                "eth_feeHistory",
                fee_history_params(blocks, reward_percentiles@),
                result_view(r),
            ),
    {
        let mut items: Vec<Json> = Vec::new();
        push_item(&mut items, Json::Str(joined("0x", &hex_text(blocks))));
        push_item(&mut items, Json::string("latest"));
        push_item(&mut items, reward_percentiles);
        assert(items_view(items@) =~= fee_history_params(blocks, reward_percentiles@)->Array_0);
        self.rpc_call(chain_id, "eth_feeHistory", Json::Array(items))
    }

    /// The gas that a transaction would take.
    pub fn estimate_gas(&self, chain_id: u64, tx: Json) -> (r: Result<Call<String>, RpcError>)
        requires
            self.may_ask(chain_id, "eth_estimateGas"@, JsonView::Array(seq![tx@])),
        ensures
            self.calls_text(
                chain_id,
                "eth_estimateGas",
                JsonView::Array(seq![tx@]),
                result_view(r),
            ),
    {
        self.result_str(chain_id, "eth_estimateGas", one_param(tx))
    }

    /// Broadcasts a signed transaction and gives its hash.
    pub fn send_raw_transaction(&self, chain_id: u64, raw_hex: &str) -> (r: Result<
        Call<String>,
        RpcError,
    >)
        requires
            self.may_ask(
                chain_id,
                "eth_sendRawTransaction"@,
                JsonView::Array(seq![JsonView::Str(raw_hex@)]),
            ),
        ensures
            self.calls_text(
                chain_id,
                "eth_sendRawTransaction",
                JsonView::Array(seq![JsonView::Str(raw_hex@)]),
                result_view(r),
            ),
    {
        self.result_str(chain_id, "eth_sendRawTransaction", one_param(Json::string(raw_hex)))
    }

    /// The receipt of a transaction.
    pub fn get_transaction_receipt(&self, chain_id: u64, hash: &str) -> (r: Result<
        Call<Json>,
        RpcError,
    >)
        requires
            self.may_ask(
                chain_id,
                "eth_getTransactionReceipt"@,
                JsonView::Array(seq![JsonView::Str(hash@)]),
            ),
        ensures
            self.calls_value(
                chain_id,
                "eth_getTransactionReceipt",
                JsonView::Array(seq![JsonView::Str(hash@)]),
                result_view(r),
            ),
    {
        self.rpc_call(chain_id, "eth_getTransactionReceipt", one_param(Json::string(hash)))
    }

    /// A transaction.
    pub fn get_transaction_by_hash(&self, chain_id: u64, hash: &str) -> (r: Result<
        Call<Json>,
        RpcError,
    >)
        requires
            self.may_ask(
                chain_id,
                "eth_getTransactionByHash"@,
                JsonView::Array(seq![JsonView::Str(hash@)]),
            ),
        ensures
            self.calls_value(
                chain_id,
                "eth_getTransactionByHash",
                JsonView::Array(seq![JsonView::Str(hash@)]),
                result_view(r),
            ),
    {
        self.rpc_call(chain_id, "eth_getTransactionByHash", one_param(Json::string(hash)))
    }
}

/// The parameters of `eth_feeHistory`.
pub open spec fn fee_history_params(blocks: u64, reward_percentiles: JsonView) -> JsonView {
    JsonView::Array(
        seq![
            JsonView::Str("0x"@ + hex(blocks as nat)),
            JsonView::Str("latest"@),
            reward_percentiles,
        ],
    )
}

/// An empty list of parameters.
fn no_params() -> (r: Json)
    ensures
        r@ == JsonView::Array(Seq::empty()),
{
    let items: Vec<Json> = Vec::new();
    assert(items_view(items@) =~= Seq::empty());
    Json::Array(items)
}

/// A list of one parameter.
fn one_param(a: Json) -> (r: Json)
    ensures
        r@ == JsonView::Array(seq![a@]),
{
    let mut items: Vec<Json> = Vec::new();
    push_item(&mut items, a);
    assert(items_view(items@) =~= seq![a@]);
    Json::Array(items)
}

/// A list of two parameters.
fn two_params(a: Json, b: Json) -> (r: Json)
    ensures
        r@ == JsonView::Array(seq![a@, b@]),
{
    let mut items: Vec<Json> = Vec::new();
    push_item(&mut items, a);
    push_item(&mut items, b);
    assert(items_view(items@) =~= seq![a@, b@]);
    Json::Array(items)
}

/// The body of a JSON-RPC request.
pub fn request_body(method: &str, params: Json) -> (r: Json)
    ensures
        r@ == request_body_view(method@, params@),
{
    let mut members: Vec<(String, Json)> = Vec::new();
    push_member(&mut members, "jsonrpc", Json::string("2.0"));
    push_member(&mut members, "id", Json::Uint(1));
    push_member(&mut members, "method", Json::string(method));
    push_member(&mut members, "params", params);
    let r: Json = Json::Object(members);
    assert(members_view(members@) =~= seq![
        ("jsonrpc"@, JsonView::Str("2.0"@)),
        ("id"@, JsonView::Integer(1)),
        ("method"@, JsonView::Str(method@)),
        ("params"@, params@),
    ]);
    r
}

/// What a call comes to for a reply of the router.
pub fn settle_verified(method: &str, reply: Result<Json, String>) -> (r: Result<
    (Json, VerifiedClass),
    RpcError,
>)
    ensures
        (match r {
            Ok((v, class)) => settled(method@, reply_view(reply)) == Ok::<RoutedView, RpcErrorView>(
                RoutedView::Verified(v@, class),
            ),
            Err(e) => settled(method@, reply_view(reply)) == Err::<RoutedView, RpcErrorView>(e@),
        }),
{
    match reply {
        Ok(v) => Ok((normalize_verified_result(v), verified_class(method))),
        Err(e) => Err(RpcError::VerifiedProxy(e)),
    }
}

/// A result as text: a string as it is, anything else as JSON.
pub fn result_text(v: Json) -> (r: String)
    ensures
        r@ == text_of(v@),
{
    match v {
        Json::Str(s) => s,
        other => other.to_text(),
    }
}

/// The chain id in a result.
pub fn result_chain_id(v: Json) -> (r: Result<u64, RpcError>)
    ensures
        result_view(r) == chain_id_of(v@),
{
    let s: String = result_text(v);
    match parse_hex_u64(&s) {
        Some(id) => Ok(id),
        None => Err(RpcError::Parse(joined("bad chainId: ", &s))),
    }
}

impl Posted {
    /// Unwraps the result of a request that was sent.
    pub fn settle(self) -> (r: Result<Json, RpcError>)
        ensures
            result_view(r) == posted_result(self@),
    {
        match self {
            Posted::NoClient(e) => Err(RpcError::Proxy(e)),
            Posted::Failed(e) => Err(RpcError::Http(e)),
            Posted::Reply(v) => read_reply(&v),
        }
    }
}

/// Reads a JSON-RPC reply.
pub fn read_reply(v: &Json) -> (r: Result<Json, RpcError>)
    ensures
        result_view(r) == reply_result(v@),
{
    if let Some(err) = v.get("error") {
        let code: i64 = match err.get("code") {
            Some(c) => match c.as_i64() {
                Some(code) => code,
                None => 0,
            },
            None => 0,
        };
        let message: &str = match err.get("message") {
            Some(m) => match m.as_str() {
                Some(message) => message,
                None => "",
            },
            None => "",
        };
        return Err(RpcError::Rpc { code, message: message.to_owned() });
    }
    match v.get("result") {
        Some(result) => Ok(result.clone()),
        None => Err(RpcError::Parse("response had no `result`".to_owned())),
    }
}

} // verus!
