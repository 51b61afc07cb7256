//! The calls that a host makes, and their answers.

use std::sync::Arc;

use eth_rpc_module::{
    parse_json, ChainConfig, EthRpcModuleImpl, Json, ModuleCall, PendingCall, Posted, ReplyKind,
    VerifiedProxyMode, VerifiedRouter,
};

/// Answers every call with the same reply.
struct FixedRouter(Result<Json, String>);

impl VerifiedRouter for FixedRouter {
    fn call(&self, _chain_id: u64, _method: &str, _params: &Json) -> Result<Json, String> {
        self.0.clone()
    }
}

type Module = EthRpcModuleImpl<FixedRouter>;

const NOT_READY: &str = r#"{"error":"eth_rpc not initialized (context not ready)","ok":false}"#;

fn ready_with(reply: Result<Json, String>) -> Module {
    let mut m = Module::new();
    m.on_context_ready("dir/chains.json".to_string(), vec![], Arc::new(FixedRouter(reply)));
    m
}

fn ready() -> Module {
    ready_with(Err("no proxy here".to_string()))
}

fn node() -> ChainConfig {
    ChainConfig::with_endpoint("http://127.0.0.1:8599")
}

fn pending(call: ModuleCall) -> PendingCall {
    match call {
        ModuleCall::Post(p) => p,
        ModuleCall::Reply(r) => panic!("answered without a request: {r}"),
    }
}

fn reply(call: ModuleCall) -> String {
    match call {
        ModuleCall::Reply(r) => r,
        ModuleCall::Post(p) => panic!("asked for a request: {p:?}"),
    }
}

fn node_says(body: &str) -> Posted {
    Posted::Reply(parse_json(body).unwrap())
}

#[test]
fn a_wallet_session() {
    let mut m = ready();
    assert!(m.set_chain_config(1, Some(node())));
    assert_eq!(m.list_chains(), r#"{"chains":[1],"ok":true}"#);
    let p = pending(m.verify_chain_id(1));
    assert_eq!(p.kind, ReplyKind::ChainId);
    assert_eq!(p.request.url, "http://127.0.0.1:8599");
    assert_eq!(p.finish(node_says(r#"{"result":"0x1"}"#)), r#"{"chainId":1,"ok":true}"#);
    let p = pending(m.get_balance(1, "0xabc"));
    assert_eq!(p.finish(node_says(r#"{"result":"0x1234"}"#)), r#"{"ok":true,"result":"0x1234"}"#);
    // A chain that requires a proxy and has none is refused.
    let mut c = node();
    c.proxy_required = true;
    assert!(m.set_chain_config(9, Some(c)));
    assert_eq!(
        reply(m.get_balance(9, "0xabc")),
        r#"{"error":"proxy: a proxy is required but none is configured","ok":false}"#
    );
    assert_eq!(
        reply(m.raw_rpc_url(9, "https://bundler", "m", "[]")),
        r#"{"error":"proxy: a proxy is required but none is configured","ok":false}"#
    );
}

#[test]
fn nothing_works_before_the_context_is_ready() {
    let mut m = Module::default();
    assert!(!m.set_chain_config(1, Some(node())));
    assert!(!m.remove_chain_config(1));
    assert_eq!(m.get_chain_config(1), NOT_READY);
    assert_eq!(m.list_chains(), NOT_READY);
    assert_eq!(m.ensure_chain_config(1, Ok(node())), NOT_READY);
    assert_eq!(m.patch_chain_transport(1, 1, 1), NOT_READY);
    assert_eq!(m.set_verified_proxy_mode(1, "off"), NOT_READY);
    assert_eq!(m.init_defaults(), NOT_READY);
    assert_eq!(m.config_status(), r#"{"chains":[],"ok":true,"source":null,"state":"unready"}"#);
    assert!(m.take_save().is_none());
    assert_eq!(reply(m.verify_chain_id(1)), NOT_READY);
    assert_eq!(reply(m.block_number(1)), NOT_READY);
    assert_eq!(reply(m.get_balance(1, "a")), NOT_READY);
    assert_eq!(reply(m.call(1, "{}")), NOT_READY);
    assert_eq!(reply(m.get_transaction_count(1, "a")), NOT_READY);
    assert_eq!(reply(m.gas_price(1)), NOT_READY);
    assert_eq!(reply(m.fee_history(1, 1, "[]")), NOT_READY);
    assert_eq!(reply(m.estimate_gas(1, "{}")), NOT_READY);
    assert_eq!(reply(m.send_raw_transaction(1, "0x")), NOT_READY);
    assert_eq!(reply(m.get_transaction_receipt(1, "0x")), NOT_READY);
    assert_eq!(reply(m.get_transaction_by_hash(1, "0x")), NOT_READY);
    assert_eq!(reply(m.raw_rpc(1, "m", "[]")), NOT_READY);
    assert_eq!(reply(m.raw_rpc_url(1, "u", "m", "[]")), NOT_READY);
}

#[test]
fn arguments_that_are_not_json_are_refused_first() {
    let m = Module::new();
    let message = serde_json::from_str::<serde_json::Value>("{").unwrap_err().to_string();
    let expected = Json::Object(vec![
        ("ok".to_string(), Json::Bool(false)),
        ("error".to_string(), Json::Str(message)),
    ])
    .to_text();
    assert_eq!(reply(m.call(1, "{")), expected);
    assert_eq!(reply(m.fee_history(1, 4, "{")), expected);
    assert_eq!(reply(m.estimate_gas(1, "{")), expected);
    assert_eq!(reply(m.raw_rpc(1, "m", "{")), expected);
    assert_eq!(reply(m.raw_rpc_url(1, "u", "m", "{")), expected);
}

#[test]
fn every_call_has_its_request_and_its_kind() {
    let mut m = ready();
    assert!(m.set_chain_config(-1, Some(node())));
    let sent = |call: ModuleCall| {
        let p = pending(call);
        (
            p.request.body.get("method").unwrap().as_str().unwrap().to_string(),
            p.request.body.get("params").unwrap().to_text(),
            p.kind,
        )
    };
    let is = |m: &str, p: &str, k: ReplyKind| (m.to_string(), p.to_string(), k);
    assert_eq!(sent(m.verify_chain_id(-1)), is("eth_chainId", "[]", ReplyKind::ChainId));
    assert_eq!(sent(m.block_number(-1)), is("eth_blockNumber", "[]", ReplyKind::Text));
    assert_eq!(
        sent(m.get_balance(-1, "a")),
        is("eth_getBalance", r#"["a","latest"]"#, ReplyKind::Text)
    );
    assert_eq!(
        sent(m.call(-1, r#"{"to":"a"}"#)),
        is("eth_call", r#"[{"to":"a"},"latest"]"#, ReplyKind::Text)
    );
    assert_eq!(
        sent(m.get_transaction_count(-1, "a")),
        is("eth_getTransactionCount", r#"["a","pending"]"#, ReplyKind::Text)
    );
    assert_eq!(sent(m.gas_price(-1)), is("eth_gasPrice", "[]", ReplyKind::Text));
    assert_eq!(
        sent(m.fee_history(-1, 16, "[25]")),
        is("eth_feeHistory", r#"["0x10","latest",[25]]"#, ReplyKind::Value)
    );
    assert_eq!(
        sent(m.fee_history(-1, -3, "[]")),
        is("eth_feeHistory", r#"["0x0","latest",[]]"#, ReplyKind::Value)
    );
    assert_eq!(sent(m.estimate_gas(-1, "{}")), is("eth_estimateGas", "[{}]", ReplyKind::Text));
    assert_eq!(
        sent(m.send_raw_transaction(-1, "0xf")),
        is("eth_sendRawTransaction", r#"["0xf"]"#, ReplyKind::Hash)
    );
    assert_eq!(
        sent(m.get_transaction_receipt(-1, "0xh")),
        is("eth_getTransactionReceipt", r#"["0xh"]"#, ReplyKind::Value)
    );
    assert_eq!(
        sent(m.get_transaction_by_hash(-1, "0xh")),
        is("eth_getTransactionByHash", r#"["0xh"]"#, ReplyKind::Value)
    );
    assert_eq!(sent(m.raw_rpc(-1, "m", "[1]")), is("m", "[1]", ReplyKind::Value));
    let p = pending(m.raw_rpc_url(-1, "https://bundler", "m", "[2]"));
    assert_eq!(p.request.url, "https://bundler");
    assert_eq!(p.request.body.to_text(), r#"{"id":1,"jsonrpc":"2.0","method":"m","params":[2]}"#);
    assert_eq!(p.kind, ReplyKind::Value);
}

#[test]
fn results_are_answered_by_their_kind() {
    let mut m = ready();
    m.set_chain_config(1, Some(node()));
    let p = pending(m.send_raw_transaction(1, "0xf"));
    assert_eq!(p.finish(node_says(r#"{"result":"0xh"}"#)), r#"{"hash":"0xh","ok":true}"#);
    assert_eq!(p.finish(node_says(r#"{"result":[1]}"#)), r#"{"hash":"[1]","ok":true}"#);
    let p = pending(m.get_transaction_receipt(1, "0xh"));
    assert_eq!(p.finish(node_says(r#"{"result":null}"#)), r#"{"ok":true,"result":null}"#);
    let p = pending(m.block_number(1));
    assert_eq!(p.finish(node_says(r#"{"result":7}"#)), r#"{"ok":true,"result":"7"}"#);
    assert_eq!(
        p.finish(node_says(r#"{"error":{"code":-1,"message":"boom"}}"#)),
        r#"{"error":"rpc error -1: boom","ok":false}"#
    );
    assert_eq!(
        p.finish(Posted::Failed("timed out".to_string())),
        r#"{"error":"http: timed out","ok":false}"#
    );
    assert_eq!(
        p.finish(Posted::NoClient("bad proxy".to_string())),
        r#"{"error":"proxy: bad proxy","ok":false}"#
    );
    let p = pending(m.verify_chain_id(1));
    assert_eq!(
        p.finish(node_says(r#"{"result":"one"}"#)),
        r#"{"error":"parse: bad chainId: one","ok":false}"#
    );
    assert_eq!(
        reply(m.block_number(-2)),
        r#"{"error":"no configuration for chain 18446744073709551614","ok":false}"#
    );
}

#[test]
fn a_chain_that_requires_verification_is_answered_at_once() {
    let verified = |answer: Result<Json, String>| {
        let mut m = ready_with(answer);
        let mut c = node();
        c.verified_proxy_mode = VerifiedProxyMode::Required;
        assert!(m.set_chain_config(1, Some(c)));
        m
    };
    let m = verified(Ok(Json::Uint(10)));
    assert_eq!(reply(m.verify_chain_id(1)), r#"{"chainId":10,"ok":true}"#);
    assert_eq!(reply(m.block_number(1)), r#"{"ok":true,"result":"0xa"}"#);
    assert_eq!(reply(m.send_raw_transaction(1, "0x")), r#"{"hash":"0xa","ok":true}"#);
    assert_eq!(reply(m.raw_rpc(1, "m", "[]")), r#"{"ok":true,"result":"0xa"}"#);
    // An explicit address is not the chain's endpoint: it is sent directly.
    assert_eq!(pending(m.raw_rpc_url(1, "u", "m", "[]")).request.url, "u");
    let m = verified(Err("degraded".to_string()));
    assert_eq!(
        reply(m.get_balance(1, "a")),
        r#"{"error":"verified proxy: degraded","ok":false}"#
    );
    let m = verified(Ok(Json::string("x")));
    assert_eq!(
        reply(m.verify_chain_id(1)),
        r#"{"error":"parse: bad chainId: x","ok":false}"#
    );
}

#[test]
fn configurations_are_stored_seeded_and_forgotten() {
    let mut m = ready();
    assert!(!m.set_chain_config(1, None));
    let mut bad = node();
    bad.proxy_required = true;
    bad.verified_proxy_mode = VerifiedProxyMode::Required;
    let contradiction = r#"{"error":"proxyRequired and verifiedProxyMode=required cannot both be set: the verified proxy makes its own connections and cannot honour a SOCKS proxy configured here","ok":false}"#;
    assert!(!m.set_chain_config(1, Some(bad.clone())));
    assert_eq!(m.ensure_chain_config(1, Ok(bad)), contradiction);
    assert_eq!(
        m.ensure_chain_config(1, Err("missing field `endpoint`".to_string())),
        r#"{"error":"missing field `endpoint`","ok":false}"#
    );
    assert_eq!(m.get_chain_config(1), r#"{"error":"no config for chain 1","ok":false}"#);
    assert_eq!(m.get_chain_config(-1), r#"{"error":"no config for chain -1","ok":false}"#);
    assert_eq!(m.ensure_chain_config(1, Ok(node())), r#"{"ok":true,"seeded":["*"]}"#);
    assert_eq!(m.ensure_chain_config(1, Ok(node())), r#"{"ok":true,"seeded":[]}"#);
    assert_eq!(
        m.get_chain_config(1),
        r#"{"config":{"endpoint":"http://127.0.0.1:8599","proxy":null,"proxyRequired":false,"timeoutSecs":8,"verifiedProxyMode":"off","verifiedTimeoutSecs":15},"ok":true}"#
    );
    // 0 and less leave a timeout as it is.
    assert_eq!(m.patch_chain_transport(1, 0, 20), r#"{"ok":true}"#);
    assert_eq!(m.patch_chain_transport(1, 3, -5), r#"{"ok":true}"#);
    assert_eq!(
        m.patch_chain_transport(2, 3, 3),
        r#"{"error":"no configuration for chain 2","ok":false}"#
    );
    assert_eq!(
        m.patch_chain_transport(-1, 3, 3),
        r#"{"error":"no configuration for chain 18446744073709551615","ok":false}"#
    );
    assert_eq!(m.list_chains(), r#"{"chains":[1],"ok":true}"#);
    let rpc = m.rpc.as_ref().unwrap();
    let c = rpc.get_chain_config(1).unwrap();
    assert_eq!((c.timeout_secs, c.verified_timeout_secs), (3, 20));
    let save = m.take_save().unwrap();
    assert_eq!(save.path, "dir/chains.json");
    assert!(m.remove_chain_config(1));
    assert!(!m.remove_chain_config(1));
}

#[test]
fn a_mode_is_named_in_any_case() {
    let mut m = ready();
    m.set_chain_config(1, Some(node()));
    assert_eq!(
        m.set_verified_proxy_mode(1, " Required\n"),
        r#"{"chainId":1,"ok":true,"verifiedProxyMode":"required"}"#
    );
    assert_eq!(
        m.set_verified_proxy_mode(1, "OFF"),
        r#"{"chainId":1,"ok":true,"verifiedProxyMode":"off"}"#
    );
    assert_eq!(
        m.set_verified_proxy_mode(1, " Preferred "),
        r#"{"error":"unknown verified proxy mode 'preferred' (expected off or required)","ok":false}"#
    );
    assert_eq!(
        m.set_verified_proxy_mode(2, "off"),
        r#"{"error":"no configuration for chain 2","ok":false}"#
    );
    let mut c = node();
    c.proxy_required = true;
    m.set_chain_config(-3, Some(c));
    assert!(m.set_verified_proxy_mode(-3, "required").contains("cannot both be set"));
    assert_eq!(
        m.set_verified_proxy_mode(-3, "off"),
        r#"{"chainId":-3,"ok":true,"verifiedProxyMode":"off"}"#
    );
}

#[test]
fn the_status_says_whether_the_proxy_is_usable() {
    let status = r#"{"state":"running","chainId":5,"head":{"blockNumber":"0x1"}}"#;
    assert_eq!(
        Module::verified_proxy_status(5, parse_json(status)),
        r#"{"chainId":5,"ok":true,"usable":true}"#
    );
    assert_eq!(
        Module::verified_proxy_status(-6, parse_json(status)),
        r#"{"chainId":-6,"ok":true,"reason":"proxy is on chain 5, this request is for 18446744073709551610","usable":false}"#
    );
    assert_eq!(
        Module::verified_proxy_status(5, Err("Timeout".to_string())),
        r#"{"chainId":5,"ok":true,"reason":"not reachable (Timeout)","usable":false}"#
    );
}

#[test]
fn a_consumer_works_with_no_configuration_at_all() {
    let mut m = ready();
    assert_eq!(
        m.config_status(),
        r#"{"chains":[],"ok":true,"source":null,"state":"unconfigured"}"#
    );
    assert_eq!(m.init_defaults(), r#"{"applied":true,"ok":true}"#);
    assert_eq!(m.init_defaults(), r#"{"applied":false,"ok":true}"#);
    assert_eq!(
        m.config_status(),
        r#"{"chains":[1,560048,11155111],"ok":true,"source":"default","state":"configured"}"#
    );
    m.patch_chain_transport(560048, 5, 0);
    assert_eq!(
        m.config_status(),
        r#"{"chains":[1,560048,11155111],"ok":true,"source":"external","state":"configured"}"#
    );
    assert_eq!(
        pending(m.block_number(1)).request.url,
        "https://ethereum-rpc.publicnode.com"
    );
}

/// Checks that an answer reads back as an object that says whether it succeeded, and why not.
fn check_answer(text: &str, ok: bool) {
    let v = parse_json(text).unwrap();
    assert_eq!(v.to_text(), text, "reads back");
    assert_eq!(v.get("ok"), Some(&Json::Bool(ok)), "{text}");
    let why = v.get("error").and_then(|e| e.as_str());
    assert_eq!(why.is_some(), !ok, "{text}");
}

#[test]
fn every_answer_says_whether_it_succeeded() {
    for known in [None, Some(false), Some(true)] {
        let mut m = if known.is_some() { ready() } else { Module::new() };
        if known == Some(true) {
            assert!(m.set_chain_config(1, Some(node())));
        }
        let is_ready = known.is_some();
        let is_known = known == Some(true);
        check_answer(&m.get_chain_config(1), is_known);
        check_answer(&m.list_chains(), is_ready);
        check_answer(&m.config_status(), true);
        check_answer(&m.patch_chain_transport(1, 2, 3), is_known);
        check_answer(&m.set_verified_proxy_mode(1, "off"), is_known);
        check_answer(&m.set_verified_proxy_mode(1, "preferred"), false);
        check_answer(&m.ensure_chain_config(1, Err("not JSON".to_string())), false);
        check_answer(&m.ensure_chain_config(1, Ok(node())), is_ready);
        check_answer(&m.init_defaults(), is_ready);
        check_answer(&Module::verified_proxy_status(1, Err("Timeout".to_string())), true);
        if let ModuleCall::Post(p) = m.block_number(1) {
            check_answer(&p.finish(node_says(r#"{"result":"0x1"}"#)), true);
            check_answer(&p.finish(Posted::Failed("down".to_string())), false);
        } else {
            assert!(!is_ready);
        }
    }
}
