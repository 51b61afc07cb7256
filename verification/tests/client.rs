//! The client core: the store, the direct leg and the verified leg.

use std::sync::{Arc, Mutex};

use eth_rpc_module::calls::{result_chain_id, result_text};
use eth_rpc_module::{
    parse_json, verified_class, verified_params, Call, ChainConfig, EthRpc, Json, Posted, RpcError,
    VerifiedClass, VerifiedProxyMode, VerifiedRouter,
};

/// Records what the verified leg was asked for, so that the coercion is asserted on the wire.
struct SpyRouter {
    seen: Mutex<Vec<(String, Json)>>,
    answer: Result<Json, String>,
}

impl SpyRouter {
    fn ok(v: Json) -> Arc<Self> {
        Arc::new(SpyRouter { seen: Mutex::new(vec![]), answer: Ok(v) })
    }

    fn failing() -> Arc<Self> {
        Arc::new(SpyRouter {
            seen: Mutex::new(vec![]),
            answer: Err("proxy is not running".to_string()),
        })
    }

    fn last(&self) -> (String, Json) {
        self.seen.lock().unwrap().last().cloned().unwrap()
    }

    fn count(&self) -> usize {
        self.seen.lock().unwrap().len()
    }
}

impl VerifiedRouter for SpyRouter {
    fn call(&self, _chain_id: u64, method: &str, params: &Json) -> Result<Json, String> {
        self.seen.lock().unwrap().push((method.to_string(), params.clone()));
        self.answer.clone()
    }
}

fn json(s: &str) -> Json {
    parse_json(s).unwrap()
}

fn items(v: &Json) -> &Vec<Json> {
    match v {
        Json::Array(items) => items,
        other => panic!("not an array: {other:?}"),
    }
}

fn direct_cfg(endpoint: &str) -> ChainConfig {
    ChainConfig {
        endpoint: endpoint.to_string(),
        proxy: None,
        proxy_required: false,
        timeout_secs: 5,
        verified_proxy_mode: VerifiedProxyMode::Off,
        verified_timeout_secs: 15,
    }
}

fn cfg(mode: VerifiedProxyMode) -> ChainConfig {
    ChainConfig {
        endpoint: "http://127.0.0.1:1/never".to_string(),
        proxy: None,
        proxy_required: false,
        timeout_secs: 1,
        verified_proxy_mode: mode,
        verified_timeout_secs: 1,
    }
}

fn verified_rpc(router: Arc<SpyRouter>) -> EthRpc<SpyRouter> {
    let mut r = EthRpc::new();
    r.set_chain_config(1, cfg(VerifiedProxyMode::Required)).unwrap();
    r.set_verified_router(router);
    r
}

/// What a verified call answers; a direct request fails the test.
fn done<T>(call: Result<Call<T>, RpcError>) -> Result<T, RpcError> {
    match call {
        Ok(Call::Done(v)) => Ok(v),
        Ok(Call::Post(p)) => panic!("fell through to the direct leg: {p:?}"),
        Err(e) => Err(e),
    }
}

/// What a direct call comes to when a node at `url` answers `body`.
fn answered<T>(call: Result<Call<T>, RpcError>, url: &str, body: &str) -> Result<Json, RpcError> {
    match call {
        Ok(Call::Post(p)) => {
            assert_eq!(p.url, url);
            Posted::Reply(json(body)).settle()
        }
        Ok(Call::Done(_)) => panic!("answered without a request"),
        Err(e) => Err(e),
    }
}

#[test]
fn config_store_roundtrip_persists() {
    let path = "/data/chains.json".to_string();
    let saved;
    {
        let mut r = EthRpc::<SpyRouter>::with_store(path.clone(), vec![]);
        r.set_chain_config(1, direct_cfg("https://eth.example")).unwrap();
        r.set_chain_config(10, direct_cfg("https://op.example")).unwrap();
        assert_eq!(r.list_chains(), vec![1, 10]);
        assert!(r.remove_chain_config(10));
        assert_eq!(r.list_chains(), vec![1]);
        let save = r.take_save().unwrap();
        assert_eq!(save.path, path);
        let text = json(&save.text);
        assert_eq!(
            text.get("1").unwrap().get("endpoint"),
            Some(&Json::string("https://eth.example"))
        );
        assert_eq!(text.get("10"), None);
        saved = r.stored();
    }
    // Reopen: chain 1 survives, chain 10 is gone.
    let r2 = EthRpc::<SpyRouter>::with_store(path, saved);
    assert_eq!(r2.list_chains(), vec![1]);
    assert_eq!(r2.get_chain_config(1).unwrap().endpoint, "https://eth.example");
}

#[test]
fn unknown_chain_errors() {
    let r = EthRpc::<SpyRouter>::new();
    assert!(matches!(r.get_balance(999, "0x0"), Err(RpcError::UnknownChain(999))));
}

#[test]
fn fail_closed_when_proxy_required_but_unset() {
    let mut r = EthRpc::<SpyRouter>::new();
    r.set_chain_config(
        1,
        ChainConfig {
            endpoint: "https://eth.example".to_string(),
            proxy: None,
            proxy_required: true,
            timeout_secs: 5,
            verified_proxy_mode: VerifiedProxyMode::Off,
            verified_timeout_secs: 15,
        },
    )
    .unwrap();
    // Must refuse via the proxy chokepoint: no request is attempted.
    match r.get_balance(1, "0x0000000000000000000000000000000000000000") {
        Err(RpcError::Proxy(_)) => {}
        other => panic!("expected fail-closed Proxy error, got {other:?}"),
    }
}

#[test]
fn parses_get_balance_against_mock_node() {
    let mut r = EthRpc::<SpyRouter>::new();
    r.set_chain_config(1, direct_cfg("http://127.0.0.1:8599")).unwrap();
    let call = r.get_balance(1, "0x0000000000000000000000000000000000000000");
    let body = r#"{"jsonrpc":"2.0","id":1,"result":"0x1234"}"#;
    let bal = result_text(answered(call, "http://127.0.0.1:8599", body).unwrap());
    assert_eq!(bal, "0x1234");
}

#[test]
fn verify_chain_id_decodes_hex() {
    let mut r = EthRpc::<SpyRouter>::new();
    r.set_chain_config(10, direct_cfg("http://127.0.0.1:8599")).unwrap();
    let body = r#"{"jsonrpc":"2.0","id":1,"result":"0xa"}"#;
    let v = answered(r.verify_chain_id(10), "http://127.0.0.1:8599", body).unwrap();
    assert_eq!(result_chain_id(v).unwrap(), 10);
}

#[test]
fn surfaces_rpc_error() {
    let mut r = EthRpc::<SpyRouter>::new();
    r.set_chain_config(1, direct_cfg("http://127.0.0.1:8599")).unwrap();
    let body = r#"{"jsonrpc":"2.0","id":1,"error":{"code":-32000,"message":"boom"}}"#;
    match answered(r.gas_price(1), "http://127.0.0.1:8599", body) {
        Err(RpcError::Rpc { code, message }) => {
            assert_eq!(code, -32000);
            assert_eq!(message, "boom");
        }
        other => panic!("expected Rpc error, got {other:?}"),
    }
}

#[test]
fn fee_history_block_count_becomes_a_number_on_the_verified_leg_only() {
    let spy = SpyRouter::ok(json(r#"{ "baseFeePerGas": ["0x1"] }"#));
    let r = verified_rpc(spy.clone());
    done(r.fee_history(1, 4, json("[25]"))).unwrap();
    let (m, p) = spy.last();
    assert_eq!(m, "eth_feeHistory");
    assert_eq!(items(&p)[0], Json::Uint(4), "a hex blockCount returns success with EMPTY arrays");
    // The hex is untouched off the verified leg.
    assert_eq!(
        items(&verified_params("eth_getBalance", &json(r#"["0xa", "latest"]"#)))[1],
        Json::string("latest")
    );
}

#[test]
fn pending_becomes_latest_because_pending_is_unverifiable() {
    let spy = SpyRouter::ok(Json::string("0x7"));
    let r = verified_rpc(spy.clone());
    done(r.get_transaction_count(1, "0xabc")).unwrap();
    assert_eq!(
        items(&spy.last().1)[1],
        Json::string("latest"),
        "a light client has no header for `pending`"
    );
}

#[test]
fn estimate_gas_and_call_gain_the_upstream_third_parameter() {
    let spy = SpyRouter::ok(Json::string("0x5208"));
    let r = verified_rpc(spy.clone());
    done(r.estimate_gas(1, json(r#"{ "to": "0xabc" }"#))).unwrap();
    let (_, p) = spy.last();
    assert_eq!(items(&p).len(), 3, "a one-arg estimate_gas is refused outright");
    assert_eq!(items(&p)[2], Json::Bool(false));
    done(r.call(1, json(r#"{ "to": "0xabc" }"#))).unwrap();
    assert_eq!(items(&spy.last().1).len(), 3);
}

#[test]
fn a_failing_verified_leg_refuses_and_never_falls_back() {
    let spy = SpyRouter::failing();
    let r = verified_rpc(spy.clone());
    let e = done(r.get_balance(1, "0xabc")).unwrap_err();
    assert!(matches!(e, RpcError::VerifiedProxy(_)), "got {e:?}");
    assert!(e.to_string().contains("proxy is not running"));
    assert_eq!(spy.count(), 1, "one attempt, and no retry against the endpoint");
}

#[test]
fn a_byte_array_result_is_normalised_back_to_a_hex_string() {
    let spy = SpyRouter::ok(json("[0, 32, 87, 69, 84, 72]"));
    let r = verified_rpc(spy);
    assert_eq!(
        done(r.call(1, json(r#"{ "to": "0xabc" }"#))).unwrap(),
        "0x00205745544 8".replace(" ", "")
    );
}

#[test]
fn a_bare_number_result_is_normalised_back_to_a_hex_quantity() {
    let spy = SpyRouter::ok(Json::Uint(11579774));
    let r = verified_rpc(spy);
    assert_eq!(done(r.block_number(1)).unwrap(), "0xb0b17e");
}

#[test]
fn a_result_already_in_wire_form_is_left_alone() {
    let spy = SpyRouter::ok(Json::string("0x1afd6402e6259dc342259"));
    let r = verified_rpc(spy);
    assert_eq!(done(r.get_balance(1, "0xabc")).unwrap(), "0x1afd6402e6259dc342259");
    // A structured reply keeps its shape: its arrays hold hex strings, so the byte-array rule
    // must not fire on them.
    let spy2 =
        SpyRouter::ok(json(r#"{ "baseFeePerGas": ["0x59bceec"], "oldestBlock": "0x1" }"#));
    let r2 = verified_rpc(spy2);
    let v = done(r2.fee_history(1, 4, json("[50]"))).unwrap();
    assert_eq!(items(v.get("baseFeePerGas").unwrap())[0], Json::string("0x59bceec"));
}

#[test]
fn only_proof_backed_reads_are_classed_verified() {
    for m in [
        "eth_getBalance",
        "eth_getTransactionCount",
        "eth_getCode",
        "eth_getStorageAt",
        "eth_call",
    ] {
        assert_eq!(verified_class(m), VerifiedClass::Verified, "{m}");
    }
    // A light client cannot prove a fee oracle's opinion or that a broadcast landed.
    for m in [
        "eth_gasPrice",
        "eth_maxPriorityFeePerGas",
        "eth_feeHistory",
        "eth_estimateGas",
        "eth_sendRawTransaction",
        "eth_blockNumber",
    ] {
        assert_eq!(verified_class(m), VerifiedClass::Proxied, "{m}");
    }
}

#[test]
fn off_mode_never_touches_the_router() {
    let spy = SpyRouter::ok(Json::string("0x1"));
    let mut r = EthRpc::new();
    r.set_chain_config(1, cfg(VerifiedProxyMode::Off)).unwrap();
    r.set_verified_router(spy.clone());
    assert!(matches!(r.get_balance(1, "0xabc"), Ok(Call::Post(_))));
    assert_eq!(spy.count(), 0, "off mode must not route");
}

#[test]
fn a_socks_proxy_and_verified_routing_cannot_both_be_required() {
    let mut r = EthRpc::<SpyRouter>::new();
    let bad = ChainConfig {
        endpoint: "https://x".to_string(),
        proxy: Some("socks5h://127.0.0.1:9050".to_string()),
        proxy_required: true,
        timeout_secs: 8,
        verified_proxy_mode: VerifiedProxyMode::Required,
        verified_timeout_secs: 15,
    };
    assert!(bad.validate().is_err());
    assert!(r.set_chain_config(1, bad).is_err(), "the store must refuse the contradiction");
    assert!(r.get_chain_config(1).is_none());
}

#[test]
fn ensure_seeds_an_absent_chain_but_never_clobbers_a_configured_endpoint() {
    let mut r = EthRpc::<SpyRouter>::new();
    let mine = cfg(VerifiedProxyMode::Off);
    assert_eq!(r.ensure_chain_config(1, &mine), vec!["*".to_string()]);
    let theirs = ChainConfig { endpoint: "https://theirs".to_string(), ..mine.clone() };
    assert!(r.ensure_chain_config(1, &theirs).is_empty(), "an existing endpoint is the user's");
    assert_eq!(r.get_chain_config(1).unwrap().endpoint, "http://127.0.0.1:1/never");
}

#[test]
fn patch_rewrites_the_timeouts_we_own_and_nothing_else() {
    let mut r = EthRpc::<SpyRouter>::new();
    let mut c = cfg(VerifiedProxyMode::Off);
    c.timeout_secs = 30;
    c.endpoint = "https://mine".to_string();
    r.set_chain_config(1, c).unwrap();
    assert!(r.patch_chain_transport(1, Some(8), Some(15)));
    let got = r.get_chain_config(1).unwrap();
    assert_eq!((got.timeout_secs, got.verified_timeout_secs), (8, 15));
    assert_eq!(got.endpoint, "https://mine", "the user's endpoint is untouched");
    assert!(!r.patch_chain_transport(999, Some(8), None));
}

#[test]
fn switching_mode_on_a_socks_required_chain_is_refused_and_rolled_back() {
    let mut r = EthRpc::<SpyRouter>::new();
    let mut c = cfg(VerifiedProxyMode::Off);
    c.proxy = Some("socks5h://1".to_string());
    c.proxy_required = true;
    r.set_chain_config(1, c).unwrap();
    assert!(r.set_verified_proxy_mode(1, VerifiedProxyMode::Required).is_err());
    assert_eq!(
        r.get_chain_config(1).unwrap().verified_proxy_mode,
        VerifiedProxyMode::Off,
        "a refused switch must not leave the mode changed"
    );
}

#[test]
fn a_direct_request_is_what_the_node_expects() {
    let mut r = EthRpc::<SpyRouter>::new();
    let mut c = direct_cfg("https://node");
    c.proxy = Some("socks5h://127.0.0.1:9050".to_string());
    c.proxy_required = true;
    c.timeout_secs = 7;
    r.set_chain_config(5, c).unwrap();
    let p = match r.fee_history(5, 255, json("[1.5]")).unwrap() {
        Call::Post(p) => p,
        Call::Done(_) => panic!("no request"),
    };
    assert_eq!(p.client.proxy.as_deref(), Some("socks5h://127.0.0.1:9050"));
    assert_eq!(p.client.timeout_secs, 7);
    assert_eq!(
        p.body.to_text(),
        r#"{"id":1,"jsonrpc":"2.0","method":"eth_feeHistory","params":["0xff","latest",[1.5]]}"#
    );
    let q = r.rpc_call_url(5, "https://bundler", "eth_sendUserOperation", json("[{}]")).unwrap();
    assert_eq!(q.url, "https://bundler");
    assert_eq!(q.client.proxy.as_deref(), Some("socks5h://127.0.0.1:9050"));
    assert_eq!(
        q.body.to_text(),
        r#"{"id":1,"jsonrpc":"2.0","method":"eth_sendUserOperation","params":[{}]}"#
    );
}

#[test]
fn every_typed_call_has_its_method_and_parameters() {
    let mut r = EthRpc::<SpyRouter>::new();
    r.set_chain_config(1, direct_cfg("u")).unwrap();
    let body = |p: eth_rpc_module::PostRequest| {
        (
            p.body.get("method").unwrap().as_str().unwrap().to_string(),
            p.body.get("params").unwrap().to_text(),
        )
    };
    let text = |c: Result<Call<String>, RpcError>| match c.unwrap() {
        Call::Post(p) => body(p),
        Call::Done(_) => panic!("no request"),
    };
    let value = |c: Result<Call<Json>, RpcError>| match c.unwrap() {
        Call::Post(p) => body(p),
        Call::Done(_) => panic!("no request"),
    };
    let pair = |m: &str, p: &str| (m.to_string(), p.to_string());
    assert_eq!(text(r.block_number(1)), pair("eth_blockNumber", "[]"));
    assert_eq!(text(r.get_balance(1, "0xa")), pair("eth_getBalance", r#"["0xa","latest"]"#));
    assert_eq!(text(r.call(1, json("{}"))), pair("eth_call", r#"[{},"latest"]"#));
    assert_eq!(
        text(r.get_transaction_count(1, "0xa")),
        pair("eth_getTransactionCount", r#"["0xa","pending"]"#)
    );
    assert_eq!(text(r.gas_price(1)), pair("eth_gasPrice", "[]"));
    assert_eq!(text(r.estimate_gas(1, json("{}"))), pair("eth_estimateGas", "[{}]"));
    assert_eq!(
        text(r.send_raw_transaction(1, "0xf")),
        pair("eth_sendRawTransaction", r#"["0xf"]"#)
    );
    assert_eq!(
        value(r.get_transaction_receipt(1, "0xh")),
        pair("eth_getTransactionReceipt", r#"["0xh"]"#)
    );
    assert_eq!(
        value(r.get_transaction_by_hash(1, "0xh")),
        pair("eth_getTransactionByHash", r#"["0xh"]"#)
    );
    assert_eq!(value(r.rpc_call(1, "net_version", Json::Null)), pair("net_version", "null"));
}

#[test]
fn a_chain_that_requires_verification_needs_a_router() {
    let mut r = EthRpc::<SpyRouter>::new();
    r.set_chain_config(1, cfg(VerifiedProxyMode::Required)).unwrap();
    let e = done(r.block_number(1)).unwrap_err();
    assert_eq!(e.to_string(), "verified proxy: no verified proxy is wired up");
}

#[test]
fn a_verified_chain_id_is_read_as_a_number() {
    let r = verified_rpc(SpyRouter::ok(Json::Uint(10)));
    assert_eq!(done(r.verify_chain_id(1)).unwrap(), 10);
    let r = verified_rpc(SpyRouter::ok(Json::Bool(true)));
    let e = done(r.verify_chain_id(1)).unwrap_err();
    assert_eq!(e.to_string(), "parse: bad chainId: true");
}

#[test]
fn replies_are_unwrapped_or_refused() {
    let text = |posted: Posted| posted.settle().unwrap_err().to_string();
    assert_eq!(text(Posted::NoClient("bad proxy".to_string())), "proxy: bad proxy");
    assert_eq!(text(Posted::Failed("refused".to_string())), "http: refused");
    assert_eq!(text(Posted::Reply(json("{}"))), "parse: response had no `result`");
    assert_eq!(text(Posted::Reply(json("[1]"))), "parse: response had no `result`");
    assert_eq!(text(Posted::Reply(json(r#"{"error":{}}"#))), "rpc error 0: ");
    assert_eq!(
        text(Posted::Reply(json(r#"{"error":{"code":1.5,"message":7},"result":1}"#))),
        "rpc error 0: "
    );
    assert_eq!(
        text(Posted::Reply(json(r#"{"error":{"code":-32000,"message":"boom"}}"#))),
        "rpc error -32000: boom"
    );
    assert_eq!(Posted::Reply(json(r#"{"result":null}"#)).settle().unwrap(), Json::Null);
    assert_eq!(RpcError::UnknownChain(7).to_string(), "no configuration for chain 7");
}

#[test]
fn an_explicit_address_never_touches_the_router() {
    let spy = SpyRouter::ok(Json::string("0x1"));
    let r = verified_rpc(spy.clone());
    let p = r.rpc_call_url(1, "https://bundler", "m", json("[]")).unwrap();
    assert_eq!(p.url, "https://bundler");
    assert_eq!(spy.count(), 0);
    done(r.gas_price(1)).unwrap();
    assert_eq!(spy.count(), 1);
}
