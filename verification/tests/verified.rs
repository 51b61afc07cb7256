//! The dialect of the verified leg, and the decisions of its router.

use eth_rpc_module::calls::settle_verified;
use eth_rpc_module::router::{
    classify_status, dispatch_args, read_envelope, DEFAULT_BUDGET_SECS, HEALTH_TTL_NANOS,
    PROBE_BUDGET_MILLIS,
};
use eth_rpc_module::{
    normalize_verified_result, parse_json, verified_params, Json, RouterStep, VerifiedClass,
    VerifiedProxyRouter,
};

fn json(s: &str) -> Json {
    parse_json(s).unwrap()
}

fn coerced(method: &str, params: &str) -> String {
    verified_params(method, &json(params)).to_text()
}

fn normal(v: &str) -> String {
    normalize_verified_result(json(v)).to_text()
}

#[test]
fn coercion_speaks_the_dialect_of_the_proxy() {
    assert_eq!(coerced("eth_feeHistory", r#"["0x10","latest",[]]"#), r#"[16,"latest",[]]"#);
    assert_eq!(
        coerced("eth_feeHistory", r#"["0xffffffffffffffff"]"#),
        "[18446744073709551615]"
    );
    // One more does not fit and stays; so do a capital prefix, an empty count and no prefix.
    assert_eq!(
        coerced("eth_feeHistory", r#"["0x10000000000000000"]"#),
        r#"["0x10000000000000000"]"#
    );
    assert_eq!(coerced("eth_feeHistory", r#"["0X10"]"#), r#"["0X10"]"#);
    assert_eq!(coerced("eth_feeHistory", r#"["0x"]"#), r#"["0x"]"#);
    assert_eq!(coerced("eth_feeHistory", r#"["16"]"#), r#"["16"]"#);
    assert_eq!(coerced("eth_feeHistory", "[4]"), "[4]");
    assert_eq!(coerced("eth_feeHistory", "[]"), "[]");
    assert_eq!(
        coerced("eth_getTransactionCount", r#"["0xa","earliest"]"#),
        r#"["0xa","earliest"]"#
    );
    assert_eq!(coerced("eth_getTransactionCount", r#"["pending"]"#), r#"["pending"]"#);
    assert_eq!(coerced("eth_call", "[]"), r#"["latest","latest",false]"#);
    assert_eq!(coerced("eth_createAccessList", "[1]"), r#"[1,"latest",false]"#);
    assert_eq!(coerced("eth_estimateGas", r#"[1,"0x5"]"#), r#"[1,"0x5",false]"#);
    assert_eq!(coerced("eth_call", r#"[1,"0x5",true]"#), r#"[1,"0x5",true]"#);
    assert_eq!(coerced("eth_call", r#"[1,2,3,4]"#), "[1,2,3,4]");
    assert_eq!(coerced("eth_getBalance", r#"["0xa","pending"]"#), r#"["0xa","pending"]"#);
    // What is not an array counts as no parameters.
    assert_eq!(coerced("eth_getBalance", r#"{"a":1}"#), "[]");
}

#[test]
fn coercion_is_idempotent() {
    for (method, params) in [
        ("eth_feeHistory", r#"["0x4","latest",[25]]"#),
        ("eth_getTransactionCount", r#"["0xa","pending"]"#),
        ("eth_estimateGas", "[1]"),
        ("eth_gasPrice", "[]"),
    ] {
        let once = coerced(method, params);
        assert_eq!(coerced(method, &once), once);
    }
}

#[test]
fn results_are_normalised_only_where_they_are_bytes_or_quantities() {
    assert_eq!(normal("[0,255,16]"), r#""0x00ff10""#);
    assert_eq!(normal("[256]"), "[256]");
    assert_eq!(normal("[1,-1]"), "[1,-1]");
    assert_eq!(normal("[1.0]"), "[1.0]");
    assert_eq!(normal("[]"), "[]");
    assert_eq!(normal("0"), r#""0x0""#);
    assert_eq!(normal("18446744073709551615"), r#""0xffffffffffffffff""#);
    assert_eq!(normal("-1"), "-1");
    assert_eq!(normal("1.5"), "1.5");
    assert_eq!(normal("null"), "null");
    assert_eq!(normal("true"), "true");
    assert_eq!(normal(r#"{"a":[1]}"#), r#"{"a":[1]}"#);
    // Normalising twice is normalising once.
    assert_eq!(normal(&normal("[1,2]")), normal("[1,2]"));
    assert_eq!(normal(&normal("77")), normal("77"));
}

#[test]
fn a_reply_of_the_router_is_badged_by_its_method() {
    let (v, class) = settle_verified("eth_getBalance", Ok(Json::Uint(7))).unwrap();
    assert_eq!((v, class), (Json::string("0x7"), VerifiedClass::Verified));
    let (v, class) = settle_verified("eth_gasPrice", Ok(Json::Null)).unwrap();
    assert_eq!((v, class), (Json::Null, VerifiedClass::Proxied));
    let e = settle_verified("eth_gasPrice", Err("no".to_string())).unwrap_err();
    assert_eq!(e.to_string(), "verified proxy: no");
}

fn verdict(id: u64, status: &str) -> Result<(), String> {
    classify_status(id, &json(status))
}

#[test]
fn only_a_running_proxy_on_the_right_chain_with_a_head_is_usable() {
    let refusal = |id: u64, status: &str| verdict(id, status).unwrap_err();
    let head = r#""head":{"blockNumber":"0x10"}"#;
    assert_eq!(verdict(1, &format!(r#"{{"state":"running","chainId":1,{head}}}"#)), Ok(()));
    assert_eq!(refusal(1, "{}"), "status carried no state");
    assert_eq!(refusal(1, r#"{"state":7}"#), "status carried no state");
    assert_eq!(refusal(1, r#"{"state":"degraded"}"#), "state is 'degraded', not running");
    assert_eq!(
        refusal(1, r#"{"state":"degraded","lastError":""}"#),
        "state is 'degraded', not running"
    );
    assert_eq!(
        refusal(1, r#"{"state":"stopped","lastError":"no peers"}"#),
        "state is 'stopped': no peers"
    );
    assert_eq!(
        refusal(1, &format!(r#"{{"state":"running","chainId":10,{head}}}"#)),
        "proxy is on chain 10, this request is for 1"
    );
    assert_eq!(
        refusal(1, &format!(r#"{{"state":"running",{head}}}"#)),
        "proxy is on chain 0, this request is for 1"
    );
    assert_eq!(
        refusal(u64::MAX, &format!(r#"{{"state":"running","chainId":-2,{head}}}"#)),
        "proxy is on chain -2, this request is for 18446744073709551615"
    );
    assert_eq!(verdict(u64::MAX, &format!(r#"{{"state":"running","chainId":-1,{head}}}"#)), Ok(()));
    for none in [
        r#"{"state":"running","chainId":1}"#,
        r#"{"state":"running","chainId":1,"head":{}}"#,
        r#"{"state":"running","chainId":1,"head":{"blockNumber":16}}"#,
        r#"{"state":"running","chainId":1,"head":{"blockNumber":""}}"#,
    ] {
        assert_eq!(refusal(1, none), "proxy has no verified head yet");
    }
    assert_eq!(
        VerifiedProxyRouter::probe(1, Err("Timeout".to_string())),
        Err("not reachable (Timeout)".to_string())
    );
}

fn good() -> Result<Json, String> {
    Ok(json(r#"{"state":"running","chainId":1,"head":{"blockNumber":"0x10"}}"#))
}

#[test]
fn a_burst_of_calls_costs_one_probe() {
    let mut router = VerifiedProxyRouter::new();
    assert!(matches!(router.start(1, 100), RouterStep::Probe));
    assert!(matches!(router.probed(1, 100, good()), RouterStep::Dispatch(15)));
    assert!(matches!(router.start(1, 101), RouterStep::Dispatch(15)));
    assert!(matches!(router.start(1, 99), RouterStep::Dispatch(15)));
    assert!(matches!(router.start(1, 100 + HEALTH_TTL_NANOS - 1), RouterStep::Dispatch(15)));
    assert!(matches!(router.start(1, 100 + HEALTH_TTL_NANOS), RouterStep::Probe));
    // A verdict on one chain says nothing of another.
    assert!(matches!(router.start(2, 101), RouterStep::Probe));
    assert_eq!(HEALTH_TTL_NANOS, 5_000_000_000);
    assert_eq!(PROBE_BUDGET_MILLIS, 1500);
    assert_eq!(DEFAULT_BUDGET_SECS, 15);
}

#[test]
fn a_refusal_is_remembered_like_a_good_verdict() {
    let mut router = VerifiedProxyRouter::new();
    let refused = |step: RouterStep| match step {
        RouterStep::Refuse(e) => e,
        other => panic!("not refused: {other:?}"),
    };
    assert_eq!(
        refused(router.probed(1, 0, Err("Timeout".to_string()))),
        "not reachable (Timeout)"
    );
    assert_eq!(refused(router.start(1, 1)), "not reachable (Timeout)");
    assert_eq!(router.healthy(1, 1), Some(Err("not reachable (Timeout)".to_string())));
    assert_eq!(router.healthy(1, HEALTH_TTL_NANOS), None);
    assert!(matches!(router.probed(1, 2, good()), RouterStep::Dispatch(_)));
    assert_eq!(router.healthy(1, 3), Some(Ok(())));
}

#[test]
fn budgets_stay_between_a_second_and_a_minute() {
    let mut router = VerifiedProxyRouter::new();
    assert_eq!(router.budget_for(1), 15);
    for (asked, kept) in [(0, 1), (1, 1), (30, 30), (60, 60), (61, 60), (u64::MAX, 60)] {
        router.set_budget(1, asked);
        assert_eq!(router.budget_for(1), kept);
    }
    assert_eq!(router.budget_for(2), 15);
    assert!(matches!(router.probed(1, 0, good()), RouterStep::Dispatch(60)));
}

#[test]
fn the_envelope_of_an_answer_is_taken_off() {
    let read = |reply: &str| read_envelope("eth_call", Ok(json(reply)));
    assert_eq!(read(r#"{"success":true,"value":[1]}"#), Ok(json("[1]")));
    assert_eq!(read(r#"{"success":true}"#), Ok(Json::Null));
    assert_eq!(
        read(r#"{"success":false,"error":"reverted","value":1}"#),
        Err("eth_call: reverted".to_string())
    );
    assert_eq!(read(r#"{"success":"true"}"#), Err("eth_call: no detail".to_string()));
    assert_eq!(read("7"), Err("eth_call: no detail".to_string()));
    assert_eq!(
        read_envelope("eth_call", Err("Timeout".to_string())),
        Err("eth_call failed (Timeout)".to_string())
    );
    assert_eq!(
        dispatch_args("eth_call", &json(r#"[1,"latest",false]"#)).to_text(),
        r#"["eth_call",[1,"latest",false]]"#
    );
}
