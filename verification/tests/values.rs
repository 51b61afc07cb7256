//! Texts, JSON values and configurations.

use eth_rpc_module::config::{default_timeout, default_verified_timeout};
use eth_rpc_module::module::{err, ok_result, to_chain_key};
use eth_rpc_module::text::{
    chars_of, decimal_text, hex_bytes_text, hex_text, is_white_space, joined, joined3,
    parse_hex_u64, parse_u64, same_text, signed_decimal_text, strip_prefix, to_ascii_lowercase,
    trim,
};
use eth_rpc_module::{
    parse_json, ChainConfig, ConfigSource, Json, ProxyConfig, VerifiedProxyMode,
};

#[test]
fn white_space_is_what_unicode_says() {
    for c in '\0'..=char::MAX {
        assert_eq!(is_white_space(c), c.is_whitespace(), "{c:?}");
    }
}

#[test]
fn texts_are_cut_and_joined() {
    for s in ["", " ", "a", " a", "a ", "\t a b \u{3000}", "\u{85}\u{a0}", "\u{200b} x"] {
        assert_eq!(trim(s), s.trim(), "{s:?}");
        assert_eq!(strip_prefix(s, " "), s.strip_prefix(" "));
        assert_eq!(chars_of(s), s.chars().collect::<Vec<char>>());
    }
    for s in ["Off", "REQUIRED", "\u{c4}\u{d6}Z", "[@`{", ""] {
        assert_eq!(to_ascii_lowercase(s), s.to_ascii_lowercase());
    }
    assert_eq!(strip_prefix("0x", "0x"), Some(""));
    assert_eq!(strip_prefix("0", "0x"), None);
    assert_eq!(joined("a", "\u{e9}"), "a\u{e9}");
    assert_eq!(joined3("a", "", "b"), "ab");
    assert!(same_text("x", "x") && !same_text("x", "X"));
}

#[test]
fn numbers_are_written_as_rust_writes_them() {
    for n in [0, 1, 9, 10, 15, 16, 99, 100, 255, 256, 11579774, u64::MAX - 1, u64::MAX] {
        assert_eq!(decimal_text(n), format!("{n}"));
        assert_eq!(hex_text(n), format!("{n:x}"));
        // What is written reads back.
        assert_eq!(parse_u64(&decimal_text(n), 10), Some(n));
        assert_eq!(parse_hex_u64(&joined("0x", &hex_text(n))), Some(n));
    }
    for n in [i64::MIN, -32000, -1, 0, 7, i64::MAX] {
        assert_eq!(signed_decimal_text(n), format!("{n}"));
    }
    let all: Vec<u8> = (0..=255).collect();
    let expected: String = all.iter().map(|b| format!("{b:02x}")).collect();
    assert_eq!(hex_bytes_text(&all), expected);
    assert_eq!(hex_bytes_text(&vec![]), "");
}

#[test]
fn numbers_are_read_as_rust_reads_them() {
    for s in [
        "", "+", "-", "0", "+7", "++7", "-0", "007", "7 ", " 7", "7a", "18446744073709551615",
        "18446744073709551616", "99999999999999999999", "\u{661}", "+18446744073709551615",
        "0000000000000000000000000000001",
    ] {
        assert_eq!(parse_u64(s, 10), s.parse::<u64>().ok(), "{s:?}");
        assert_eq!(parse_u64(s, 16), u64::from_str_radix(s, 16).ok(), "{s:?}");
    }
    for s in ["ff", "FF", "g", "ffffffffffffffff", "10000000000000000", "+a"] {
        assert_eq!(parse_u64(s, 16), u64::from_str_radix(s, 16).ok(), "{s:?}");
    }
    assert_eq!(parse_hex_u64(" 0xA\n"), Some(10));
    assert_eq!(parse_hex_u64("0Xa"), Some(10));
    assert_eq!(parse_hex_u64("a"), None);
    assert_eq!(parse_hex_u64("0x"), None);
    assert_eq!(parse_hex_u64("x0a"), None);
}

#[test]
fn json_goes_through_serde_json_and_back() {
    for s in [
        "null",
        "true",
        "0",
        "-5",
        "18446744073709551615",
        "-9223372036854775808",
        "1.5",
        "1e300",
        r#""a\"\\\n\u0001é""#,
        r#"[1,[2,[3]],{}]"#,
        r#"{"b":1,"a":[null,{"c":"d"}]}"#,
    ] {
        let ours = parse_json(s).unwrap();
        let theirs: serde_json::Value = serde_json::from_str(s).unwrap();
        assert_eq!(ours.to_value(), theirs);
        assert_eq!(Json::from_value(theirs.clone()), ours);
        assert_eq!(ours.to_text(), theirs.to_string());
        let pretty = ours.to_text_pretty();
        assert_eq!(pretty, serde_json::to_string_pretty(&theirs).unwrap());
        // What is written reads back.
        assert_eq!(parse_json(&pretty).unwrap(), ours);
        assert_eq!(parse_json(&ours.to_text()).unwrap(), ours);
        assert_eq!(ours.clone(), ours);
    }
}

#[test]
fn json_errors_carry_the_message_of_serde_json() {
    for s in ["", "{", "[1,]", "nul", "1 2", "{\"a\"}", "\"\\x\""] {
        let theirs = serde_json::from_str::<serde_json::Value>(s).unwrap_err().to_string();
        assert_eq!(parse_json(s).unwrap_err(), theirs, "{s:?}");
    }
    // Nesting is read up to a limit.
    let deep = |n: usize| "[".repeat(n) + &"]".repeat(n);
    assert!(parse_json(&deep(127)).is_ok());
    assert!(parse_json(&deep(128)).is_err());
    let text = parse_json(&deep(127)).unwrap().to_text_pretty();
    assert_eq!(parse_json(&text).unwrap(), parse_json(&deep(127)).unwrap());
}

#[test]
fn members_are_found_and_the_later_one_counts() {
    let v = parse_json(r#"{"a":1,"b":2,"a":3}"#).unwrap();
    assert_eq!(v.get("a"), Some(&Json::Uint(3)));
    assert_eq!(v.get("c"), None);
    assert_eq!(Json::Uint(1).get("a"), None);
    let twice = Json::Object(vec![
        ("a".to_string(), Json::Uint(1)),
        ("b".to_string(), Json::Null),
        ("a".to_string(), Json::Int(-2)),
    ]);
    assert_eq!(twice.get("a"), Some(&Json::Int(-2)));
    assert_eq!(twice.to_text(), r#"{"a":-2,"b":null}"#);
    let inner = Json::Array(vec![twice.clone(), Json::Object(vec![])]);
    assert_eq!(inner.to_text(), r#"[{"a":-2,"b":null},{}]"#);
    assert_eq!(Json::from_value(twice.to_value()).get("a"), Some(&Json::Int(-2)));
}

#[test]
fn values_are_read_as_serde_json_reads_them() {
    let float = Json::Number(serde_json::Number::from_f64(2.0).unwrap());
    let whole = Json::Number(serde_json::Number::from(7u64));
    let below = Json::Number(serde_json::Number::from(-7i64));
    for v in [
        Json::Null,
        Json::Bool(true),
        Json::Uint(0),
        Json::Uint(i64::MAX as u64),
        Json::Uint(i64::MAX as u64 + 1),
        Json::Int(-1),
        Json::Int(5),
        float,
        whole,
        below,
        Json::string("x"),
    ] {
        let theirs = v.to_value();
        assert_eq!(v.as_str(), theirs.as_str());
        assert_eq!(v.as_bool(), theirs.as_bool());
        assert_eq!(v.as_u64(), theirs.as_u64());
        assert_eq!(v.as_i64(), theirs.as_i64());
    }
}

#[test]
fn a_configuration_has_its_json_form() {
    let mut c = ChainConfig::with_endpoint("https://x");
    assert_eq!(
        c.to_json().to_text(),
        r#"{"endpoint":"https://x","proxy":null,"proxyRequired":false,"timeoutSecs":8,"verifiedProxyMode":"off","verifiedTimeoutSecs":15}"#
    );
    c.proxy = Some("socks5h://1".to_string());
    c.proxy_required = true;
    assert!(c.validate().is_ok());
    c.verified_proxy_mode = VerifiedProxyMode::Required;
    assert_eq!(
        c.validate().unwrap_err(),
        "proxyRequired and verifiedProxyMode=required cannot both be set: the verified proxy makes its own connections and cannot honour a SOCKS proxy configured here"
    );
    assert_eq!(
        c.clone().to_json().to_text(),
        r#"{"endpoint":"https://x","proxy":"socks5h://1","proxyRequired":true,"timeoutSecs":8,"verifiedProxyMode":"required","verifiedTimeoutSecs":15}"#
    );
    c.proxy_required = false;
    assert!(c.validate().is_ok());
    assert_eq!((default_timeout(), default_verified_timeout()), (8, 15));
    assert_eq!(VerifiedProxyMode::default(), VerifiedProxyMode::Off);
    for source in [ConfigSource::Default, ConfigSource::External] {
        assert_eq!(ConfigSource::named(source.name()), source);
    }
    assert_eq!(ConfigSource::named(""), ConfigSource::External);
    assert_eq!(ConfigSource::named("Default"), ConfigSource::External);
    assert_eq!((ConfigSource::Default.name(), ConfigSource::External.name()), ("default", "external"));
}

#[test]
fn a_client_is_planned_only_within_the_policy() {
    let plan = |proxy: Option<&str>, required: bool| {
        ProxyConfig::new(proxy.map(|p| p.to_string()), required, 9)
            .plan_client()
            .map(|p| (p.proxy, p.timeout_secs))
    };
    assert_eq!(plan(None, false), Ok((None, 9)));
    assert_eq!(plan(Some("p"), false), Ok((Some("p".to_string()), 9)));
    assert_eq!(plan(Some("p"), true), Ok((Some("p".to_string()), 9)));
    assert_eq!(plan(None, true), Err("a proxy is required but none is configured".to_string()));
}

#[test]
fn answers_and_chain_keys() {
    assert_eq!(err("a \"b\""), r#"{"error":"a \"b\"","ok":false}"#);
    assert_eq!(ok_result(Json::Uint(1)), r#"{"ok":true,"result":1}"#);
    for id in [0, 1, -1, 560048, i64::MIN, i64::MAX] {
        assert_eq!(to_chain_key(id), id as u64);
        assert_eq!(to_chain_key(id) as i64, id);
    }
}
