//! The store of chain configurations.

use eth_rpc_module::{
    parse_json, ChainConfig, ChainRecord, ConfigSource, EthRpc, Json, StoredChain,
    VerifiedProxyMode, VerifiedRouter,
};

struct NoRouter;

impl VerifiedRouter for NoRouter {
    fn call(&self, _chain_id: u64, _method: &str, _params: &Json) -> Result<Json, String> {
        Err("none".to_string())
    }
}

type Client = EthRpc<NoRouter>;

fn stored(key: &str, endpoint: &str, source: ConfigSource) -> StoredChain {
    StoredChain {
        key: key.to_string(),
        record: ChainRecord { config: ChainConfig::with_endpoint(endpoint), source },
    }
}

fn endpoint(r: &Client, id: u64) -> Option<String> {
    r.get_chain_config(id).map(|c| c.endpoint.clone())
}

#[test]
fn a_store_is_loaded_from_its_records() {
    let r = Client::with_store(
        "p".to_string(),
        vec![
            stored("10", "ten", ConfigSource::External),
            stored("x", "lost", ConfigSource::External),
            stored("+2", "two", ConfigSource::Default),
            stored("-1", "lost", ConfigSource::External),
            stored("10", "ten again", ConfigSource::Default),
            stored("18446744073709551616", "lost", ConfigSource::External),
        ],
    );
    assert_eq!(r.list_chains(), vec![2, 10]);
    assert_eq!(endpoint(&r, 10).as_deref(), Some("ten again"));
    assert_eq!(endpoint(&r, 2).as_deref(), Some("two"));
    assert_eq!(r.config_source(2), Some(ConfigSource::Default));
    assert_eq!(r.config_source(3), None);
    assert_eq!(r.verified_timeout(2), Some(15));
    assert_eq!(r.verified_timeout(3), None);
}

#[test]
fn stored_records_load_back_in_any_order() {
    let mut r = Client::default();
    for id in [7u64, 0, u64::MAX, 3] {
        let mut c = ChainConfig::with_endpoint(&format!("e{id}"));
        c.proxy = Some("p".to_string());
        c.timeout_secs = id;
        r.set_chain_config(id, c).unwrap();
    }
    let mut entries = r.stored();
    let keys: Vec<String> = entries.iter().map(|e| e.key.clone()).collect();
    assert_eq!(keys, vec!["0", "3", "7", "18446744073709551615"]);
    entries.reverse();
    let back = Client::with_store("p".to_string(), entries);
    assert_eq!(back.list_chains(), r.list_chains());
    for id in r.list_chains() {
        assert_eq!(
            back.get_chain_config(id).unwrap().to_json(),
            r.get_chain_config(id).unwrap().to_json()
        );
        assert_eq!(back.config_source(id), r.config_source(id));
    }
}

#[test]
fn the_saved_text_holds_every_record() {
    let mut r = Client::with_store("dir/chains.json".to_string(), vec![]);
    assert!(r.take_save().is_none(), "nothing to save yet");
    r.init_defaults();
    let mut c = ChainConfig::with_endpoint("https://mine");
    c.proxy = Some("socks5h://1".to_string());
    c.proxy_required = true;
    r.set_chain_config(9, c).unwrap();
    let save = r.take_save().unwrap();
    assert_eq!(save.path, "dir/chains.json");
    let text = parse_json(&save.text).unwrap();
    let mine = text.get("9").unwrap();
    assert_eq!(mine.get("endpoint"), Some(&Json::string("https://mine")));
    assert_eq!(mine.get("proxy"), Some(&Json::string("socks5h://1")));
    assert_eq!(mine.get("proxyRequired"), Some(&Json::Bool(true)));
    assert_eq!(mine.get("timeoutSecs"), Some(&Json::Uint(8)));
    assert_eq!(mine.get("verifiedProxyMode"), Some(&Json::string("off")));
    assert_eq!(mine.get("verifiedTimeoutSecs"), Some(&Json::Uint(15)));
    assert_eq!(mine.get("source"), Some(&Json::string("external")));
    assert_eq!(text.get("1").unwrap().get("source"), Some(&Json::string("default")));
    assert!(save.text.starts_with("{\n  \"1\": {\n    \"endpoint\": \"https://ethereum-rpc"));
    assert!(r.take_save().is_none(), "saved once");
    // What changes nothing is not saved; what changes something is.
    assert!(!r.init_defaults());
    assert!(r.take_save().is_none());
    assert!(!r.patch_chain_transport(77, Some(1), None));
    assert!(r.take_save().is_none());
    assert!(r.patch_chain_transport(9, None, None));
    assert!(r.take_save().is_some());
    assert!(!r.remove_chain_config(77));
    assert!(r.take_save().is_some());
}

#[test]
fn a_store_that_is_kept_nowhere_is_not_saved() {
    let mut r = Client::new();
    r.set_chain_config(1, ChainConfig::with_endpoint("x")).unwrap();
    assert!(r.take_save().is_none());
}

#[test]
fn defaults_fill_in_what_is_absent() {
    let mut r = Client::with_store(
        "p".to_string(),
        vec![
            stored("1", " \t", ConfigSource::External),
            stored("560048", "https://mine", ConfigSource::Default),
            stored("5", "", ConfigSource::External),
        ],
    );
    r.set_verified_proxy_mode(1, VerifiedProxyMode::Required).unwrap();
    assert!(r.init_defaults());
    assert_eq!(r.list_chains(), vec![1, 5, 560048, 11155111]);
    // A blank endpoint is filled in; mode and source stay.
    assert_eq!(endpoint(&r, 1).as_deref(), Some("https://ethereum-rpc.publicnode.com"));
    assert_eq!(
        r.get_chain_config(1).unwrap().verified_proxy_mode,
        VerifiedProxyMode::Required
    );
    assert_eq!(r.config_source(1), Some(ConfigSource::External));
    // A configured one stays, and so does a chain without a default.
    assert_eq!(endpoint(&r, 560048).as_deref(), Some("https://mine"));
    assert_eq!(r.config_source(560048), Some(ConfigSource::Default));
    assert_eq!(endpoint(&r, 5).as_deref(), Some(""));
    assert_eq!(
        endpoint(&r, 11155111).as_deref(),
        Some("https://ethereum-sepolia-rpc.publicnode.com")
    );
    assert_eq!(r.config_source(11155111), Some(ConfigSource::Default));
    assert!(!r.init_defaults(), "idempotent");
    // Across a restart too.
    let mut again = Client::with_store("p".to_string(), r.stored());
    assert!(!again.init_defaults());
    let mut fresh = Client::new();
    assert!(fresh.init_defaults());
    assert_eq!(endpoint(&fresh, 1).as_deref(), Some("https://ethereum-rpc.publicnode.com"));
    assert_eq!(
        endpoint(&fresh, 560048).as_deref(),
        Some("https://ethereum-hoodi-rpc.publicnode.com")
    );
}

#[test]
fn a_source_moves_from_default_to_external_only() {
    let seeded = || {
        let mut r = Client::new();
        r.init_defaults();
        assert_eq!(r.config_source(1), Some(ConfigSource::Default));
        r
    };
    let mut r = seeded();
    r.set_chain_config(1, ChainConfig::with_endpoint("x")).unwrap();
    assert_eq!(r.config_source(1), Some(ConfigSource::External));
    r.init_defaults();
    assert_eq!(r.config_source(1), Some(ConfigSource::External));
    let mut r = seeded();
    assert!(r.patch_chain_transport(1, Some(3), None));
    assert_eq!(r.config_source(1), Some(ConfigSource::External));
    let mut r = seeded();
    r.set_verified_proxy_mode(1, VerifiedProxyMode::Required).unwrap();
    assert_eq!(r.config_source(1), Some(ConfigSource::External));
    let mut r = seeded();
    assert!(r.ensure_chain_config(1, &ChainConfig::with_endpoint("y")).is_empty());
    assert_eq!(r.config_source(1), Some(ConfigSource::Default), "nothing was written");
    assert_eq!(r.ensure_chain_config(2, &ChainConfig::with_endpoint("y")), vec!["*"]);
    assert_eq!(r.config_source(2), Some(ConfigSource::External));
}

#[test]
fn seeding_fills_in_a_blank_endpoint_alone() {
    let mut r = Client::new();
    let mut blank = ChainConfig::with_endpoint("\u{2003}");
    blank.timeout_secs = 3;
    r.set_chain_config(1, blank).unwrap();
    assert!(r.ensure_chain_config(1, &ChainConfig::with_endpoint("  ")).is_empty());
    assert_eq!(r.ensure_chain_config(1, &ChainConfig::with_endpoint("x")), vec!["endpoint"]);
    let c = r.get_chain_config(1).unwrap();
    assert_eq!((c.endpoint.as_str(), c.timeout_secs), ("x", 3));
    assert!(r.ensure_chain_config(1, &ChainConfig::with_endpoint("x")).is_empty());
}

#[test]
fn operations_touch_their_own_chain_alone() {
    let mut r = Client::new();
    r.set_chain_config(1, ChainConfig::with_endpoint("a")).unwrap();
    r.set_chain_config(2, ChainConfig::with_endpoint("b")).unwrap();
    r.patch_chain_transport(1, Some(1), Some(2));
    r.set_verified_proxy_mode(1, VerifiedProxyMode::Required).unwrap();
    let other = r.get_chain_config(2).unwrap();
    assert_eq!(other.to_json(), ChainConfig::with_endpoint("b").to_json());
    assert!(r.remove_chain_config(1));
    assert!(!r.remove_chain_config(1));
    assert_eq!(r.list_chains(), vec![2]);
    assert_eq!(
        r.set_verified_proxy_mode(1, VerifiedProxyMode::Off).unwrap_err(),
        "no configuration for chain 1"
    );
}

#[test]
fn a_valid_store_stays_valid() {
    let mut r = Client::new();
    let mut c = ChainConfig::with_endpoint("x");
    c.proxy_required = true;
    r.set_chain_config(1, c).unwrap();
    assert!(r.set_verified_proxy_mode(1, VerifiedProxyMode::Required).is_err());
    r.patch_chain_transport(1, Some(1), None);
    r.init_defaults();
    for id in r.list_chains() {
        assert!(r.get_chain_config(id).unwrap().validate().is_ok());
    }
}

/// The records that stand in a saved object.
fn saved_records(text: &str) -> Vec<StoredChain> {
    let members = match parse_json(text).unwrap() {
        Json::Object(members) => members,
        other => panic!("not an object: {other:?}"),
    };
    let record = |v: &Json| {
        let text = |key: &str| v.get(key).unwrap().as_str().map(|s| s.to_string());
        ChainRecord {
            config: ChainConfig {
                endpoint: text("endpoint").unwrap(),
                proxy: text("proxy"),
                proxy_required: v.get("proxyRequired").unwrap().as_bool().unwrap(),
                timeout_secs: v.get("timeoutSecs").unwrap().as_u64().unwrap(),
                verified_proxy_mode: match text("verifiedProxyMode").unwrap().as_str() {
                    "off" => VerifiedProxyMode::Off,
                    "required" => VerifiedProxyMode::Required,
                    other => panic!("no mode: {other}"),
                },
                verified_timeout_secs: v.get("verifiedTimeoutSecs").unwrap().as_u64().unwrap(),
            },
            source: ConfigSource::named(&text("source").unwrap()),
        }
    };
    members.iter().map(|(key, v)| StoredChain { key: key.clone(), record: record(v) }).collect()
}

#[test]
fn a_saved_store_reopens() {
    let mut r = Client::with_store("p".to_string(), vec![]);
    r.init_defaults();
    let mut c = ChainConfig::with_endpoint("https://\"quoted\"\n\u{e9}");
    c.proxy = Some("socks5h://1".to_string());
    c.timeout_secs = u64::MAX;
    r.set_chain_config(u64::MAX, c).unwrap();
    r.set_verified_proxy_mode(1, VerifiedProxyMode::Required).unwrap();
    let save = r.take_save().unwrap();
    let back = Client::with_store("p".to_string(), saved_records(&save.text));
    assert_eq!(back.list_chains(), r.list_chains());
    for id in r.list_chains() {
        assert_eq!(
            back.get_chain_config(id).unwrap().to_json(),
            r.get_chain_config(id).unwrap().to_json()
        );
        assert_eq!(back.config_source(id), r.config_source(id));
    }
}
