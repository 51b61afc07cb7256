//! What the client does, told by what its operations take and give: what is stored is read, used
//! and saved, and what is called for is sent and handed back.

use std::sync::Arc;

use vstd::prelude::*;

use crate::config::{
    default_timeout, default_verified_timeout, ChainConfig, ChainConfigView, ConfigSource,
    VerifiedProxyMode,
};
use crate::error::RpcError;
use crate::json::{entries_map, json_read, json_text_pretty, Json, JsonView};
use crate::json_laws::lemma_members;
use crate::proxy::{ClientPlan, ProxyConfig};
use crate::rpc::{
    blank, default_endpoints, lists, loaded, record_json, store_json, stored_chains_view,
    stored_view, texts_view, ChainRecordView, EthRpc, EthRpcView, SaveRequest, StoredChain,
    StoredChainView,
};
use crate::store_laws::{
    law_init_defaults_is_idempotent, law_init_defaults_needs_nothing, law_listing_is_unique,
    law_saved_object_holds_every_chain, law_saved_record_holds_every_field,
};
use crate::text::{
    decimal, is_white_space_spec, law_decimal_reads_back, parsed_u64, signed_decimal, trimmed,
};
use crate::text_laws::law_trimming;
use crate::verified::VerifiedRouter;

verus! {

// ---------------------------------------------------------------------------
// Configurations
// ---------------------------------------------------------------------------

/// Whether two optional texts are the same.
pub open spec fn same_optional(a: Option<String>, b: Option<String>) -> bool {
    match (a, b) {
        (Some(x), Some(y)) => x@ == y@,
        (None, None) => true,
        _ => false,
    }
}

/// Whether two configurations are the same, field by field.
pub open spec fn same_config(a: &ChainConfig, b: &ChainConfig) -> bool {
    &&& a.endpoint@ == b.endpoint@
    &&& same_optional(a.proxy, b.proxy)
    &&& a.proxy_required == b.proxy_required
    &&& a.timeout_secs == b.timeout_secs
    &&& a.verified_proxy_mode == b.verified_proxy_mode
    &&& a.verified_timeout_secs == b.verified_timeout_secs
}

/// Whether a chain is configured alike in two stores, or in neither.
pub open spec fn same_entry(a: Option<&ChainConfig>, b: Option<&ChainConfig>) -> bool {
    match (a, b) {
        (Some(x), Some(y)) => same_config(x, y),
        (None, None) => true,
        _ => false,
    }
}

/// Whether a text says nothing: all of it is white space.
pub open spec fn all_white(s: Seq<char>) -> bool {
    forall|i: int| 0 <= i < s.len() ==> is_white_space_spec(#[trigger] s[i])
}

/// Whether an object holds a configuration and who wrote it, each field under its name.
pub open spec fn saved_as(o: JsonView, c: &ChainConfig, source: ConfigSource) -> bool {
    &&& o.get("endpoint"@) == Some(JsonView::Str(c.endpoint@))
    &&& o.get("proxy"@) == Some(
        match c.proxy {
            Some(p) => JsonView::Str(p@),
            None => JsonView::Null,
        },
    )
    &&& o.get("proxyRequired"@) == Some(JsonView::Bool(c.proxy_required))
    &&& o.get("timeoutSecs"@) == Some(JsonView::Integer(c.timeout_secs as int))
    &&& o.get("verifiedProxyMode"@) == Some(
        JsonView::Str(
            match c.verified_proxy_mode {
                VerifiedProxyMode::Off => "off"@,
                VerifiedProxyMode::Required => "required"@,
            },
        ),
    )
    &&& o.get("verifiedTimeoutSecs"@) == Some(JsonView::Integer(c.verified_timeout_secs as int))
    &&& o.get("source"@) == Some(
        JsonView::Str(
            match source {
                ConfigSource::Default => "default"@,
                ConfigSource::External => "external"@,
            },
        ),
    )
}

/// Whether the next save writes a file to `path` whose text holds the given configuration under
/// the chain's id, or nothing under it.
pub open spec fn file_holds(
    save: Option<SaveRequest>,
    path: Seq<char>,
    id: u64,
    entry: Option<(&ChainConfig, ConfigSource)>,
) -> bool {
    &&& save matches Some(f)
    &&& f.path@ == path
    &&& json_read(f.text@) matches Ok(v)
    &&& match entry {
        Some((c, source)) => v.get(decimal(id as nat)) matches Some(o) && saved_as(o, c, source),
        None => v.get(decimal(id as nat)) is None,
    }
}

/// Why a configuration that contradicts itself is refused.
pub open spec fn both_required() -> Seq<char> {
    "proxyRequired and verifiedProxyMode=required cannot both be set: the verified proxy makes its own connections and cannot honour a SOCKS proxy configured here"@
}

/// A configuration is refused exactly where it requires both a network proxy and verification.
pub proof fn law_validation(c: &ChainConfig, r: Result<(), String>)
    requires
        call_ensures(ChainConfig::validate, (c,), r),
    ensures
        r is Err <==> c.proxy_required && c.verified_proxy_mode == VerifiedProxyMode::Required,
        r matches Err(e) ==> e@ == both_required(),
{
}

/// A copy of a configuration is the same, and one made from an endpoint has the defaults.
pub proof fn law_configurations(
    c: &ChainConfig,
    copy: ChainConfig,
    endpoint: &str,
    made: ChainConfig,
    json: Json,
)
    requires
        call_ensures(ChainConfig::clone, (c,), copy),
        call_ensures(ChainConfig::with_endpoint, (endpoint,), made),
        call_ensures(ChainConfig::to_json, (c,), json),
    ensures
        same_config(c, &copy),
        made.endpoint@ == endpoint@,
        made.proxy is None,
        !made.proxy_required,
        made.timeout_secs == 8,
        made.verified_proxy_mode == VerifiedProxyMode::Off,
        made.verified_timeout_secs == 15,
        json@.get("endpoint"@) == Some(JsonView::Str(c.endpoint@)),
        json@.get("proxy"@) == Some(
            match c.proxy {
                Some(p) => JsonView::Str(p@),
                None => JsonView::Null,
            },
        ),
        json@.get("proxyRequired"@) == Some(JsonView::Bool(c.proxy_required)),
        json@.get("timeoutSecs"@) == Some(JsonView::Integer(c.timeout_secs as int)),
        json@.get("verifiedProxyMode"@) == Some(
            JsonView::Str(
                match c.verified_proxy_mode {
                    VerifiedProxyMode::Off => "off"@,
                    VerifiedProxyMode::Required => "required"@,
                },
            ),
        ),
        json@.get("verifiedTimeoutSecs"@) == Some(
            JsonView::Integer(c.verified_timeout_secs as int),
        ),
{
    lemma_config_members(c@);
}

/// Modes and sources have their names, and a text that names no source stands for a caller.
pub proof fn law_names(
    mode: VerifiedProxyMode,
    mode_name: &'static str,
    source: ConfigSource,
    source_name: &'static str,
    text: &str,
    named: ConfigSource,
    usual: VerifiedProxyMode,
    timeout: u64,
    verified_timeout: u64,
)
    requires
        call_ensures(VerifiedProxyMode::name, (&mode,), mode_name),
        call_ensures(ConfigSource::name, (&source,), source_name),
        call_ensures(ConfigSource::named, (text,), named),
        call_ensures(VerifiedProxyMode::default, (), usual),
        call_ensures(default_timeout, (), timeout),
        call_ensures(default_verified_timeout, (), verified_timeout),
    ensures
        mode == VerifiedProxyMode::Off ==> mode_name@ == "off"@,
        mode == VerifiedProxyMode::Required ==> mode_name@ == "required"@,
        source == ConfigSource::Default ==> source_name@ == "default"@,
        source == ConfigSource::External ==> source_name@ == "external"@,
        named == ConfigSource::Default <==> text@ == "default"@,
        usual == VerifiedProxyMode::Off,
        timeout == 8,
        verified_timeout == 15,
{
}

/// A configuration's members are found under their names.
pub(crate) proof fn lemma_config_members(c: ChainConfigView)
    ensures
        forall|i: int|
            0 <= i < 6 ==> JsonView::Object(entries_map(c.json_members())).get(
                (#[trigger] c.json_members()[i]).0,
            ) == Some(c.json_members()[i].1),
        c.json_members().len() == 6,
        c.json_members()[0].0 == "endpoint"@,
        c.json_members()[1].0 == "proxy"@,
        c.json_members()[2].0 == "proxyRequired"@,
        c.json_members()[3].0 == "timeoutSecs"@,
        c.json_members()[4].0 == "verifiedProxyMode"@,
        c.json_members()[5].0 == "verifiedTimeoutSecs"@,
{
    let fields = c.json_members();
    reveal_strlit("endpoint");
    reveal_strlit("proxy");
    reveal_strlit("proxyRequired");
    reveal_strlit("timeoutSecs");
    reveal_strlit("verifiedProxyMode");
    reveal_strlit("verifiedTimeoutSecs");
    let lengths = seq![8nat, 5, 13, 11, 17, 19];
    assert forall|i: int| 0 <= i < 6 implies (#[trigger] fields[i]).0.len() == lengths[i] by {}
    lemma_members(fields);
}

/// A client is planned with the policy's own proxy and timeout, required or not; it is refused
/// exactly where a proxy is required and there is none.
pub proof fn law_client_plans(
    proxy: Option<String>,
    required: bool,
    timeout_secs: u64,
    policy: ProxyConfig,
    r: Result<ClientPlan, String>,
)
    requires
        call_ensures(ProxyConfig::new, (proxy, required, timeout_secs), policy),
        call_ensures(ProxyConfig::plan_client, (&policy,), r),
    ensures
        (match r {
            Ok(plan) => !(required && proxy is None) && same_optional(plan.proxy, proxy)
                && plan.timeout_secs == timeout_secs,
            Err(e) => required && proxy is None && e@
                == "a proxy is required but none is configured"@,
        }),
{
}

/// Every error has its message.
pub proof fn law_error_messages(e: &RpcError, r: String)
    requires
        call_ensures(RpcError::to_string, (e,), r),
    ensures
        r@ == (match e {
            RpcError::UnknownChain(id) => "no configuration for chain "@ + decimal(*id as nat),
            RpcError::Proxy(why) => "proxy: "@ + why@,
            RpcError::Http(why) => "http: "@ + why@,
            RpcError::Rpc { code, message } => "rpc error "@ + signed_decimal(*code as int) + ": "@
                + message@,
            RpcError::Parse(why) => "parse: "@ + why@,
            RpcError::VerifiedProxy(why) => "verified proxy: "@ + why@,
        }),
{
}

// ---------------------------------------------------------------------------
// The store
// ---------------------------------------------------------------------------

/// A text is blank exactly where all of it is white space.
pub proof fn law_blank(s: Seq<char>)
    ensures
        blank(s) <==> all_white(s),
{
    law_trimming(s);
    let (i, j) = choose|i: int, j: int|
        {
            &&& 0 <= i <= j <= s.len()
            &&& trimmed(s) == #[trigger] s.subrange(i, j)
            &&& forall|k: int|
                (0 <= k < i || j <= k < s.len()) ==> is_white_space_spec(#[trigger] s[k])
            &&& i < j ==> !is_white_space_spec(s[i]) && !is_white_space_spec(s[j - 1])
        };
    if all_white(s) && i < j {
        assert(is_white_space_spec(s[i]));
    }
}

/// What a save writes of a chain.
proof fn lemma_file(
    store: EthRpcView,
    save: Option<SaveRequest>,
    path: Seq<char>,
    id: u64,
    entry: Option<(&ChainConfig, ConfigSource)>,
)
    requires
        store.unsaved,
        store.store_path == Some(path),
        store.saves(save),
        (match entry {
            Some((c, source)) => store.chains.contains_key(id) && store.chains[id] == (
            ChainRecordView { config: c@, source }),
            None => !store.chains.contains_key(id),
        }),
    ensures
        file_holds(save, path, id, entry),
{
    let f = save->Some_0;
    let ids = choose|ids: Seq<u64>|
        {
            let v = store_json(stored_view(ids, store.chains));
            &&& #[trigger] lists(ids, store.chains)
            &&& store.store_path == Some(f.path@)
            &&& f.text@ == json_text_pretty(v)
            &&& json_read(f.text@) == Ok::<JsonView, Seq<char>>(v)
        };
    law_saved_object_holds_every_chain(ids, store.chains, id, decimal(id as nat));
    law_decimal_reads_back(id);
    match entry {
        Some((c, source)) => {
            law_saved_record_holds_every_field(store.chains[id]);
            assert(record_json(store.chains[id]).get("proxy"@) == Some(
                match c.proxy {
                    Some(p) => JsonView::Str(p@),
                    None => JsonView::Null,
                },
            ));
        },
        None => {},
    }
}

/// A client holds nothing at first. One that is opened holds, for each chain, the last of the
/// records whose key is the chain's id; what is no number is passed over.
pub proof fn law_opening<R: VerifiedRouter>(
    fresh: EthRpc<R>,
    path: String,
    saved: Vec<StoredChain>,
    opened: EthRpc<R>,
    id: u64,
    at: int,
    none: Option<&ChainConfig>,
    config: Option<&ChainConfig>,
    source: Option<ConfigSource>,
)
    requires
        call_ensures(EthRpc::<R>::new, (), fresh),
        call_ensures(EthRpc::<R>::get_chain_config, (&fresh, id), none),
        call_ensures(EthRpc::<R>::with_store, (path, saved), opened),
        call_ensures(EthRpc::<R>::get_chain_config, (&opened, id), config),
        call_ensures(EthRpc::<R>::config_source, (&opened, id), source),
    ensures
        none is None,
        fresh@.store_path is None,
        !fresh@.unsaved,
        fresh.router() is None,
        opened@.store_path == Some(path@),
        !opened@.unsaved,
        opened.router() is None,
        (forall|i: int|
            0 <= i < saved@.len() ==> parsed_u64((#[trigger] saved@[i]).key@, 10) != Some(id))
            ==> config is None && source is None,
        0 <= at < saved@.len() && parsed_u64(saved@[at].key@, 10) == Some(id) && (forall|i: int|
            at < i < saved@.len() ==> parsed_u64((#[trigger] saved@[i]).key@, 10) != Some(id))
            ==> source == Some(saved@[at].record.source) && (config matches Some(c) && same_config(
            c,
            &saved@[at].record.config,
        )),
{
    let entries = stored_chains_view(saved@);
    assert forall|i: int| 0 <= i < entries.len() implies (#[trigger] entries[i]).key
        == saved@[i].key@ && entries[i].record == saved@[i].record@ by {}
    if forall|i: int|
        0 <= i < saved@.len() ==> parsed_u64((#[trigger] saved@[i]).key@, 10) != Some(id) {
        assert forall|i: int| 0 <= i < entries.len() implies parsed_u64(
            (#[trigger] entries[i]).key,
            10,
        ) != Some(id) by {
            assert(parsed_u64(saved@[i].key@, 10) != Some(id));
        }
        lemma_loaded_none(entries, id);
    }
    if 0 <= at < saved@.len() && parsed_u64(saved@[at].key@, 10) == Some(id) && (forall|i: int|
        at < i < saved@.len() ==> parsed_u64((#[trigger] saved@[i]).key@, 10) != Some(id)) {
        assert forall|i: int| at < i < entries.len() implies parsed_u64(
            (#[trigger] entries[i]).key,
            10,
        ) != Some(id) by {
            assert(parsed_u64(saved@[i].key@, 10) != Some(id));
        }
        assert(entries[at].key == saved@[at].key@);
        lemma_loaded_last(entries, id, at);
    }
}

proof fn lemma_loaded_none(entries: Seq<StoredChainView>, id: u64)
    requires
        forall|i: int|
            0 <= i < entries.len() ==> parsed_u64((#[trigger] entries[i]).key, 10) != Some(id),
    ensures
        !loaded(entries).contains_key(id),
    decreases entries.len(),
{
    if entries.len() > 0 {
        let shorter = entries.drop_last();
        assert forall|i: int| 0 <= i < shorter.len() implies parsed_u64(
            (#[trigger] shorter[i]).key,
            10,
        ) != Some(id) by {
            assert(shorter[i] == entries[i]);
        }
        lemma_loaded_none(shorter, id);
        assert(parsed_u64(entries[entries.len() - 1].key, 10) != Some(id));
    }
}

proof fn lemma_loaded_last(entries: Seq<StoredChainView>, id: u64, at: int)
    requires
        0 <= at < entries.len(),
        parsed_u64(entries[at].key, 10) == Some(id),
        forall|i: int|
            at < i < entries.len() ==> parsed_u64((#[trigger] entries[i]).key, 10) != Some(id),
    ensures
        loaded(entries).contains_key(id),
        loaded(entries)[id] == entries[at].record,
    decreases entries.len(),
{
    let shorter = entries.drop_last();
    if at < shorter.len() {
        assert forall|i: int| at < i < shorter.len() implies parsed_u64(
            (#[trigger] shorter[i]).key,
            10,
        ) != Some(id) by {
            assert(shorter[i] == entries[i]);
        }
        assert(shorter[at] == entries[at]);
        lemma_loaded_last(shorter, id, at);
        assert(parsed_u64(entries[entries.len() - 1].key, 10) != Some(id));
    }
}

/// A valid configuration that is set is the one that is read, counts as a caller's, and is in the
/// file that the next save writes. A contradictory one changes nothing. No other chain is touched.
pub proof fn law_a_configuration_that_is_set_is_kept<R: VerifiedRouter>(
    rpc: &mut EthRpc<R>,
    id: u64,
    cfg: ChainConfig,
    r: Result<(), String>,
    other: u64,
    mine: Option<&ChainConfig>,
    source: Option<ConfigSource>,
    before: Option<&ChainConfig>,
    after: Option<&ChainConfig>,
    path: Seq<char>,
    later: &mut EthRpc<R>,
    save: Option<SaveRequest>,
)
    requires
        call_ensures(EthRpc::<R>::set_chain_config, (rpc, id, cfg), r),
        call_ensures(EthRpc::<R>::get_chain_config, (final(rpc), id), mine),
        call_ensures(EthRpc::<R>::config_source, (final(rpc), id), source),
        call_ensures(EthRpc::<R>::get_chain_config, (&*old(rpc), other), before),
        call_ensures(EthRpc::<R>::get_chain_config, (final(rpc), other), after),
        old(rpc)@.store_path == Some(path),
        *old(later) == *final(rpc),
        call_ensures(EthRpc::<R>::take_save, (later,), save),
    ensures
        r is Err <==> cfg.proxy_required && cfg.verified_proxy_mode == VerifiedProxyMode::Required,
        r is Ok ==> (mine matches Some(c) && same_config(c, &cfg)) && source == Some(
            ConfigSource::External,
        ) && file_holds(save, path, id, Some((&cfg, ConfigSource::External))),
        r is Ok && other != id ==> same_entry(before, after),
        r matches Err(e) ==> e@ == both_required() && same_entry(before, after),
        r is Err ==> final(rpc)@.unsaved == old(rpc)@.unsaved,
        final(rpc)@.chains.remove(id) == old(rpc)@.chains.remove(id),
        final(rpc)@.store_path == old(rpc)@.store_path,
        final(rpc).router() == old(rpc).router(),
{
    if r is Ok {
        lemma_file(
            old(later)@,
            save,
            path,
            id,
            Some((&cfg, ConfigSource::External)),
        );
    }
}

/// Seeding writes an absent chain whole, fills in a blank endpoint, and leaves everything else as
/// it is; it says which, and what it wrote is in the file that the next save writes.
pub proof fn law_seeding_fills_in_what_is_absent<R: VerifiedRouter>(
    rpc: &mut EthRpc<R>,
    id: u64,
    cfg: &ChainConfig,
    r: Vec<String>,
    was: Option<&ChainConfig>,
    old_source: Option<ConfigSource>,
    mine: Option<&ChainConfig>,
    source: Option<ConfigSource>,
    other: u64,
    before: Option<&ChainConfig>,
    after: Option<&ChainConfig>,
    path: Seq<char>,
    later: &mut EthRpc<R>,
    save: Option<SaveRequest>,
)
    requires
        call_ensures(EthRpc::<R>::ensure_chain_config, (rpc, id, cfg), r),
        call_ensures(EthRpc::<R>::get_chain_config, (&*old(rpc), id), was),
        call_ensures(EthRpc::<R>::config_source, (&*old(rpc), id), old_source),
        call_ensures(EthRpc::<R>::get_chain_config, (final(rpc), id), mine),
        call_ensures(EthRpc::<R>::config_source, (final(rpc), id), source),
        call_ensures(EthRpc::<R>::get_chain_config, (&*old(rpc), other), before),
        call_ensures(EthRpc::<R>::get_chain_config, (final(rpc), other), after),
        old(rpc)@.store_path == Some(path),
        *old(later) == *final(rpc),
        call_ensures(EthRpc::<R>::take_save, (later,), save),
    ensures
        mine is Some,
        (match was {
            None => {
                &&& r@.len() == 1
                &&& r@[0]@ == "*"@
                &&& same_config(mine->Some_0, cfg)
                &&& source == Some(ConfigSource::External)
                &&& file_holds(save, path, id, Some((cfg, ConfigSource::External)))
            },
            Some(b) => if all_white(b.endpoint@) && !all_white(cfg.endpoint@) {
                let c = mine->Some_0;
                &&& r@.len() == 1
                &&& r@[0]@ == "endpoint"@
                &&& c.endpoint@ == cfg.endpoint@
                &&& same_optional(c.proxy, b.proxy)
                &&& c.proxy_required == b.proxy_required
                &&& c.timeout_secs == b.timeout_secs
                &&& c.verified_proxy_mode == b.verified_proxy_mode
                &&& c.verified_timeout_secs == b.verified_timeout_secs
                &&& source == Some(ConfigSource::External)
                &&& file_holds(save, path, id, Some((c, ConfigSource::External)))
            } else {
                &&& r@.len() == 0
                &&& same_config(mine->Some_0, b)
                &&& source == old_source
                &&& final(rpc)@.unsaved == old(rpc)@.unsaved
            },
        }),
        other != id ==> same_entry(before, after),
        final(rpc)@.chains.remove(id) == old(rpc)@.chains.remove(id),
        final(rpc)@.store_path == old(rpc)@.store_path,
        final(rpc).router() == old(rpc).router(),
{
    law_blank(cfg.endpoint@);
    match was {
        None => {
            lemma_texts(r@, seq!["*"@]);
            lemma_file(old(later)@, save, path, id, Some((cfg, ConfigSource::External)));
        },
        Some(b) => {
            law_blank(b.endpoint@);
            if all_white(b.endpoint@) && !all_white(cfg.endpoint@) {
                lemma_texts(r@, seq!["endpoint"@]);
                lemma_file(
                    old(later)@,
                    save,
                    path,
                    id,
                    Some((mine->Some_0, ConfigSource::External)),
                );
            } else {
                assert(texts_view(r@).len() == r@.len());
            }
        },
    }
}

proof fn lemma_texts(texts: Seq<String>, one: Seq<Seq<char>>)
    requires
        texts_view(texts) == one,
        one.len() == 1,
    ensures
        texts.len() == 1,
        texts[0]@ == one[0],
{
    assert(texts_view(texts).len() == texts.len());
    assert(texts_view(texts)[0] == texts[0]@);
}

/// A patch sets the timeouts that are given, leaves every other field and every other chain as it
/// is, and is in the file that the next save writes; a chain that is unknown stays so.
pub proof fn law_a_patch_sets_the_timeouts<R: VerifiedRouter>(
    rpc: &mut EthRpc<R>,
    id: u64,
    timeout_secs: Option<u64>,
    verified_timeout_secs: Option<u64>,
    r: bool,
    was: Option<&ChainConfig>,
    mine: Option<&ChainConfig>,
    source: Option<ConfigSource>,
    other: u64,
    before: Option<&ChainConfig>,
    after: Option<&ChainConfig>,
    path: Seq<char>,
    later: &mut EthRpc<R>,
    save: Option<SaveRequest>,
)
    requires
        call_ensures(
            EthRpc::<R>::patch_chain_transport,
            (rpc, id, timeout_secs, verified_timeout_secs),
            r,
        ),
        call_ensures(EthRpc::<R>::get_chain_config, (&*old(rpc), id), was),
        call_ensures(EthRpc::<R>::get_chain_config, (final(rpc), id), mine),
        call_ensures(EthRpc::<R>::config_source, (final(rpc), id), source),
        call_ensures(EthRpc::<R>::get_chain_config, (&*old(rpc), other), before),
        call_ensures(EthRpc::<R>::get_chain_config, (final(rpc), other), after),
        old(rpc)@.store_path == Some(path),
        *old(later) == *final(rpc),
        call_ensures(EthRpc::<R>::take_save, (later,), save),
    ensures
        r == (was is Some),
        r == (mine is Some),
        was matches Some(b) ==> {
            let c = mine->Some_0;
            &&& c.endpoint@ == b.endpoint@
            &&& same_optional(c.proxy, b.proxy)
            &&& c.proxy_required == b.proxy_required
            &&& c.verified_proxy_mode == b.verified_proxy_mode
            &&& c.timeout_secs == (if timeout_secs is Some {
                timeout_secs->Some_0
            } else {
                b.timeout_secs
            })
            &&& c.verified_timeout_secs == (if verified_timeout_secs is Some {
                verified_timeout_secs->Some_0
            } else {
                b.verified_timeout_secs
            })
            &&& source == Some(ConfigSource::External)
            &&& file_holds(save, path, id, Some((c, ConfigSource::External)))
        },
        was is None ==> final(rpc)@.unsaved == old(rpc)@.unsaved,
        other != id ==> same_entry(before, after),
        final(rpc)@.chains.remove(id) == old(rpc)@.chains.remove(id),
        final(rpc)@.store_path == old(rpc)@.store_path,
        final(rpc).router() == old(rpc).router(),
{
    if was is Some {
        lemma_file(old(later)@, save, path, id, Some((mine->Some_0, ConfigSource::External)));
    }
}

/// A switch of mode sets the mode of a known chain, leaves every other field and every other chain
/// as it is, and is in the file that the next save writes. It is refused, and nothing changes,
/// where the chain is unknown or requires a network proxy that the mode cannot honour.
pub proof fn law_a_switch_sets_the_mode<R: VerifiedRouter>(
    rpc: &mut EthRpc<R>,
    id: u64,
    mode: VerifiedProxyMode,
    r: Result<(), String>,
    was: Option<&ChainConfig>,
    mine: Option<&ChainConfig>,
    source: Option<ConfigSource>,
    other: u64,
    before: Option<&ChainConfig>,
    after: Option<&ChainConfig>,
    path: Seq<char>,
    later: &mut EthRpc<R>,
    save: Option<SaveRequest>,
)
    requires
        call_ensures(EthRpc::<R>::set_verified_proxy_mode, (rpc, id, mode), r),
        call_ensures(EthRpc::<R>::get_chain_config, (&*old(rpc), id), was),
        call_ensures(EthRpc::<R>::get_chain_config, (final(rpc), id), mine),
        call_ensures(EthRpc::<R>::config_source, (final(rpc), id), source),
        call_ensures(EthRpc::<R>::get_chain_config, (&*old(rpc), other), before),
        call_ensures(EthRpc::<R>::get_chain_config, (final(rpc), other), after),
        old(rpc)@.store_path == Some(path),
        *old(later) == *final(rpc),
        call_ensures(EthRpc::<R>::take_save, (later,), save),
    ensures
        (match was {
            None => r matches Err(e) && e@ == "no configuration for chain "@ + decimal(id as nat)
                && mine is None,
            Some(b) => if b.proxy_required && mode == VerifiedProxyMode::Required {
                &&& r matches Err(e)
                &&& e@ == both_required()
                &&& mine matches Some(c)
                &&& same_config(c, b)
            } else {
                &&& r is Ok
                &&& mine matches Some(c)
                &&& c.verified_proxy_mode == mode
                &&& c.endpoint@ == b.endpoint@
                &&& same_optional(c.proxy, b.proxy)
                &&& c.proxy_required == b.proxy_required
                &&& c.timeout_secs == b.timeout_secs
                &&& c.verified_timeout_secs == b.verified_timeout_secs
                &&& source == Some(ConfigSource::External)
                &&& file_holds(save, path, id, Some((c, ConfigSource::External)))
            },
        }),
        r is Err ==> same_entry(before, after) && final(rpc)@.unsaved == old(rpc)@.unsaved,
        other != id ==> same_entry(before, after),
        final(rpc)@.chains.remove(id) == old(rpc)@.chains.remove(id),
        final(rpc)@.store_path == old(rpc)@.store_path,
        final(rpc).router() == old(rpc).router(),
{
    if r is Ok {
        lemma_file(old(later)@, save, path, id, Some((mine->Some_0, ConfigSource::External)));
    }
}

/// A chain that is removed is unknown, is not in the file that the next save writes, and was known
/// exactly where the removal says so. No other chain is touched.
pub proof fn law_a_removed_chain_is_gone<R: VerifiedRouter>(
    rpc: &mut EthRpc<R>,
    id: u64,
    r: bool,
    was: Option<&ChainConfig>,
    mine: Option<&ChainConfig>,
    other: u64,
    before: Option<&ChainConfig>,
    after: Option<&ChainConfig>,
    path: Seq<char>,
    later: &mut EthRpc<R>,
    save: Option<SaveRequest>,
)
    requires
        call_ensures(EthRpc::<R>::remove_chain_config, (rpc, id), r),
        call_ensures(EthRpc::<R>::get_chain_config, (&*old(rpc), id), was),
        call_ensures(EthRpc::<R>::get_chain_config, (final(rpc), id), mine),
        call_ensures(EthRpc::<R>::get_chain_config, (&*old(rpc), other), before),
        call_ensures(EthRpc::<R>::get_chain_config, (final(rpc), other), after),
        old(rpc)@.store_path == Some(path),
        *old(later) == *final(rpc),
        call_ensures(EthRpc::<R>::take_save, (later,), save),
    ensures
        r == (was is Some),
        mine is None,
        file_holds(save, path, id, None),
        other != id ==> same_entry(before, after),
        final(rpc)@.chains.remove(id) == old(rpc)@.chains.remove(id),
        final(rpc)@.store_path == old(rpc)@.store_path,
        final(rpc).router() == old(rpc).router(),
{
    lemma_file(old(later)@, save, path, id, None);
}

/// The endpoint that ships with the module for a chain.
pub open spec fn shipped_endpoint(id: u64) -> Option<Seq<char>> {
    if id == 1 {
        Some("https://ethereum-rpc.publicnode.com"@)
    } else if id == 11155111 {
        Some("https://ethereum-sepolia-rpc.publicnode.com"@)
    } else if id == 560048 {
        Some("https://ethereum-hoodi-rpc.publicnode.com"@)
    } else {
        None
    }
}

/// Seeding the defaults gives each of the three chains its endpoint where the chain is absent or
/// its endpoint blank, and touches nothing else. It says that it did something exactly where one
/// of them was; what it wrote counts as a default where the chain was absent, and is in the file
/// that the next save writes.
pub proof fn law_defaults_fill_in_what_is_absent<R: VerifiedRouter>(
    rpc: &mut EthRpc<R>,
    r: bool,
    id: u64,
    was: Option<&ChainConfig>,
    old_source: Option<ConfigSource>,
    mine: Option<&ChainConfig>,
    source: Option<ConfigSource>,
    path: Seq<char>,
    later: &mut EthRpc<R>,
    save: Option<SaveRequest>,
)
    requires
        call_ensures(EthRpc::<R>::init_defaults, (rpc,), r),
        call_ensures(EthRpc::<R>::get_chain_config, (&*old(rpc), id), was),
        call_ensures(EthRpc::<R>::config_source, (&*old(rpc), id), old_source),
        call_ensures(EthRpc::<R>::get_chain_config, (final(rpc), id), mine),
        call_ensures(EthRpc::<R>::config_source, (final(rpc), id), source),
        old(rpc)@.store_path == Some(path),
        *old(later) == *final(rpc),
        call_ensures(EthRpc::<R>::take_save, (later,), save),
    ensures
        ({
            let needed = shipped_endpoint(id) is Some && (was is None || all_white(
                was->Some_0.endpoint@,
            ));
            &&& needed ==> r
            &&& needed ==> (mine matches Some(c) && (source matches Some(s) && {
                &&& c.endpoint@ == shipped_endpoint(id)->Some_0
                &&& file_holds(save, path, id, Some((c, s)))
                &&& match was {
                    None => {
                        &&& c.proxy is None
                        &&& !c.proxy_required
                        &&& c.timeout_secs == 8
                        &&& c.verified_proxy_mode == VerifiedProxyMode::Off
                        &&& c.verified_timeout_secs == 15
                        &&& s == ConfigSource::Default
                    },
                    Some(b) => {
                        &&& same_optional(c.proxy, b.proxy)
                        &&& c.proxy_required == b.proxy_required
                        &&& c.timeout_secs == b.timeout_secs
                        &&& c.verified_proxy_mode == b.verified_proxy_mode
                        &&& c.verified_timeout_secs == b.verified_timeout_secs
                        &&& Some(s) == old_source
                    },
                }
            }))
            &&& !needed ==> same_entry(was, mine) && source == old_source
        }),
        r ==> exists|k: u64|
            (#[trigger] shipped_endpoint(k)) is Some && (match old(rpc)@.config(k) {
                Some(c) => all_white(c.endpoint),
                None => true,
            }),
        !r ==> same_entry(was, mine) && source == old_source,
        !r ==> final(rpc)@.unsaved == old(rpc)@.unsaved,
        final(rpc)@.store_path == old(rpc)@.store_path,
        final(rpc).router() == old(rpc).router(),
{
    reveal_with_fuel(EthRpcView::with_defaults, 4);
    let s = old(rpc)@;
    let a = "https://ethereum-rpc.publicnode.com"@;
    let b = "https://ethereum-sepolia-rpc.publicnode.com"@;
    let c = "https://ethereum-hoodi-rpc.publicnode.com"@;
    reveal_strlit("https://ethereum-rpc.publicnode.com");
    reveal_strlit("https://ethereum-sepolia-rpc.publicnode.com");
    reveal_strlit("https://ethereum-hoodi-rpc.publicnode.com");
    assert(a[0] == 'h' && b[0] == 'h' && c[0] == 'h');
    assert(!is_white_space_spec('h'));
    law_blank(a);
    law_blank(b);
    law_blank(c);
    match was {
        Some(x) => law_blank(x.endpoint@),
        None => {},
    }
    assert(default_endpoints()[0] == (1u64, a));
    assert(default_endpoints()[1] == (11155111u64, b));
    assert(default_endpoints()[2] == (560048u64, c));
    if shipped_endpoint(id) is Some && (was is None || all_white(was->Some_0.endpoint@)) {
        if id == 1 {
            assert(s.lacks_default(0));
        } else if id == 11155111 {
            assert(s.lacks_default(1));
        } else {
            assert(s.lacks_default(2));
        }
        assert(final(rpc)@.unsaved);
        lemma_file(old(later)@, save, path, id, Some((mine->Some_0, source->Some_0)));
    }
    if !r {
        assert(!s.lacks_default(0));
        assert(!s.lacks_default(1));
        assert(!s.lacks_default(2));
    } else {
        let n = choose|n: int| 0 <= n < 3 && #[trigger] s.lacks_default(n);
        let k = default_endpoints()[n].0;
        assert(shipped_endpoint(k) is Some);
        match s.config(k) {
            Some(x) => law_blank(x.endpoint),
            None => {},
        }
    }
}

/// Defaults that were seeded once are not seeded again.
pub proof fn law_defaults_are_seeded_once<R: VerifiedRouter>(
    rpc: &mut EthRpc<R>,
    r: bool,
    later: &mut EthRpc<R>,
    again: bool,
)
    requires
        call_ensures(EthRpc::<R>::init_defaults, (rpc,), r),
        final(rpc)@.chains == old(later)@.chains,
        call_ensures(EthRpc::<R>::init_defaults, (later,), again),
    ensures
        !again,
        final(later)@ == old(later)@,
{
    law_init_defaults_is_idempotent(old(rpc)@);
    assert forall|n: int| 0 <= n < 3 implies !#[trigger] old(later)@.lacks_default(n) by {
        assert(!final(rpc)@.lacks_default(n));
    }
    law_init_defaults_needs_nothing(old(later)@);
}

/// The list of chains ascends and holds exactly the chains that are configured; these have a
/// source and a timeout of their own.
pub proof fn law_listing<R: VerifiedRouter>(
    rpc: &EthRpc<R>,
    ids: Vec<u64>,
    id: u64,
    config: Option<&ChainConfig>,
    source: Option<ConfigSource>,
    timeout: Option<u64>,
    i: int,
    j: int,
)
    requires
        call_ensures(EthRpc::<R>::list_chains, (rpc,), ids),
        call_ensures(EthRpc::<R>::get_chain_config, (rpc, id), config),
        call_ensures(EthRpc::<R>::config_source, (rpc, id), source),
        call_ensures(EthRpc::<R>::verified_timeout, (rpc, id), timeout),
    ensures
        0 <= i < j < ids@.len() ==> ids@[i] < ids@[j],
        ids@.contains(id) <==> config is Some,
        source is Some <==> config is Some,
        timeout == (match config {
            Some(c) => Some(c.verified_timeout_secs),
            None => None,
        }),
{
}

/// The records that are stored are those of the listed chains, each under its id in decimal.
pub proof fn law_stored_records<R: VerifiedRouter>(
    rpc: &EthRpc<R>,
    ids: Vec<u64>,
    entries: Vec<StoredChain>,
    k: int,
    config: Option<&ChainConfig>,
    source: Option<ConfigSource>,
)
    requires
        call_ensures(EthRpc::<R>::list_chains, (rpc,), ids),
        call_ensures(EthRpc::<R>::stored, (rpc,), entries),
        0 <= k < ids@.len(),
        call_ensures(EthRpc::<R>::get_chain_config, (rpc, ids@[k]), config),
        call_ensures(EthRpc::<R>::config_source, (rpc, ids@[k]), source),
    ensures
        entries@.len() == ids@.len(),
        entries@[k].key@ == decimal(ids@[k] as nat),
        config matches Some(c) && same_config(c, &entries@[k].record.config),
        source == Some(entries@[k].record.source),
{
    let others = choose|others: Seq<u64>| #[trigger]
        lists(others, rpc@.chains) && stored_chains_view(entries@) == stored_view(
            others,
            rpc@.chains,
        );
    law_listing_is_unique(ids@, others, rpc@.chains);
    assert(stored_chains_view(entries@).len() == entries@.len());
    assert(stored_chains_view(entries@)[k] == entries@[k]@);
    assert(stored_view(ids@, rpc@.chains)[k].key == decimal(ids@[k] as nat));
    assert(ids@.contains(ids@[k]));
}

/// A save is due where something was changed and the store is kept somewhere; it writes every
/// chain and nothing else, and leaves the store as it is, with nothing to save.
pub proof fn law_a_save_writes_the_store<R: VerifiedRouter>(
    rpc: &mut EthRpc<R>,
    save: Option<SaveRequest>,
    id: u64,
    config: Option<&ChainConfig>,
    source: Option<ConfigSource>,
    after: Option<&ChainConfig>,
    after_source: Option<ConfigSource>,
    key: Seq<char>,
)
    requires
        call_ensures(EthRpc::<R>::take_save, (rpc,), save),
        call_ensures(EthRpc::<R>::get_chain_config, (&*old(rpc), id), config),
        call_ensures(EthRpc::<R>::config_source, (&*old(rpc), id), source),
        call_ensures(EthRpc::<R>::get_chain_config, (final(rpc), id), after),
        call_ensures(EthRpc::<R>::config_source, (final(rpc), id), after_source),
    ensures
        save is Some <==> old(rpc)@.unsaved && old(rpc)@.store_path is Some,
        save is Some ==> file_holds(
            save,
            old(rpc)@.store_path->Some_0,
            id,
            match config {
                Some(c) => Some((c, source->Some_0)),
                None => None,
            },
        ),
        save matches Some(f) ==> (json_read(f.text@) matches Ok(v) && (v.get(key) is Some ==> (
        parsed_u64(key, 10) matches Some(n) && key == decimal(n as nat)))),
        same_entry(config, after),
        source == after_source,
        !final(rpc)@.unsaved,
        final(rpc)@.store_path == old(rpc)@.store_path,
        final(rpc).router() == old(rpc).router(),
{
    let store = old(rpc)@;
    if store.unsaved && store.store_path is Some {
        lemma_file(
            store,
            save,
            store.store_path->Some_0,
            id,
            match config {
                Some(c) => Some((c, source->Some_0)),
                None => None,
            },
        );
        let f = save->Some_0;
        let ids = choose|ids: Seq<u64>|
            {
                let v = store_json(stored_view(ids, store.chains));
                &&& #[trigger] lists(ids, store.chains)
                &&& store.store_path == Some(f.path@)
                &&& f.text@ == json_text_pretty(v)
                &&& json_read(f.text@) == Ok::<JsonView, Seq<char>>(v)
            };
        law_saved_object_holds_every_chain(ids, store.chains, id, key);
    }
}

/// A router that is supplied is the one that is used, and changes nothing else.
pub proof fn law_a_router_is_supplied<R: VerifiedRouter>(rpc: &mut EthRpc<R>, router: Arc<R>)
    requires
        call_ensures(EthRpc::<R>::set_verified_router, (rpc, router), ()),
    ensures
        final(rpc).router() == Some(router),
        final(rpc)@ == old(rpc)@,
{
}

} // verus!
