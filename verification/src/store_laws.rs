//! What holds of the store of chain configurations.
//!
//! Each law relates several operations, over the models that their contracts speak of.

use vstd::prelude::*;

use crate::config::{
    mode_name, source_name, source_named, ChainConfigView, ConfigSource, VerifiedProxyMode,
};
use crate::json::{
    entries_map, json_read, json_text_pretty, lemma_distinct_entries, lemma_entries_map_from,
    JsonView,
};
use crate::rpc::{
    blank, default_endpoints, lists, loaded, record_json, store_json, stored_view, ChainRecordView,
    EthRpcView, SaveRequest, StoredChainView,
};
use crate::text::{decimal, law_decimal_reads_back, parsed_u64, trimmed};

verus! {

/// A configuration that is set is the one that is read, and no other chain is touched.
pub proof fn law_set_then_get(store: EthRpcView, id: u64, config: ChainConfigView, other: u64)
    requires
        config.valid(),
    ensures
        store.set_config(id, config).config(id) == Some(config),
        other != id ==> store.set_config(id, config).config(other) == store.config(other),
{
}

/// A configuration that contradicts itself changes nothing.
pub proof fn law_contradiction_is_not_stored(store: EthRpcView, id: u64, config: ChainConfigView)
    requires
        config.proxy_required,
        config.verified_proxy_mode == VerifiedProxyMode::Required,
    ensures
        store.set_config(id, config) == store,
{
}

/// A chain that is removed is unknown, and no other chain is touched.
pub proof fn law_remove_forgets(store: EthRpcView, id: u64, other: u64)
    ensures
        store.remove(id).config(id) is None,
        other != id ==> store.remove(id).config(other) == store.config(other),
{
}

/// Seeding never touches a chain whose endpoint is configured, and of a chain whose endpoint is
/// blank it writes the endpoint alone.
pub proof fn law_seeding_never_clobbers(
    store: EthRpcView,
    id: u64,
    config: ChainConfigView,
    source: ConfigSource,
)
    requires
        store.chains.contains_key(id),
    ensures
        !blank(store.chains[id].config.endpoint) ==> store.seed(id, config, source) == store
            && store.seeded_fields(id, config).len() == 0,
        store.seed(id, config, source).chains[id].config == (ChainConfigView {
            endpoint: store.seed(id, config, source).chains[id].config.endpoint,
            ..store.chains[id].config
        }),
{
}

/// Where seeding says that it wrote nothing, it changed nothing. Where it says that it wrote, the
/// endpoint that was given is stored; and an absent chain is stored whole.
pub proof fn law_seeding_reports_what_it_writes(
    store: EthRpcView,
    id: u64,
    config: ChainConfigView,
    source: ConfigSource,
)
    ensures
        store.seeded_fields(id, config).len() == 0 ==> store.seed(id, config, source) == store,
        !store.chains.contains_key(id) ==> store.seeded_fields(id, config) == seq!["*"@]
            && store.seed(id, config, source).config(id) == Some(config),
        store.seeded_fields(id, config).len() > 0 ==> store.seed(id, config, source).unsaved
            && store.seed(id, config, source).chains[id].config.endpoint == config.endpoint,
{
}

/// Seeding twice is seeding once.
pub proof fn law_seeding_is_idempotent(
    store: EthRpcView,
    id: u64,
    config: ChainConfigView,
    source: ConfigSource,
)
    ensures
        store.seed(id, config, source).seed(id, config, source) == store.seed(id, config, source),
        store.seed(id, config, source).seeded_fields(id, config).len() == 0,
{
}

/// Patching the transport changes the two timeouts of the chain and nothing else.
pub proof fn law_patch_changes_only_the_timeouts(
    store: EthRpcView,
    id: u64,
    timeout_secs: Option<u64>,
    verified_timeout_secs: Option<u64>,
    other: u64,
)
    ensures
        store.patch_transport(id, timeout_secs, verified_timeout_secs).config(id) == (
        match store.config(id) {
            Some(c) => Some(
                ChainConfigView {
                    timeout_secs: match timeout_secs {
                        Some(t) => t,
                        None => c.timeout_secs,
                    },
                    verified_timeout_secs: match verified_timeout_secs {
                        Some(t) => t,
                        None => c.verified_timeout_secs,
                    },
                    ..c
                },
            ),
            None => None,
        }),
        other != id ==> store.patch_transport(id, timeout_secs, verified_timeout_secs).config(other)
            == store.config(other),
{
}

/// A switch of mode changes the mode of the chain alone; one that is refused changes nothing.
pub proof fn law_mode_switch(store: EthRpcView, id: u64, mode: VerifiedProxyMode, other: u64)
    requires
        store.chains.contains_key(id),
    ensures
        store.in_mode(id, mode).valid() ==> store.set_mode(id, mode).config(id) == Some(
            ChainConfigView { verified_proxy_mode: mode, ..store.chains[id].config },
        ),
        !store.in_mode(id, mode).valid() ==> store.set_mode(id, mode) == store,
        other != id ==> store.set_mode(id, mode).config(other) == store.config(other),
{
}

/// A switch of mode is refused exactly where the chain requires a network proxy and the mode
/// requires verification.
pub proof fn law_mode_switch_refusal(store: EthRpcView, id: u64, mode: VerifiedProxyMode)
    ensures
        store.in_mode(id, mode).valid() <==> !(store.chains[id].config.proxy_required && mode
            == VerifiedProxyMode::Required),
{
}

/// A store whose configurations can all be honoured stays so, whatever is done to it.
pub proof fn law_valid_store_stays_valid(
    store: EthRpcView,
    id: u64,
    config: ChainConfigView,
    source: ConfigSource,
    mode: VerifiedProxyMode,
    timeout_secs: Option<u64>,
    verified_timeout_secs: Option<u64>,
)
    requires
        store.all_valid(),
    ensures
        store.set_config(id, config).all_valid(),
        config.valid() ==> store.seed(id, config, source).all_valid(),
        store.patch_transport(id, timeout_secs, verified_timeout_secs).all_valid(),
        store.set_mode(id, mode).all_valid(),
        store.remove(id).all_valid(),
        store.init_defaults().all_valid(),
{
    reveal_with_fuel(EthRpcView::with_defaults, 4);
}

/// The endpoints that ship with the module say something.
proof fn lemma_default_endpoints_say_something(n: int)
    requires
        0 <= n < 3,
    ensures
        !blank(default_endpoints()[n].1),
{
    let s = default_endpoints()[n].1;
    reveal_strlit("https://ethereum-rpc.publicnode.com");
    reveal_strlit("https://ethereum-sepolia-rpc.publicnode.com");
    reveal_strlit("https://ethereum-hoodi-rpc.publicnode.com");
    assert(s[0] == 'h');
    assert(s[s.len() - 1] == 'm');
    assert(trimmed(s) == s);
}

/// The chain of each endpoint that ships with the module, and what seeding all of them leaves
/// under an id.
proof fn lemma_init_defaults(store: EthRpcView)
    ensures
        default_endpoints().len() == 3,
        forall|id: u64| #[trigger]
            store.init_defaults().chains.contains_key(id) <==> store.chains.contains_key(id) || id
                == 1 || id == 11155111 || id == 560048,
        forall|id: u64| #[trigger]
            store.init_defaults().chains.contains_key(id) && !(store.chains.contains_key(id)
                && !blank(store.chains[id].config.endpoint)) && (id == 1 || id == 11155111 || id
                == 560048) ==> !blank(store.init_defaults().chains[id].config.endpoint),
        forall|id: u64| #[trigger]
            store.chains.contains_key(id) && (!blank(store.chains[id].config.endpoint) || !(id == 1
                || id == 11155111 || id == 560048)) ==> store.init_defaults().chains[id]
                == store.chains[id],
        forall|id: u64| #[trigger]
            store.chains.contains_key(id) ==> store.init_defaults().chains[id] == (
            ChainRecordView {
                config: ChainConfigView {
                    endpoint: store.init_defaults().chains[id].config.endpoint,
                    ..store.chains[id].config
                },
                ..store.chains[id]
            }),
        forall|id: u64|
            !store.chains.contains_key(id) && #[trigger] store.init_defaults().chains.contains_key(
                id,
            ) ==> store.init_defaults().chains[id].source == ConfigSource::Default,
{
    reveal_with_fuel(EthRpcView::with_defaults, 4);
    lemma_default_endpoints_say_something(0);
    lemma_default_endpoints_say_something(1);
    lemma_default_endpoints_say_something(2);
}

/// Seeding the defaults leaves none of them absent.
pub proof fn law_init_defaults_seeds_every_default(store: EthRpcView, n: int)
    requires
        0 <= n < 3,
    ensures
        !store.init_defaults().lacks_defaults(),
        store.init_defaults().config(default_endpoints()[n].0) is Some,
        store.config(default_endpoints()[n].0) is None ==> store.init_defaults().config(
            default_endpoints()[n].0,
        ) == Some(ChainConfigView::with_endpoint(default_endpoints()[n].1)),
{
    lemma_init_defaults(store);
    reveal_with_fuel(EthRpcView::with_defaults, 4);
    let after = store.init_defaults();
    assert forall|k: int| 0 <= k < 3 implies !#[trigger] after.lacks_default(k) by {
        let (id, endpoint) = default_endpoints()[k];
        assert(after.chains.contains_key(id));
        assert(!blank(after.chains[id].config.endpoint)) by {
            if store.chains.contains_key(id) && !blank(store.chains[id].config.endpoint) {
                assert(after.chains[id] == store.chains[id]);
            }
        }
    }
}

/// Where none of the defaults is absent, seeding them changes nothing.
pub proof fn law_init_defaults_needs_nothing(store: EthRpcView)
    requires
        !store.lacks_defaults(),
    ensures
        store.init_defaults() == store,
{
    reveal_with_fuel(EthRpcView::with_defaults, 4);
    assert(!store.lacks_default(0));
    assert(!store.lacks_default(1));
    assert(!store.lacks_default(2));
}

/// Seeding the defaults twice is seeding them once, and the second time applies nothing.
pub proof fn law_init_defaults_is_idempotent(store: EthRpcView)
    ensures
        store.init_defaults().init_defaults() == store.init_defaults(),
        !store.init_defaults().lacks_defaults(),
{
    law_init_defaults_seeds_every_default(store, 0);
    law_init_defaults_needs_nothing(store.init_defaults());
}

/// Seeding the defaults writes over nothing: a record whose endpoint is configured stays as it
/// is, and of any other record that was there everything but a blank endpoint stays.
pub proof fn law_init_defaults_writes_over_nothing(store: EthRpcView, id: u64)
    requires
        store.chains.contains_key(id),
    ensures
        store.init_defaults().chains.contains_key(id),
        !blank(store.chains[id].config.endpoint) ==> store.init_defaults().chains[id]
            == store.chains[id],
        store.init_defaults().chains[id] == (ChainRecordView {
            config: ChainConfigView {
                endpoint: store.init_defaults().chains[id].config.endpoint,
                ..store.chains[id].config
            },
            ..store.chains[id]
        }),
{
    lemma_init_defaults(store);
}

/// Whether no record of a store has gone back from a caller's hands to the defaults.
pub open spec fn sources_kept(before: EthRpcView, after: EthRpcView) -> bool {
    forall|id: u64|
        before.chains.contains_key(id) && before.chains[id].source == ConfigSource::External
            && #[trigger] after.chains.contains_key(id) ==> after.chains[id].source
            == ConfigSource::External
}

/// A record's source moves one way only: once a caller has written to a record, no operation
/// makes it count as a default again.
pub proof fn law_source_moves_one_way(
    store: EthRpcView,
    id: u64,
    config: ChainConfigView,
    source: ConfigSource,
    mode: VerifiedProxyMode,
    timeout_secs: Option<u64>,
    verified_timeout_secs: Option<u64>,
)
    ensures
        sources_kept(store, store.set_config(id, config)),
        sources_kept(store, store.seed(id, config, source)),
        sources_kept(store, store.patch_transport(id, timeout_secs, verified_timeout_secs)),
        sources_kept(store, store.set_mode(id, mode)),
        sources_kept(store, store.remove(id)),
        sources_kept(store, store.init_defaults()),
{
    lemma_init_defaults(store);
}

/// As soon as a caller writes to a record, its source is external.
pub proof fn law_a_callers_write_is_external(
    store: EthRpcView,
    id: u64,
    config: ChainConfigView,
    mode: VerifiedProxyMode,
    timeout_secs: Option<u64>,
    verified_timeout_secs: Option<u64>,
)
    ensures
        config.valid() ==> store.set_config(id, config).chains[id].source == ConfigSource::External,
        store.seeded_fields(id, config).len() > 0 ==> store.seed(
            id,
            config,
            ConfigSource::External,
        ).chains[id].source == ConfigSource::External,
        store.chains.contains_key(id) ==> store.patch_transport(
            id,
            timeout_secs,
            verified_timeout_secs,
        ).chains[id].source == ConfigSource::External,
        store.chains.contains_key(id) && store.in_mode(id, mode).valid() ==> store.set_mode(
            id,
            mode,
        ).chains[id].source == ConfigSource::External,
{
}

/// A store has one listing.
pub proof fn law_listing_is_unique(a: Seq<u64>, b: Seq<u64>, chains: Map<u64, ChainRecordView>)
    requires
        lists(a, chains),
        lists(b, chains),
    ensures
        a == b,
    decreases a.len(),
{
    if a.len() == 0 {
        if b.len() > 0 {
            assert(b.contains(b[0]));
            assert(chains.contains_key(b[0]));
            assert(a.contains(b[0]));
        }
    } else {
        let x = a.last();
        assert(a.contains(x));
        assert(chains.contains_key(x));
        assert(b.contains(x));
        let y = b.last();
        assert(b.contains(y));
        assert(chains.contains_key(y));
        assert(a.contains(y));
        assert(x == y);
        let rest = chains.remove(x);
        lemma_listing_without_last(a, chains);
        lemma_listing_without_last(b, chains);
        law_listing_is_unique(a.drop_last(), b.drop_last(), rest);
        assert(a =~= a.drop_last().push(x));
        assert(b =~= b.drop_last().push(x));
    }
}

proof fn lemma_listing_without_last(ids: Seq<u64>, chains: Map<u64, ChainRecordView>)
    requires
        lists(ids, chains),
        ids.len() > 0,
    ensures
        lists(ids.drop_last(), chains.remove(ids.last())),
{
    let shorter = ids.drop_last();
    let rest = chains.remove(ids.last());
    assert forall|id: u64| rest.contains_key(id) implies #[trigger] shorter.contains(id) by {
        assert(ids.contains(id));
        let i = ids.index_of(id);
        assert(shorter[i] == id);
    }
    assert forall|id: u64| #[trigger] shorter.contains(id) implies rest.contains_key(id) by {
        let i = shorter.index_of(id);
        assert(ids[i] == id);
        assert(ids.contains(id));
        assert(ids[i] < ids.last());
    }
}

/// The store that is loaded from the records of a store is that store, in whatever order the
/// records come.
pub proof fn law_stored_records_load_back(
    ids: Seq<u64>,
    chains: Map<u64, ChainRecordView>,
    entries: Seq<StoredChainView>,
)
    requires
        lists(ids, chains),
        forall|e: StoredChainView| #[trigger]
            entries.contains(e) <==> stored_view(ids, chains).contains(e),
    ensures
        loaded(entries) == chains,
{
    let stored = stored_view(ids, chains);
    assert forall|i: int| 0 <= i < entries.len() implies stored.contains(
        #[trigger] entries[i],
    ) by {
        assert(entries.contains(entries[i]));
    }
    lemma_loaded(ids, chains, entries);
    assert forall|id: u64| chains.contains_key(id) implies #[trigger] loaded(entries).contains_key(
        id,
    ) by {
        assert(ids.contains(id));
        let k = ids.index_of(id);
        assert(stored.contains(stored[k]));
        assert(entries.contains(stored[k]));
        let i = entries.index_of(stored[k]);
        assert(entries[i] == stored[k]);
        law_decimal_reads_back(id);
    }
    assert(loaded(entries) =~= chains);
}

/// Records out of a store are loaded under their ids.
proof fn lemma_loaded(
    ids: Seq<u64>,
    chains: Map<u64, ChainRecordView>,
    entries: Seq<StoredChainView>,
)
    requires
        lists(ids, chains),
        forall|i: int|
            0 <= i < entries.len() ==> stored_view(ids, chains).contains(#[trigger] entries[i]),
    ensures
        forall|id: u64| #[trigger]
            loaded(entries).contains_key(id) ==> chains.contains_key(id) && loaded(entries)[id]
                == chains[id],
        forall|i: int|
            0 <= i < entries.len() ==> (parsed_u64((#[trigger] entries[i]).key, 10) matches Some(
                id,
            ) && loaded(entries).contains_key(id)),
    decreases entries.len(),
{
    if entries.len() > 0 {
        let shorter = entries.drop_last();
        assert forall|i: int| 0 <= i < shorter.len() implies stored_view(ids, chains).contains(
            #[trigger] shorter[i],
        ) by {
            assert(shorter[i] == entries[i]);
        }
        lemma_loaded(ids, chains, shorter);
        let last = entries[entries.len() - 1];
        assert(stored_view(ids, chains).contains(last));
        let k = stored_view(ids, chains).index_of(last);
        let id = ids[k];
        assert(ids.contains(id));
        assert(chains.contains_key(id));
        assert(last.key == decimal(id as nat) && last.record == chains[id]);
        law_decimal_reads_back(id);
        assert(loaded(entries) == loaded(shorter).insert(id, chains[id]));
        assert forall|i: int| 0 <= i < entries.len() implies (parsed_u64(
            (#[trigger] entries[i]).key,
            10,
        ) matches Some(id) && loaded(entries).contains_key(id)) by {
            if i < shorter.len() {
                assert(shorter[i] == entries[i]);
            }
        }
    }
}

/// The text that is saved holds the record of every chain under the chain's id, and of nothing
/// else.
pub proof fn law_saved_object_holds_every_chain(
    ids: Seq<u64>,
    chains: Map<u64, ChainRecordView>,
    id: u64,
    key: Seq<char>,
)
    requires
        lists(ids, chains),
    ensures
        chains.contains_key(id) ==> store_json(stored_view(ids, chains)).get(decimal(id as nat))
            == Some(record_json(chains[id])),
        store_json(stored_view(ids, chains)).get(key) is Some ==> (parsed_u64(key, 10) matches Some(
            n,
        ) && chains.contains_key(n) && key == decimal(n as nat)),
{
    let members = stored_view(ids, chains).map_values(
        |e: StoredChainView| (e.key, record_json(e.record)),
    );
    assert forall|i: int, j: int| 0 <= i < j < members.len() implies (#[trigger] members[i]).0 != (
    #[trigger] members[j]).0 by {
        law_decimal_reads_back(ids[i]);
        law_decimal_reads_back(ids[j]);
        assert(ids[i] < ids[j]);
    }
    lemma_distinct_entries(members);
    if chains.contains_key(id) {
        assert(ids.contains(id));
        let k = ids.index_of(id);
        assert(members[k] == (decimal(id as nat), record_json(chains[id])));
    }
    if store_json(stored_view(ids, chains)).get(key) is Some {
        lemma_entries_map_from(members, key);
        let k = choose|k: int|
            0 <= k < members.len() && #[trigger] members[k] == (key, entries_map(members)[key]);
        law_decimal_reads_back(ids[k]);
        assert(ids.contains(ids[k]));
    }
}

/// Seeding the defaults is idempotent across restarts too: a store that is loaded from the records
/// of a seeded one lacks none of the defaults.
pub proof fn law_init_defaults_survives_a_restart(
    store: EthRpcView,
    ids: Seq<u64>,
    entries: Seq<StoredChainView>,
    reopened: EthRpcView,
)
    requires
        lists(ids, store.init_defaults().chains),
        forall|e: StoredChainView| #[trigger]
            entries.contains(e) <==> stored_view(ids, store.init_defaults().chains).contains(e),
        reopened.chains == loaded(entries),
    ensures
        reopened.init_defaults() == reopened,
        !reopened.lacks_defaults(),
{
    law_stored_records_load_back(ids, store.init_defaults().chains, entries);
    law_init_defaults_is_idempotent(store);
    assert forall|n: int| 0 <= n < 3 implies !#[trigger] reopened.lacks_default(n) by {
        assert(!store.init_defaults().lacks_default(n));
    }
    law_init_defaults_needs_nothing(reopened);
}

/// A record that is saved holds each field of the configuration under its name, and its source.
pub proof fn law_saved_record_holds_every_field(record: ChainRecordView)
    ensures
        record_json(record).get("endpoint"@) == Some(JsonView::Str(record.config.endpoint)),
        record_json(record).get("proxy"@) == Some(
            match record.config.proxy {
                Some(p) => JsonView::Str(p),
                None => JsonView::Null,
            },
        ),
        record_json(record).get("proxyRequired"@) == Some(
            JsonView::Bool(record.config.proxy_required),
        ),
        record_json(record).get("timeoutSecs"@) == Some(
            JsonView::Integer(record.config.timeout_secs as int),
        ),
        record_json(record).get("verifiedProxyMode"@) == Some(
            JsonView::Str(mode_name(record.config.verified_proxy_mode)),
        ),
        record_json(record).get("verifiedTimeoutSecs"@) == Some(
            JsonView::Integer(record.config.verified_timeout_secs as int),
        ),
        record_json(record).get("source"@) == Some(JsonView::Str(source_name(record.source))),
{
    let fields = record.config.json_members().push(
        ("source"@, JsonView::Str(source_name(record.source))),
    );
    reveal_strlit("endpoint");
    reveal_strlit("proxy");
    reveal_strlit("proxyRequired");
    reveal_strlit("timeoutSecs");
    reveal_strlit("verifiedProxyMode");
    reveal_strlit("verifiedTimeoutSecs");
    reveal_strlit("source");
    let lengths = seq![8nat, 5, 13, 11, 17, 19, 6];
    assert forall|i: int| 0 <= i < 7 implies (#[trigger] fields[i]).0.len() == lengths[i] by {}
    lemma_distinct_entries(fields);
    assert(fields[0].0 == "endpoint"@);
    assert(fields[1].0 == "proxy"@);
    assert(fields[2].0 == "proxyRequired"@);
    assert(fields[3].0 == "timeoutSecs"@);
    assert(fields[4].0 == "verifiedProxyMode"@);
    assert(fields[5].0 == "verifiedTimeoutSecs"@);
    assert(fields[6].0 == "source"@);
}

/// Nothing of a record is lost when it is saved: different records are saved differently.
pub proof fn law_saved_records_are_told_apart(a: ChainRecordView, b: ChainRecordView)
    requires
        record_json(a) == record_json(b),
    ensures
        a == b,
{
    law_saved_record_holds_every_field(a);
    law_saved_record_holds_every_field(b);
    reveal_strlit("off");
    reveal_strlit("required");
    reveal_strlit("default");
    reveal_strlit("external");
    assert(mode_name(VerifiedProxyMode::Off).len() != mode_name(VerifiedProxyMode::Required).len());
    assert(source_name(ConfigSource::Default).len() != source_name(ConfigSource::External).len());
}

/// Nothing of a store is lost when it is saved: stores that are saved as the same object hold the
/// same chains.
pub proof fn law_saved_stores_are_told_apart(
    ids: Seq<u64>,
    chains: Map<u64, ChainRecordView>,
    other_ids: Seq<u64>,
    other_chains: Map<u64, ChainRecordView>,
)
    requires
        lists(ids, chains),
        lists(other_ids, other_chains),
        store_json(stored_view(ids, chains)) == store_json(stored_view(other_ids, other_chains)),
    ensures
        chains == other_chains,
{
    assert forall|id: u64| #[trigger] chains.dom().contains(id) implies other_chains.dom().contains(
        id,
    ) && chains[id] == other_chains[id] by {
        lemma_saved_chain(ids, chains, other_ids, other_chains, id);
    }
    assert forall|id: u64| #[trigger] other_chains.dom().contains(id) implies chains.dom().contains(
        id,
    ) by {
        lemma_saved_chain(other_ids, other_chains, ids, chains, id);
    }
    assert(chains =~= other_chains);
}

proof fn lemma_saved_chain(
    ids: Seq<u64>,
    chains: Map<u64, ChainRecordView>,
    other_ids: Seq<u64>,
    other_chains: Map<u64, ChainRecordView>,
    id: u64,
)
    requires
        lists(ids, chains),
        lists(other_ids, other_chains),
        store_json(stored_view(ids, chains)) == store_json(stored_view(other_ids, other_chains)),
        chains.contains_key(id),
    ensures
        other_chains.contains_key(id) && chains[id] == other_chains[id],
{
    let key = decimal(id as nat);
    law_saved_object_holds_every_chain(ids, chains, id, key);
    law_saved_object_holds_every_chain(other_ids, other_chains, id, key);
    law_decimal_reads_back(id);
    law_saved_records_are_told_apart(chains[id], other_chains[id]);
}

/// Whether a list of records is what stands in a saved object: it holds, under each key of the
/// object, the record whose JSON stands there, and nothing else.
pub open spec fn holds_saved(entries: Seq<StoredChainView>, v: JsonView) -> bool {
    &&& forall|e: StoredChainView| #[trigger]
        entries.contains(e) ==> v.get(e.key) == Some(record_json(e.record))
    &&& forall|key: Seq<char>| #[trigger]
        v.get(key) is Some ==> exists|e: StoredChainView| #[trigger]
            entries.contains(e) && e.key == key
}

/// Reopening a store gives the same chains: the text that was saved reads as an object, and the
/// records that stand in that object, in whatever order, load back to what the store held.
pub proof fn law_saved_store_reopens(
    store: EthRpcView,
    save: SaveRequest,
    entries: Seq<StoredChainView>,
)
    requires
        store.unsaved,
        store.store_path is Some,
        store.saves(Some(save)),
        json_read(save.text@) matches Ok(v) ==> holds_saved(entries, v),
    ensures
        json_read(save.text@) is Ok,
        loaded(entries) == store.chains,
{
    let chains = store.chains;
    let ids = choose|ids: Seq<u64>|
        {
            let v = store_json(stored_view(ids, chains));
            &&& #[trigger] lists(ids, chains)
            &&& store.store_path == Some(save.path@)
            &&& save.text@ == json_text_pretty(v)
            &&& json_read(save.text@) == Ok::<JsonView, Seq<char>>(v)
        };
    let stored = stored_view(ids, chains);
    let v = store_json(stored);
    assert forall|e: StoredChainView| #[trigger] entries.contains(e) implies stored.contains(e) by {
        law_saved_object_holds_every_chain(ids, chains, 0, e.key);
        let id = parsed_u64(e.key, 10)->Some_0;
        law_saved_object_holds_every_chain(ids, chains, id, e.key);
        law_saved_records_are_told_apart(e.record, chains[id]);
        assert(ids.contains(id));
        assert(stored[ids.index_of(id)] == e);
    }
    assert forall|e: StoredChainView| #[trigger] stored.contains(e) implies entries.contains(e) by {
        let k = stored.index_of(e);
        let id = ids[k];
        assert(ids.contains(id));
        assert(e == StoredChainView { key: decimal(id as nat), record: chains[id] });
        law_saved_object_holds_every_chain(ids, chains, id, e.key);
        assert(v.get(e.key) is Some);
        let f = choose|f: StoredChainView| #[trigger] entries.contains(f) && f.key == e.key;
        law_saved_records_are_told_apart(e.record, f.record);
    }
    assert forall|e: StoredChainView| #[trigger] entries.contains(e) <==> stored.contains(e) by {
        if stored.contains(e) {
            assert(entries.contains(e));
        }
    }
    law_stored_records_load_back(ids, chains, entries);
}

/// The name of a source names it.
pub proof fn law_source_names_read_back(source: ConfigSource)
    ensures
        source_named(source_name(source)) == source,
{
    reveal_strlit("default");
    reveal_strlit("external");
    assert("default"@.len() != "external"@.len());
}

} // verus!
