//! The store of chain configurations.
//!
//! [`EthRpc`] is modelled by [`EthRpcView`]: a map from chain ids to records, the place where
//! it is kept, and whether it holds a change that has not been saved. Every operation is a
//! function on that model.

use std::collections::HashMap;
use std::sync::Arc;

use vstd::prelude::*;

use crate::config::{
    contradiction, optional_text, source_name, ChainConfig, ChainConfigView, ConfigSource,
    VerifiedProxyMode,
};
use crate::error::{unknown_chain, unknown_chain_text};
use crate::json::{
    depth_limit, entries_map, json_read, json_text_pretty, lemma_object_plain, members_view, plain,
    push_member, Json, JsonView,
};
use crate::text::{decimal, decimal_text, parse_u64, parsed_u64, trim, trimmed};
use crate::verified::VerifiedRouter;

verus! {

/// What is stored for a chain.
#[derive(Debug)]
pub struct ChainRecord {
    pub config: ChainConfig,
    pub source: ConfigSource,
}

/// The model of a [`ChainRecord`].
#[verifier::ext_equal]
pub struct ChainRecordView {
    pub config: ChainConfigView,
    pub source: ConfigSource,
}

impl View for ChainRecord {
    type V = ChainRecordView;

    open spec fn view(&self) -> ChainRecordView {
        ChainRecordView { config: self.config@, source: self.source }
    }
}

/// A chain's record as it is kept outside: under a text.
#[derive(Debug)]
pub struct StoredChain {
    pub key: String,
    pub record: ChainRecord,
}

/// The model of a [`StoredChain`].
#[verifier::ext_equal]
pub struct StoredChainView {
    pub key: Seq<char>,
    pub record: ChainRecordView,
}

impl View for StoredChain {
    type V = StoredChainView;

    open spec fn view(&self) -> StoredChainView {
        StoredChainView { key: self.key@, record: self.record@ }
    }
}

/// A file to write.
#[derive(Debug)]
pub struct SaveRequest {
    pub path: String,
    pub text: String,
}

/// The RPC client: a persisted map from chain ids to configurations.
pub struct EthRpc<R: VerifiedRouter> {
    chains: HashMap<u64, ChainRecord>,
    store_path: Option<String>,
    unsaved: bool,
    verified: Option<Arc<R>>,
}

/// The model of an [`EthRpc`], without its router.
#[verifier::ext_equal]
pub struct EthRpcView {
    pub chains: Map<u64, ChainRecordView>,
    pub store_path: Option<Seq<char>>,
    /// Whether a change waits to be saved.
    pub unsaved: bool,
}

/// Whether an endpoint says nothing.
pub open spec fn blank(endpoint: Seq<char>) -> bool {
    trimmed(endpoint).len() == 0
}

/// The endpoints that ship with the module.
pub open spec fn default_endpoints() -> Seq<(u64, Seq<char>)> {
    seq![
        (1u64, "https://ethereum-rpc.publicnode.com"@),
        (11155111u64, "https://ethereum-sepolia-rpc.publicnode.com"@),
        (560048u64, "https://ethereum-hoodi-rpc.publicnode.com"@),
    ]
}

impl EthRpcView {
    /// The configuration of a chain.
    pub open spec fn config(self, chain_id: u64) -> Option<ChainConfigView> {
        if self.chains.contains_key(chain_id) {
            Some(self.chains[chain_id].config)
        } else {
            None
        }
    }

    /// The store with a record written.
    pub open spec fn write(self, chain_id: u64, record: ChainRecordView) -> EthRpcView {
        EthRpcView { chains: self.chains.insert(chain_id, record), unsaved: true, ..self }
    }

    /// The store with a configuration set by a caller, where it is valid.
    pub open spec fn set_config(self, chain_id: u64, config: ChainConfigView) -> EthRpcView {
        if config.valid() {
            self.write(chain_id, ChainRecordView { config, source: ConfigSource::External })
        } else {
            self
        }
    }

    /// Whether seeding a chain fills in its endpoint alone.
    pub open spec fn lacks_endpoint(self, chain_id: u64, config: ChainConfigView) -> bool {
        &&& self.chains.contains_key(chain_id)
        &&& blank(self.chains[chain_id].config.endpoint)
        &&& !blank(config.endpoint)
    }

    /// The store with a chain seeded where it, or its endpoint, is absent.
    pub open spec fn seed(
        self,
        chain_id: u64,
        config: ChainConfigView,
        source: ConfigSource,
    ) -> EthRpcView {
        if !self.chains.contains_key(chain_id) {
            self.write(chain_id, ChainRecordView { config, source })
        } else if self.lacks_endpoint(chain_id, config) {
            let old = self.chains[chain_id];
            self.write(
                chain_id,
                ChainRecordView {
                    config: ChainConfigView { endpoint: config.endpoint, ..old.config },
                    source: match source {
                        ConfigSource::Default => old.source,
                        ConfigSource::External => ConfigSource::External,
                    },
                },
            )
        } else {
            self
        }
    }

    /// The names of the fields that seeding writes; `*` stands for all.
    pub open spec fn seeded_fields(self, chain_id: u64, config: ChainConfigView) -> Seq<
        Seq<char>,
    > {
        if !self.chains.contains_key(chain_id) {
            seq!["*"@]
        } else if self.lacks_endpoint(chain_id, config) {
            seq!["endpoint"@]
        } else {
            Seq::empty()
        }
    }

    /// The store with a chain's timeouts overwritten, where the chain is known.
    pub open spec fn patch_transport(
        self,
        chain_id: u64,
        timeout_secs: Option<u64>,
        verified_timeout_secs: Option<u64>,
    ) -> EthRpcView {
        if self.chains.contains_key(chain_id) {
            let old = self.chains[chain_id].config;
            self.write(
                chain_id,
                ChainRecordView {
                    config: ChainConfigView {
                        timeout_secs: match timeout_secs {
                            Some(t) => t,
                            None => old.timeout_secs,
                        },
                        verified_timeout_secs: match verified_timeout_secs {
                            Some(t) => t,
                            None => old.verified_timeout_secs,
                        },
                        ..old
                    },
                    source: ConfigSource::External,
                },
            )
        } else {
            self
        }
    }

    /// A chain's configuration in another mode.
    pub open spec fn in_mode(self, chain_id: u64, mode: VerifiedProxyMode) -> ChainConfigView {
        ChainConfigView { verified_proxy_mode: mode, ..self.chains[chain_id].config }
    }

    /// The store with a chain's mode set, where the chain is known and can be in that mode.
    pub open spec fn set_mode(self, chain_id: u64, mode: VerifiedProxyMode) -> EthRpcView {
        if self.chains.contains_key(chain_id) {
            self.set_config(chain_id, self.in_mode(chain_id, mode))
        } else {
            self
        }
    }

    /// The store without a chain.
    pub open spec fn remove(self, chain_id: u64) -> EthRpcView {
        EthRpcView { chains: self.chains.remove(chain_id), unsaved: true, ..self }
    }

    /// The store with the first `n` of the endpoints that ship with the module seeded.
    pub open spec fn with_defaults(self, n: nat) -> EthRpcView
        decreases n,
    {
        if n == 0 {
            self
        } else {
            let (chain_id, endpoint) = default_endpoints()[n - 1];
            self.with_defaults((n - 1) as nat).seed(
                chain_id,
                ChainConfigView::with_endpoint(endpoint),
                ConfigSource::Default,
            )
        }
    }

    /// The store with all endpoints seeded that ship with the module.
    pub open spec fn init_defaults(self) -> EthRpcView {
        self.with_defaults(3)
    }

    /// Whether one of the endpoints that ship with the module is absent.
    pub open spec fn lacks_default(self, n: int) -> bool {
        let (chain_id, endpoint) = default_endpoints()[n];
        self.seeded_fields(chain_id, ChainConfigView::with_endpoint(endpoint)).len() > 0
    }

    /// Whether any of the endpoints that ship with the module is absent.
    pub open spec fn lacks_defaults(self) -> bool {
        exists|n: int| 0 <= n < 3 && #[trigger] self.lacks_default(n)
    }

    /// Whether `save` writes what the store holds to where it is kept, if a change waits to be
    /// saved, and nothing otherwise. What is written reads back.
    pub open spec fn saves(self, save: Option<SaveRequest>) -> bool {
        if self.unsaved && self.store_path is Some {
            exists|ids: Seq<u64>|
                {
                    let v = store_json(stored_view(ids, self.chains));
                    &&& #[trigger] lists(ids, self.chains)
                    &&& save matches Some(save)
                    &&& self.store_path == Some(save.path@)
                    &&& save.text@ == json_text_pretty(v)
                    &&& json_read(save.text@) == Ok::<JsonView, Seq<char>>(v)
                }
        } else {
            save is None
        }
    }

    /// Whether every stored configuration can be honoured.
    pub open spec fn all_valid(self) -> bool {
        forall|id: u64| #[trigger]
            self.chains.contains_key(id) ==> self.chains[id].config.valid()
    }
}

/// The chains that a list of stored records describes: each under the number that its key
/// denotes, the last one where several have the same; a key that is no number is passed over.
pub open spec fn loaded(entries: Seq<StoredChainView>) -> Map<u64, ChainRecordView>
    decreases entries.len(),
{
    if entries.len() == 0 {
        Map::empty()
    } else {
        let earlier = loaded(entries.drop_last());
        match parsed_u64(entries.last().key, 10) {
            Some(id) => earlier.insert(id, entries.last().record),
            None => earlier,
        }
    }
}

/// Whether `ids` are the chains of a store, in ascending order.
pub open spec fn lists(ids: Seq<u64>, chains: Map<u64, ChainRecordView>) -> bool {
    &&& forall|i: int, j: int| 0 <= i < j < ids.len() ==> ids[i] < ids[j]
    &&& forall|id: u64| chains.contains_key(id) <==> #[trigger] ids.contains(id)
}

/// The records of the given chains, each under its id in decimal.
pub open spec fn stored_view(ids: Seq<u64>, chains: Map<u64, ChainRecordView>) -> Seq<
    StoredChainView,
> {
    Seq::new(
        ids.len(),
        |i: int| StoredChainView { key: decimal(ids[i] as nat), record: chains[ids[i]] },
    )
}

/// A stored record as a JSON object.
pub open spec fn record_json(record: ChainRecordView) -> JsonView {
    JsonView::Object(
        entries_map(
            record.config.json_members().push(
                ("source"@, JsonView::Str(source_name(record.source))),
            ),
        ),
    )
}

/// The stored records as a JSON object.
pub open spec fn store_json(entries: Seq<StoredChainView>) -> JsonView {
    JsonView::Object(
        entries_map(
            entries.map_values(|e: StoredChainView| (e.key, record_json(e.record))),
        ),
    )
}

/// The models of a list of stored records.
pub open spec fn stored_chains_view(entries: Seq<StoredChain>) -> Seq<StoredChainView> {
    entries.map_values(|e: StoredChain| e@)
}

/// The models of a list of texts.
pub open spec fn texts_view(texts: Seq<String>) -> Seq<Seq<char>> {
    texts.map_values(|s: String| s@)
}

/// Puts a number into an ascending list that lacks it.
fn insert_sorted(ids: &mut Vec<u64>, id: u64)
    requires
        forall|i: int, j: int| 0 <= i < j < old(ids)@.len() ==> old(ids)@[i] < old(ids)@[j],
        !old(ids)@.contains(id),
    ensures
        forall|i: int, j: int| 0 <= i < j < final(ids)@.len() ==> final(ids)@[i] < final(ids)@[j],
        forall|k: u64| #[trigger]
            final(ids)@.contains(k) <==> old(ids)@.contains(k) || k == id,
{
    let mut at: usize = 0;
    while at < ids.len() && ids[at] < id
        invariant
            at <= ids@.len(),
            ids@ == old(ids)@,
            forall|i: int| 0 <= i < at ==> ids@[i] < id,
        decreases ids@.len() - at,
    {
        at += 1;
    }
    ids.insert(at, id);
    proof {
        let before = old(ids)@;
        assert(ids@[at as int] == id);
        assert forall|k: u64| before.contains(k) implies ids@.contains(k) by {
            let j = before.index_of(k);
            assert(ids@[if j < at { j } else { j + 1 }] == k);
        }
        assert forall|k: u64| #[trigger] ids@.contains(k) implies before.contains(k) || k == id by {
            let j = ids@.index_of(k);
            if j < at {
                assert(before[j] == k);
            } else if j > at {
                assert(before[j - 1] == k);
            }
        }
    }
}

impl<R: VerifiedRouter> View for EthRpc<R> {
    type V = EthRpcView;

    closed spec fn view(&self) -> EthRpcView {
        EthRpcView {
            chains: self.chains@.map_values(|r: ChainRecord| r@),
            store_path: optional_text(self.store_path),
            unsaved: self.unsaved,
        }
    }
}

impl<R: VerifiedRouter> Default for EthRpc<R> {
    fn default() -> (r: Self)
        ensures
            r@ == (EthRpcView { chains: Map::empty(), store_path: None, unsaved: false }),
            r.router() is None,
    {
        Self::new()
    }
}

impl<R: VerifiedRouter> EthRpc<R> {
    /// The router of the verified leg.
    pub closed spec fn router(&self) -> Option<Arc<R>> {
        self.verified
    }

    /// A store that holds nothing and is kept nowhere.
    pub fn new() -> (r: Self)
        ensures
            r@ == (EthRpcView { chains: Map::empty(), store_path: None, unsaved: false }),
            r.router() is None,
    {
        let r = EthRpc { chains: HashMap::new(), store_path: None, unsaved: false, verified: None };
        assert(r@.chains =~= Map::empty());
        r
    }

    /// The store that is kept at `path`, with the records that were found there.
    pub fn with_store(path: String, saved: Vec<StoredChain>) -> (r: Self)
        ensures
            r@ == (EthRpcView {
                chains: loaded(stored_chains_view(saved@)),
                store_path: Some(path@),
                unsaved: false,
            }),
            r.router() is None,
    {
        let mut s = Self::new();
        s.store_path = Some(path);
        s.load(saved);
        s
    }

    /// Replaces what the store holds by the given records.
    fn load(&mut self, saved: Vec<StoredChain>)
        ensures
            final(self)@ == (EthRpcView { chains: loaded(stored_chains_view(saved@)), ..old(self)@ }),
            final(self).router() == old(self).router(),
    {
        let ghost entries = stored_chains_view(saved@);
        let mut chains: HashMap<u64, ChainRecord> = HashMap::new();
        assert(chains@.map_values(|r: ChainRecord| r@) =~= loaded(entries.take(0)));
        for entry in it: saved
            invariant
                it.seq() == saved@,
                entries == stored_chains_view(saved@),
                chains@.map_values(|r: ChainRecord| r@) =~= loaded(entries.take(it.index())),
        {
            let ghost shorter = entries.take(it.index());
            assert(entries.take(it.index() + 1).drop_last() =~= shorter);
            if let Some(id) = parse_u64(&entry.key, 10) {
                chains.insert(id, entry.record);
            }
        }
        assert(entries.take(saved@.len() as int) =~= entries);
        self.chains = chains;
    }

    /// Supplies the verified leg.
    pub fn set_verified_router(&mut self, r: Arc<R>)
        ensures
            final(self)@ == old(self)@,
            final(self).router() == Some(r),
    {
        self.verified = Some(r);
    }

    /// The router of the verified leg, where one was supplied.
    pub(crate) fn verified_router(&self) -> (r: Option<&Arc<R>>)
        ensures
            (match r {
                Some(a) => self.router() == Some(*a),
                None => self.router() is None,
            }),
    {
        self.verified.as_ref()
    }

    /// Writes a record.
    fn write(&mut self, chain_id: u64, record: ChainRecord)
        ensures
            final(self)@ == old(self)@.write(chain_id, record@),
            final(self).router() == old(self).router(),
    {
        self.chains.insert(chain_id, record);
        self.unsaved = true;
        assert(self@.chains =~= old(self)@.chains.insert(chain_id, record@));
    }

    /// Stores the configuration of a chain, unless it contradicts itself.
    pub fn set_chain_config(&mut self, chain_id: u64, cfg: ChainConfig) -> (r: Result<(), String>)
        ensures
            final(self)@ == old(self)@.set_config(chain_id, cfg@),
            final(self).router() == old(self).router(),
            (match r {
                Ok(_) => cfg@.valid(),
                Err(e) => !cfg@.valid() && e@ == contradiction(),
            }),
    {
        match cfg.validate() {
            Ok(_) => {},
            Err(e) => {
                return Err(e);
            },
        }
        self.write(chain_id, ChainRecord { config: cfg, source: ConfigSource::External });
        Ok(())
    }

    /// Seeds a chain only where it is absent, per field, and says which fields were written.
    ///
    /// The store is shared with other wallets on the device: a blanket overwrite would retune
    /// theirs, a blanket skip would leave a stale value of ours.
    pub fn ensure_chain_config(&mut self, chain_id: u64, cfg: &ChainConfig) -> (r: Vec<String>)
        ensures
            final(self)@ == old(self)@.seed(chain_id, cfg@, ConfigSource::External),
            final(self).router() == old(self).router(),
            texts_view(r@) == old(self)@.seeded_fields(chain_id, cfg@),
    {
        self.seed(chain_id, cfg, ConfigSource::External)
    }

    /// Seeds a chain on behalf of `source`.
    fn seed(&mut self, chain_id: u64, cfg: &ChainConfig, source: ConfigSource) -> (r: Vec<String>)
        ensures
            final(self)@ == old(self)@.seed(chain_id, cfg@, source),
            final(self).router() == old(self).router(),
            texts_view(r@) == old(self)@.seeded_fields(chain_id, cfg@),
    {
        let mut seeded: Vec<String> = Vec::new();
        match self.chains.get(&chain_id) {
            None => {
                self.write(chain_id, ChainRecord { config: cfg.clone(), source });
                seeded.push("*".to_owned());
            },
            Some(existing) => {
                if trim(&existing.config.endpoint).is_empty() && !trim(&cfg.endpoint).is_empty() {
                    let mut config: ChainConfig = existing.config.clone();
                    let kept: ConfigSource = existing.source;
                    config.endpoint = cfg.endpoint.clone();
                    let source: ConfigSource = match source {
                        ConfigSource::Default => kept,
                        ConfigSource::External => ConfigSource::External,
                    };
                    self.write(chain_id, ChainRecord { config, source });
                    seeded.push("endpoint".to_owned());
                }
            },
        }
        assert(texts_view(seeded@) =~= old(self)@.seeded_fields(chain_id, cfg@));
        seeded
    }

    /// Overwrites only the transport timeouts that this module owns. Lowering a default is
    /// useless without this: a stored configuration already carries the old value.
    pub fn patch_chain_transport(
        &mut self,
        chain_id: u64,
        timeout_secs: Option<u64>,
        verified_timeout_secs: Option<u64>,
    ) -> (r: bool)
        ensures
            final(self)@ == old(self)@.patch_transport(
                chain_id,
                timeout_secs,
                verified_timeout_secs,
            ),
            final(self).router() == old(self).router(),
            r == old(self)@.chains.contains_key(chain_id),
    {
        let mut config: ChainConfig = match self.chains.get(&chain_id) {
            Some(record) => record.config.clone(),
            None => {
                return false;
            },
        };
        if let Some(t) = timeout_secs {
            config.timeout_secs = t;
        }
        if let Some(t) = verified_timeout_secs {
            config.verified_timeout_secs = t;
        }
        self.write(chain_id, ChainRecord { config, source: ConfigSource::External });
        true
    }

    /// Sets how a chain is routed. A mode that contradicts the chain's proxy policy is refused,
    /// and the chain stays as it is.
    pub fn set_verified_proxy_mode(&mut self, chain_id: u64, mode: VerifiedProxyMode) -> (r: Result<
        (),
        String,
    >)
        ensures
            final(self)@ == old(self)@.set_mode(chain_id, mode),
            final(self).router() == old(self).router(),
            (match r {
                Ok(_) => old(self)@.chains.contains_key(chain_id) && old(self)@.in_mode(
                    chain_id,
                    mode,
                ).valid(),
                Err(e) => if old(self)@.chains.contains_key(chain_id) {
                    !old(self)@.in_mode(chain_id, mode).valid() && e@ == contradiction()
                } else {
                    e@ == unknown_chain(chain_id)
                },
            }),
    {
        let mut config: ChainConfig = match self.chains.get(&chain_id) {
            Some(record) => record.config.clone(),
            None => {
                return Err(unknown_chain_text(chain_id));
            },
        };
        config.verified_proxy_mode = mode;
        self.set_chain_config(chain_id, config)
    }

    /// The seconds that a verified request of a chain may take.
    pub fn verified_timeout(&self, chain_id: u64) -> (r: Option<u64>)
        ensures
            r == (match self@.config(chain_id) {
                Some(c) => Some(c.verified_timeout_secs),
                None => None,
            }),
    {
        match self.chains.get(&chain_id) {
            Some(record) => Some(record.config.verified_timeout_secs),
            None => None,
        }
    }

    /// The configuration of a chain.
    pub fn get_chain_config(&self, chain_id: u64) -> (r: Option<&ChainConfig>)
        ensures
            (match r {
                Some(c) => self@.config(chain_id) == Some(c@),
                None => self@.config(chain_id) is None,
            }),
    {
        match self.chains.get(&chain_id) {
            Some(record) => Some(&record.config),
            None => None,
        }
    }

    /// Who wrote the configuration of a chain.
    pub fn config_source(&self, chain_id: u64) -> (r: Option<ConfigSource>)
        ensures
            r == (if self@.chains.contains_key(chain_id) {
                Some(self@.chains[chain_id].source)
            } else {
                None
            }),
    {
        match self.chains.get(&chain_id) {
            Some(record) => Some(record.source),
            None => None,
        }
    }

    /// Forgets a chain, and says whether it was known.
    pub fn remove_chain_config(&mut self, chain_id: u64) -> (r: bool)
        ensures
            final(self)@ == old(self)@.remove(chain_id),
            final(self).router() == old(self).router(),
            r == old(self)@.chains.contains_key(chain_id),
    {
        let removed: bool = self.chains.remove(&chain_id).is_some();
        self.unsaved = true;
        assert(self@.chains =~= old(self)@.chains.remove(chain_id));
        removed
    }

    /// The known chains, in ascending order.
    pub fn list_chains(&self) -> (r: Vec<u64>)
        ensures
            lists(r@, self@.chains),
    {
        let mut ids: Vec<u64> = Vec::new();
        for key in it: self.chains.keys()
            invariant
                it.seq().unref().to_set() == self.chains@.dom(),
                it.seq().no_duplicates(),
                forall|i: int, j: int| 0 <= i < j < ids@.len() ==> ids@[i] < ids@[j],
                forall|i: int| 0 <= i < it.index() ==> ids@.contains(*#[trigger] it.seq()[i]),
                forall|id: u64| #[trigger]
                    ids@.contains(id) ==> self.chains@.contains_key(id) && exists|i: int|
                        0 <= i < it.index() && *#[trigger] it.seq()[i] == id,
        {
            let ghost at = it.index();
            let ghost before = ids@;
            assert(it.seq().unref()[at] == *key);
            assert(it.seq().unref().to_set().contains(*key));
            insert_sorted(&mut ids, *key);
            assert forall|id: u64| #[trigger] ids@.contains(id) implies self.chains@.contains_key(id)
                && exists|i: int| 0 <= i < at + 1 && *#[trigger] it.seq()[i] == id by {
                if !before.contains(id) {
                    assert(*it.seq()[at] == id);
                }
            }
        }
        assert forall|id: u64| self@.chains.contains_key(id) implies #[trigger] ids@.contains(
            id,
        ) by {
            assert(self.chains@.dom().contains(id));
        }
        ids
    }

    /// Seeds the endpoints that ship with the module, per chain and per field, only where they
    /// are absent. Says whether anything was written.
    pub fn init_defaults(&mut self) -> (r: bool)
        ensures
            final(self)@ == old(self)@.init_defaults(),
            final(self).router() == old(self).router(),
            r == old(self)@.lacks_defaults(),
    {
        let first: bool = self.seed_default(0, 1, "https://ethereum-rpc.publicnode.com");
        let second: bool = self.seed_default(
            1,
            11155111,
            "https://ethereum-sepolia-rpc.publicnode.com",
        );
        let third: bool = self.seed_default(2, 560048, "https://ethereum-hoodi-rpc.publicnode.com");
        proof {
            reveal_with_fuel(EthRpcView::with_defaults, 4);
        }
        assert(old(self)@.lacks_default(0) == first);
        assert(old(self)@.lacks_default(1) == second);
        assert(old(self)@.lacks_default(2) == third);
        first || second || third
    }

    /// Seeds one of the endpoints that ship with the module, and says whether it was absent.
    fn seed_default(&mut self, n: usize, chain_id: u64, endpoint: &str) -> (r: bool)
        requires
            n < 3,
            default_endpoints()[n as int] == (chain_id, endpoint@),
        ensures
            final(self)@ == old(self)@.seed(
                chain_id,
                ChainConfigView::with_endpoint(endpoint@),
                ConfigSource::Default,
            ),
            final(self).router() == old(self).router(),
            r == old(self)@.lacks_default(n as int),
    {
        let seeded: Vec<String> = self.seed(
            chain_id,
            &ChainConfig::with_endpoint(endpoint),
            ConfigSource::Default,
        );
        assert(texts_view(seeded@).len() == seeded@.len());
        seeded.len() > 0
    }

    /// The records of all chains, each under its id in decimal, by ascending id.
    pub fn stored(&self) -> (r: Vec<StoredChain>)
        ensures
            exists|ids: Seq<u64>| #[trigger]
                lists(ids, self@.chains) && stored_chains_view(r@) == stored_view(
                    ids,
                    self@.chains,
                ),
    {
        let ids: Vec<u64> = self.list_chains();
        let mut out: Vec<StoredChain> = Vec::new();
        let mut i: usize = 0;
        while i < ids.len()
            invariant
                i <= ids@.len(),
                lists(ids@, self@.chains),
                stored_chains_view(out@) =~= stored_view(ids@, self@.chains).take(i as int),
            decreases ids@.len() - i,
        {
            let id: u64 = ids[i];
            assert(ids@.contains(id));
            assert(self@.chains.contains_key(id));
            let ghost before = out@;
            if let Some(record) = self.chains.get(&id) {
                let record: ChainRecord = ChainRecord {
                    config: record.config.clone(),
                    source: record.source,
                };
                let entry: StoredChain = StoredChain { key: decimal_text(id), record };
                out.push(entry);
                assert(stored_chains_view(out@) =~= stored_chains_view(before).push(entry@));
                assert(entry@ == stored_view(ids@, self@.chains)[i as int]);
            }
            i += 1;
        }
        assert(stored_chains_view(out@) =~= stored_view(ids@, self@.chains));
        out
    }

    /// What to write where, if a change waits to be saved. The change then counts as saved.
    pub fn take_save(&mut self) -> (r: Option<SaveRequest>)
        ensures
            final(self)@ == (EthRpcView { unsaved: false, ..old(self)@ }),
            final(self).router() == old(self).router(),
            old(self)@.saves(r),
    {
        let due: bool = self.unsaved;
        self.unsaved = false;
        if !due {
            return None;
        }
        let path: String = match &self.store_path {
            Some(p) => p.clone(),
            None => {
                return None;
            },
        };
        let entries: Vec<StoredChain> = self.stored();
        proof {
            lemma_store_plain(stored_chains_view(entries@));
        }
        let text: String = stored_json(&entries).to_text_pretty();
        Some(SaveRequest { path, text })
    }
}

/// The JSON object of stored records can be read back.
proof fn lemma_store_plain(entries: Seq<StoredChainView>)
    ensures
        plain(store_json(entries), depth_limit()),
{
    let members = entries.map_values(|e: StoredChainView| (e.key, record_json(e.record)));
    assert forall|i: int| 0 <= i < members.len() implies plain(
        (#[trigger] members[i]).1,
        (depth_limit() - 1) as nat,
    ) by {
        let record = entries[i].record;
        let fields = record.config.json_members().push(
            ("source"@, JsonView::Str(source_name(record.source))),
        );
        lemma_object_plain(fields, (depth_limit() - 2) as nat);
    }
    lemma_object_plain(members, (depth_limit() - 1) as nat);
}

/// Stored records as a JSON object.
fn stored_json(entries: &Vec<StoredChain>) -> (r: Json)
    ensures
        r@ == store_json(stored_chains_view(entries@)),
{
    let ghost models = stored_chains_view(entries@).map_values(
        |e: StoredChainView| (e.key, record_json(e.record)),
    );
    let mut members: Vec<(String, Json)> = Vec::new();
    let mut i: usize = 0;
    while i < entries.len()
        invariant
            i <= entries@.len(),
            models == stored_chains_view(entries@).map_values(
                |e: StoredChainView| (e.key, record_json(e.record)),
            ),
            members_view(members@) =~= models.take(i as int),
        decreases entries@.len() - i,
    {
        let record: &ChainRecord = &entries[i].record;
        let mut fields: Vec<(String, Json)> = record.config.json_members();
        push_member(&mut fields, "source", Json::string(record.source.name()));
        let value: Json = Json::Object(fields);
        assert(value@ == record_json(record@));
        push_member(&mut members, &entries[i].key, value);
        i += 1;
    }
    assert(members_view(members@) =~= models);
    Json::Object(members)
}

} // verus!
