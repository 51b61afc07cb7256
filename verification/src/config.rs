//! The configuration of a chain.

use vstd::prelude::*;

use crate::json::{entries_map, members_view, Json, JsonView};
use crate::text::same_text;

verus! {

/// How JSON-RPC for a chain should be routed.
#[derive(Clone, Copy, Debug, PartialEq, Eq, Structural)]
pub enum VerifiedProxyMode {
    /// Talk to the configured endpoint directly.
    Off,
    /// Route through the light-client proxy and refuse rather than fall back. There is no
    /// `preferred` mode on purpose: quietly answering from an unverified source when the user
    /// asked for verification is the failure this mode exists to prevent.
    Required,
}

impl Default for VerifiedProxyMode {
    fn default() -> (r: VerifiedProxyMode)
        ensures
            r == VerifiedProxyMode::Off,
    {
        VerifiedProxyMode::Off
    }
}

/// Who wrote the configuration of a chain.
#[derive(Clone, Copy, Debug, PartialEq, Eq, Structural)]
pub enum ConfigSource {
    /// The defaults that ship with the module.
    Default,
    /// Some caller.
    External,
}

/// The configuration of a chain. `endpoint` is the JSON-RPC URL; `proxy` and
/// `proxy_required` drive the fail-closed construction of the HTTP client.
#[derive(Debug)]
pub struct ChainConfig {
    pub endpoint: String,
    pub proxy: Option<String>,
    pub proxy_required: bool,
    pub timeout_secs: u64,
    /// Whether to route through the light-client verified proxy. Distinct from `proxy` above,
    /// which is a network proxy (SOCKS5h/Tor) answering a different question: that one hides
    /// who is asking, this one proves the answer.
    pub verified_proxy_mode: VerifiedProxyMode,
    pub verified_timeout_secs: u64,
}

/// The model of a [`ChainConfig`].
#[verifier::ext_equal]
pub struct ChainConfigView {
    pub endpoint: Seq<char>,
    pub proxy: Option<Seq<char>>,
    pub proxy_required: bool,
    pub timeout_secs: u64,
    pub verified_proxy_mode: VerifiedProxyMode,
    pub verified_timeout_secs: u64,
}

/// The model of an optional text.
pub open spec fn optional_text(s: Option<String>) -> Option<Seq<char>> {
    match s {
        Some(t) => Some(t@),
        None => None,
    }
}

impl View for ChainConfig {
    type V = ChainConfigView;

    open spec fn view(&self) -> ChainConfigView {
        ChainConfigView {
            endpoint: self.endpoint@,
            proxy: optional_text(self.proxy),
            proxy_required: self.proxy_required,
            timeout_secs: self.timeout_secs,
            verified_proxy_mode: self.verified_proxy_mode,
            verified_timeout_secs: self.verified_timeout_secs,
        }
    }
}

impl Clone for ChainConfig {
    fn clone(&self) -> (r: ChainConfig)
        ensures
            r@ == self@,
    {
        ChainConfig {
            endpoint: self.endpoint.clone(),
            proxy: clone_optional(&self.proxy),
            proxy_required: self.proxy_required,
            timeout_secs: self.timeout_secs,
            verified_proxy_mode: self.verified_proxy_mode,
            verified_timeout_secs: self.verified_timeout_secs,
        }
    }
}

/// A copy of an optional text.
pub(crate) fn clone_optional(s: &Option<String>) -> (r: Option<String>)
    ensures
        optional_text(r) == optional_text(*s),
{
    match s {
        Some(t) => Some(t.clone()),
        None => None,
    }
}

/// The seconds that a request may take where the configuration does not say.
///
/// Well under the 20 s deadline of the protocol that carries a call here, so that a dead
/// endpoint is reported as such and not as a failure of the transport.
pub fn default_timeout() -> (r: u64)
    ensures
        r == 8,
{
    8
}

/// The seconds that a verified request may take where the configuration does not say.
///
/// The verified path is a second hop and a light client may be walking headers, so it gets
/// more room, still under the deadline.
pub fn default_verified_timeout() -> (r: u64)
    ensures
        r == 15,
{
    15
}

/// Why a configuration that asks for both proxies is refused.
pub open spec fn contradiction() -> Seq<char> {
    "proxyRequired and verifiedProxyMode=required cannot both be set: the verified proxy makes its own connections and cannot honour a SOCKS proxy configured here"@
}

impl ChainConfigView {
    /// Whether the configuration can be honoured. The verified proxy makes its own
    /// connections, so a chain cannot require both it and a network proxy.
    pub open spec fn valid(self) -> bool {
        !(self.proxy_required && self.verified_proxy_mode == VerifiedProxyMode::Required)
    }

    /// The configuration as a JSON object.
    pub open spec fn json_members(self) -> Seq<(Seq<char>, JsonView)> {
        seq![
            ("endpoint"@, JsonView::Str(self.endpoint)),
            (
                "proxy"@,
                match self.proxy {
                    Some(p) => JsonView::Str(p),
                    None => JsonView::Null,
                },
            ),
            ("proxyRequired"@, JsonView::Bool(self.proxy_required)),
            ("timeoutSecs"@, JsonView::Integer(self.timeout_secs as int)),
            ("verifiedProxyMode"@, JsonView::Str(mode_name(self.verified_proxy_mode))),
            ("verifiedTimeoutSecs"@, JsonView::Integer(self.verified_timeout_secs as int)),
        ]
    }

    /// The configuration with which a chain is seeded that has only an endpoint.
    pub open spec fn with_endpoint(endpoint: Seq<char>) -> ChainConfigView {
        ChainConfigView {
            endpoint,
            proxy: None,
            proxy_required: false,
            timeout_secs: 8,
            verified_proxy_mode: VerifiedProxyMode::Off,
            verified_timeout_secs: 15,
        }
    }
}

/// The name of a mode in JSON.
pub open spec fn mode_name(mode: VerifiedProxyMode) -> Seq<char> {
    match mode {
        VerifiedProxyMode::Off => "off"@,
        VerifiedProxyMode::Required => "required"@,
    }
}

/// The name of a source in JSON.
pub open spec fn source_name(source: ConfigSource) -> Seq<char> {
    match source {
        ConfigSource::Default => "default"@,
        ConfigSource::External => "external"@,
    }
}

/// The source that a text names. One that it does not name was a caller.
pub open spec fn source_named(name: Seq<char>) -> ConfigSource {
    if name == "default"@ {
        ConfigSource::Default
    } else {
        ConfigSource::External
    }
}

impl VerifiedProxyMode {
    /// The name of the mode in JSON.
    pub fn name(&self) -> (r: &'static str)
        ensures
            r@ == mode_name(*self),
    {
        match self {
            VerifiedProxyMode::Off => "off",
            VerifiedProxyMode::Required => "required",
        }
    }
}

impl ConfigSource {
    /// The name of the source in JSON.
    pub fn name(&self) -> (r: &'static str)
        ensures
            r@ == source_name(*self),
    {
        match self {
            ConfigSource::Default => "default",
            ConfigSource::External => "external",
        }
    }

    /// The source that a text names. One that it does not name was a caller.
    pub fn named(name: &str) -> (r: ConfigSource)
        ensures
            r == source_named(name@),
    {
        if same_text(name, "default") {
            ConfigSource::Default
        } else {
            ConfigSource::External
        }
    }
}

impl ChainConfig {
    /// A required network proxy together with verified routing is a contradiction that is
    /// refused rather than silently resolved: honouring both is impossible, and honouring
    /// either silently breaks the guarantee the other was asked for.
    pub fn validate(&self) -> (r: Result<(), String>)
        ensures
            (match r {
                Ok(_) => self@.valid(),
                Err(e) => !self@.valid() && e@ == contradiction(),
            }),
    {
        if self.proxy_required && self.verified_proxy_mode == VerifiedProxyMode::Required {
            return Err(
                "proxyRequired and verifiedProxyMode=required cannot both be set: the verified proxy makes its own connections and cannot honour a SOCKS proxy configured here".to_owned(),
            );
        }
        Ok(())
    }

    /// A configuration with the given endpoint and defaults for the rest.
    pub fn with_endpoint(endpoint: &str) -> (r: ChainConfig)
        ensures
            r@ == ChainConfigView::with_endpoint(endpoint@),
    {
        ChainConfig {
            endpoint: endpoint.to_owned(),
            proxy: None,
            proxy_required: false,
            timeout_secs: default_timeout(),
            verified_proxy_mode: VerifiedProxyMode::Off,
            verified_timeout_secs: default_verified_timeout(),
        }
    }

    /// The members of the configuration's JSON object.
    pub(crate) fn json_members(&self) -> (r: Vec<(String, Json)>)
        ensures
            members_view(r@) == self@.json_members(),
    {
        let proxy: Json = match &self.proxy {
            Some(p) => Json::Str(p.clone()),
            None => Json::Null,
        };
        let mut out: Vec<(String, Json)> = Vec::new();
        out.push(("endpoint".to_owned(), Json::Str(self.endpoint.clone())));
        out.push(("proxy".to_owned(), proxy));
        out.push(("proxyRequired".to_owned(), Json::Bool(self.proxy_required)));
        out.push(("timeoutSecs".to_owned(), Json::Uint(self.timeout_secs)));
        out.push(("verifiedProxyMode".to_owned(), Json::string(self.verified_proxy_mode.name())));
        out.push(("verifiedTimeoutSecs".to_owned(), Json::Uint(self.verified_timeout_secs)));
        assert(members_view(out@) =~= self@.json_members());
        out
    }

    /// The configuration as a JSON object.
    pub fn to_json(&self) -> (r: Json)
        ensures
            r@ == JsonView::Object(entries_map(self@.json_members())),
    {
        Json::Object(self.json_members())
    }
}

} // verus!
