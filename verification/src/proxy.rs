//! The fail-closed chokepoint through which every HTTP client is planned.

use vstd::prelude::*;

use crate::config::{clone_optional, optional_text};

verus! {

/// The proxy policy of a request.
#[derive(Debug)]
pub struct ProxyConfig {
    pub proxy: Option<String>,
    pub required: bool,
    pub timeout_secs: u64,
}

/// The HTTP client to build for a request. It must use `proxy` where there is one: a client
/// that cannot be built with it is an error, not a reason to connect directly.
#[derive(Debug)]
pub struct ClientPlan {
    pub proxy: Option<String>,
    pub timeout_secs: u64,
}

/// The model of a [`ClientPlan`].
#[verifier::ext_equal]
pub struct ClientPlanView {
    pub proxy: Option<Seq<char>>,
    pub timeout_secs: u64,
}

impl View for ClientPlan {
    type V = ClientPlanView;

    open spec fn view(&self) -> ClientPlanView {
        ClientPlanView { proxy: optional_text(self.proxy), timeout_secs: self.timeout_secs }
    }
}

/// Why no client may be built.
pub open spec fn proxy_missing() -> Seq<char> {
    "a proxy is required but none is configured"@
}

/// The client for a proxy policy: none where a proxy is required and there is none.
pub open spec fn planned_client(
    proxy: Option<Seq<char>>,
    required: bool,
    timeout_secs: u64,
) -> Result<ClientPlanView, Seq<char>> {
    if required && proxy is None {
        Err(proxy_missing())
    } else {
        Ok(ClientPlanView { proxy, timeout_secs })
    }
}

impl ProxyConfig {
    /// A proxy policy.
    pub fn new(proxy: Option<String>, required: bool, timeout_secs: u64) -> (r: ProxyConfig)
        ensures
            r.proxy == proxy,
            r.required == required,
            r.timeout_secs == timeout_secs,
    {
        ProxyConfig { proxy, required, timeout_secs }
    }

    /// Plans the client for this policy, or refuses.
    pub fn plan_client(&self) -> (r: Result<ClientPlan, String>)
        ensures
            (match r {
                Ok(plan) => planned_client(
                    optional_text(self.proxy),
                    self.required,
                    self.timeout_secs,
                ) == Ok::<ClientPlanView, Seq<char>>(plan@),
                Err(e) => planned_client(
                    optional_text(self.proxy),
                    self.required,
                    self.timeout_secs,
                ) == Err::<ClientPlanView, Seq<char>>(e@),
            }),
    {
        if self.required && self.proxy.is_none() {
            return Err("a proxy is required but none is configured".to_owned());
        }
        Ok(ClientPlan { proxy: clone_optional(&self.proxy), timeout_secs: self.timeout_secs })
    }
}

} // verus!
