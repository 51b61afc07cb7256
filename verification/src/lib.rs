//! A proxyable, fail-closed Ethereum JSON-RPC client.
//!
//! The client keeps a configuration per chain (endpoint and proxy policy), so that callers route
//! by chain id alone. A chain that requires a network proxy and has none is sent nothing. A chain
//! that requires verification is answered by a light-client proxy or not at all.
//!
//! This crate decides; a host acts. It sends the requests that a call asks for
//! ([`calls::PostRequest`]), writes the files that the store asks for ([`rpc::SaveRequest`]),
//! reaches the proxy as its router asks ([`router::RouterStep`]), and hands back what came of it.
//!
//! - [`module`]: the calls that a host makes, and their answers.
//! - [`rpc`]: the store of chain configurations. [`calls`]: JSON-RPC calls by chain id.
//! - [`proxy`]: the one place where HTTP clients are planned.
//! - [`verified`], [`router`]: the verified leg, and the decisions of its router.
//! - [`config`], [`error`], [`json`], [`text`]: what they speak of.
//! - [`store_laws`], [`call_laws`]: what holds of the whole.
//! - [`client_laws`], [`request_laws`], [`verified_laws`], [`answer_laws`]: what each operation is
//!   for, told by what it takes and gives. [`text_laws`], [`json_laws`]: the same of what they
//!   speak of.

pub mod answer_laws;
pub mod call_laws;
pub mod calls;
pub mod client_laws;
pub mod config;
pub mod error;
pub mod json;
pub mod json_laws;
pub mod module;
pub mod proxy;
pub mod request_laws;
pub mod router;
pub mod rpc;
pub mod store_laws;
pub mod text;
pub mod text_laws;
pub mod verified;
pub mod verified_laws;

pub use calls::{Call, PostRequest, Posted, Routed};
pub use config::{ChainConfig, ConfigSource, VerifiedProxyMode};
pub use error::RpcError;
pub use json::{parse_json, Json};
pub use module::{
    EthRpcModule, EthRpcModuleImpl, ModuleCall, PendingCall, ReplyKind, RustModuleContext,
};
pub use proxy::{ClientPlan, ProxyConfig};
pub use router::{RouterStep, VerifiedProxyRouter};
pub use rpc::{ChainRecord, EthRpc, SaveRequest, StoredChain};
pub use verified::{
    normalize_verified_result, verified_class, verified_params, VerifiedClass, VerifiedRouter,
};
