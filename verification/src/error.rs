//! Why a call failed.

use vstd::prelude::*;

use crate::text::{decimal, decimal_text, joined, joined3, signed_decimal, signed_decimal_text};

verus! {

/// Why a call failed.
#[derive(Debug)]
pub enum RpcError {
    UnknownChain(u64),
    Proxy(String),
    Http(String),
    Rpc { code: i64, message: String },
    Parse(String),
    /// The verified path could not answer. Never downgraded to a direct call: a caller who
    /// asked for verification gets an error, not an unverified number.
    VerifiedProxy(String),
}

/// The model of an [`RpcError`].
#[verifier::ext_equal]
pub enum RpcErrorView {
    UnknownChain(u64),
    Proxy(Seq<char>),
    Http(Seq<char>),
    Rpc { code: i64, message: Seq<char> },
    Parse(Seq<char>),
    VerifiedProxy(Seq<char>),
}

impl View for RpcError {
    type V = RpcErrorView;

    open spec fn view(&self) -> RpcErrorView {
        match self {
            RpcError::UnknownChain(id) => RpcErrorView::UnknownChain(*id),
            RpcError::Proxy(e) => RpcErrorView::Proxy(e@),
            RpcError::Http(e) => RpcErrorView::Http(e@),
            RpcError::Rpc { code, message } => RpcErrorView::Rpc { code: *code, message: message@ },
            RpcError::Parse(e) => RpcErrorView::Parse(e@),
            RpcError::VerifiedProxy(e) => RpcErrorView::VerifiedProxy(e@),
        }
    }
}

/// Why a chain that has no configuration is refused.
pub open spec fn unknown_chain(chain_id: u64) -> Seq<char> {
    "no configuration for chain "@ + decimal(chain_id as nat)
}

impl RpcErrorView {
    /// The error's message.
    pub open spec fn message(self) -> Seq<char> {
        match self {
            RpcErrorView::UnknownChain(id) => unknown_chain(id),
            RpcErrorView::Proxy(e) => "proxy: "@ + e,
            RpcErrorView::Http(e) => "http: "@ + e,
            RpcErrorView::Rpc { code, message } => "rpc error "@ + signed_decimal(code as int)
                + ": "@ + message,
            RpcErrorView::Parse(e) => "parse: "@ + e,
            RpcErrorView::VerifiedProxy(e) => "verified proxy: "@ + e,
        }
    }
}

/// The error for a chain that has no configuration.
pub fn unknown_chain_text(chain_id: u64) -> (r: String)
    ensures
        r@ == unknown_chain(chain_id),
{
    joined("no configuration for chain ", &decimal_text(chain_id))
}

impl RpcError {
    /// The error's message.
    pub fn to_string(&self) -> (r: String)
        ensures
            r@ == self@.message(),
    {
        match self {
            RpcError::UnknownChain(id) => unknown_chain_text(*id),
            RpcError::Proxy(e) => joined("proxy: ", e),
            RpcError::Http(e) => joined("http: ", e),
            RpcError::Rpc { code, message } => joined(
                &joined3("rpc error ", &signed_decimal_text(*code), ": "),
                message,
            ),
            RpcError::Parse(e) => joined("parse: ", e),
            RpcError::VerifiedProxy(e) => joined("verified proxy: ", e),
        }
    }
}

} // verus!
