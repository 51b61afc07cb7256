//! The decisions of the verified leg's router.
//!
//! The proxy is another module, which the host reaches. [`VerifiedProxyRouter`] decides what
//! to ask of it: [`VerifiedProxyRouter::start`] and [`VerifiedProxyRouter::probed`] give the
//! next step, the host takes it and hands back what came of it.

use std::collections::HashMap;

use vstd::prelude::*;

use crate::calls::reply_view;
use crate::json::{items_view, push_item, Json, JsonView};
use crate::text::{
    decimal, decimal_text, joined, joined3, same_text, signed_decimal, signed_decimal_text,
};

verus! {

/// How long the proxy may take to say how it is, in milliseconds. Bounded so that an absent
/// proxy costs a second and not the deadline of the protocol.
pub const PROBE_BUDGET_MILLIS: u64 = 1500;

/// How long a verdict on the proxy's health is reused, in nanoseconds: long enough that a burst
/// of reads costs one probe, short enough that a proxy falling over is noticed within seconds.
pub const HEALTH_TTL_NANOS: u64 = 5_000_000_000;

/// The seconds that a call may take where no budget was set.
pub const DEFAULT_BUDGET_SECS: u64 = 15;

/// The model of a verdict on the proxy's health.
pub open spec fn verdict_view(verdict: Result<(), String>) -> Result<(), Seq<char>> {
    match verdict {
        Ok(_) => Ok(()),
        Err(e) => Err(e@),
    }
}

/// A verdict and when it was given.
#[derive(Debug)]
pub struct HealthRecord {
    /// The reading of a monotonic clock, in nanoseconds.
    pub at: u64,
    pub verdict: Result<(), String>,
}

/// The model of a [`HealthRecord`].
#[verifier::ext_equal]
pub struct HealthRecordView {
    pub at: u64,
    pub verdict: Result<(), Seq<char>>,
}

impl View for HealthRecord {
    type V = HealthRecordView;

    open spec fn view(&self) -> HealthRecordView {
        HealthRecordView { at: self.at, verdict: verdict_view(self.verdict) }
    }
}

/// The state of the verified leg's router: what it knows of the proxy's health, and how long a
/// call may take, by chain.
pub struct VerifiedProxyRouter {
    health: HashMap<u64, HealthRecord>,
    budget: HashMap<u64, u64>,
}

/// The model of a [`VerifiedProxyRouter`].
#[verifier::ext_equal]
pub struct RouterView {
    pub health: Map<u64, HealthRecordView>,
    pub budget: Map<u64, u64>,
}

impl View for VerifiedProxyRouter {
    type V = RouterView;

    closed spec fn view(&self) -> RouterView {
        RouterView {
            health: self.health@.map_values(|r: HealthRecord| r@),
            budget: self.budget@,
        }
    }
}

/// What to do next with a call.
#[derive(Debug)]
pub enum RouterStep {
    /// Ask the proxy how it is, and go on with [`VerifiedProxyRouter::probed`].
    Probe,
    /// Put the call to the proxy, and let it take the given seconds.
    Dispatch(u64),
    /// Refuse the call.
    Refuse(String),
}

/// The model of a [`RouterStep`].
#[verifier::ext_equal]
pub enum RouterStepView {
    Probe,
    Dispatch(u64),
    Refuse(Seq<char>),
}

impl View for RouterStep {
    type V = RouterStepView;

    open spec fn view(&self) -> RouterStepView {
        match self {
            RouterStep::Probe => RouterStepView::Probe,
            RouterStep::Dispatch(secs) => RouterStepView::Dispatch(*secs),
            RouterStep::Refuse(e) => RouterStepView::Refuse(e@),
        }
    }
}

/// A number of seconds, kept between 1 and 60.
pub open spec fn clamped_budget(secs: u64) -> u64 {
    if secs < 1 {
        1
    } else if secs > 60 {
        60
    } else {
        secs
    }
}

impl RouterView {
    /// The seconds that a call for a chain may take.
    pub open spec fn budget_for(self, chain_id: u64) -> u64 {
        if self.budget.contains_key(chain_id) {
            self.budget[chain_id]
        } else {
            DEFAULT_BUDGET_SECS
        }
    }

    /// The verdict on a chain, where there is one that is recent enough.
    pub open spec fn fresh_verdict(self, chain_id: u64, now: u64) -> Option<Result<(), Seq<char>>> {
        if self.health.contains_key(chain_id) && now - self.health[chain_id].at
            < HEALTH_TTL_NANOS {
            Some(self.health[chain_id].verdict)
        } else {
            None
        }
    }

    /// The router with a verdict remembered.
    pub open spec fn remember(
        self,
        chain_id: u64,
        now: u64,
        verdict: Result<(), Seq<char>>,
    ) -> RouterView {
        RouterView {
            health: self.health.insert(chain_id, HealthRecordView { at: now, verdict }),
            ..self
        }
    }

    /// The step that a verdict leads to.
    pub open spec fn step_for(self, chain_id: u64, verdict: Result<(), Seq<char>>) -> RouterStepView {
        match verdict {
            Ok(_) => RouterStepView::Dispatch(self.budget_for(chain_id)),
            Err(e) => RouterStepView::Refuse(e),
        }
    }
}

/// An unsigned id as the signed number with the same bits.
pub open spec fn signed_id(chain_id: u64) -> int {
    if chain_id <= i64::MAX {
        chain_id as int
    } else {
        chain_id - 0x1_0000_0000_0000_0000
    }
}

/// The text of a member, where the member is a string.
pub open spec fn text_member(v: JsonView, key: Seq<char>) -> Option<Seq<char>> {
    match v.get(key) {
        Some(m) => m.as_str(),
        None => None,
    }
}

/// The chain that a status names, 0 where it names none.
pub open spec fn status_chain(status: JsonView) -> i64 {
    match status.get("chainId"@) {
        Some(id) => match id.as_i64() {
            Some(n) => n,
            None => 0,
        },
        None => 0,
    }
}

/// The number of the block up to which a status says the proxy has verified.
pub open spec fn status_head(status: JsonView) -> Seq<char> {
    match status.get("head"@) {
        Some(head) => match text_member(head, "blockNumber"@) {
            Some(number) => number,
            None => ""@,
        },
        None => ""@,
    }
}

/// The verdict on a proxy that reports `status`: it must be running, on the chain that is asked
/// for, and have a verified head.
pub open spec fn status_verdict(chain_id: u64, status: JsonView) -> Result<(), Seq<char>> {
    match text_member(status, "state"@) {
        None => Err("status carried no state"@),
        Some(state) => if state != "running"@ {
            match text_member(status, "lastError"@) {
                Some(why) => if why.len() > 0 {
                    Err("state is '"@ + state + "': "@ + why)
                } else {
                    Err("state is '"@ + state + "', not running"@)
                },
                None => Err("state is '"@ + state + "', not running"@),
            }
        } else if status_chain(status) != signed_id(chain_id) {
            Err(
                "proxy is on chain "@ + signed_decimal(status_chain(status) as int)
                    + ", this request is for "@ + decimal(chain_id as nat),
            )
        } else if status_head(status).len() == 0 {
            Err("proxy has no verified head yet"@)
        } else {
            Ok(())
        },
    }
}

/// The verdict on a proxy that was asked how it is.
pub open spec fn probe_verdict(chain_id: u64, status: Result<JsonView, Seq<char>>) -> Result<
    (),
    Seq<char>,
> {
    match status {
        Ok(v) => status_verdict(chain_id, v),
        Err(e) => Err("not reachable ("@ + e + ")"@),
    }
}

/// The result in the proxy's envelope.
pub open spec fn envelope_result(method: Seq<char>, reply: Result<JsonView, Seq<char>>) -> Result<
    JsonView,
    Seq<char>,
> {
    match reply {
        Err(e) => Err(method + " failed ("@ + e + ")"@),
        Ok(v) => if v.get("success"@) == Some(JsonView::Bool(true)) {
            match v.get("value"@) {
                Some(value) => Ok(value),
                None => Ok(JsonView::Null),
            }
        } else {
            match text_member(v, "error"@) {
                Some(why) => Err(method + ": "@ + why),
                None => Err(method + ": no detail"@),
            }
        },
    }
}

/// An unsigned id as the signed number with the same bits.
fn to_signed_id(chain_id: u64) -> (r: i64)
    ensures
        r == signed_id(chain_id),
{
    if chain_id <= i64::MAX as u64 {
        chain_id as i64
    } else {
        -((u64::MAX - chain_id) as i64) - 1
    }
}

/// The text of a member, where the member is a string.
fn member_text<'a>(v: &'a Json, key: &str) -> (r: Option<&'a str>)
    ensures
        (match r {
            Some(s) => text_member(v@, key@) == Some(s@),
            None => text_member(v@, key@) is None,
        }),
{
    match v.get(key) {
        Some(m) => m.as_str(),
        None => None,
    }
}

/// Judges what a proxy reports of itself.
///
/// A proxy whose heartbeat is failing would still answer; it is refused, for that is exactly
/// when an answer stops meaning what it claims. So is one synced to a different chain, which
/// would answer confidently and wrongly, and one without a verified head.
pub fn classify_status(chain_id: u64, status: &Json) -> (r: Result<(), String>)
    ensures
        verdict_view(r) == status_verdict(chain_id, status@),
{
    let state: &str = match member_text(status, "state") {
        Some(state) => state,
        None => {
            return Err("status carried no state".to_owned());
        },
    };
    if !same_text(state, "running") {
        let head: String = joined("state is '", state);
        if let Some(why) = member_text(status, "lastError") {
            if !why.is_empty() {
                return Err(joined3(&head, "': ", why));
            }
        }
        return Err(joined(&head, "', not running"));
    }
    let theirs: i64 = match status.get("chainId") {
        Some(id) => match id.as_i64() {
            Some(n) => n,
            None => 0,
        },
        None => 0,
    };
    if theirs != to_signed_id(chain_id) {
        return Err(
            joined(
                &joined3(
                    "proxy is on chain ",
                    &signed_decimal_text(theirs),
                    ", this request is for ",
                ),
                &decimal_text(chain_id),
            ),
        );
    }
    let number: &str = match status.get("head") {
        Some(head) => match member_text(head, "blockNumber") {
            Some(number) => number,
            None => "",
        },
        None => "",
    };
    if number.is_empty() {
        return Err("proxy has no verified head yet".to_owned());
    }
    Ok(())
}

/// The arguments with which the proxy is asked for a call.
pub fn dispatch_args(method: &str, params: &Json) -> (r: Json)
    ensures
        r@ == JsonView::Array(seq![JsonView::Str(method@), params@]),
{
    let mut items: Vec<Json> = Vec::new();
    push_item(&mut items, Json::string(method));
    push_item(&mut items, params.clone());
    assert(items_view(items@) =~= seq![JsonView::Str(method@), params@]);
    Json::Array(items)
}

/// Reads the proxy's answer to a call.
pub fn read_envelope(method: &str, reply: Result<Json, String>) -> (r: Result<Json, String>)
    ensures
        reply_view(r) == envelope_result(method@, reply_view(reply)),
{
    let v: Json = match reply {
        Ok(v) => v,
        Err(e) => {
            return Err(joined(&joined3(method, " failed (", &e), ")"));
        },
    };
    let success: bool = match v.get("success") {
        Some(s) => match s.as_bool() {
            Some(b) => b,
            None => false,
        },
        None => false,
    };
    if !success {
        return match member_text(&v, "error") {
            Some(why) => Err(joined3(method, ": ", why)),
            None => Err(joined(method, ": no detail")),
        };
    }
    match v.get("value") {
        Some(value) => Ok(value.clone()),
        None => Ok(Json::Null),
    }
}

impl VerifiedProxyRouter {
    /// A router that knows nothing of the proxy yet.
    pub fn new() -> (r: VerifiedProxyRouter)
        ensures
            r@ == (RouterView { health: Map::empty(), budget: Map::empty() }),
    {
        let r = VerifiedProxyRouter { health: HashMap::new(), budget: HashMap::new() };
        assert(r@.health =~= Map::empty());
        r
    }

    /// Sets how long a call for a chain may take, in seconds.
    pub fn set_budget(&mut self, chain_id: u64, secs: u64)
        ensures
            final(self)@ == (RouterView {
                budget: old(self)@.budget.insert(chain_id, clamped_budget(secs)),
                ..old(self)@
            }),
    {
        let kept: u64 = if secs < 1 {
            1
        } else if secs > 60 {
            60
        } else {
            secs
        };
        self.budget.insert(chain_id, kept);
    }

    /// How long a call for a chain may take, in seconds.
    pub fn budget_for(&self, chain_id: u64) -> (r: u64)
        ensures
            r == self@.budget_for(chain_id),
    {
        match self.budget.get(&chain_id) {
            Some(secs) => *secs,
            None => DEFAULT_BUDGET_SECS,
        }
    }

    /// The verdict on a chain, where there is one that is recent enough at the clock reading
    /// `now`.
    pub fn healthy(&self, chain_id: u64, now: u64) -> (r: Option<Result<(), String>>)
        ensures
            (match r {
                Some(verdict) => self@.fresh_verdict(chain_id, now) == Some(verdict_view(verdict)),
                None => self@.fresh_verdict(chain_id, now) is None,
            }),
    {
        match self.health.get(&chain_id) {
            Some(record) => {
                let elapsed: u64 = if now >= record.at {
                    now - record.at
                } else {
                    0
                };
                if elapsed < HEALTH_TTL_NANOS {
                    match &record.verdict {
                        Ok(_) => Some(Ok(())),
                        Err(e) => Some(Err(e.clone())),
                    }
                } else {
                    None
                }
            },
            None => None,
        }
    }

    /// Judges the proxy by its answer to the question how it is, without remembering it.
    pub fn probe(chain_id: u64, status: Result<Json, String>) -> (r: Result<(), String>)
        ensures
            verdict_view(r) == probe_verdict(chain_id, reply_view(status)),
    {
        match status {
            Ok(v) => classify_status(chain_id, &v),
            Err(e) => Err(joined3("not reachable (", &e, ")")),
        }
    }

    /// The first step of a call, at the clock reading `now`.
    pub fn start(&self, chain_id: u64, now: u64) -> (r: RouterStep)
        ensures
            r@ == (match self@.fresh_verdict(chain_id, now) {
                Some(verdict) => self@.step_for(chain_id, verdict),
                None => RouterStepView::Probe,
            }),
    {
        match self.healthy(chain_id, now) {
            Some(Ok(_)) => RouterStep::Dispatch(self.budget_for(chain_id)),
            Some(Err(e)) => RouterStep::Refuse(e),
            None => RouterStep::Probe,
        }
    }

    /// The step that follows a probe, whose verdict is remembered with the clock reading `now`.
    pub fn probed(&mut self, chain_id: u64, now: u64, status: Result<Json, String>) -> (r:
        RouterStep)
        ensures
            final(self)@ == old(self)@.remember(
                chain_id,
                now,
                probe_verdict(chain_id, reply_view(status)),
            ),
            r@ == old(self)@.step_for(chain_id, probe_verdict(chain_id, reply_view(status))),
    {
        let verdict: Result<(), String> = Self::probe(chain_id, status);
        let step: RouterStep = match &verdict {
            Ok(_) => RouterStep::Dispatch(self.budget_for(chain_id)),
            Err(e) => RouterStep::Refuse(e.clone()),
        };
        self.health.insert(chain_id, HealthRecord { at: now, verdict });
        assert(self@.health =~= old(self)@.health.insert(
            chain_id,
            HealthRecordView { at: now, verdict: verdict_view(verdict) },
        ));
        step
    }
}

} // verus!
