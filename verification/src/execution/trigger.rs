//! Activation triggers of stop orders.
use vstd::prelude::*;

verus! {

/// A trigger that activates a stop order.
#[derive(Clone, Debug)]
pub struct ActivationTrigger {
    /// The key of the trigger.
    pub key: ActivationTriggerKey,
    /// The name of the trigger.
    pub name: String,
    /// A description of the trigger.
    pub description: String,
}

/// The keys of the activation triggers.
#[derive(Clone, Copy, Debug, PartialEq, Eq)]
pub enum ActivationTriggerKey {
    /// Single Trade Tick
    STT,
    /// Single Trade Tick Within NBBO
    STTN,
    /// Single Bid/Ask Tick
    SBA,
    /// Single Ask/Bid Tick
    SAB,
    /// Double Trade Tick
    DTT,
    /// Double Trade Tick Within NBBO
    DTTN,
    /// Double Bid/Ask Tick
    DBA,
    /// Double Ask/Bid Tick
    DAB,
    /// Triple Trade Tick
    TTT,
    /// Triple Trade Tick Within NBBO
    TTTN,
    /// Triple Bid/Ask Tick
    TBA,
    /// Triple Ask/Bid Tick
    TAB,
}

impl ActivationTrigger {
    /// The endpoint that lists the activation triggers.
    pub fn list_endpoint() -> (r: &'static str)
        ensures
            r@ == "orderexecution/activationtriggers"@,
    {
        "orderexecution/activationtriggers"
    }
}

} // verus!
