//! Identifiers and enumerations shared by the execution rules.
use vstd::prelude::*;
use vstd::string::*;

use crate::text::{hex_text, write_hex};

verus! {

/// Identity of a strategy position lot.
pub type StrategyPositionLotId = u128;

/// Identity of an order intent.
pub type OrderIntentId = u128;

/// Identity of a recommendation.
pub type RecommendationId = u128;

/// Identity of a recommendation report.
pub type RecommendationReportId = u128;

/// Identity of an execution order.
pub type ExecutionOrderId = u128;

/// Identity of an execution account.
pub type ExecutionAccountId = u128;

/// Identity of a model version.
pub type ModelVersionId = u128;

/// Identity of a factor definition.
pub type FactorDefinitionId = u128;

/// Identity of a decision-policy snapshot.
pub type PolicySnapshotId = u128;

/// Identity of a finalized account execution on chain.
pub type AccountChainExecutionId = u128;

/// Identity of an account-recovery incident.
pub type AccountRecoveryIncidentId = u128;

/// A textual identifier.
#[derive(Debug, PartialEq, Eq)]
pub struct Ident {
    pub text: String,
}

/// Identity of an outcome token.
pub type TokenId = Ident;

/// Identity of a market.
pub type MarketId = Ident;

/// Identity of an event.
pub type EventId = Ident;

/// Identity of a venue order.
pub type OrderId = Ident;

impl View for Ident {
    type V = Seq<char>;

    open spec fn view(&self) -> Seq<char> {
        self.text@
    }
}

impl Clone for Ident {
    fn clone(&self) -> (r: Ident)
        ensures
            r == *self,
    {
        Ident { text: self.text.clone() }
    }
}

impl Ident {
    /// The identifier with this text.
    pub fn new(text: &str) -> (r: Ident)
        ensures
            r@ == text@,
    {
        Ident { text: text.to_owned() }
    }

    /// Whether two identifiers have the same text.
    pub fn same(&self, other: &Ident) -> (r: bool)
        ensures
            r == (self@ == other@),
    {
        self.text == other.text
    }

    /// Whether two optional identifiers have the same text.
    pub fn same_opt(left: &Option<Ident>, right: &Option<Ident>) -> (r: bool)
        ensures
            r == same_ident(*left, *right),
    {
        match (left, right) {
            (Some(l), Some(r)) => l.same(r),
            (None, None) => true,
            _ => false,
        }
    }
}

/// Whether two optional identifiers have the same text.
pub open spec fn same_ident(left: Option<Ident>, right: Option<Ident>) -> bool {
    match (left, right) {
        (Some(l), Some(r)) => l@ == r@,
        (None, None) => true,
        _ => false,
    }
}

/// A 256-bit content hash.
#[derive(Clone, Copy, Debug, PartialEq, Eq, Structural)]
pub struct ContentHash {
    pub high: u128,
    pub low: u128,
}

impl ContentHash {
    /// How the hash is written: its algorithm and 64 hexadecimal digits.
    pub open spec fn text(self) -> Seq<char> {
        "blake3:"@ + hex_text(self.high as nat, 32) + hex_text(self.low as nat, 32)
    }

    /// Writes the hash out.
    pub fn to_text(self) -> (r: String)
        ensures
            r@ == self.text(),
    {
        "blake3:".to_owned().concat(write_hex(self.high, 32).as_str()).concat(
            write_hex(self.low, 32).as_str(),
        )
    }
}

/// How an optional identifier is written for diagnosis.
pub open spec fn optional_ident_text(id: Option<Ident>) -> Seq<char> {
    match id {
        Some(ident) => "Some("@ + ident@ + ")"@,
        None => "None"@,
    }
}

/// Writes an optional identifier for diagnosis.
pub fn write_optional_ident(id: &Option<Ident>) -> (r: String)
    ensures
        r@ == optional_ident_text(*id),
{
    match id {
        Some(ident) => "Some(".to_owned().concat(ident.text.as_str()).concat(")"),
        None => "None".to_owned(),
    }
}

/// Side of an order.
#[derive(Clone, Copy, Debug, PartialEq, Eq, Structural)]
pub enum Side {
    Buy,
    Sell,
}

/// Outcome that a position bets on.
#[derive(Clone, Copy, Debug, PartialEq, Eq, Structural)]
pub enum OutcomeSide {
    Yes,
    No,
}

/// Time in force of an order.
#[derive(Clone, Copy, Debug, PartialEq, Eq, Structural)]
pub enum OrderType {
    /// Fill all or nothing, immediately.
    Fok,
    /// Fill what is there immediately, cancel the rest.
    Fak,
    /// Rest until cancelled.
    Gtc,
    /// Rest until `expiration`, in seconds since the epoch.
    Gtd { expiration: u64 },
}

/// How a price is held against a threshold.
#[derive(Clone, Copy, Debug, PartialEq, Eq, Structural)]
pub enum PriceComparison {
    AtOrAbove,
    AtOrBelow,
}

/// Whether an aggressive order has to fill completely.
#[derive(Clone, Copy, Debug, PartialEq, Eq, Structural)]
pub enum FillRequirement {
    AllOrNothing,
    AllowPartial,
}

/// A value that can be copied faithfully.
pub trait Duplicate: Sized {
    /// A copy of the value.
    fn duplicate(&self) -> (r: Self)
        ensures
            r == *self,
    ;
}

impl Duplicate for Ident {
    fn duplicate(&self) -> (r: Self) {
        self.clone()
    }
}

impl Duplicate for u128 {
    fn duplicate(&self) -> (r: Self) {
        *self
    }
}

/// A copy of a list.
pub fn duplicates<T: Duplicate>(items: &Vec<T>) -> (r: Vec<T>)
    ensures
        r@ == items@,
{
    let mut r: Vec<T> = Vec::new();
    let mut i: usize = 0;
    while i < items.len()
        invariant
            i <= items.len(),
            r@ == items@.take(i as int),
        decreases items.len() - i,
    {
        r.push(items[i].duplicate());
        assert(r@ =~= items@.take(i + 1));
        i = i + 1;
    }
    assert(r@ =~= items@);
    r
}

} // verus!
