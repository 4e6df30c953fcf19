use vstd::prelude::*;

verus! {

/// Lowest risk tolerance a portfolio record can store.
pub const MIN_RISK_TOLERANCE: u8 = 1;

/// Highest risk tolerance a portfolio record can store.
pub const MAX_RISK_TOLERANCE: u8 = 10;

/// Fixed compute allotment attached to every outbound trade message.
pub const EXECUTE_TRADE_GAS: u64 = 30_000_000_000_000;

/// The risk tolerance actually stored for a requested value: values outside
/// the accepted scale are clamped to its nearest end, never rejected.
pub open spec fn clamp_risk(risk_tolerance: u8) -> u8 {
    if risk_tolerance < MIN_RISK_TOLERANCE {
        MIN_RISK_TOLERANCE
    } else if risk_tolerance > MAX_RISK_TOLERANCE {
        MAX_RISK_TOLERANCE
    } else {
        risk_tolerance
    }
}

/// A quantity of one named instrument, counted in its smallest unit.
#[derive(Debug, PartialEq, Eq)]
pub struct Asset {
    pub name: String,
    pub amount: u128,
}

impl Clone for Asset {
    fn clone(&self) -> (res: Self)
        ensures
            res == *self,
    {
        Asset { name: self.name.clone(), amount: self.amount }
    }
}

/// What the caller asked to do with an asset.
#[derive(Clone, Copy, PartialEq, Eq, Structural, Debug)]
pub enum TradeAction {
    Buy,
    Sell,
}

/// Why a trade request was rejected. A rejected request changes nothing.
#[derive(Clone, Copy, PartialEq, Eq, Structural, Debug)]
pub enum TradeError {
    /// The request carried no payment for the outbound execution budget.
    InsufficientPayment,
    /// The action string was neither of the two recognized literals.
    InvalidAction,
}

/// The action an action string stands for: exactly `"buy"` and `"sell"` are
/// recognized, case-sensitively; anything else is rejected.
pub open spec fn spec_parse_action(action: Seq<char>) -> Option<TradeAction> {
    if action == "buy"@ {
        Some(TradeAction::Buy)
    } else if action == "sell"@ {
        Some(TradeAction::Sell)
    } else {
        None
    }
}

/// Parses an action string into its closed tagged form.
pub fn parse_action(action: &String) -> (res: Option<TradeAction>)
    ensures
        res == spec_parse_action(action@),
{
    let buy: String = "buy".to_owned();
    let sell: String = "sell".to_owned();
    if *action == buy {
        Some(TradeAction::Buy)
    } else if *action == sell {
        Some(TradeAction::Sell)
    } else {
        None
    }
}

/// A trade intent as recorded in an account's ledger. Immutable once
/// appended; its timestamp is the host clock at the time of the request.
#[derive(Debug, PartialEq, Eq)]
pub struct TradeRequest {
    pub asset: String,
    pub amount: u128,
    pub action: TradeAction,
    pub timestamp: u64,
}

impl Clone for TradeRequest {
    fn clone(&self) -> (res: Self)
        ensures
            res == *self,
    {
        TradeRequest {
            asset: self.asset.clone(),
            amount: self.amount,
            action: self.action,
            timestamp: self.timestamp,
        }
    }
}

/// An account's stored portfolio: the asset list as given, the clamped risk
/// tolerance, and the host clock at the time of the write.
#[derive(Debug, PartialEq, Eq)]
pub struct PortfolioData {
    pub assets: Vec<Asset>,
    pub risk_tolerance: u8,
    pub last_updated: u64,
}

/// The mathematical content of a [`PortfolioData`]: the asset sequence
/// instead of the vector that holds it.
pub struct PortfolioDataView {
    pub assets: Seq<Asset>,
    pub risk_tolerance: u8,
    pub last_updated: u64,
}

impl View for PortfolioData {
    type V = PortfolioDataView;

    open spec fn view(&self) -> PortfolioDataView {
        PortfolioDataView {
            assets: self.assets@,
            risk_tolerance: self.risk_tolerance,
            last_updated: self.last_updated,
        }
    }
}

impl Clone for PortfolioData {
    fn clone(&self) -> (res: Self)
        ensures
            res@ == self@,
    {
        let assets = self.assets.clone();
        proof {
            assert forall|i: int| 0 <= i < assets@.len() implies assets@[i] == self.assets@[i] by {
                assert(cloned::<Asset>(self.assets@[i], assets@[i]));
            }
            assert(assets@ =~= self.assets@);
        }
        PortfolioData {
            assets,
            risk_tolerance: self.risk_tolerance,
            last_updated: self.last_updated,
        }
    }
}

/// The one outbound message owed to the external execution venue after an
/// accepted trade request: target and capability, the payload fields, the
/// forwarded execution budget, and the fixed compute allotment. Sending it is
/// the host's business; nothing here awaits or observes its outcome.
#[derive(Debug, PartialEq, Eq)]
pub struct TradeDispatch {
    pub target: String,
    pub method: String,
    pub user: String,
    pub asset: String,
    pub amount: u128,
    pub budget: u128,
    pub gas: u64,
}

} // verus!
