use crate::types::{
    spec_parse_action, parse_action, clamp_risk, Asset, PortfolioData, TradeDispatch, TradeError,
    TradeRequest, EXECUTE_TRADE_GAS, MAX_RISK_TOLERANCE, MIN_RISK_TOLERANCE,
};
use vstd::hash_map::StringHashMap;
use vstd::prelude::*;

verus! {

/// The ledger sequence a ledger map holds for one account: the account's
/// entries in append order, or the empty sequence while it has none.
pub open spec fn ledger_history(
    ledger: Map<Seq<char>, Seq<TradeRequest>>,
    account: Seq<char>,
) -> Seq<TradeRequest> {
    if ledger.contains_key(account) {
        ledger[account]
    } else {
        Seq::empty()
    }
}

/// The account-keyed store: per account the latest portfolio record, the
/// latest cached advisory string, and an append-only ledger of trade
/// requests. Accounts never share state; a write under one key leaves every
/// other key untouched.
pub struct PortfolioManager {
    portfolios: StringHashMap<PortfolioData>,
    ai_recommendations: StringHashMap<String>,
    trade_history: StringHashMap<Vec<TradeRequest>>,
}

impl PortfolioManager {
    /// Portfolio records by account; each write overwrites.
    pub closed spec fn portfolio_map(&self) -> Map<Seq<char>, PortfolioData> {
        self.portfolios@
    }

    /// Cached advisory strings by account; each write overwrites.
    pub closed spec fn recommendation_map(&self) -> Map<Seq<char>, String> {
        self.ai_recommendations@
    }

    /// Trade ledgers by account; entries are only ever appended.
    pub closed spec fn history_map(&self) -> Map<Seq<char>, Seq<TradeRequest>> {
        self.trade_history@.map_values(|history: Vec<TradeRequest>| history@)
    }

    /// The ledger sequence recorded for `account`.
    pub open spec fn history_of(&self, account: Seq<char>) -> Seq<TradeRequest> {
        ledger_history(self.history_map(), account)
    }

    /// An empty store: no account has a portfolio, an advisory string, or a
    /// ledger entry.
    pub fn new() -> (res: Self)
        ensures
            res.portfolio_map() == Map::<Seq<char>, PortfolioData>::empty(),
            res.recommendation_map() == Map::<Seq<char>, String>::empty(),
            res.history_map() == Map::<Seq<char>, Seq<TradeRequest>>::empty(),
    {
        let res = PortfolioManager {
            portfolios: StringHashMap::new(),
            ai_recommendations: StringHashMap::new(),
            trade_history: StringHashMap::new(),
        };
        proof {
            assert(res.history_map() =~= Map::<Seq<char>, Seq<TradeRequest>>::empty());
        }
        res
    }

    /// Overwrites the caller's portfolio record with the assets as given, the
    /// clamped risk tolerance, and `now`, the host clock at the write. The
    /// assets are not validated; the risk tolerance is clamped, never
    /// rejected.
    pub fn update_portfolio(
        &mut self,
        caller: String,
        assets: Vec<Asset>,
        risk_tolerance: u8,
        now: u64,
    )
        ensures
            final(self).portfolio_map() == old(self).portfolio_map().insert(
                caller@,
                (PortfolioData {
                    assets,
                    risk_tolerance: clamp_risk(risk_tolerance),
                    last_updated: now,
                }),
            ),
            final(self).recommendation_map() == old(self).recommendation_map(),
            final(self).history_map() == old(self).history_map(),
    {
        let clamped: u8 = if risk_tolerance < MIN_RISK_TOLERANCE {
            MIN_RISK_TOLERANCE
        } else if risk_tolerance > MAX_RISK_TOLERANCE {
            MAX_RISK_TOLERANCE
        } else {
            risk_tolerance
        };
        let record = PortfolioData { assets, risk_tolerance: clamped, last_updated: now };
        self.portfolios.insert(caller, record);
    }

    /// The caller's portfolio record, if one was ever written.
    pub fn get_portfolio(&self, caller: &str) -> (res: Option<PortfolioData>)
        ensures
            match res {
                Some(record) => self.portfolio_map().contains_key(caller@) && record@
                    == self.portfolio_map()[caller@]@,
                None => !self.portfolio_map().contains_key(caller@),
            },
    {
        match self.portfolios.get(caller) {
            Some(record) => Some(record.clone()),
            None => None,
        }
    }

    /// Overwrites the caller's cached advisory string. The string is opaque
    /// data and is stored verbatim, however it is formed.
    pub fn set_ai_recommendation(&mut self, caller: String, recommendation: String)
        ensures
            final(self).recommendation_map() == old(self).recommendation_map().insert(
                caller@,
                recommendation,
            ),
            final(self).portfolio_map() == old(self).portfolio_map(),
            final(self).history_map() == old(self).history_map(),
    {
        self.ai_recommendations.insert(caller, recommendation);
    }

    /// The caller's cached advisory string, verbatim, if one was ever set.
    pub fn get_ai_recommendation(&self, caller: &str) -> (res: Option<String>)
        ensures
            match res {
                Some(recommendation) => self.recommendation_map().contains_key(caller@)
                    && recommendation == self.recommendation_map()[caller@],
                None => !self.recommendation_map().contains_key(caller@),
            },
    {
        match self.ai_recommendations.get(caller) {
            Some(recommendation) => Some(recommendation.clone()),
            None => None,
        }
    }

    /// Validates a trade intent, appends it to the caller's ledger, and
    /// returns the one outbound message now owed to the execution venue: the
    /// trade parameters under the caller's identity, with the attached
    /// payment as its execution budget and the fixed compute allotment.
    ///
    /// A request without payment is rejected with `InsufficientPayment`, one
    /// whose action is neither recognized literal with `InvalidAction`;
    /// either way nothing is recorded and no message is owed. Acceptance
    /// never depends on anything but the payment and the action.
    pub fn request_trade(
        &mut self,
        caller: String,
        asset: String,
        amount: u128,
        action: String,
        attached_payment: u128,
        now: u64,
    ) -> (res: Result<TradeDispatch, TradeError>)
        ensures
            res is Ok <==> attached_payment > 0 && spec_parse_action(action@) is Some,
            attached_payment == 0 ==> res == Err::<TradeDispatch, TradeError>(
                TradeError::InsufficientPayment,
            ),
            attached_payment > 0 && spec_parse_action(action@) is None ==> res == Err::<
                TradeDispatch,
                TradeError,
            >(TradeError::InvalidAction),
            res is Err ==> final(self).portfolio_map() == old(self).portfolio_map(),
            res is Err ==> final(self).recommendation_map() == old(self).recommendation_map(),
            res is Err ==> final(self).history_map() == old(self).history_map(),
            spec_parse_action(action@) matches Some(act) ==> (res matches Ok(dispatch) ==> ({
                let entry = (TradeRequest { asset, amount, action: act, timestamp: now });
                &&& final(self).history_map() == old(self).history_map().insert(
                    caller@,
                    old(self).history_of(caller@).push(entry),
                )
                &&& final(self).portfolio_map() == old(self).portfolio_map()
                &&& final(self).recommendation_map() == old(self).recommendation_map()
                &&& dispatch.target@ == "aurora-trader.testnet"@
                &&& dispatch.method@ == "execute_trade"@
                &&& dispatch.user == caller
                &&& dispatch.asset == asset
                &&& dispatch.amount == amount
                &&& dispatch.budget == attached_payment
                &&& dispatch.gas == EXECUTE_TRADE_GAS
            })),
    {
        if attached_payment == 0 {
            return Err(TradeError::InsufficientPayment);
        }
        let act = match parse_action(&action) {
            Some(act) => act,
            None => {
                return Err(TradeError::InvalidAction);
            },
        };
        let entry = TradeRequest { asset: asset.clone(), amount, action: act, timestamp: now };
        let mut history: Vec<TradeRequest> = match self.trade_history.get(caller.as_str()) {
            Some(prior) => clone_history(prior),
            None => Vec::new(),
        };
        history.push(entry);
        let ghost prior_ledger = self.history_map();
        let ghost new_history = history@;
        self.trade_history.insert(caller.clone(), history);
        proof {
            assert(self.history_map() =~= prior_ledger.insert(caller@, new_history));
        }
        Ok(
            TradeDispatch {
                target: "aurora-trader.testnet".to_owned(),
                method: "execute_trade".to_owned(),
                user: caller,
                asset,
                amount,
                budget: attached_payment,
                gas: EXECUTE_TRADE_GAS,
            },
        )
    }

    /// Every trade request the caller ever had accepted, in submission
    /// order; empty while the account has none. An entry records that the
    /// trade was requested and its message scheduled, not that the venue
    /// executed it.
    pub fn get_trade_history(&self, caller: &str) -> (res: Vec<TradeRequest>)
        ensures
            res@ == self.history_of(caller@),
    {
        match self.trade_history.get(caller) {
            Some(history) => clone_history(history),
            None => Vec::new(),
        }
    }
}

/// Copies a ledger sequence entry by entry.
fn clone_history(history: &Vec<TradeRequest>) -> (res: Vec<TradeRequest>)
    ensures
        res@ == history@,
{
    let res = history.clone();
    proof {
        assert forall|i: int| 0 <= i < res@.len() implies res@[i] == history@[i] by {
            assert(cloned::<TradeRequest>(history@[i], res@[i]));
        }
        assert(res@ =~= history@);
    }
    res
}

} // verus!
