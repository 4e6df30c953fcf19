use crate::manager::{ledger_history, PortfolioManager};
use crate::types::{
    clamp_risk, Asset, PortfolioData, TradeRequest, MAX_RISK_TOLERANCE, MIN_RISK_TOLERANCE,
};
use vstd::prelude::*;

verus! {

/// Portfolio round trip: writing a portfolio whose requested risk tolerance
/// already lies on the accepted scale and reading it back yields a record
/// with the same assets, the same risk tolerance, and the write-time host
/// clock. The insertion below is the store `update_portfolio` leaves behind,
/// and `get_portfolio` answers from exactly that store.
pub proof fn lemma_portfolio_round_trip(
    portfolios: Map<Seq<char>, PortfolioData>,
    caller: Seq<char>,
    assets: Vec<Asset>,
    risk_tolerance: u8,
    now: u64,
)
    requires
        MIN_RISK_TOLERANCE <= risk_tolerance <= MAX_RISK_TOLERANCE,
    ensures
        ({
            let written = portfolios.insert(
                caller,
                (PortfolioData {
                    assets,
                    risk_tolerance: clamp_risk(risk_tolerance),
                    last_updated: now,
                }),
            );
            &&& written.contains_key(caller)
            &&& written[caller].assets == assets
            &&& written[caller].risk_tolerance == risk_tolerance
            &&& written[caller].last_updated == now
        }),
{
}

/// Advisory round trip: a cached advisory string is returned verbatim. The
/// insertion below is the store `set_ai_recommendation` leaves behind, and
/// `get_ai_recommendation` answers from exactly that store.
pub proof fn lemma_advisory_round_trip(
    recommendations: Map<Seq<char>, String>,
    caller: Seq<char>,
    recommendation: String,
)
    ensures
        recommendations.insert(caller, recommendation).contains_key(caller),
        recommendations.insert(caller, recommendation)[caller] == recommendation,
{
}

/// Unknown account: a store fresh from `new` holds nothing under any
/// account, so `get_portfolio`, `get_ai_recommendation` and
/// `get_trade_history` answer `None`, `None` and the empty sequence for
/// every account, by their contracts.
pub proof fn lemma_unknown_account(store: PortfolioManager, account: Seq<char>)
    requires
        store.portfolio_map() == Map::<Seq<char>, PortfolioData>::empty(),
        store.recommendation_map() == Map::<Seq<char>, String>::empty(),
        store.history_map() == Map::<Seq<char>, Seq<TradeRequest>>::empty(),
    ensures
        !store.portfolio_map().contains_key(account),
        !store.recommendation_map().contains_key(account),
        store.history_of(account) == Seq::<TradeRequest>::empty(),
{
}

/// The ledger map after one accepted trade request by `account`: the entry
/// goes at the end of that account's sequence, which is created empty where
/// absent. This is the ledger `request_trade` leaves behind on success.
pub open spec fn apply_request(
    ledger: Map<Seq<char>, Seq<TradeRequest>>,
    account: Seq<char>,
    entry: TradeRequest,
) -> Map<Seq<char>, Seq<TradeRequest>> {
    ledger.insert(account, ledger_history(ledger, account).push(entry))
}

/// The ledger map after a run of accepted trade requests by `account`, in
/// call order.
pub open spec fn apply_requests(
    ledger: Map<Seq<char>, Seq<TradeRequest>>,
    account: Seq<char>,
    entries: Seq<TradeRequest>,
) -> Map<Seq<char>, Seq<TradeRequest>>
    decreases entries.len(),
{
    if entries.len() == 0 {
        ledger
    } else {
        apply_request(
            apply_requests(ledger, account, entries.drop_last()),
            account,
            entries.last(),
        )
    }
}

/// Ledger append-only growth: a run of accepted trade requests by one
/// account appends exactly its entries, in call order, after whatever the
/// account's ledger already held — so after a run against a fresh store its
/// ledger is exactly the run's entries — and leaves every other account's
/// ledger as it was.
pub proof fn lemma_ledger_append_only_growth(
    ledger: Map<Seq<char>, Seq<TradeRequest>>,
    account: Seq<char>,
    entries: Seq<TradeRequest>,
)
    ensures
        ledger_history(apply_requests(ledger, account, entries), account) == ledger_history(
            ledger,
            account,
        ) + entries,
        forall|other: Seq<char>|
            other != account ==> #[trigger] ledger_history(
                apply_requests(ledger, account, entries),
                other,
            ) == ledger_history(ledger, other),
    decreases entries.len(),
{
    if entries.len() == 0 {
        assert(ledger_history(ledger, account) + entries =~= ledger_history(ledger, account));
    } else {
        lemma_ledger_append_only_growth(ledger, account, entries.drop_last());
        assert(ledger_history(ledger, account) + entries =~= (ledger_history(ledger, account)
            + entries.drop_last()).push(entries.last()));
        assert forall|other: Seq<char>|
            other != account implies #[trigger] ledger_history(
            apply_requests(ledger, account, entries),
            other,
        ) == ledger_history(ledger, other) by {
            assert(ledger_history(apply_requests(ledger, account, entries), other)
                == ledger_history(apply_requests(ledger, account, entries.drop_last()), other));
        }
    }
}

} // verus!
