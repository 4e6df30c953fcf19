//! An account-keyed store for financial portfolio data.
//!
//! Each account owns three pieces of durable state: its latest portfolio
//! record, a cached advisory string, and an append-only ledger of trade
//! requests. A trade request is validated, recorded, and answered with a
//! description of the one outbound message owed to the external execution
//! venue; sending that message, like resolving the caller's identity and the
//! current time, is the host's business and stays outside this crate.

mod laws;
mod manager;
mod types;

pub use laws::apply_request;
pub use laws::apply_requests;
pub use laws::lemma_advisory_round_trip;
pub use laws::lemma_ledger_append_only_growth;
pub use laws::lemma_portfolio_round_trip;
pub use laws::lemma_unknown_account;
pub use manager::ledger_history;
pub use manager::PortfolioManager;
pub use types::Asset;
pub use types::PortfolioData;
pub use types::PortfolioDataView;
pub use types::TradeAction;
pub use types::TradeDispatch;
pub use types::TradeError;
pub use types::TradeRequest;
pub use types::MAX_RISK_TOLERANCE;
pub use types::MIN_RISK_TOLERANCE;
pub use types::EXECUTE_TRADE_GAS;
pub use types::clamp_risk;
pub use types::parse_action;
pub use types::spec_parse_action;
