use portfolio_manager::Asset;
use portfolio_manager::PortfolioManager;

#[test]
fn test_portfolio_management() {
    let mut contract = PortfolioManager::new();
    let assets = vec![Asset { name: "NEAR".to_string(), amount: 10_000_000_000_000 }];
    contract.update_portfolio("alice".to_string(), assets, 5, 0);
    let portfolio = contract.get_portfolio("alice").unwrap();
    assert_eq!(portfolio.assets[0].name, "NEAR");
    assert_eq!(portfolio.risk_tolerance, 5);
}

#[test]
fn test_ai_recommendation() {
    let mut contract = PortfolioManager::new();
    let rec = "{\"buy\":\"NEAR\",\"amount\":5}".to_string();
    contract.set_ai_recommendation("alice".to_string(), rec.clone());
    assert_eq!(contract.get_ai_recommendation("alice"), Some(rec));
}

#[test]
fn portfolio_scenario_returns_written_record() {
    let mut contract = PortfolioManager::new();
    let assets = vec![Asset { name: "NEAR".to_string(), amount: 10_000_000_000_000 }];
    contract.update_portfolio("alice".to_string(), assets, 5, 7);
    let portfolio = contract.get_portfolio("alice").unwrap();
    assert_eq!(
        portfolio.assets,
        vec![Asset { name: "NEAR".to_string(), amount: 10_000_000_000_000 }]
    );
    assert_eq!(portfolio.risk_tolerance, 5);
    assert_eq!(portfolio.last_updated, 7);
}

#[test]
fn risk_tolerance_zero_is_clamped_to_one() {
    let mut contract = PortfolioManager::new();
    contract.update_portfolio("alice".to_string(), Vec::new(), 0, 0);
    let portfolio = contract.get_portfolio("alice").unwrap();
    assert_eq!(portfolio.risk_tolerance, 1);
}

#[test]
fn risk_tolerance_fifteen_is_clamped_to_ten() {
    let mut contract = PortfolioManager::new();
    contract.update_portfolio("alice".to_string(), Vec::new(), 15, 0);
    let portfolio = contract.get_portfolio("alice").unwrap();
    assert_eq!(portfolio.risk_tolerance, 10);
}

#[test]
fn unknown_account_reads_empty() {
    let contract = PortfolioManager::new();
    assert!(contract.get_portfolio("nobody").is_none());
    assert!(contract.get_ai_recommendation("nobody").is_none());
    assert!(contract.get_trade_history("nobody").is_empty());
}

#[test]
fn portfolio_write_overwrites_prior_record() {
    let mut contract = PortfolioManager::new();
    let first = vec![Asset { name: "NEAR".to_string(), amount: 1 }];
    contract.update_portfolio("alice".to_string(), first, 2, 10);
    let second = vec![Asset { name: "ETH".to_string(), amount: 9 }];
    contract.update_portfolio("alice".to_string(), second, 8, 20);
    let portfolio = contract.get_portfolio("alice").unwrap();
    assert_eq!(portfolio.assets, vec![Asset { name: "ETH".to_string(), amount: 9 }]);
    assert_eq!(portfolio.risk_tolerance, 8);
    assert_eq!(portfolio.last_updated, 20);
}

#[test]
fn advisory_write_overwrites_prior_string() {
    let mut contract = PortfolioManager::new();
    contract.set_ai_recommendation("alice".to_string(), "first".to_string());
    contract.set_ai_recommendation("alice".to_string(), "second".to_string());
    assert_eq!(contract.get_ai_recommendation("alice"), Some("second".to_string()));
}

#[test]
fn accounts_do_not_share_state() {
    let mut contract = PortfolioManager::new();
    let assets = vec![Asset { name: "NEAR".to_string(), amount: 3 }];
    contract.update_portfolio("alice".to_string(), assets, 4, 0);
    contract.set_ai_recommendation("alice".to_string(), "hold steady".to_string());
    assert!(contract.get_portfolio("bob").is_none());
    assert!(contract.get_ai_recommendation("bob").is_none());
    let portfolio = contract.get_portfolio("alice").unwrap();
    assert_eq!(portfolio.risk_tolerance, 4);
}

#[test]
fn assets_are_stored_as_given() {
    let mut contract = PortfolioManager::new();
    let assets = vec![
        Asset { name: "NEAR".to_string(), amount: 0 },
        Asset { name: "NEAR".to_string(), amount: 0 },
        Asset { name: "ETH".to_string(), amount: 340_282_366_920_938_463_463_374_607_431_768_211_455 },
    ];
    contract.update_portfolio("alice".to_string(), assets, 5, 0);
    let portfolio = contract.get_portfolio("alice").unwrap();
    assert_eq!(portfolio.assets.len(), 3);
    assert_eq!(portfolio.assets[0], Asset { name: "NEAR".to_string(), amount: 0 });
    assert_eq!(portfolio.assets[1], Asset { name: "NEAR".to_string(), amount: 0 });
    assert_eq!(
        portfolio.assets[2],
        Asset { name: "ETH".to_string(), amount: 340_282_366_920_938_463_463_374_607_431_768_211_455 }
    );
}
