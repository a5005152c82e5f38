use tl_scraper::calendar::{Date, MonthRange};
use tl_scraper::config::ConfigError;
use tl_scraper::http::DataEndpoint;
use tl_scraper::layout::Holder;
use tl_scraper::sync::{account_jobs, card_jobs, holder_endpoint, is_linked, root_jobs, HolderJob, RootJob};
use tl_scraper::{Environment, MainConfig, ProviderConfig, ScraperConfig};

fn provider(dir: &str, info: bool, accounts: bool, cards: bool) -> ProviderConfig {
    ProviderConfig {
        user_token: "token.json".to_string(),
        target_dir: dir.to_string(),
        scrape_accounts: accounts,
        scrape_cards: cards,
        scrape_info: info,
        history_days: None,
    }
}

fn config() -> ScraperConfig {
    ScraperConfig {
        main: MainConfig {
            client_credentials: "creds.json".to_string(),
            environment: Environment::Sandbox,
            request_timeout_s: None,
        },
        providers: vec![
            ("bank".to_string(), provider("out/bank", true, true, false)),
            ("cards".to_string(), provider("out/cards", false, false, true)),
        ],
    }
}

#[test]
fn providers_are_found_by_name() {
    let cfg = config();
    assert_eq!(cfg.provider("cards").expect("provider").target_dir, "out/cards");
    assert!(matches!(cfg.provider("nope"), Err(ConfigError::UnknownProvider)));
}

#[test]
fn history_defaults_to_ninety_days() {
    let mut p = provider("out", false, false, false);
    assert_eq!(p.history_days(), 90);
    p.history_days = Some(45);
    assert_eq!(p.history_days(), 45);
}

#[test]
fn token_file_and_output_must_differ() {
    assert_eq!(provider("token.json", false, false, false).check_paths(), Err(ConfigError::PathCollision));
    assert_eq!(provider("out", false, false, false).check_paths(), Ok(()));
}

#[test]
fn root_jobs_follow_the_toggles() {
    assert_eq!(root_jobs(&provider("o", true, true, true)), vec![RootJob::Info, RootJob::Accounts, RootJob::Cards]);
    assert_eq!(root_jobs(&provider("o", false, true, false)), vec![RootJob::Accounts]);
    assert_eq!(root_jobs(&provider("o", false, false, false)), vec![]);
}

#[test]
fn holder_jobs() {
    let feb = MonthRange {
        start: Date { year: 2024, month: 2, day: 1 },
        end: Date { year: 2024, month: 2, day: 29 },
    };
    let mar = MonthRange {
        start: Date { year: 2024, month: 3, day: 1 },
        end: Date { year: 2024, month: 3, day: 10 },
    };
    let months = vec![feb, mar];
    assert_eq!(
        account_jobs(&months, true),
        vec![
            HolderJob::Balance,
            HolderJob::Pending,
            HolderJob::Transactions(feb),
            HolderJob::Transactions(mar),
            HolderJob::StandingOrders,
            HolderJob::DirectDebits,
        ]
    );
    assert_eq!(
        card_jobs(&months),
        vec![HolderJob::Balance, HolderJob::Pending, HolderJob::Transactions(feb), HolderJob::Transactions(mar)]
    );
}

#[test]
fn linked_consent() {
    assert!(is_linked("LN"));
    assert!(!is_linked("EX"));
}

#[test]
fn holder_endpoints() {
    let path = |e: Option<DataEndpoint>| e.map(|e| tl_scraper::http::data_path(&e));
    assert_eq!(
        path(holder_endpoint(Holder::Account, "a1".to_string(), HolderJob::DirectDebits)),
        Some("/data/v1/accounts/a1/direct_debits".to_string())
    );
    assert_eq!(
        path(holder_endpoint(Holder::Card, "c1".to_string(), HolderJob::Pending)),
        Some("/data/v1/cards/c1/transactions/pending".to_string())
    );
    assert!(holder_endpoint(Holder::Card, "c1".to_string(), HolderJob::StandingOrders).is_none());
}
