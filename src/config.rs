//! The scraper's configuration.
use vstd::prelude::*;
use crate::http::{Environment, str_eq};

verus! {

/// Days of history fetched when a provider names none.
pub const DEFAULT_HISTORY_DAYS: u64 = 90;

pub struct MainConfig {
    /// File holding the client credentials.
    pub client_credentials: String,
    pub environment: Environment,
    pub request_timeout_s: Option<u64>,
}

/// One configured provider.
pub struct ProviderConfig {
    /// File holding the user's token.
    pub user_token: String,
    /// Directory that receives the mirror.
    pub target_dir: String,
    pub scrape_accounts: bool,
    pub scrape_cards: bool,
    pub scrape_info: bool,
    pub history_days: Option<u64>,
}

/// The whole configuration: the providers by name, names unique.
pub struct ScraperConfig {
    pub main: MainConfig,
    pub providers: Vec<(String, ProviderConfig)>,
}

/// Why the configuration cannot be used.
#[derive(Clone, Copy, Debug, PartialEq, Eq, Structural)]
pub enum ConfigError {
    /// No provider has the name asked for.
    UnknownProvider,
    /// The token file and the output directory are the same path.
    PathCollision,
}

impl ProviderConfig {
    pub open spec fn history_days_spec(&self) -> u64 {
        match self.history_days {
            Some(d) => d,
            None => DEFAULT_HISTORY_DAYS,
        }
    }

    /// Days of history to fetch.
    pub fn history_days(&self) -> (r: u64)
        ensures
            r == self.history_days_spec(),
    {
        match self.history_days {
            Some(d) => d,
            None => DEFAULT_HISTORY_DAYS,
        }
    }

    /// The token file and the output directory must differ.
    pub fn check_paths(&self) -> (r: Result<(), ConfigError>)
        ensures
            r is Err <==> self.user_token@ == self.target_dir@,
            r matches Err(e) ==> e == ConfigError::PathCollision,
    {
        if str_eq(self.user_token.as_str(), self.target_dir.as_str()) {
            Err(ConfigError::PathCollision)
        } else {
            Ok(())
        }
    }
}

impl ScraperConfig {
    /// The provider names are unique, as the keys of a table are.
    pub open spec fn wf(&self) -> bool {
        forall|i: int, j: int|
            0 <= i < j < self.providers@.len() ==> self.providers@[i].0@ != self.providers@[j].0@
    }

    /// The provider called `name`.
    pub fn provider(&self, name: &str) -> (r: Result<&ProviderConfig, ConfigError>)
        ensures
            r matches Ok(p) ==> exists|i: int|
                0 <= i < self.providers@.len() && #[trigger] self.providers@[i].0@ == name@ && *p
                    == self.providers@[i].1,
            r is Err <==> forall|i: int|
                0 <= i < self.providers@.len() ==> #[trigger] self.providers@[i].0@ != name@,
            r matches Err(e) ==> e == ConfigError::UnknownProvider,
            self.wf() ==> (r matches Ok(p) ==> forall|i: int|
                0 <= i < self.providers@.len() && #[trigger] self.providers@[i].0@ == name@ ==> *p
                    == self.providers@[i].1),
    {
        let mut i: usize = 0;
        while i < self.providers.len()
            invariant
                i <= self.providers@.len(),
                forall|j: int| 0 <= j < i ==> #[trigger] self.providers@[j].0@ != name@,
            decreases self.providers@.len() - i,
        {
            if str_eq(self.providers[i].0.as_str(), name) {
                return Ok(&self.providers[i].1);
            }
            i = i + 1;
        }
        Err(ConfigError::UnknownProvider)
    }
}

} // verus!
