//! The settings of a deployment.

pub mod auth;
pub mod db;

use vstd::prelude::*;

pub use self::auth::{AuthConfig, RsaJwtConfig};
pub use self::db::{DatabaseConfig, RedisConfig};
use crate::text::{decimal, join, lowercased, push_decimal, to_lowercase, trim, trimmed};

verus! {

#[derive(Debug, Clone)]
pub struct ServerConfig {
    pub protocol: String,
    pub host: String,
    pub port: u16,
}

impl ServerConfig {
    /// The text of the address to listen on: the host, a colon and the port
    /// in decimal.
    pub open spec fn address_text(&self) -> Seq<char> {
        self.host@ + seq![':'] + decimal(self.port as nat)
    }

    pub fn address(&self) -> (r: String)
        ensures
            r@ == self.address_text(),
    {
        proof {
            reveal_strlit(":");
        }
        let mut out = join(self.host.as_str(), ":");
        push_decimal(&mut out, self.port as u64);
        out
    }

    pub fn url(&self) -> (r: String)
        ensures
            r@ == self.protocol@ + seq![':', '/', '/'] + self.address_text(),
    {
        proof {
            reveal_strlit("://");
            assert("://"@ =~= seq![':', '/', '/']);
        }
        let mut out = join(self.protocol.as_str(), "://");
        let address = self.address();
        out.append(address.as_str());
        out
    }
}

#[derive(Debug, Clone)]
pub struct Config {
    pub server: ServerConfig,
    pub database: DatabaseConfig,
    pub redis: RedisConfig,
    pub auth: AuthConfig,
}

impl Config {
    pub fn server(&self) -> (r: &ServerConfig)
        ensures
            r == &self.server,
    {
        &self.server
    }

    pub fn redis(&self) -> (r: &RedisConfig)
        ensures
            r == &self.redis,
    {
        &self.redis
    }

    pub fn database(&self) -> (r: &DatabaseConfig)
        ensures
            r == &self.database,
    {
        &self.database
    }

    pub fn auth(&self) -> (r: &AuthConfig)
        ensures
            r == &self.auth,
    {
        &self.auth
    }
}

#[derive(Debug, Clone)]
pub enum Environment {
    Development,
    Production,
    Testing,
    Other(String),
}

/// What an `Environment` holds.
pub enum EnvironmentView {
    Development,
    Production,
    Testing,
    Other(Seq<char>),
}

impl View for Environment {
    type V = EnvironmentView;

    open spec fn view(&self) -> EnvironmentView {
        match self {
            Environment::Development => EnvironmentView::Development,
            Environment::Production => EnvironmentView::Production,
            Environment::Testing => EnvironmentView::Testing,
            Environment::Other(name) => EnvironmentView::Other(name@),
        }
    }
}

impl Default for Environment {
    fn default() -> (r: Self)
        ensures
            r@ == EnvironmentView::Development,
    {
        Environment::Development
    }
}

impl Environment {
    /// The environment that a normalised name stands for.
    pub open spec fn named(name: Seq<char>) -> EnvironmentView {
        if name == "development"@ || name == "dev"@ {
            EnvironmentView::Development
        } else if name == "production"@ || name == "prod"@ {
            EnvironmentView::Production
        } else if name == "testing"@ || name == "test"@ {
            EnvironmentView::Testing
        } else {
            EnvironmentView::Other(name)
        }
    }

    /// The environment that a text names: the text is put in lower case and
    /// trimmed, and then compared with the known names and their short forms.
    pub fn from(s: &str) -> (r: Self)
        ensures
            r@ == Self::named(trimmed(lowercased(s@))),
    {
        let lower = to_lowercase(s);
        let name = trim(lower.as_str());
        if name == String::from_str("development") || name == String::from_str("dev") {
            Environment::Development
        } else if name == String::from_str("production") || name == String::from_str("prod") {
            Environment::Production
        } else if name == String::from_str("testing") || name == String::from_str("test") {
            Environment::Testing
        } else {
            Environment::Other(name)
        }
    }

    /// The environment to run in, given the values of the two variables that
    /// may name it: the first that is set decides, and with neither set it is
    /// `Development`.
    pub fn resolve(primary: Option<String>, fallback: Option<String>) -> (r: Self)
        ensures
            r@ == match (primary, fallback) {
                (Some(name), _) => Self::named(trimmed(lowercased(name@))),
                (None, Some(name)) => Self::named(trimmed(lowercased(name@))),
                (None, None) => EnvironmentView::Development,
            },
    {
        match (primary, fallback) {
            (Some(name), _) => Environment::from(name.as_str()),
            (None, Some(name)) => Environment::from(name.as_str()),
            (None, None) => Environment::Development,
        }
    }

    /// The name of this environment.
    pub open spec fn name(&self) -> Seq<char> {
        match self {
            Environment::Development => "development"@,
            Environment::Production => "production"@,
            Environment::Testing => "testing"@,
            Environment::Other(other) => other@,
        }
    }

    pub fn to_string(&self) -> (r: String)
        ensures
            r@ == self.name(),
    {
        match self {
            Environment::Development => String::from_str("development"),
            Environment::Production => String::from_str("production"),
            Environment::Testing => String::from_str("testing"),
            Environment::Other(other) => other.clone(),
        }
    }

    /// The name of the settings file of this environment.
    pub fn config_file(&self) -> (r: String)
        ensures
            r@ == self.name() + ".yaml"@,
    {
        let mut out = self.to_string();
        out.append(".yaml");
        out
    }
}

} // verus!
