//! Process configuration: the listen address and the runtime environment.
//!
//! Reading the environment is the caller's concern; this module only holds
//! the parsed values and the rules that interpret them.

use vstd::prelude::*;
use vstd::string::StringExecFns;

use crate::canonical::dec_of;
use crate::canonical::u64_to_dec;

verus! {

/// The runtime environment of the process.
#[derive(Debug, Clone, PartialEq, Eq, Structural)]
pub enum Environment {
    Development,
    Production,
    Test,
}

/// What `str::to_lowercase` returns: a function of the input characters
/// alone.
pub uninterp spec fn lowercase_of(s: Seq<char>) -> Seq<char>;

/// Relies on `str::to_lowercase`: the lowercase equivalent of the string,
/// a function of the input characters alone.
#[verifier::external_body]
fn to_lowercase(s: &str) -> (r: String)
    ensures
        r@ == lowercase_of(s@),
{
    s.to_lowercase()
}

/// Which environment a configuration string names: `production` or `prod`
/// select production, `test` selects test, anything else is development.
/// The comparison ignores case.
pub open spec fn environment_of(s: Seq<char>) -> Environment {
    if lowercase_of(s) == "production"@ || lowercase_of(s) == "prod"@ {
        Environment::Production
    } else if lowercase_of(s) == "test"@ {
        Environment::Test
    } else {
        Environment::Development
    }
}

impl Environment {
    /// Parse an environment name, ignoring case; unknown names fall back to
    /// development.
    pub fn from_str(s: &str) -> (r: Environment)
        ensures
            r == environment_of(s@),
    {
        let lowered = to_lowercase(s);
        if lowered == "production".to_owned() || lowered == "prod".to_owned() {
            Environment::Production
        } else if lowered == "test".to_owned() {
            Environment::Test
        } else {
            Environment::Development
        }
    }

    pub fn is_production(&self) -> (r: bool)
        ensures
            r == (*self == Environment::Production),
    {
        match self {
            Environment::Production => true,
            _ => false,
        }
    }

    pub fn is_development(&self) -> (r: bool)
        ensures
            r == (*self == Environment::Development),
    {
        match self {
            Environment::Development => true,
            _ => false,
        }
    }

    pub fn is_test(&self) -> (r: bool)
        ensures
            r == (*self == Environment::Test),
    {
        match self {
            Environment::Test => true,
            _ => false,
        }
    }
}

/// The process configuration.
#[derive(Debug, Clone)]
pub struct Config {
    pub port: u16,
    pub host: String,
    pub environment: Environment,
}

impl Config {
    /// The listen address: host, a colon, and the port in decimal.
    pub fn address(&self) -> (r: String)
        ensures
            r@ == self.host@ + ":"@ + dec_of(self.port as nat),
    {
        let mut r = self.host.clone();
        r.append(":");
        let port = u64_to_dec(self.port as u64);
        r.append(port.as_str());
        r
    }
}

impl Default for Config {
    /// The development defaults: port 3000, every interface.
    fn default() -> (r: Config)
        ensures
            r.port == 3000,
            r.host@ == "0.0.0.0"@,
            r.environment == Environment::Development,
    {
        Config { port: 3000, host: "0.0.0.0".to_owned(), environment: Environment::Development }
    }
}

} // verus!
