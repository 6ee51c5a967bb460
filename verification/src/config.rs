//! The site's configuration, as read from `config.toml`.

use vstd::prelude::*;

verus! {

/// The whole configuration file.
#[derive(Clone)]
pub struct AppConfig {
    pub server: ServerSection,
    pub database: DatabaseSection,
    pub smtp: SmtpConfig,
}

/// The `[server]` section.
#[derive(Clone)]
pub struct ServerSection {
    /// The base of the links sent by e-mail.
    pub public_url: String,
}

/// The `[database]` section.
#[derive(Clone)]
pub struct DatabaseSection {
    /// The SQLite file, created when missing.
    pub path: String,
}

/// SMTP connection details. Deliberately without `Debug`, so that a stray
/// `{:?}` never leaks the password into logs.
#[derive(Clone)]
pub struct SmtpConfig {
    pub host: String,
    pub port: u16,
    pub username: String,
    pub password: String,
    pub from_address: String,
    /// Defaults to [`default_starttls`] when the file leaves it out.
    pub use_starttls: bool,
}

/// The value of `use_starttls` when the configuration leaves it out.
pub fn default_starttls() -> (b: bool)
    ensures
        b,
{
    true
}

/// How the connection to the SMTP relay is secured.
#[derive(Debug, Clone, Copy, PartialEq, Eq, Structural)]
pub enum SmtpSecurity {
    /// Plain connection upgraded with STARTTLS.
    Starttls,
    /// TLS from the first byte (SMTPS).
    Smtps,
}

impl SmtpConfig {
    /// STARTTLS when `use_starttls` is set, SMTPS otherwise.
    pub fn security(&self) -> (s: SmtpSecurity)
        ensures
            (s is Starttls) == self.use_starttls,
    {
        if self.use_starttls {
            SmtpSecurity::Starttls
        } else {
            SmtpSecurity::Smtps
        }
    }
}

} // verus!
