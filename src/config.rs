use vstd::prelude::*;

verus! {

/// The address that notifications are sent from.
pub const SENDER_ADDRESS: &'static str = "no-reply@affinity.com";

/// The subject line of a price notification.
pub const NOTIFICATION_SUBJECT: &'static str = "Price History Update";

/// A required setting that was not found at startup.
#[derive(Clone, Copy, Debug, PartialEq, Eq, Structural)]
pub enum ConfigError {
    MissingHost,
    MissingUsername,
    MissingPassword,
}

/// The mail relay that notifications go through, resolved once at startup.
#[derive(Debug)]
pub struct EmailConfig {
    smtp_host: String,
    smtp_username: String,
    smtp_password: String,
}

impl EmailConfig {
    pub closed spec fn host(&self) -> Seq<char> {
        self.smtp_host@
    }

    pub closed spec fn username(&self) -> Seq<char> {
        self.smtp_username@
    }

    pub closed spec fn password(&self) -> Seq<char> {
        self.smtp_password@
    }

    /// The relay settings from the three values found at startup; the first
    /// one missing, in the order host, username, password, is the error.
    pub fn init(host: Option<String>, username: Option<String>, password: Option<String>) -> (r:
        Result<EmailConfig, ConfigError>)
        ensures
            host is None ==> r == Err::<EmailConfig, ConfigError>(ConfigError::MissingHost),
            host is Some && username is None ==> r == Err::<EmailConfig, ConfigError>(
                ConfigError::MissingUsername,
            ),
            host is Some && username is Some && password is None ==> r == Err::<
                EmailConfig,
                ConfigError,
            >(ConfigError::MissingPassword),
            match (host, username, password, r) {
                (Some(h), Some(u), Some(p), Ok(c)) => c.host() == h@ && c.username() == u@
                    && c.password() == p@,
                (Some(_), Some(_), Some(_), Err(_)) => false,
                _ => true,
            },
    {
        let smtp_host = match host {
            Some(h) => h,
            None => return Err(ConfigError::MissingHost),
        };
        let smtp_username = match username {
            Some(u) => u,
            None => return Err(ConfigError::MissingUsername),
        };
        let smtp_password = match password {
            Some(p) => p,
            None => return Err(ConfigError::MissingPassword),
        };
        Ok(EmailConfig { smtp_host, smtp_username, smtp_password })
    }

    pub fn smtp_host(&self) -> (r: &str)
        ensures
            r@ == self.host(),
    {
        self.smtp_host.as_str()
    }

    pub fn smtp_username(&self) -> (r: &str)
        ensures
            r@ == self.username(),
    {
        self.smtp_username.as_str()
    }

    pub fn smtp_password(&self) -> (r: &str)
        ensures
            r@ == self.password(),
    {
        self.smtp_password.as_str()
    }
}

} // verus!
