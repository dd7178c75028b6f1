//! The credentials that a client is built with.

use vstd::prelude::*;

verus! {

/// The credentials of an application and, optionally, of a user. A
/// configuration is made once and not changed once a client holds it.
#[derive(Debug)]
pub struct Config {
    /// The user agent, best of the form `platform:name:version (by /u/owner)`.
    pub user_agent: String,
    /// The id of the application.
    pub client_id: String,
    /// The secret of the application.
    pub client_secret: String,
    /// The name of the user.
    pub username: Option<String>,
    /// The password of the user.
    pub password: Option<String>,
    /// An access token obtained earlier.
    pub access_token: Option<String>,
}

impl Clone for Config {
    fn clone(&self) -> (r: Self)
        ensures
            r == *self,
    {
        Config {
            user_agent: self.user_agent.clone(),
            client_id: self.client_id.clone(),
            client_secret: self.client_secret.clone(),
            username: match &self.username {
                Some(s) => Some(s.clone()),
                None => None,
            },
            password: match &self.password {
                Some(s) => Some(s.clone()),
                None => None,
            },
            access_token: match &self.access_token {
                Some(s) => Some(s.clone()),
                None => None,
            },
        }
    }
}

impl Config {
    /// A configuration for an application, without a user.
    pub fn new(user_agent: &str, client_id: &str, client_secret: &str) -> (r: Config)
        ensures
            r.user_agent@ == user_agent@,
            r.client_id@ == client_id@,
            r.client_secret@ == client_secret@,
            r.username is None,
            r.password is None,
            r.access_token is None,
    {
        Config {
            user_agent: user_agent.to_owned(),
            client_id: client_id.to_owned(),
            client_secret: client_secret.to_owned(),
            username: None,
            password: None,
            access_token: None,
        }
    }

    /// The configuration with this password.
    pub fn password(self, password: &str) -> (r: Config)
        ensures
            r.password matches Some(p) && p@ == password@,
            r.user_agent == self.user_agent,
            r.client_id == self.client_id,
            r.client_secret == self.client_secret,
            r.username == self.username,
            r.access_token == self.access_token,
    {
        let mut config = self;
        config.password = Some(password.to_owned());
        config
    }

    /// The configuration with this user name.
    pub fn username(self, username: &str) -> (r: Config)
        ensures
            r.username matches Some(u) && u@ == username@,
            r.user_agent == self.user_agent,
            r.client_id == self.client_id,
            r.client_secret == self.client_secret,
            r.password == self.password,
            r.access_token == self.access_token,
    {
        let mut config = self;
        config.username = Some(username.to_owned());
        config
    }

    /// The base URL of the API for this configuration: the OAuth host where
    /// a password is set, the public host otherwise.
    pub fn base_url(&self) -> (r: &'static str)
        ensures
            r@ == if self.password is Some {
                "https://oauth.reddit.com"@
            } else {
                "https://www.reddit.com"@
            },
    {
        if self.password.is_some() {
            "https://oauth.reddit.com"
        } else {
            "https://www.reddit.com"
        }
    }
}

} // verus!
