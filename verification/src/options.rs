//! Connection options.

use crate::names::DEFAULT_PORT;
use crate::text;
use vstd::prelude::*;

verus! {

/// Connection options.
#[derive(Debug)]
pub struct Options {
    pub host: String,
    pub port: u16,
    pub protocol: String,
    /// Sent as AUTHENTICATION right after connecting — required when the
    /// server runs with auth enabled.
    pub auth_token: Option<String>,
}

/// Options for a server on this machine at the default port, without a token.
pub open spec fn is_default(options: Options) -> bool {
    &&& options.host@ == "localhost"@
    &&& options.port == DEFAULT_PORT
    &&& options.protocol@ == "http"@
    &&& options.auth_token is None
}

/// The address of a server.
pub open spec fn address(protocol: Seq<char>, host: Seq<char>, port: u16) -> Seq<char> {
    protocol + "://"@ + host + ":"@ + text::decimal(port as nat)
}

impl Options {
    /// A server on this machine at the default port, without a token.
    pub fn new() -> (res: Self)
        ensures
            is_default(res),
            res.host@ == "localhost"@,
            res.port == DEFAULT_PORT,
            res.protocol@ == "http"@,
            res.auth_token is None,
    {
        Options {
            host: "localhost".to_owned(),
            port: DEFAULT_PORT,
            protocol: "http".to_owned(),
            auth_token: None,
        }
    }

    /// The same options with another host.
    pub fn host(self, host: &str) -> (res: Self)
        ensures
            res.host@ == host@,
            res == (Options { host: res.host, ..self }),
    {
        Options { host: host.to_owned(), ..self }
    }

    /// The same options with another port.
    pub fn port(self, port: u16) -> (res: Self)
        ensures
            res == (Options { port, ..self }),
    {
        Options { port, ..self }
    }

    /// The same options with another protocol.
    pub fn protocol(self, protocol: &str) -> (res: Self)
        ensures
            res.protocol@ == protocol@,
            res == (Options { protocol: res.protocol, ..self }),
    {
        Options { protocol: protocol.to_owned(), ..self }
    }

    /// The same options with a token to authenticate with.
    pub fn auth_token(self, token: &str) -> (res: Self)
        ensures
            res.auth_token matches Some(t) && t@ == token@,
            res == (Options { auth_token: res.auth_token, ..self }),
    {
        Options { auth_token: Some(token.to_owned()), ..self }
    }

    /// The address that these options connect to.
    pub open spec fn spec_url(self) -> Seq<char> {
        address(self.protocol@, self.host@, self.port)
    }

    /// The address that these options connect to.
    pub fn url(&self) -> (res: String)
        ensures
            res@ == self.spec_url(),
            res@ == self.protocol@ + "://"@ + self.host@ + ":"@ + text::decimal(self.port as nat),
    {
        let port = text::decimal_text(self.port);
        self.protocol.clone().concat("://").concat(self.host.as_str()).concat(":").concat(
            port.as_str(),
        )
    }
}

impl Clone for Options {
    fn clone(&self) -> (res: Self)
        ensures
            res == *self,
    {
        Options {
            host: self.host.clone(),
            port: self.port,
            protocol: self.protocol.clone(),
            auth_token: self.auth_token.clone(),
        }
    }
}

impl Default for Options {
    fn default() -> (res: Self)
        ensures
            is_default(res),
    {
        Self::new()
    }
}

} // verus!
