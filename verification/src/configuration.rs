//! The settings this service runs with.

use crate::text::{decimal, decimal_text, joined};
use vstd::prelude::*;

verus! {

/// All settings: the port to listen on and how to reach the database.
#[derive(Debug)]
pub struct Settings {
    pub application_listen_port: u16,
    pub database: DatabaseSettings,
}

/// How to reach the database.
#[derive(Debug)]
pub struct DatabaseSettings {
    pub username: String,
    pub password: String,
    pub port: u16,
    pub host: String,
    pub name: String,
}

/// The address of a database server: `postgres://`, the user, `:`, the
/// password, `@`, the host, `:`, and the port in decimal.
pub open spec fn server_address(
    username: Seq<char>,
    password: Seq<char>,
    host: Seq<char>,
    port: u16,
) -> Seq<char> {
    "postgres://"@ + username + ":"@ + password + "@"@ + host + ":"@ + decimal_text(port as nat)
}

impl DatabaseSettings {
    /// The address of the database server, without a database.
    pub fn connection_string_without_db(&self) -> (r: String)
        ensures
            r@ == server_address(self.username@, self.password@, self.host@, self.port),
    {
        let port = decimal(self.port);
        let mut r = joined("postgres://", self.username.as_str());
        r.append(":");
        r.append(self.password.as_str());
        r.append("@");
        r.append(self.host.as_str());
        r.append(":");
        r.append(port.as_str());
        r
    }

    /// The address of the database: that of the server, `/`, and the
    /// database's name.
    pub fn connection_string(&self) -> (r: String)
        ensures
            r@ == server_address(self.username@, self.password@, self.host@, self.port) + "/"@
                + self.name@,
    {
        let mut r = self.connection_string_without_db();
        r.append("/");
        r.append(self.name.as_str());
        r
    }
}

} // verus!
