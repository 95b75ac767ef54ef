//! Connection settings and the server-address rule; the login itself is
//! native driver work and lives with the caller.
use vstd::prelude::*;

verus! {

use crate::error::Error;
use crate::strutil::push_u64_dec;
use crate::strutil::string_from_chars;
use crate::strutil::u_dec;
use vstd::string::StringExecFns;

/// The TDS protocol version requested at login.
#[derive(Debug, Clone, Copy, PartialEq, Eq, Structural)]
pub enum TdsVersion {
    Auto,
    Tds40,
    Tds42,
    Tds495,
    Tds50,
    Tds70,
    Tds72,
    Tds73,
    Tds74,
}

/// Connection settings gathered before login.
#[derive(Debug)]
pub struct ConnectionBuilder {
    pub host: Option<String>,
    pub port: Option<u16>,
    pub server_name: Option<String>,
    pub client_charset: Option<String>,
    pub username: Option<String>,
    pub password: Option<String>,
    pub database: Option<String>,
    pub tds_version: Option<TdsVersion>,
    pub login_timeout: Option<i32>,
    pub timeout: Option<i32>,
}

impl Default for ConnectionBuilder {
    fn default() -> (r: Self)
        ensures
            r.host is None && r.port is None && r.server_name is None && r.client_charset is None
                && r.username is None && r.password is None && r.database is None && r.tds_version
                is None && r.login_timeout is None && r.timeout is None,
    {
        ConnectionBuilder {
            host: None,
            port: None,
            server_name: None,
            client_charset: None,
            username: None,
            password: None,
            database: None,
            tds_version: None,
            login_timeout: None,
            timeout: None,
        }
    }
}

impl ConnectionBuilder {
    pub fn server_name(self, server: &str) -> (r: Self)
        ensures
            r.server_name matches Some(s) && s@ == server@,
            r == (Self { server_name: r.server_name, ..self }),
    {
        Self { server_name: Some(server.to_owned()), ..self }
    }

    pub fn host(self, host: &str) -> (r: Self)
        ensures
            r.host matches Some(s) && s@ == host@,
            r == (Self { host: r.host, ..self }),
    {
        Self { host: Some(host.to_owned()), ..self }
    }

    pub fn port(self, port: u16) -> (r: Self)
        ensures
            r == (Self { port: Some(port), ..self }),
    {
        Self { port: Some(port), ..self }
    }

    pub fn client_charset(self, charset: &str) -> (r: Self)
        ensures
            r.client_charset matches Some(s) && s@ == charset@,
            r == (Self { client_charset: r.client_charset, ..self }),
    {
        Self { client_charset: Some(charset.to_owned()), ..self }
    }

    pub fn username(self, username: &str) -> (r: Self)
        ensures
            r.username matches Some(s) && s@ == username@,
            r == (Self { username: r.username, ..self }),
    {
        Self { username: Some(username.to_owned()), ..self }
    }

    pub fn password(self, password: &str) -> (r: Self)
        ensures
            r.password matches Some(s) && s@ == password@,
            r == (Self { password: r.password, ..self }),
    {
        Self { password: Some(password.to_owned()), ..self }
    }

    pub fn database(self, database: &str) -> (r: Self)
        ensures
            r.database matches Some(s) && s@ == database@,
            r == (Self { database: r.database, ..self }),
    {
        Self { database: Some(database.to_owned()), ..self }
    }

    pub fn get_database(&self) -> (r: Option<String>)
        ensures
            ({
                match self.database {
                    None => r is None,
                    Some(d) => r matches Some(s) && s@ == d@,
                }
            }),
    {
        match &self.database {
            None => None,
            Some(d) => Some(d.clone()),
        }
    }

    pub fn tds_version(self, version: TdsVersion) -> (r: Self)
        ensures
            r == (Self { tds_version: Some(version), ..self }),
    {
        Self { tds_version: Some(version), ..self }
    }

    pub fn login_timeout(self, timeout: i32) -> (r: Self)
        ensures
            r == (Self { login_timeout: Some(timeout), ..self }),
    {
        Self { login_timeout: Some(timeout), ..self }
    }

    pub fn timeout(self, timeout: i32) -> (r: Self)
        ensures
            r == (Self { timeout: Some(timeout), ..self }),
    {
        Self { timeout: Some(timeout), ..self }
    }

    /// The address handed to the driver at login: the explicit server
    /// name; else `host:port` with port 5000 when unset; else an error.
    pub fn server_address(&self) -> (r: Result<String, Error>)
        ensures
            ({
                match (self.server_name, self.host) {
                    (Some(s), _) => r matches Ok(a) && a@ == s@,
                    (None, Some(h)) => r matches Ok(a) && a@ == h@ + ":"@ + u_dec(
                        port_or_default(self.port) as nat,
                    ),
                    (None, None) => r matches Err(e) && e.desc@
                        == "Server host address not configured"@,
                }
            }),
    {
        if let Some(s) = &self.server_name {
            return Ok(s.clone());
        }
        if let Some(h) = &self.host {
            let port: u16 = match self.port {
                Some(p) => p,
                None => 5000,
            };
            let mut addr = h.clone();
            addr.append(":");
            let mut digits: Vec<char> = Vec::new();
            push_u64_dec(&mut digits, port as u64);
            let t = string_from_chars(&digits);
            addr.append(t.as_str());
            return Ok(addr);
        }
        Err(Error::from_message("Server host address not configured"))
    }
}

/// The port used when none was set.
pub open spec fn port_or_default(p: Option<u16>) -> u16 {
    match p {
        None => 5000u16,
        Some(q) => q,
    }
}

} // verus!
