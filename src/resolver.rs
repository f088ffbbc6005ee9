//! The connection target of a stored profile: its password decrypted, its
//! defaults applied, and the connection string a Postgres client reads.

use vstd::prelude::*;
use vstd::string::*;

use crate::models::Connection;
use crate::vault::{aes256_base64_decryption, decrypt_data, ENCRYPTION_KEY};

verus! {

/// The port of a profile that names none: Postgres's conventional port.
pub const DEFAULT_PORT: i64 = 5432;

/// The TLS mode of a profile that names none.
pub const DEFAULT_SSL_MODE: &'static str = "prefer";

pub const DECIMAL_DIGITS: &'static str = "0123456789";

pub const MINUS: &'static str = "-";

pub const DECRYPT_CONNECTION_FAILED: &'static str = "Could not decrypt connection password";

/// The decimal digits of `n`, most significant first.
pub open spec fn decimal_digits(n: nat) -> Seq<char>
    decreases n,
{
    if n < 10 {
        DECIMAL_DIGITS@.subrange(n as int, n + 1int)
    } else {
        decimal_digits(n / 10) + DECIMAL_DIGITS@.subrange((n % 10) as int, (n % 10) + 1int)
    }
}

/// `n` written in decimal, with a leading minus sign when negative.
pub open spec fn decimal(n: int) -> Seq<char> {
    if n < 0 {
        MINUS@ + decimal_digits((-n) as nat)
    } else {
        decimal_digits(n as nat)
    }
}

fn push_decimal_digits(out: &mut String, n: u64)
    ensures
        final(out)@ == old(out)@ + decimal_digits(n as nat),
    decreases n,
{
    proof {
        reveal_strlit("0123456789");
    }
    if n >= 10 {
        push_decimal_digits(out, n / 10);
    }
    let d = (n % 10) as usize;
    out.append(DECIMAL_DIGITS.substring_char(d, d + 1));
    assert(final(out)@ =~= old(out)@ + decimal_digits(n as nat));
}

/// `n` in decimal.
pub fn decimal_text(n: i64) -> (r: String)
    ensures
        r@ == decimal(n as int),
{
    if n < 0 {
        let magnitude = (-(n as i128)) as u64;
        let mut r = String::from_str(MINUS);
        push_decimal_digits(&mut r, magnitude);
        r
    } else {
        let mut r = String::new();
        push_decimal_digits(&mut r, n as u64);
        assert(r@ =~= decimal(n as int));
        r
    }
}

/// Where and how to connect: a profile with its password decrypted and its
/// defaults applied.
#[derive(Debug, Clone, PartialEq, Eq)]
pub struct ConnectionTarget {
    pub host: String,
    pub port: i64,
    pub database: String,
    pub user: String,
    pub password: String,
    pub ssl_mode: String,
}

pub struct ConnectionTargetView {
    pub host: Seq<char>,
    pub port: int,
    pub database: Seq<char>,
    pub user: Seq<char>,
    pub password: Seq<char>,
    pub ssl_mode: Seq<char>,
}

impl View for ConnectionTarget {
    type V = ConnectionTargetView;

    open spec fn view(&self) -> ConnectionTargetView {
        ConnectionTargetView {
            host: self.host@,
            port: self.port as int,
            database: self.database@,
            user: self.user@,
            password: self.password@,
            ssl_mode: self.ssl_mode@,
        }
    }
}

/// The target of `connection` once its password is known.
pub open spec fn target_spec(connection: Connection, password: Seq<char>) -> ConnectionTargetView {
    ConnectionTargetView {
        host: connection.host@,
        port: match connection.port {
            Some(p) => p as int,
            None => DEFAULT_PORT as int,
        },
        database: connection.db_name@,
        user: connection.db_user@,
        password,
        ssl_mode: match connection.ssl_mode {
            Some(m) => m@,
            None => DEFAULT_SSL_MODE@,
        },
    }
}

/// The connection string of a target.
pub open spec fn url_spec(t: ConnectionTargetView) -> Seq<char> {
    "postgresql://"@ + t.user + ":"@ + t.password + "@"@ + t.host + ":"@ + decimal(t.port) + "/"@
        + t.database + "?sslmode="@ + t.ssl_mode
}

/// Applies the defaults of `connection` and pairs it with its password.
pub fn resolve_target(connection: &Connection, password: &str) -> (r: ConnectionTarget)
    ensures
        r@ == target_spec(*connection, password@),
{
    let port = match connection.port {
        Some(p) => p,
        None => DEFAULT_PORT,
    };
    let ssl_mode = match &connection.ssl_mode {
        Some(m) => m.clone(),
        None => String::from_str(DEFAULT_SSL_MODE),
    };
    ConnectionTarget {
        host: connection.host.clone(),
        port,
        database: connection.db_name.clone(),
        user: connection.db_user.clone(),
        password: String::from_str(password),
        ssl_mode,
    }
}

impl ConnectionTarget {
    /// The connection string of this target.
    pub fn url(&self) -> (r: String)
        ensures
            r@ == url_spec(self@),
    {
        let mut r = String::from_str("postgresql://");
        r.append(self.user.as_str());
        r.append(":");
        r.append(self.password.as_str());
        r.append("@");
        r.append(self.host.as_str());
        r.append(":");
        let port = decimal_text(self.port);
        r.append(port.as_str());
        r.append("/");
        r.append(self.database.as_str());
        r.append("?sslmode=");
        r.append(self.ssl_mode.as_str());
        r
    }
}

/// The connection string of `connection` once its password is known.
pub fn connection_url(connection: &Connection, password: &str) -> (r: String)
    ensures
        r@ == url_spec(target_spec(*connection, password@)),
{
    resolve_target(connection, password).url()
}

/// The connection string of a stored profile. A password that does not
/// decrypt is an error; no partial or substitute secret is ever used.
pub fn create_pg_connection_string(connection: &Connection) -> (r: Result<String, String>)
    ensures
        match aes256_base64_decryption(ENCRYPTION_KEY@, connection.db_password_encrypted@) {
            Some(p) => r matches Ok(s) && s@ == url_spec(target_spec(*connection, p)),
            None => r matches Err(e) && e@ == DECRYPT_CONNECTION_FAILED@,
        },
{
    match decrypt_data(connection.db_password_encrypted.as_str()) {
        Ok(password) => Ok(connection_url(connection, password.as_str())),
        Err(_) => Err(String::from_str(DECRYPT_CONNECTION_FAILED)),
    }
}

} // verus!
