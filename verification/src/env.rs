//! The server's configuration, from the values of its environment variables.

use vstd::prelude::*;
use crate::database::{DatabaseConfig, MySQLDatabaseConfig};
use crate::path::str_eq;

verus! {

/// The environment variables the configuration is read from, each with its
/// value where it is set.
pub struct EnvValues {
    pub database_mode: Option<String>,
    pub database_url: Option<String>,
    pub db_max_connections: Option<String>,
    pub cloud_root_directory: Option<String>,
    pub log_directory: Option<String>,
    pub webserver_port: Option<String>,
    pub jwt_secret: Option<String>,
    pub client_origin: Option<String>,
}

/// The environment variables of the configuration.
#[derive(Clone, Copy, Debug, PartialEq, Eq, Structural)]
pub enum EnvVar {
    DatabaseMode,
    DatabaseUrl,
    DbMaxConnections,
    CloudRootDirectory,
    LogDirectory,
    WebserverPort,
    JwtSecret,
    ClientOrigin,
}

/// Why the configuration could not be read.
#[derive(Debug)]
pub enum ConfigError {
    /// The variable is not set.
    Missing(EnvVar),
    /// The variable does not hold a number of the required range.
    NotANumber(EnvVar),
    /// The database mode is neither `mysql` nor `mock`.
    UnknownDatabaseMode(String),
}

pub struct MyFileCloudServerConfig {
    pub cloud_root_directory: String,
    pub log_directory: String,
    pub webserver_port: u16,
    pub jwt_secret: String,
    pub database_config: DatabaseConfig,
    pub client_origin: String,
}

/// Whether every character of `s` is a decimal digit.
pub open spec fn all_digits(s: Seq<char>) -> bool {
    forall|i: int| 0 <= i < s.len() ==> '0' <= #[trigger] s[i] <= '9'
}

/// The number that the decimal digits `s` write.
pub open spec fn digits_value(s: Seq<char>) -> int
    decreases s.len(),
{
    if s.len() == 0 {
        0
    } else {
        digits_value(s.drop_last()) * 10 + (s.last() as int - '0' as int)
    }
}

/// The unsigned number `s` writes in decimal, with an optional leading `+`,
/// if it writes one no greater than `max`.
pub open spec fn parse_unsigned(s: Seq<char>, max: int) -> Option<int> {
    let d = if s.len() > 0 && s[0] == '+' { s.drop_first() } else { s };
    if d.len() > 0 && all_digits(d) && digits_value(d) <= max {
        Some(digits_value(d))
    } else {
        None
    }
}

/// Appending digits never makes the number smaller.
proof fn lemma_digits_grow(s: Seq<char>, i: int, j: int)
    requires
        all_digits(s),
        0 <= i <= j <= s.len(),
    ensures
        digits_value(s.take(i)) <= digits_value(s.take(j)),
        digits_value(s.take(i)) >= 0,
    decreases j - i,
{
    lemma_digits_nonneg(s.take(i));
    if i < j {
        lemma_digits_grow(s, i, j - 1);
        assert(s.take(j).drop_last() =~= s.take(j - 1));
        lemma_digits_nonneg(s.take(j - 1));
    }
}

proof fn lemma_digits_nonneg(s: Seq<char>)
    requires
        all_digits(s),
    ensures
        digits_value(s) >= 0,
    decreases s.len(),
{
    if s.len() > 0 {
        lemma_digits_nonneg(s.drop_last());
    }
}

/// Reads `s` as an unsigned decimal number no greater than `max`, as Rust's
/// `from_str` for unsigned integers does.
pub fn parse_decimal(s: &str, max: u64) -> (res: Option<u64>)
    requires
        max <= u32::MAX,
    ensures
        res matches Some(v) ==> parse_unsigned(s@, max as int) == Some(v as int),
        res is None ==> parse_unsigned(s@, max as int) is None,
{
    let n = s.unicode_len();
    let start: usize = if n > 0 && s.get_char(0) == '+' { 1 } else { 0 };
    let ghost d = if s@.len() > 0 && s@[0] == '+' { s@.drop_first() } else { s@ };
    assert(d =~= s@.subrange(start as int, n as int));
    if start == n {
        return None;
    }
    let mut acc: u64 = 0;
    let mut i: usize = start;
    while i < n
        invariant
            n == s@.len(),
            start <= i <= n,
            d =~= s@.subrange(start as int, n as int),
            d == (if s@.len() > 0 && s@[0] == '+' { s@.drop_first() } else { s@ }),
            all_digits(d.take(i - start)),
            acc == digits_value(d.take(i - start)),
            acc <= max,
            max <= u32::MAX,
        decreases n - i,
    {
        let c = s.get_char(i);
        let ghost k = i - start;
        assert(d[k] == c);
        if c < '0' || c > '9' {
            assert(!('0' <= d[k] <= '9'));
            assert(!all_digits(d));
            assert(parse_unsigned(s@, max as int) is None);
            return None;
        }
        let digit = (c as u32 - '0' as u32) as u64;
        assert(d.take(k + 1).drop_last() =~= d.take(k));
        assert(all_digits(d.take(k + 1)));
        assert(acc * 10 + digit <= u32::MAX as u64 * 10 + 9) by (nonlinear_arith)
            requires
                acc <= u32::MAX,
                digit <= 9,
        ;
        acc = acc * 10 + digit;
        i = i + 1;
        assert(acc == digits_value(d.take(i - start)));
        if acc > max {
            proof {
                if all_digits(d) {
                    assert(d.take(d.len() as int) =~= d);
                    lemma_digits_grow(d, k + 1, d.len() as int);
                    assert(digits_value(d) > max);
                }
                assert(parse_unsigned(s@, max as int) is None);
            }
            return None;
        }
    }
    assert(d.take(i - start) =~= d);
    Some(acc)
}

/// Whether the database mode is one the server knows.
pub open spec fn known_mode(m: Seq<char>) -> bool {
    m == "mysql"@ || m == "mock"@
}

/// The failure of reading the variables after the database configuration, if any.
pub open spec fn later_config_error(env: EnvValues) -> Option<ConfigError> {
    if env.cloud_root_directory is None {
        Some(ConfigError::Missing(EnvVar::CloudRootDirectory))
    } else if env.log_directory is None {
        Some(ConfigError::Missing(EnvVar::LogDirectory))
    } else if env.webserver_port is None {
        Some(ConfigError::Missing(EnvVar::WebserverPort))
    } else if parse_unsigned(env.webserver_port->Some_0@, u16::MAX as int) is None {
        Some(ConfigError::NotANumber(EnvVar::WebserverPort))
    } else if env.jwt_secret is None {
        Some(ConfigError::Missing(EnvVar::JwtSecret))
    } else if env.client_origin is None {
        Some(ConfigError::Missing(EnvVar::ClientOrigin))
    } else {
        None
    }
}

/// The first failure of reading the configuration, if any: the database mode
/// is read first, then what that mode needs, then the root directory of the
/// storage, the log directory, the port, the token secret and the origin of
/// the client.
pub open spec fn first_config_error(env: EnvValues) -> Option<ConfigError> {
    if env.database_mode is None {
        Some(ConfigError::Missing(EnvVar::DatabaseMode))
    } else if env.database_mode->Some_0@ == "mysql"@ {
        if env.database_url is None {
            Some(ConfigError::Missing(EnvVar::DatabaseUrl))
        } else if env.db_max_connections is None {
            Some(ConfigError::Missing(EnvVar::DbMaxConnections))
        } else if parse_unsigned(env.db_max_connections->Some_0@, u32::MAX as int) is None {
            Some(ConfigError::NotANumber(EnvVar::DbMaxConnections))
        } else {
            later_config_error(env)
        }
    } else if env.database_mode->Some_0@ == "mock"@ {
        later_config_error(env)
    } else {
        Some(ConfigError::UnknownDatabaseMode(env.database_mode->Some_0))
    }
}

/// Whether `c` is the configuration that the variables give.
pub open spec fn config_from(env: EnvValues, c: MyFileCloudServerConfig) -> bool {
    &&& env.database_mode is Some
    &&& (env.database_mode->Some_0@ == "mock"@ ==> c.database_config is Mock)
    &&& (env.database_mode->Some_0@ == "mysql"@ ==> {
        &&& c.database_config is MySQL
        &&& env.database_url == Some(c.database_config->MySQL_0.database_url)
        &&& parse_unsigned(env.db_max_connections->Some_0@, u32::MAX as int) == Some(
            c.database_config->MySQL_0.max_connections as int,
        )
    })
    &&& env.cloud_root_directory == Some(c.cloud_root_directory)
    &&& env.log_directory == Some(c.log_directory)
    &&& parse_unsigned(env.webserver_port->Some_0@, u16::MAX as int) == Some(c.webserver_port as int)
    &&& env.jwt_secret == Some(c.jwt_secret)
    &&& env.client_origin == Some(c.client_origin)
}

/// The configuration the environment gives, or its first failure.
pub fn parse_config(env: EnvValues) -> (res: Result<MyFileCloudServerConfig, ConfigError>)
    ensures
        res is Err <==> first_config_error(env) is Some,
        res matches Err(e) ==> first_config_error(env) == Some(e),
        res matches Ok(c) ==> config_from(env, c),
{
    let EnvValues {
        database_mode,
        database_url,
        db_max_connections,
        cloud_root_directory,
        log_directory,
        webserver_port,
        jwt_secret,
        client_origin,
    } = env;
    let db_mode = match database_mode {
        Some(m) => m,
        None => return Err(ConfigError::Missing(EnvVar::DatabaseMode)),
    };
    let mysql = "mysql";
    let mock = "mock";
    proof {
        reveal_strlit("mysql");
        reveal_strlit("mock");
        assert("mysql"@.len() == 5 && "mock"@.len() == 4);
    }
    let database_config = if str_eq(db_mode.as_str(), mysql) {
        let url = match database_url {
            Some(u) => u,
            None => return Err(ConfigError::Missing(EnvVar::DatabaseUrl)),
        };
        let text = match db_max_connections {
            Some(t) => t,
            None => return Err(ConfigError::Missing(EnvVar::DbMaxConnections)),
        };
        let max_connections = match parse_decimal(text.as_str(), u32::MAX as u64) {
            Some(v) => {
                assert(v <= u32::MAX);
                v as u32
            },
            None => return Err(ConfigError::NotANumber(EnvVar::DbMaxConnections)),
        };
        DatabaseConfig::MySQL(MySQLDatabaseConfig { database_url: url, max_connections })
    } else if str_eq(db_mode.as_str(), mock) {
        DatabaseConfig::Mock
    } else {
        return Err(ConfigError::UnknownDatabaseMode(db_mode));
    };
    let cloud_root_directory = match cloud_root_directory {
        Some(v) => v,
        None => return Err(ConfigError::Missing(EnvVar::CloudRootDirectory)),
    };
    let log_directory = match log_directory {
        Some(v) => v,
        None => return Err(ConfigError::Missing(EnvVar::LogDirectory)),
    };
    let webserver_port = match webserver_port {
        Some(p) => match parse_decimal(p.as_str(), u16::MAX as u64) {
            Some(v) => {
                assert(v <= u16::MAX);
                v as u16
            },
            None => return Err(ConfigError::NotANumber(EnvVar::WebserverPort)),
        },
        None => return Err(ConfigError::Missing(EnvVar::WebserverPort)),
    };
    let jwt_secret = match jwt_secret {
        Some(v) => v,
        None => return Err(ConfigError::Missing(EnvVar::JwtSecret)),
    };
    let client_origin = match client_origin {
        Some(v) => v,
        None => return Err(ConfigError::Missing(EnvVar::ClientOrigin)),
    };
    Ok(MyFileCloudServerConfig {
        cloud_root_directory,
        log_directory,
        webserver_port,
        jwt_secret,
        database_config,
        client_origin,
    })
}

} // verus!
