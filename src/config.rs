use vstd::prelude::*;
use vstd::string::StringExecFns;

verus! {

pub const MONGODB_URI: &'static str = "MONGODB_URI";

pub const MONGODB_DEFAULT_DATABASE: &'static str = "MONGODB_DEFAULT_DATABASE";

pub const MONGODB_DEFAULT_COLLECTION: &'static str = "MONGODB_DEFAULT_COLLECTION";

pub const MONGODB_POOL_MIN_SIZE: &'static str = "MONGODB_POOL_MIN_SIZE";

pub const MONGODB_POOL_MAX_SIZE: &'static str = "MONGODB_POOL_MAX_SIZE";

pub const MONGODB_CONNECT_TIMEOUT_MS: &'static str = "MONGODB_CONNECT_TIMEOUT_MS";

pub const MONGODB_SERVER_SELECTION_TIMEOUT_MS: &'static str = "MONGODB_SERVER_SELECTION_TIMEOUT_MS";

pub const LOG_LEVEL: &'static str = "LOG_LEVEL";

pub const APP_BIND_ADDRESS: &'static str = "APP_BIND_ADDRESS";

pub const DEFAULT_BIND_ADDRESS: &'static str = "127.0.0.1:3000";

#[verifier::external_type_specification]
#[verifier::external_body]
pub struct ExParseIntError(std::num::ParseIntError);

/// A span of time, in milliseconds.
#[derive(Debug, Clone, Copy, PartialEq, Eq, Structural)]
pub struct Millis(pub u64);

/// Process-wide settings, read once at start-up.
#[derive(Debug, Clone)]
pub struct Config {
    pub mongodb_uri: String,
    pub default_database: Option<String>,
    pub default_collection: Option<String>,
    pub pool_min_size: Option<u32>,
    pub pool_max_size: Option<u32>,
    pub connect_timeout: Option<Millis>,
    pub server_selection_timeout: Option<Millis>,
    pub log_level: Option<String>,
    pub bind_address: String,
}

/// The raw value of each setting's environment variable, `None` where the
/// variable is unset or not valid unicode.
#[derive(Debug, Clone)]
pub struct EnvVars {
    pub mongodb_uri: Option<String>,
    pub default_database: Option<String>,
    pub default_collection: Option<String>,
    pub pool_min_size: Option<String>,
    pub pool_max_size: Option<String>,
    pub connect_timeout_ms: Option<String>,
    pub server_selection_timeout_ms: Option<String>,
    pub log_level: Option<String>,
    pub bind_address: Option<String>,
}

#[derive(Debug)]
pub enum ConfigError {
    /// A required variable is unset or empty.
    MissingEnv(&'static str),
    /// A variable holds a value that does not parse; the text says why.
    InvalidEnv(&'static str, String),
}

impl ConfigError {
    /// The message shown to the operator.
    pub fn message(&self) -> (r: String)
        ensures
            match self {
                ConfigError::MissingEnv(key) => r@ == "missing required environment variable `"@
                    + key@ + "`"@,
                ConfigError::InvalidEnv(key, why) => r@ == "invalid value for `"@ + key@ + "`: "@
                    + why@,
            },
    {
        match self {
            ConfigError::MissingEnv(key) => {
                let r = String::from_str("missing required environment variable `");
                let r = r.concat(key);
                r.concat("`")
            },
            ConfigError::InvalidEnv(key, why) => {
                let r = String::from_str("invalid value for `");
                let r = r.concat(key);
                let r = r.concat("`: ");
                r.concat(why.as_str())
            },
        }
    }
}

/// A set, non-empty variable.
pub open spec fn filled(v: Option<String>) -> bool {
    v is Some && v->Some_0@.len() > 0
}

/// The variable's value where it is set and non-empty.
pub open spec fn filled_value(v: Option<String>) -> Option<Seq<char>> {
    if filled(v) {
        Some(v->Some_0@)
    } else {
        None
    }
}

pub open spec fn is_digit(c: char) -> bool {
    48 <= (c as u32) && (c as u32) <= 57
}

/// The number that a string of decimal digits stands for.
pub open spec fn digits_value(s: Seq<char>) -> int
    decreases s.len(),
{
    if s.len() == 0 {
        0
    } else {
        digits_value(s.drop_last()) * 10 + ((s.last() as u32) - 48)
    }
}

/// The value of an unsigned decimal number with an optional leading `+`, or
/// `None` where `s` is not one.
pub open spec fn decimal_value(s: Seq<char>) -> Option<int> {
    let body = if s.len() > 0 && s[0] == '+' {
        s.drop_first()
    } else {
        s
    };
    if body.len() > 0 && forall|i: int| 0 <= i < body.len() ==> is_digit(#[trigger] body[i]) {
        Some(digits_value(body))
    } else {
        None
    }
}

/// What an optional numeric setting holds: `Some(None)` where it is unset or
/// empty, `Some(Some(n))` where it holds a number up to `max`, `None` where its
/// value is invalid.
pub open spec fn number_setting(v: Option<String>, max: int) -> Option<Option<int>> {
    if !filled(v) {
        Some(None)
    } else {
        match decimal_value(v->Some_0@) {
            Some(n) => if n <= max {
                Some(Some(n))
            } else {
                None
            },
            None => None,
        }
    }
}

/// `r` is the error for an invalid value of `key`.
pub open spec fn is_invalid_env<T>(r: Result<T, ConfigError>, key: &str) -> bool {
    r is Err && r->Err_0 is InvalidEnv && r->Err_0->InvalidEnv_0@ == key@
}

/// Relies on `u32`'s `FromStr`: an optional `+` and decimal digits, whose
/// value fits in `u32`.
#[verifier::external_body]
fn parse_u32(s: &str) -> (r: Result<u32, std::num::ParseIntError>)
    ensures
        match r {
            Ok(n) => decimal_value(s@) == Some(n as int),
            Err(_) => !(decimal_value(s@) is Some && decimal_value(s@)->Some_0 <= u32::MAX),
        },
{
    s.parse::<u32>()
}

/// Relies on `u64`'s `FromStr`: an optional `+` and decimal digits, whose
/// value fits in `u64`.
#[verifier::external_body]
fn parse_u64(s: &str) -> (r: Result<u64, std::num::ParseIntError>)
    ensures
        match r {
            Ok(n) => decimal_value(s@) == Some(n as int),
            Err(_) => !(decimal_value(s@) is Some && decimal_value(s@)->Some_0 <= u64::MAX),
        },
{
    s.parse::<u64>()
}

/// The value of a required variable, which must be set and non-empty.
pub fn get_required(key: &'static str, value: Option<String>) -> (r: Result<String, ConfigError>)
    ensures
        filled(value) ==> r is Ok && r->Ok_0@ == value->Some_0@,
        !filled(value) ==> r is Err && r->Err_0 is MissingEnv && r->Err_0->MissingEnv_0@ == key@,
{
    match value {
        Some(v) => {
            if v.as_str().is_empty() {
                Err(ConfigError::MissingEnv(key))
            } else {
                Ok(v)
            }
        },
        None => Err(ConfigError::MissingEnv(key)),
    }
}

/// The value of an optional text variable; empty counts as unset.
pub fn non_empty(value: Option<String>) -> (r: Option<String>)
    ensures
        r is Some <==> filled(value),
        r is Some ==> r->Some_0@ == value->Some_0@,
{
    match value {
        Some(v) => {
            if v.as_str().is_empty() {
                None
            } else {
                Some(v)
            }
        },
        None => None,
    }
}

pub fn parse_optional_u32(key: &'static str, value: Option<String>) -> (r: Result<
    Option<u32>,
    ConfigError,
>)
    ensures
        number_setting(value, u32::MAX as int) is None <==> is_invalid_env(r, key),
        number_setting(value, u32::MAX as int) is Some ==> r is Ok && match r->Ok_0 {
            Some(n) => number_setting(value, u32::MAX as int)->Some_0 == Some(n as int),
            None => number_setting(value, u32::MAX as int)->Some_0 is None,
        },
{
    match value {
        Some(v) => {
            if v.as_str().is_empty() {
                Ok(None)
            } else {
                match parse_u32(v.as_str()) {
                    Ok(n) => Ok(Some(n)),
                    Err(err) => Err(ConfigError::InvalidEnv(key, err.to_string())),
                }
            }
        },
        None => Ok(None),
    }
}

pub fn parse_optional_u64(key: &'static str, value: Option<String>) -> (r: Result<
    Option<u64>,
    ConfigError,
>)
    ensures
        number_setting(value, u64::MAX as int) is None <==> is_invalid_env(r, key),
        number_setting(value, u64::MAX as int) is Some ==> r is Ok && match r->Ok_0 {
            Some(n) => number_setting(value, u64::MAX as int)->Some_0 == Some(n as int),
            None => number_setting(value, u64::MAX as int)->Some_0 is None,
        },
{
    match value {
        Some(v) => {
            if v.as_str().is_empty() {
                Ok(None)
            } else {
                match parse_u64(v.as_str()) {
                    Ok(n) => Ok(Some(n)),
                    Err(err) => Err(ConfigError::InvalidEnv(key, err.to_string())),
                }
            }
        },
        None => Ok(None),
    }
}

/// An optional duration, given in milliseconds.
pub fn parse_optional_duration(key: &'static str, value: Option<String>) -> (r: Result<
    Option<Millis>,
    ConfigError,
>)
    ensures
        number_setting(value, u64::MAX as int) is None <==> is_invalid_env(r, key),
        number_setting(value, u64::MAX as int) is Some ==> r is Ok && match r->Ok_0 {
            Some(d) => number_setting(value, u64::MAX as int)->Some_0 == Some(d.0 as int),
            None => number_setting(value, u64::MAX as int)->Some_0 is None,
        },
{
    match parse_optional_u64(key, value) {
        Ok(Some(n)) => Ok(Some(Millis(n))),
        Ok(None) => Ok(None),
        Err(e) => Err(e),
    }
}

/// The view of an optional string.
pub open spec fn opt_view(o: Option<String>) -> Option<Seq<char>> {
    match o {
        Some(s) => Some(s@),
        None => None,
    }
}

/// Whether every numeric setting in `vars` holds a valid value.
pub open spec fn numbers_valid(vars: EnvVars) -> bool {
    &&& number_setting(vars.pool_min_size, u32::MAX as int) is Some
    &&& number_setting(vars.pool_max_size, u32::MAX as int) is Some
    &&& number_setting(vars.connect_timeout_ms, u64::MAX as int) is Some
    &&& number_setting(vars.server_selection_timeout_ms, u64::MAX as int) is Some
}

/// `c` is the configuration that the valid variables `vars` describe.
pub open spec fn describes(vars: EnvVars, c: Config) -> bool {
    &&& c.mongodb_uri@ == vars.mongodb_uri->Some_0@
    &&& opt_view(c.default_database) == filled_value(vars.default_database)
    &&& opt_view(c.default_collection) == filled_value(vars.default_collection)
    &&& number_setting(vars.pool_min_size, u32::MAX as int)->Some_0 == match c.pool_min_size {
        Some(n) => Some(n as int),
        None => None,
    }
    &&& number_setting(vars.pool_max_size, u32::MAX as int)->Some_0 == match c.pool_max_size {
        Some(n) => Some(n as int),
        None => None,
    }
    &&& number_setting(vars.connect_timeout_ms, u64::MAX as int)->Some_0
        == match c.connect_timeout {
        Some(d) => Some(d.0 as int),
        None => None,
    }
    &&& number_setting(vars.server_selection_timeout_ms, u64::MAX as int)->Some_0
        == match c.server_selection_timeout {
        Some(d) => Some(d.0 as int),
        None => None,
    }
    &&& opt_view(c.log_level) == filled_value(vars.log_level)
    &&& c.bind_address@ == match vars.bind_address {
        Some(b) => b@,
        None => DEFAULT_BIND_ADDRESS@,
    }
}

impl Config {
    /// Builds the configuration from the variables' values. The URI is
    /// required; the numeric settings are checked in the order pool minimum,
    /// pool maximum, connect timeout, server selection timeout, and the first
    /// invalid one is reported.
    pub fn from_vars(vars: EnvVars) -> (r: Result<Config, ConfigError>)
        ensures
            r is Ok <==> filled(vars.mongodb_uri) && numbers_valid(vars),
            r is Ok ==> describes(vars, r->Ok_0),
            !filled(vars.mongodb_uri) ==> r is Err && r->Err_0 is MissingEnv
                && r->Err_0->MissingEnv_0@ == MONGODB_URI@,
            filled(vars.mongodb_uri) && number_setting(vars.pool_min_size, u32::MAX as int) is None
                ==> is_invalid_env(r, MONGODB_POOL_MIN_SIZE),
            filled(vars.mongodb_uri) && number_setting(vars.pool_min_size, u32::MAX as int) is Some
                && number_setting(vars.pool_max_size, u32::MAX as int) is None ==> is_invalid_env(
                r,
                MONGODB_POOL_MAX_SIZE,
            ),
            filled(vars.mongodb_uri) && number_setting(vars.pool_min_size, u32::MAX as int) is Some
                && number_setting(vars.pool_max_size, u32::MAX as int) is Some && number_setting(
                vars.connect_timeout_ms,
                u64::MAX as int,
            ) is None ==> is_invalid_env(r, MONGODB_CONNECT_TIMEOUT_MS),
            filled(vars.mongodb_uri) && number_setting(vars.pool_min_size, u32::MAX as int) is Some
                && number_setting(vars.pool_max_size, u32::MAX as int) is Some && number_setting(
                vars.connect_timeout_ms,
                u64::MAX as int,
            ) is Some && number_setting(vars.server_selection_timeout_ms, u64::MAX as int) is None
                ==> is_invalid_env(r, MONGODB_SERVER_SELECTION_TIMEOUT_MS),
    {
        let EnvVars {
            mongodb_uri,
            default_database,
            default_collection,
            pool_min_size,
            pool_max_size,
            connect_timeout_ms,
            server_selection_timeout_ms,
            log_level,
            bind_address,
        } = vars;
        let mongodb_uri = match get_required(MONGODB_URI, mongodb_uri) {
            Ok(v) => v,
            Err(e) => return Err(e),
        };
        let default_database = non_empty(default_database);
        let default_collection = non_empty(default_collection);
        let pool_min_size = match parse_optional_u32(MONGODB_POOL_MIN_SIZE, pool_min_size) {
            Ok(v) => v,
            Err(e) => return Err(e),
        };
        let pool_max_size = match parse_optional_u32(MONGODB_POOL_MAX_SIZE, pool_max_size) {
            Ok(v) => v,
            Err(e) => return Err(e),
        };
        let connect_timeout = match parse_optional_duration(
            MONGODB_CONNECT_TIMEOUT_MS,
            connect_timeout_ms,
        ) {
            Ok(v) => v,
            Err(e) => return Err(e),
        };
        let server_selection_timeout = match parse_optional_duration(
            MONGODB_SERVER_SELECTION_TIMEOUT_MS,
            server_selection_timeout_ms,
        ) {
            Ok(v) => v,
            Err(e) => return Err(e),
        };
        let log_level = non_empty(log_level);
        let bind_address = match bind_address {
            Some(b) => b,
            None => String::from_str(DEFAULT_BIND_ADDRESS),
        };
        Ok(Config {
            mongodb_uri,
            default_database,
            default_collection,
            pool_min_size,
            pool_max_size,
            connect_timeout,
            server_selection_timeout,
            log_level,
            bind_address,
        })
    }
}

} // verus!
