use vstd::prelude::*;

verus! {

pub const DEFAULT_PORT: u16 = 8000;

pub const DEFAULT_ACCESS_TTL_MINUTES: u32 = 15;

pub const DEFAULT_REFRESH_TTL_DAYS: u32 = 7;

pub const DEFAULT_CONCURRENCY: u32 = 10;

pub const DEFAULT_MIN_JOB_INTERVAL: u64 = 10;

pub const DEFAULT_WS_TIMEOUT: u64 = 10;

/// Settings of the service, read once at start.
#[derive(Clone, Debug)]
pub struct Config {
    pub port: u16,
    pub jwt_secret: String,
    pub access_ttl: u32,
    pub refresh_ttl: u32,
    pub db_url: String,
    pub concurrency: u32,
    pub migrate: bool,
    pub min_job_interval: u64,
    pub ws_timeout: u64,
    pub root_username: String,
    pub root_email: String,
    pub root_password: String,
}

/// Settings shared with request handlers and workers.
#[derive(Clone, Debug)]
pub struct AppConfig {
    pub secret: String,
    pub access_ttl: i64,
    pub refresh_ttl: i64,
    pub concurrency: u32,
}

/// A configured count or duration: at least 1 when given, `default` when absent.
pub open spec fn at_least_one(parsed: Option<u64>, default: u64) -> u64 {
    match parsed {
        Some(v) => if v >= 1 {
            v
        } else {
            1
        },
        None => default,
    }
}

/// `parsed` raised to at least 1, or `default` when absent.
pub fn at_least_one_u64(parsed: Option<u64>, default: u64) -> (r: u64)
    ensures
        r == at_least_one(parsed, default),
{
    match parsed {
        Some(v) => if v >= 1 {
            v
        } else {
            1
        },
        None => default,
    }
}

/// `parsed` raised to at least 1, or `default` when absent.
pub fn at_least_one_u32(parsed: Option<u32>, default: u32) -> (r: u32)
    ensures
        r == at_least_one(
            match parsed {
                Some(v) => Some(v as u64),
                None => None,
            },
            default as u64,
        ),
{
    match parsed {
        Some(v) => if v >= 1 {
            v
        } else {
            1
        },
        None => default,
    }
}

/// A lifetime of `parsed` (at least 1) or `default` units of `unit_secs` seconds, in
/// seconds; `None` when that does not fit in a `u32`.
pub fn ttl_seconds(parsed: Option<u32>, default: u32, unit_secs: u32) -> (r: Option<u32>)
    ensures
        r == ttl_seconds_spec(parsed, default, unit_secs),
{
    let units = at_least_one_u32(parsed, default);
    units.checked_mul(unit_secs)
}

/// Access-token lifetime in seconds from a number of minutes (default 15).
pub fn access_ttl_seconds(minutes: Option<u32>) -> (r: Option<u32>)
    ensures
        r == ttl_seconds_spec(minutes, DEFAULT_ACCESS_TTL_MINUTES, 60),
{
    ttl_seconds(minutes, DEFAULT_ACCESS_TTL_MINUTES, 60)
}

/// Refresh-token lifetime in seconds from a number of days (default 7).
pub fn refresh_ttl_seconds(days: Option<u32>) -> (r: Option<u32>)
    ensures
        r == ttl_seconds_spec(days, DEFAULT_REFRESH_TTL_DAYS, 86400),
{
    ttl_seconds(days, DEFAULT_REFRESH_TTL_DAYS, 86400)
}

/// What [`ttl_seconds`] returns.
pub open spec fn ttl_seconds_spec(parsed: Option<u32>, default: u32, unit_secs: u32) -> Option<u32> {
    let units = at_least_one(
        match parsed {
            Some(v) => Some(v as u64),
            None => None,
        },
        default as u64,
    );
    if units * unit_secs <= u32::MAX {
        Some((units * unit_secs) as u32)
    } else {
        None
    }
}

impl Config {
    /// The settings handed to request handlers and workers.
    pub fn app_config(&self) -> (r: AppConfig)
        ensures
            r.secret == self.jwt_secret,
            r.access_ttl == self.access_ttl,
            r.refresh_ttl == self.refresh_ttl,
            r.concurrency == self.concurrency,
    {
        AppConfig {
            secret: self.jwt_secret.clone(),
            access_ttl: self.access_ttl as i64,
            refresh_ttl: self.refresh_ttl as i64,
            concurrency: self.concurrency,
        }
    }
}

} // verus!
