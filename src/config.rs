//! Service configuration assembled from environment values, with defaults.
use vstd::prelude::*;
use vstd::string::StringExecFns;
use crate::envs::{EnvParse, Error, get_env, get_env_parse, if_missing};

verus! {

/// The value a variable that defaults when unset takes.
pub open spec fn or_default<T: EnvParse>(
    name: &'static str,
    value: Option<String>,
    default: T,
) -> Result<T, Error> {
    match value {
        None => Ok(default),
        Some(s) => match T::parsed(s@) {
            Some(v) => Ok(v),
            None => Err(Error::WrongFormat(name)),
        },
    }
}

fn parse_or_default<T: EnvParse>(name: &'static str, value: Option<String>, default: T) -> (r:
    Result<T, Error>)
    ensures
        r == or_default(name, value, default),
{
    if_missing(get_env_parse::<T>(name, value), default)
}

#[allow(non_snake_case)]
#[derive(Clone, Debug)]
pub struct CoreConfig {
    pub DB_URL: String,
    pub DB_MAX_CONNECTIONS: u32,
    pub DB_CONNECTION_TIMEOUT_MS: u64,
}

impl CoreConfig {
    /// Builds the configuration from the values of `SERVICE_DB_URL`,
    /// `SERVICE_DB_MAX_CONNECTIONS` (default 5) and
    /// `SERVICE_DB_CONNECTION_TIMEOUT_MS` (default 500); the first variable
    /// that is malformed, or the URL when unset, is the error.
    pub fn load_from_env(
        db_url: Option<String>,
        max_connections: Option<String>,
        timeout_ms: Option<String>,
    ) -> (r: Result<CoreConfig, Error>)
        ensures
            ({
                let m = or_default("SERVICE_DB_MAX_CONNECTIONS", max_connections, 5u32);
                let t = or_default("SERVICE_DB_CONNECTION_TIMEOUT_MS", timeout_ms, 500u64);
                if m is Err {
                    r == Err::<CoreConfig, Error>(m->Err_0)
                } else if t is Err {
                    r == Err::<CoreConfig, Error>(t->Err_0)
                } else if db_url is None {
                    r == Err::<CoreConfig, Error>(Error::MissingEnv("SERVICE_DB_URL"))
                } else {
                    r == Ok::<CoreConfig, Error>(
                        CoreConfig {
                            DB_URL: db_url->Some_0,
                            DB_MAX_CONNECTIONS: m->Ok_0,
                            DB_CONNECTION_TIMEOUT_MS: t->Ok_0,
                        },
                    )
                }
            }),
    {
        let m = parse_or_default("SERVICE_DB_MAX_CONNECTIONS", max_connections, 5u32)?;
        let t = parse_or_default("SERVICE_DB_CONNECTION_TIMEOUT_MS", timeout_ms, 500u64)?;
        let url = get_env("SERVICE_DB_URL", db_url)?;
        Ok(CoreConfig { DB_URL: url, DB_MAX_CONNECTIONS: m, DB_CONNECTION_TIMEOUT_MS: t })
    }
}

#[allow(non_snake_case)]
#[derive(Clone, Debug)]
pub struct ReloadConfig {
    /// Always hard reload the page instead of hot-reload.
    pub HARD_RELOAD: bool,
    /// Ignore hidden and ignored files.
    pub AUTO_IGNORE: bool,
    /// Watch by polling file paths at a regular interval.
    pub POLL: bool,
    /// Directory to watch for hot reloading.
    pub HOT_RELOAD_DIR: String,
}

impl ReloadConfig {
    /// Builds the configuration from the values of
    /// `SERVICE_HOT_RELOAD_HARD_RELOAD`, `SERVICE_HOT_RELOAD_AUTO_IGNORE`,
    /// `SERVICE_HOT_RELOAD_POLL` (each `false` when unset) and
    /// `SERVICE_HOT_RELOAD_DIR` (`frontend/` when unset); the first flag
    /// that is malformed is the error.
    pub fn load_from_env(
        hard_reload: Option<String>,
        auto_ignore: Option<String>,
        poll: Option<String>,
        hot_reload_dir: Option<String>,
    ) -> (r: Result<ReloadConfig, Error>)
        ensures
            ({
                let h = or_default("SERVICE_HOT_RELOAD_HARD_RELOAD", hard_reload, false);
                let a = or_default("SERVICE_HOT_RELOAD_AUTO_IGNORE", auto_ignore, false);
                let p = or_default("SERVICE_HOT_RELOAD_POLL", poll, false);
                if h is Err {
                    r == Err::<ReloadConfig, Error>(h->Err_0)
                } else if a is Err {
                    r == Err::<ReloadConfig, Error>(a->Err_0)
                } else if p is Err {
                    r == Err::<ReloadConfig, Error>(p->Err_0)
                } else {
                    r matches Ok(c) && c.HARD_RELOAD == h->Ok_0 && c.AUTO_IGNORE == a->Ok_0 && c.POLL
                        == p->Ok_0 && c.HOT_RELOAD_DIR@ == (match hot_reload_dir {
                        Some(d) => d@,
                        None => "frontend/"@,
                    })
                }
            }),
    {
        let dir = match hot_reload_dir {
            Some(d) => d,
            None => String::from_str("frontend/"),
        };
        let h = parse_or_default("SERVICE_HOT_RELOAD_HARD_RELOAD", hard_reload, false)?;
        let a = parse_or_default("SERVICE_HOT_RELOAD_AUTO_IGNORE", auto_ignore, false)?;
        let p = parse_or_default("SERVICE_HOT_RELOAD_POLL", poll, false)?;
        Ok(ReloadConfig { HARD_RELOAD: h, AUTO_IGNORE: a, POLL: p, HOT_RELOAD_DIR: dir })
    }
}

} // verus!
