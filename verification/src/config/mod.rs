//! The service's configuration, read from environment variables.
pub mod throttle;
pub mod vars;

use vstd::prelude::*;
use crate::config::vars::{
    is_true, parse_u16, parse_unsigned, parse_usize, split_by, split_on, strings_view,
};

verus! {

/// The application section.
#[derive(Clone, Debug, PartialEq, Eq)]
pub struct App {
    pub name: String,
    pub version: String,
    pub url: String,
    pub port: u16,
    pub platform_secret: String,
}

/// The database section.
#[derive(Clone, Debug, PartialEq, Eq)]
pub struct Database {
    pub nodes: Vec<String>,
    pub username: String,
    pub password: String,
    pub cached_queries: usize,
    pub keyspace: String,
}

/// The TLS section.
#[derive(Clone, Debug, PartialEq, Eq)]
pub struct Tls {
    pub enabled: bool,
    pub cert: String,
    pub key: String,
}

/// The HTTP server section.
#[derive(Clone, Debug, PartialEq, Eq)]
pub struct Http {
    pub workers: usize,
}

/// The whole configuration.
#[derive(Clone, Debug, PartialEq, Eq)]
pub struct Config {
    pub app: App,
    pub tls: Tls,
    pub database: Database,
    pub http: Http,
}

/// The raw text of the environment variables that the configuration is
/// read from, one field per variable; `max_workers` is absent when
/// `MAX_WORKERS` is not set.
#[derive(Clone, Debug, PartialEq, Eq)]
pub struct ConfigVars {
    pub app_name: String,
    pub app_version: String,
    pub app_url: String,
    pub app_port: String,
    pub app_platform_secret: String,
    pub app_tls_enabled: String,
    pub app_tls_cert: String,
    pub app_tls_key: String,
    pub max_workers: Option<String>,
    pub scylla_nodes: String,
    pub scylla_username: String,
    pub scylla_password: String,
    pub scylla_cached_queries: String,
    pub scylla_keyspace: String,
}

/// The text `true`.
pub open spec fn true_text() -> Seq<char> {
    seq!['t', 'r', 'u', 'e']
}

/// The number of HTTP workers: `MAX_WORKERS` when it is set and reads as a
/// `usize`, else the parallelism that the machine reports, else one.
pub open spec fn workers_for(max_workers: Option<Seq<char>>, parallelism: Option<usize>) -> nat {
    match max_workers {
        Some(text) if parse_unsigned(text, usize::MAX as nat) is Some => parse_unsigned(
            text,
            usize::MAX as nat,
        )->0,
        _ => match parallelism {
            Some(p) => p as nat,
            None => 1,
        },
    }
}

/// Whether the variables can be read at all: `APP_PORT` must read as a `u16`
/// and `SCYLLA_CACHED_QUERIES` as a `usize`.
pub open spec fn vars_readable(vars: ConfigVars) -> bool {
    &&& parse_unsigned(vars.app_port@, u16::MAX as nat) is Some
    &&& parse_unsigned(vars.scylla_cached_queries@, usize::MAX as nat) is Some
}

/// The number of workers to run: see `workers_for`.
pub fn resolve_workers(max_workers: &Option<String>, parallelism: Option<usize>) -> (n: usize)
    ensures
        n as nat == workers_for(
            match max_workers {
                Some(t) => Some(t@),
                None => None,
            },
            parallelism,
        ),
        match max_workers {
            Some(t) => match parse_unsigned(t@, usize::MAX as nat) {
                Some(v) => n as nat == v,
                None => n as nat == match parallelism {
                    Some(p) => p as nat,
                    None => 1,
                },
            },
            None => n as nat == match parallelism {
                Some(p) => p as nat,
                None => 1,
            },
        },
{
    let parsed = match max_workers {
        Some(text) => parse_usize(text.as_str()),
        None => None,
    };
    match parsed {
        Some(n) => n,
        None => match parallelism {
            Some(p) => p,
            None => 1,
        },
    }
}

impl Config {
    /// Builds the configuration from the variables' text and the parallelism
    /// that the machine reports.
    pub fn from_vars(vars: ConfigVars, parallelism: Option<usize>) -> (c: Config)
        requires
            vars_readable(vars),
        ensures
            c.app.name@ == vars.app_name@,
            c.app.version@ == vars.app_version@,
            c.app.url@ == vars.app_url@,
            parse_unsigned(vars.app_port@, u16::MAX as nat) == Some(c.app.port as nat),
            c.app.platform_secret@ == vars.app_platform_secret@,
            c.tls.enabled == (vars.app_tls_enabled@ == true_text()),
            c.tls.enabled == (vars.app_tls_enabled@ == seq!['t', 'r', 'u', 'e']),
            c.tls.cert@ == vars.app_tls_cert@,
            c.tls.key@ == vars.app_tls_key@,
            c.http.workers as nat == workers_for(
                match vars.max_workers {
                    Some(t) => Some(t@),
                    None => None,
                },
                parallelism,
            ),
        match vars.max_workers {
            Some(t) => match parse_unsigned(t@, usize::MAX as nat) {
                Some(v) => c.http.workers as nat == v,
                None => c.http.workers as nat == match parallelism {
                    Some(p) => p as nat,
                    None => 1,
                },
            },
            None => c.http.workers as nat == match parallelism {
                Some(p) => p as nat,
                None => 1,
            },
        },
            strings_view(c.database.nodes@) == split_on(vars.scylla_nodes@, ','),
            c.database.username@ == vars.scylla_username@,
            c.database.password@ == vars.scylla_password@,
            parse_unsigned(vars.scylla_cached_queries@, usize::MAX as nat) == Some(
                c.database.cached_queries as nat,
            ),
            c.database.keyspace@ == vars.scylla_keyspace@,
    {
        let port = match parse_u16(vars.app_port.as_str()) {
            Some(p) => p,
            None => 0,
        };
        let enabled = is_true(vars.app_tls_enabled.as_str());
        let workers = resolve_workers(&vars.max_workers, parallelism);
        let nodes = split_by(vars.scylla_nodes.as_str(), ',');
        let cached_queries = match parse_usize(vars.scylla_cached_queries.as_str()) {
            Some(n) => n,
            None => 0,
        };
        Config {
            app: App {
                name: vars.app_name,
                version: vars.app_version,
                url: vars.app_url,
                port,
                platform_secret: vars.app_platform_secret,
            },
            tls: Tls { enabled, cert: vars.app_tls_cert, key: vars.app_tls_key },
            database: Database {
                nodes,
                username: vars.scylla_username,
                password: vars.scylla_password,
                cached_queries,
                keyspace: vars.scylla_keyspace,
            },
            http: Http { workers },
        }
    }
}

/// Law of the worker count: when `MAX_WORKERS` reads as a number, that
/// number of workers runs, whatever the machine reports; otherwise the
/// machine's parallelism runs, or one worker when it reports none.
pub proof fn lemma_workers(max_workers: Option<Seq<char>>, parallelism: Option<usize>)
    ensures
        max_workers matches Some(t) && parse_unsigned(t, usize::MAX as nat) is Some ==> workers_for(
            max_workers,
            parallelism,
        ) == parse_unsigned(max_workers->0, usize::MAX as nat)->0,
        (max_workers is None || parse_unsigned(max_workers->0, usize::MAX as nat) is None)
            ==> workers_for(max_workers, parallelism) == (match parallelism {
            Some(p) => p as nat,
            None => 1,
        }),
{
}

}
