//! The settings of the database connection, as the environment gives them:
//! either in one `DATABASE_URL` or in one variable for each part.

use crate::common::types::DatabaseType;
use crate::text::{chars_of, parse_decimal, parse_decimal_spec, str_eq};
use url::Url;
use vstd::prelude::*;
use vstd::string::StrSliceExecFns;
use vstd::string::StringExecFns;

verus! {

/// The view of a string that may be missing.
pub open spec fn text_of(value: Option<String>) -> Option<Seq<char>> {
    match value {
        Some(text) => Some(text@),
        None => None,
    }
}

/// The variables of the environment, as pairs of name and value. Where a
/// name stands more than once, the first pair counts.
#[derive(Debug)]
pub struct Environment {
    pub vars: Vec<(String, String)>,
}

/// The value of the first of the first `n` pairs of `vars` that has the
/// name `key`.
pub open spec fn lookup(vars: Seq<(String, String)>, n: nat, key: Seq<char>) -> Option<Seq<char>>
    decreases n,
{
    if n == 0 || n > vars.len() {
        None
    } else {
        match lookup(vars, (n - 1) as nat, key) {
            Some(value) => Some(value),
            None => if vars[n - 1].0@ == key {
                Some(vars[n - 1].1@)
            } else {
                None
            },
        }
    }
}

impl Environment {
    /// The value of the variable `key`.
    pub open spec fn var(&self, key: Seq<char>) -> Option<Seq<char>> {
        lookup(self.vars@, self.vars@.len(), key)
    }
}

/// The parts of a URL that the settings are read from.
#[derive(Debug, Clone, PartialEq, Eq)]
pub struct UrlParts {
    pub scheme: String,
    pub username: String,
    pub password: Option<String>,
    pub host: Option<String>,
    pub port: Option<u16>,
    pub path: String,
}

/// The mathematical value of [`UrlParts`].
pub struct UrlPartsView {
    pub scheme: Seq<char>,
    pub username: Seq<char>,
    pub password: Option<Seq<char>>,
    pub host: Option<Seq<char>>,
    pub port: Option<u16>,
    pub path: Seq<char>,
}

impl View for UrlParts {
    type V = UrlPartsView;

    open spec fn view(&self) -> UrlPartsView {
        UrlPartsView {
            scheme: self.scheme@,
            username: self.username@,
            password: text_of(self.password),
            host: text_of(self.host),
            port: self.port,
            path: self.path@,
        }
    }
}

/// The parts of `url` as the `url` crate parses it: scheme, user name,
/// password, host, port and path; `None` where `url` is no URL.
pub uninterp spec fn parsed_url(url: Seq<char>) -> Option<UrlPartsView>;

/// Calls `Url::parse` of the `url` crate and copies out what `scheme`,
/// `username`, `password`, `host_str`, `port` and `path` return. The
/// contract only names the result: the rules of URL parsing are not
/// restated here.
#[verifier::external_body]
pub(crate) fn parse_url(url: &str) -> (parts: Option<UrlParts>)
    ensures
        match parts {
            Some(parts) => parsed_url(url@) == Some(parts@),
            None => parsed_url(url@) is None,
        },
{
    let parsed = Url::parse(url).ok()?;
    Some(
        UrlParts {
            scheme: parsed.scheme().to_string(),
            username: parsed.username().to_string(),
            password: parsed.password().map(|s| s.to_string()),
            host: parsed.host_str().map(|s| s.to_string()),
            port: parsed.port(),
            path: parsed.path().to_string(),
        },
    )
}

/// What is known of the database connection. Each part may be missing.
#[derive(Debug, Clone, PartialEq, Eq)]
pub struct Dotenv {
    pub db_type: Option<DatabaseType>,
    pub db_user: Option<String>,
    pub db_host: Option<String>,
    pub db_port: Option<u16>,
    pub db_pass: Option<String>,
    pub db_name: Option<String>,
    pub pg_search_path: Option<String>,
}

/// The mathematical value of a [`Dotenv`].
pub struct DotenvView {
    pub db_type: Option<DatabaseType>,
    pub db_user: Option<Seq<char>>,
    pub db_host: Option<Seq<char>>,
    pub db_port: Option<u16>,
    pub db_pass: Option<Seq<char>>,
    pub db_name: Option<Seq<char>>,
    pub pg_search_path: Option<Seq<char>>,
}

impl View for Dotenv {
    type V = DotenvView;

    open spec fn view(&self) -> DotenvView {
        DotenvView {
            db_type: self.db_type,
            db_user: text_of(self.db_user),
            db_host: text_of(self.db_host),
            db_port: self.db_port,
            db_pass: text_of(self.db_pass),
            db_name: text_of(self.db_name),
            pg_search_path: text_of(self.pg_search_path),
        }
    }
}

/// Why the settings cannot be read.
#[derive(Debug, Clone, Copy, PartialEq, Eq, Structural)]
pub enum DotenvError {
    /// `DATABASE_URL` is no URL.
    InvalidDatabaseUrl,
    /// `DB_PORT` is no number that a port can have.
    InvalidPort,
}

/// The kind of database that a name stands for: `mysql` for MySQL, every
/// other name for PostgreSQL.
pub open spec fn db_type_of(name: Option<Seq<char>>) -> Option<DatabaseType> {
    match name {
        Some(name) => if name == "mysql"@ {
            Some(DatabaseType::Mysql)
        } else {
            Some(DatabaseType::Postgres)
        },
        None => None,
    }
}

/// `path` without the slashes that it begins with.
pub open spec fn without_leading_slashes(path: Seq<char>) -> Seq<char>
    decreases path.len(),
{
    if path.len() > 0 && path[0] == '/' {
        without_leading_slashes(path.drop_first())
    } else {
        path
    }
}

/// The port that `text` writes: a number in base ten of at most 65535,
/// which a `+` may stand before.
pub open spec fn port_of(text: Seq<char>) -> Option<int> {
    if text.len() > 0 && text[0] == '+' {
        parse_decimal_spec(text.drop_first(), u16::MAX as int)
    } else {
        parse_decimal_spec(text, u16::MAX as int)
    }
}

/// The settings that the parts of a `DATABASE_URL` give. An empty user name
/// counts as none; the name of the database is the path without the slashes
/// before it.
pub open spec fn settings_of_url(parts: UrlPartsView, search_path: Option<Seq<char>>) -> DotenvView {
    DotenvView {
        db_type: db_type_of(Some(parts.scheme)),
        db_user: if parts.username.len() == 0 {
            None
        } else {
            Some(parts.username)
        },
        db_host: parts.host,
        db_port: parts.port,
        db_pass: parts.password,
        db_name: Some(without_leading_slashes(parts.path)),
        pg_search_path: search_path,
    }
}

/// The settings that the variables `DB_TYPE`, `DB_USER`, `DB_HOST`,
/// `DB_PORT`, `DB_PASS`, `DB_NAME` and `PG_SEARCH_PATH` give; an error where
/// `DB_PORT` is set and is no port.
pub open spec fn settings_of_vars(env: Environment) -> Result<DotenvView, DotenvError> {
    let port = env.var("DB_PORT"@);
    if port is Some && port_of(port->0) is None {
        Err(DotenvError::InvalidPort)
    } else {
        Ok(
            DotenvView {
                db_type: db_type_of(env.var("DB_TYPE"@)),
                db_user: env.var("DB_USER"@),
                db_host: env.var("DB_HOST"@),
                db_port: match port {
                    Some(text) => Some(port_of(text)->0 as u16),
                    None => None,
                },
                db_pass: env.var("DB_PASS"@),
                db_name: env.var("DB_NAME"@),
                pg_search_path: env.var("PG_SEARCH_PATH"@),
            },
        )
    }
}

/// The settings that an environment gives: those of `DATABASE_URL` where
/// it is set, else those of the single variables.
pub open spec fn settings_of(env: Environment) -> Result<DotenvView, DotenvError> {
    match env.var("DATABASE_URL"@) {
        Some(url) => match parsed_url(url) {
            Some(parts) => Ok(settings_of_url(parts, env.var("PG_SEARCH_PATH"@))),
            None => Err(DotenvError::InvalidDatabaseUrl),
        },
        None => settings_of_vars(env),
    }
}

/// Past its leading slashes a path is what is left when they are skipped.
proof fn lemma_without_leading_slashes(path: Seq<char>, k: int)
    requires
        0 <= k <= path.len(),
        forall|i: int| 0 <= i < k ==> path[i] == '/',
        k == path.len() || path[k] != '/',
    ensures
        without_leading_slashes(path) == path.skip(k),
    decreases k,
{
    if k == 0 {
        assert(path.skip(0) =~= path);
    } else {
        lemma_without_leading_slashes(path.drop_first(), k - 1);
        assert(path.drop_first().skip(k - 1) =~= path.skip(k));
    }
}

/// `path` without the slashes that it begins with.
pub fn trim_leading_slashes(path: &str) -> (out: String)
    ensures
        out@ == without_leading_slashes(path@),
{
    let chars = chars_of(path);
    let mut k: usize = 0;
    while k < chars.len() && chars[k] == '/'
        invariant
            k <= chars.len(),
            forall|i: int| 0 <= i < k ==> chars@[i] == '/',
        decreases chars.len() - k,
    {
        k = k + 1;
    }
    proof {
        lemma_without_leading_slashes(path@, k as int);
    }
    String::from_str(path.substring_char(k, chars.len()))
}

/// Reads `text` as the number of a port.
pub fn parse_port(text: &str) -> (port: Option<u16>)
    ensures
        match port {
            Some(n) => port_of(text@) == Some(n as int),
            None => port_of(text@) is None,
        },
{
    let chars = chars_of(text);
    let parsed = if chars.len() > 0 && chars[0] == '+' {
        parse_decimal(text.substring_char(1, chars.len()), 65535)
    } else {
        parse_decimal(text, 65535)
    };
    match parsed {
        Some(n) => Some(n as u16),
        None => None,
    }
}

/// A copy of a string that may be missing.
fn clone_text(value: &Option<String>) -> (out: Option<String>)
    ensures
        out == *value,
{
    match value {
        Some(text) => Some(text.clone()),
        None => None,
    }
}

impl Dotenv {
    /// The value of the variable `key` in `env`.
    pub fn get_var(env: &Environment, key: &str) -> (value: Option<String>)
        ensures
            text_of(value) == env.var(key@),
    {
        let mut i: usize = 0;
        while i < env.vars.len()
            invariant
                i <= env.vars.len(),
                lookup(env.vars@, i as nat, key@) is None,
            decreases env.vars.len() - i,
        {
            if str_eq(env.vars[i].0.as_str(), key) {
                proof {
                    lemma_lookup_found(env.vars@, (i + 1) as nat, env.vars@.len(), key@);
                }
                return Some(env.vars[i].1.clone());
            }
            i = i + 1;
        }
        None
    }

    /// The kind of database that a name stands for.
    pub fn get_db_type(t: Option<&str>) -> (db_type: Option<DatabaseType>)
        ensures
            db_type == db_type_of(
                match t {
                    Some(name) => Some(name@),
                    None => None,
                },
            ),
    {
        match t {
            Some(name) => if str_eq(name, "mysql") {
                Some(DatabaseType::Mysql)
            } else {
                Some(DatabaseType::Postgres)
            },
            None => None,
        }
    }

    /// The settings that the parts of a `DATABASE_URL` give, with the schema
    /// search path beside them.
    pub fn from_url(parts: &UrlParts, pg_search_path: Option<String>) -> (out: Dotenv)
        ensures
            out@ == settings_of_url(parts@, text_of(pg_search_path)),
    {
        let db_user = if str_eq(parts.username.as_str(), "") {
            None
        } else {
            Some(parts.username.clone())
        };
        proof {
            reveal_strlit("");
            if parts.username@.len() == 0 {
                assert(parts.username@ =~= ""@);
            }
        }
        Dotenv {
            db_type: Dotenv::get_db_type(Some(parts.scheme.as_str())),
            db_user,
            db_pass: clone_text(&parts.password),
            db_host: clone_text(&parts.host),
            db_port: parts.port,
            db_name: Some(trim_leading_slashes(parts.path.as_str())),
            pg_search_path,
        }
    }

    /// The settings that `env` gives: those of `DATABASE_URL` where it is
    /// set, else those of `DB_TYPE`, `DB_USER`, `DB_HOST`, `DB_PORT`,
    /// `DB_PASS` and `DB_NAME`; `PG_SEARCH_PATH` is read in both cases.
    pub fn new(env: &Environment) -> (out: Result<Dotenv, DotenvError>)
        ensures
            match out {
                Ok(settings) => settings_of(*env) == Ok::<DotenvView, DotenvError>(settings@),
                Err(error) => settings_of(*env) == Err::<DotenvView, DotenvError>(error),
            },
    {
        if let Some(url_str) = Dotenv::get_var(env, "DATABASE_URL") {
            return match parse_url(url_str.as_str()) {
                Some(parts) => Ok(Dotenv::from_url(&parts, Dotenv::get_var(env, "PG_SEARCH_PATH"))),
                None => Err(DotenvError::InvalidDatabaseUrl),
            };
        }
        let db_port = match Dotenv::get_var(env, "DB_PORT") {
            Some(text) => match parse_port(text.as_str()) {
                Some(port) => Some(port),
                None => {
                    return Err(DotenvError::InvalidPort);
                },
            },
            None => None,
        };
        let db_type_name = Dotenv::get_var(env, "DB_TYPE");
        Ok(
            Dotenv {
                db_type: Dotenv::get_db_type(
                    match &db_type_name {
                        Some(name) => Some(name.as_str()),
                        None => None,
                    },
                ),
                db_user: Dotenv::get_var(env, "DB_USER"),
                db_host: Dotenv::get_var(env, "DB_HOST"),
                db_port,
                db_pass: Dotenv::get_var(env, "DB_PASS"),
                db_name: Dotenv::get_var(env, "DB_NAME"),
                pg_search_path: Dotenv::get_var(env, "PG_SEARCH_PATH"),
            },
        )
    }
}

/// A value found among the first `n` pairs is the value found among more.
proof fn lemma_lookup_found(vars: Seq<(String, String)>, n: nat, m: nat, key: Seq<char>)
    requires
        n <= m <= vars.len(),
        lookup(vars, n, key) is Some,
    ensures
        lookup(vars, m, key) == lookup(vars, n, key),
    decreases m - n,
{
    if n < m {
        lemma_lookup_found(vars, n, (m - 1) as nat, key);
    }
}

} // verus!
