//! Server-side configuration, built from the values of the `WSPR_*`
//! environment variables.
use vstd::prelude::*;

use crate::models::filter::opt_str_view;
use crate::text::{
    parse_int_spec, parse_u32, parse_u8, split_commas, split_commas_str, trim, trim_str,
    to_uppercase, unicode_uppercase,
};
use vstd::string::{StrSliceExecFns, StringExecFns};

verus! {

/// Server-side configuration.
pub struct Config {
    /// Full HTTP URL of the ClickHouse server.
    pub clickhouse_url: String,
    /// ClickHouse database name.
    pub clickhouse_db: String,
    /// ClickHouse table name for personal WSPR spots.
    pub clickhouse_table: String,
    /// Database of the global spots table; `None` means `clickhouse_db`.
    pub global_db: Option<String>,
    /// ClickHouse table name for global WSPR spots.
    pub global_table: String,
    /// Optional ClickHouse username.
    pub clickhouse_user: Option<String>,
    /// Optional ClickHouse password.
    pub clickhouse_password: Option<String>,
    /// Receiver QTH Maidenhead grid square; `None` disables great-circle lines.
    pub my_grid: Option<String>,
    /// How many hours of data to show on initial page load.
    pub time_window_hours: u32,
    /// Default and maximum row limit of local spot queries.
    pub spot_limit: u32,
    /// Default and maximum row limit of global spot queries.
    pub global_spot_limit: u32,
    /// Callsigns excluded from all query results, upper-cased.
    pub ignore_callsigns: Vec<String>,
    /// Map zoom level applied when the user clicks a table row.
    pub detail_zoom: u8,
}

/// The values of the configuration's environment variables, `None` where a
/// variable is unset.
pub struct EnvVars {
    /// `WSPR_CLICKHOUSE_URL`
    pub clickhouse_url: Option<String>,
    /// `WSPR_CLICKHOUSE_DB`
    pub clickhouse_db: Option<String>,
    /// `WSPR_CLICKHOUSE_TABLE`
    pub clickhouse_table: Option<String>,
    /// `WSPR_GLOBAL_DB`
    pub global_db: Option<String>,
    /// `WSPR_GLOBAL_TABLE`
    pub global_table: Option<String>,
    /// `WSPR_CLICKHOUSE_USER`
    pub clickhouse_user: Option<String>,
    /// `WSPR_CLICKHOUSE_PASSWORD`
    pub clickhouse_password: Option<String>,
    /// `WSPR_MY_GRID`
    pub my_grid: Option<String>,
    /// `WSPR_TIME_WINDOW_HOURS`
    pub time_window_hours: Option<String>,
    /// `WSPR_SPOT_LIMIT`
    pub spot_limit: Option<String>,
    /// `WSPR_GLOBAL_SPOT_LIMIT`
    pub global_spot_limit: Option<String>,
    /// `WSPR_IGNORE_CALLSIGNS`
    pub ignore_callsigns: Option<String>,
    /// `WSPR_DETAIL_ZOOM`
    pub detail_zoom: Option<String>,
}

/// A string variable, or its default when unset.
pub open spec fn str_or(v: Option<String>, default: Seq<char>) -> Seq<char> {
    match v {
        Some(s) => s@,
        None => default,
    }
}

/// A numeric variable of the type with range `0..=max`: its value when set
/// and parseable, else the default.
pub open spec fn num_or(v: Option<String>, max: int, default: int) -> int {
    match v {
        Some(s) => match parse_int_spec(s@, false, 0, max) {
            Some(n) => n,
            None => default,
        },
        None => default,
    }
}

/// The ignore list that a comma-separated value gives: each piece trimmed
/// and upper-cased, empty pieces dropped.
pub open spec fn ignore_list(pieces: Seq<Seq<char>>) -> Seq<Seq<char>>
    decreases pieces.len(),
{
    if pieces.len() == 0 {
        Seq::empty()
    } else {
        let prev = ignore_list(pieces.drop_last());
        let u = unicode_uppercase(trim(pieces.last()));
        if u.len() > 0 {
            prev.push(u)
        } else {
            prev
        }
    }
}

/// The ignore list of `WSPR_IGNORE_CALLSIGNS`, empty when unset.
pub open spec fn ignore_list_of(v: Option<String>) -> Seq<Seq<char>> {
    match v {
        Some(s) => ignore_list(split_commas(s@)),
        None => Seq::empty(),
    }
}

/// Parse a comma-separated callsign list: each piece is trimmed and
/// upper-cased, and empty pieces are dropped.
pub fn parse_ignore_callsigns(v: &str) -> (r: Vec<String>)
    ensures
        r@.map_values(|s: String| s@) == ignore_list(split_commas(v@)),
{
    let pieces = split_commas_str(v);
    let ghost pv = pieces@.map_values(|p: String| p@);
    let mut r: Vec<String> = Vec::new();
    let mut i: usize = 0;
    while i < pieces.len()
        invariant
            i <= pieces.len(),
            pv == pieces@.map_values(|p: String| p@),
            r@.map_values(|s: String| s@) == ignore_list(pv.take(i as int)),
        decreases pieces.len() - i,
    {
        let t = trim_str(pieces[i].as_str());
        let u = to_uppercase(t.as_str());
        proof {
            assert(pv.take(i + 1).drop_last() == pv.take(i as int));
            assert(pv.take(i + 1).last() == pieces@[i as int]@);
        }
        if u.as_str().unicode_len() > 0 {
            r.push(u);
        }
        proof {
            assert(r@.map_values(|s: String| s@) == ignore_list(pv.take(i + 1)));
        }
        i = i + 1;
    }
    proof {
        assert(pv.take(pieces.len() as int) == pv);
    }
    r
}

fn string_or(v: Option<String>, default: &str) -> (r: String)
    ensures
        r@ == str_or(v, default@),
{
    match v {
        Some(s) => s,
        None => String::from_str(default),
    }
}

/// True when `c` is the configuration that the variables `e` give.
pub open spec fn config_from_env_spec(e: EnvVars, c: Config) -> bool {
    &&& c.clickhouse_url@ == str_or(e.clickhouse_url, "http://10.174.3.247:8123"@)
    &&& c.clickhouse_db@ == str_or(e.clickhouse_db, "wsprrs"@)
    &&& c.clickhouse_table@ == str_or(e.clickhouse_table, "wspr_spots"@)
    &&& c.global_db == e.global_db
    &&& c.global_table@ == str_or(e.global_table, "global_spots"@)
    &&& c.clickhouse_user == e.clickhouse_user
    &&& c.clickhouse_password == e.clickhouse_password
    &&& c.my_grid == e.my_grid
    &&& c.time_window_hours == num_or(e.time_window_hours, u32::MAX as int, 1)
    &&& c.spot_limit == num_or(e.spot_limit, u32::MAX as int, 5_000)
    &&& c.global_spot_limit == num_or(e.global_spot_limit, u32::MAX as int, 10_000)
    &&& c.ignore_callsigns@.map_values(|s: String| s@) == ignore_list_of(e.ignore_callsigns)
    &&& c.detail_zoom == num_or(e.detail_zoom, u8::MAX as int, 10)
}

fn u32_or(v: &Option<String>, default: u32) -> (r: u32)
    ensures
        r == num_or(*v, u32::MAX as int, default as int),
{
    match v {
        Some(s) => match parse_u32(s.as_str()) {
            Some(n) => n,
            None => default,
        },
        None => default,
    }
}

impl Config {
    /// The configuration that the variables give: strings default to the
    /// development server, numbers that are unset or do not parse fall back
    /// to 1 hour, 5000 rows, 10000 global rows and zoom 10, and the ignore
    /// list is the trimmed, upper-cased, non-empty pieces of the
    /// comma-separated value.
    pub fn from_env_vars(e: EnvVars) -> (c: Config)
        ensures
            config_from_env_spec(e, c),
    {
        let time_window_hours = u32_or(&e.time_window_hours, 1);
        let spot_limit = u32_or(&e.spot_limit, 5_000);
        let global_spot_limit = u32_or(&e.global_spot_limit, 10_000);
        let detail_zoom = match &e.detail_zoom {
            Some(s) => match parse_u8(s.as_str()) {
                Some(n) => n,
                None => 10,
            },
            None => 10,
        };
        let ignore_callsigns = match &e.ignore_callsigns {
            Some(s) => parse_ignore_callsigns(s.as_str()),
            None => Vec::new(),
        };
        let ghost e0 = e;
        let c = Config {
            clickhouse_url: string_or(e.clickhouse_url, "http://10.174.3.247:8123"),
            clickhouse_db: string_or(e.clickhouse_db, "wsprrs"),
            clickhouse_table: string_or(e.clickhouse_table, "wspr_spots"),
            global_db: e.global_db,
            global_table: string_or(e.global_table, "global_spots"),
            clickhouse_user: e.clickhouse_user,
            clickhouse_password: e.clickhouse_password,
            my_grid: e.my_grid,
            time_window_hours,
            spot_limit,
            global_spot_limit,
            ignore_callsigns,
            detail_zoom,
        };
        proof {
            if e0.ignore_callsigns is None {
                assert(c.ignore_callsigns@.map_values(|s: String| s@) =~= Seq::<Seq<char>>::empty());
            }
        }
        c
    }

    /// The fully-qualified global table: `"db.table"` when a global database
    /// is configured, otherwise just `"table"`.
    pub fn global_table_qualified(&self) -> (r: String)
        ensures
            r@ == match self.global_db {
                Some(db) => db@ + "."@ + self.global_table@,
                None => self.global_table@,
            },
    {
        match &self.global_db {
            Some(db) => {
                let mut r = db.clone();
                r.append(".");
                r.append(self.global_table.as_str());
                r
            },
            None => self.global_table.clone(),
        }
    }

    /// A ClickHouse client for the configured server, database and
    /// credentials: URL and database always set, user and password set
    /// when configured.
    pub fn clickhouse_client(&self) -> (c: ClickhouseClient)
        ensures
            c.settings() == (ClientSettings {
                url: self.clickhouse_url@,
                database: Some(self.clickhouse_db@),
                user: opt_str_view(self.clickhouse_user),
                password: opt_str_view(self.clickhouse_password),
            }),
    {
        let mut client = client_with_database(
            client_with_url(client_default(), self.clickhouse_url.as_str()),
            self.clickhouse_db.as_str(),
        );
        match &self.clickhouse_user {
            Some(user) => {
                client = client_with_user(client, user.as_str());
            },
            None => {},
        }
        match &self.clickhouse_password {
            Some(pass) => {
                client = client_with_password(client, pass.as_str());
            },
            None => {},
        }
        client
    }
}

// ---------------------------------------------------------------------------
// ClickHouse client construction
// ---------------------------------------------------------------------------

#[verifier::external_type_specification]
#[verifier::external_body]
pub struct ExClickhouseClient(clickhouse::Client);

/// The connection settings that the library gives a ClickHouse client.
pub struct ClientSettings {
    /// Server URL (empty until set).
    pub url: Seq<char>,
    /// Database name, if set.
    pub database: Option<Seq<char>>,
    /// User name, if set.
    pub user: Option<Seq<char>>,
    /// Password, if set.
    pub password: Option<Seq<char>>,
}

/// A ClickHouse client together with the settings it was built with.  The
/// client does not let its settings be read back, so they are tracked here.
pub struct ClickhouseClient {
    client: clickhouse::Client,
    settings: Ghost<ClientSettings>,
}

impl ClickhouseClient {
    /// The settings the client was built with.
    pub closed spec fn settings(&self) -> ClientSettings {
        self.settings@
    }

    /// The client itself, for making queries.
    pub fn into_client(self) -> clickhouse::Client {
        self.client
    }
}

/// `clickhouse::Client::default`: a client with an HTTP connection pool, an
/// empty URL and no database, user or password.
#[verifier::external_body]
fn client_default() -> (c: ClickhouseClient)
    ensures
        c.settings() == (ClientSettings { url: Seq::empty(), database: None, user: None, password: None }),
{
    ClickhouseClient {
        client: clickhouse::Client::default(),
        settings: Ghost(ClientSettings { url: Seq::empty(), database: None, user: None, password: None }),
    }
}

/// `clickhouse::Client::with_url`: the client with its URL set to `url`,
/// all other settings kept.
#[verifier::external_body]
fn client_with_url(c: ClickhouseClient, url: &str) -> (r: ClickhouseClient)
    ensures
        r.settings() == (ClientSettings { url: url@, ..c.settings() }),
{
    ClickhouseClient {
        client: c.client.with_url(url),
        settings: Ghost(ClientSettings { url: url@, ..c.settings@ }),
    }
}

/// `clickhouse::Client::with_database`: the client with its database set to
/// `database`, all other settings kept.
#[verifier::external_body]
fn client_with_database(c: ClickhouseClient, database: &str) -> (r: ClickhouseClient)
    ensures
        r.settings() == (ClientSettings { database: Some(database@), ..c.settings() }),
{
    ClickhouseClient {
        client: c.client.with_database(database),
        settings: Ghost(ClientSettings { database: Some(database@), ..c.settings@ }),
    }
}

/// `clickhouse::Client::with_user`: the client with its user set to `user`,
/// all other settings kept.
#[verifier::external_body]
fn client_with_user(c: ClickhouseClient, user: &str) -> (r: ClickhouseClient)
    ensures
        r.settings() == (ClientSettings { user: Some(user@), ..c.settings() }),
{
    ClickhouseClient {
        client: c.client.with_user(user),
        settings: Ghost(ClientSettings { user: Some(user@), ..c.settings@ }),
    }
}

/// `clickhouse::Client::with_password`: the client with its password set to
/// `password`, all other settings kept.
#[verifier::external_body]
fn client_with_password(c: ClickhouseClient, password: &str) -> (r: ClickhouseClient)
    ensures
        r.settings() == (ClientSettings { password: Some(password@), ..c.settings() }),
{
    ClickhouseClient {
        client: c.client.with_password(password),
        settings: Ghost(ClientSettings { password: Some(password@), ..c.settings@ }),
    }
}

} // verus!
