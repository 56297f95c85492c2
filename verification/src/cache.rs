use crate::text::{decimal_value, digit_run, is_digit};
use vstd::prelude::*;
use vstd::string::*;

verus! {

/// The shortest time that an entry stays fresh, in seconds.
pub const MIN_TTL: i64 = 60;

/// The longest time that an entry stays fresh, in seconds: thirty days.
pub const MAX_TTL: i64 = 2_592_000;

/// The count that an interval code starts with: the number that its
/// leading digits spell, or zero where there are none.
pub open spec fn leading_count(interval: Seq<char>) -> nat {
    decimal_value(interval, digit_run(interval, 0))
}

/// The seconds that `count` units of `unit` last, before clamping. An
/// interval without a positive count or a known unit counts as an hour; a
/// month is thirty days, however many are asked for.
pub open spec fn raw_ttl(count: int, unit: Option<char>) -> int {
    if count <= 0 {
        3_600
    } else if unit == Some('m') {
        count * 60
    } else if unit == Some('h') {
        count * 3_600
    } else if unit == Some('d') {
        count * 86_400
    } else if unit == Some('w') {
        count * 604_800
    } else if unit == Some('M') {
        2_592_000
    } else {
        3_600
    }
}

/// How long candles of an interval stay fresh: the interval's own length,
/// held between one minute and thirty days.
pub open spec fn ttl_spec(interval: Seq<char>) -> int {
    let d = digit_run(interval, 0);
    let unit = if d < interval.len() {
        Some(interval[d])
    } else {
        None
    };
    let raw = raw_ttl(leading_count(interval) as int, unit);
    if raw < MIN_TTL {
        MIN_TTL as int
    } else if raw > MAX_TTL {
        MAX_TTL as int
    } else {
        raw
    }
}

/// The key of an entry: the symbol, a colon, and the interval.
pub open spec fn cache_key_spec(symbol: Seq<char>, interval: Seq<char>) -> Seq<char> {
    symbol + seq![':'] + interval
}

/// Whether what was cached at `cached_at` is still fresh at `now`.
pub open spec fn is_fresh_spec(now: i64, cached_at: i64, interval: Seq<char>) -> bool {
    now - cached_at < ttl_spec(interval)
}

/// What a read at `now` makes of the row that was found under the key of
/// an interval: its data, where there is a row and it is fresh.
pub open spec fn fresh_data_spec(
    row: Option<(Seq<char>, i64)>,
    interval: Seq<char>,
    now: i64,
) -> Option<Seq<char>> {
    match row {
        Some(found) => if is_fresh_spec(now, found.1, interval) {
            Some(found.0)
        } else {
            None
        },
        None => None,
    }
}

/// What a read at `now` finds in a cache with these rows: the data under
/// the key, where there is a row and it is fresh.
pub open spec fn read_spec(
    rows: Map<Seq<char>, (Seq<char>, i64)>,
    symbol: Seq<char>,
    interval: Seq<char>,
    now: i64,
) -> Option<Seq<char>> {
    let key = cache_key_spec(symbol, interval);
    fresh_data_spec(
        if rows.contains_key(key) {
            Some(rows[key])
        } else {
            None
        },
        interval,
        now,
    )
}

/// The rows of a cache after a write at `now`.
pub open spec fn written_spec(
    rows: Map<Seq<char>, (Seq<char>, i64)>,
    symbol: Seq<char>,
    interval: Seq<char>,
    data: Seq<char>,
    now: i64,
) -> Map<Seq<char>, (Seq<char>, i64)> {
    rows.insert(cache_key_spec(symbol, interval), (data, now))
}

/// A write is read back unchanged for as long as it is fresh, and not at
/// all from then on: a read at a time less than the interval's TTL after
/// the write finds the data written, and every later read misses.
pub proof fn lemma_cache_freshness(
    rows: Map<Seq<char>, (Seq<char>, i64)>,
    symbol: Seq<char>,
    interval: Seq<char>,
    data: Seq<char>,
    written_at: i64,
    now: i64,
)
    ensures
        now - written_at < ttl_spec(interval) ==> read_spec(
            written_spec(rows, symbol, interval, data, written_at),
            symbol,
            interval,
            now,
        ) == Some(data),
        now - written_at >= ttl_spec(interval) ==> read_spec(
            written_spec(rows, symbol, interval, data, written_at),
            symbol,
            interval,
            now,
        ) == None::<Seq<char>>,
{
}

/// Declares `rusqlite::Connection`, a connection to a SQLite database. It
/// is opaque: contracts speak of it through `table_rows` alone.
#[verifier::external_type_specification]
#[verifier::external_body]
pub struct ExConnection(rusqlite::Connection);

/// Declares `rusqlite::Error`, the error of every call on a connection.
/// It is opaque, and read only by `error_text`.
#[verifier::external_type_specification]
#[verifier::external_body]
pub struct ExSqlError(rusqlite::Error);

/// The rows of the table `kline_cache` of a connection: under each cache
/// key the data and the time of caching. A connection without the table
/// has no rows.
pub uninterp spec fn table_rows(conn: rusqlite::Connection) -> Map<Seq<char>, (Seq<char>, i64)>;

/// Calls `rusqlite::Connection::open_in_memory`, which opens a database
/// that lives in memory. Nothing is claimed of the result.
#[verifier::external_body]
fn open_memory() -> (r: Result<rusqlite::Connection, rusqlite::Error>) {
    rusqlite::Connection::open_in_memory()
}

/// Calls `rusqlite::Connection::execute_batch` with the statement that
/// creates the table `kline_cache`, keyed by `cache_key`, where it does
/// not exist yet. Nothing is claimed of the result.
#[verifier::external_body]
fn create_table(conn: &rusqlite::Connection) -> (r: Result<(), rusqlite::Error>) {
    conn.execute_batch(
        "CREATE TABLE IF NOT EXISTS kline_cache (
            cache_key TEXT PRIMARY KEY,
            data TEXT NOT NULL,
            cached_at INTEGER NOT NULL
        );",
    )
}

/// Calls `rusqlite::Connection::query_row` with the statement that selects
/// the data and the time of caching under one cache key. `query_row`
/// hands out the first row of the answer, and an error where there is
/// none or the statement fails. The contract claims that a row handed out
/// is the table's row under that key; of an error it claims nothing.
#[verifier::external_body]
fn select_row(conn: &rusqlite::Connection, key: &str) -> (r: Result<(String, i64), rusqlite::Error>)
    ensures
        r matches Ok(row) ==> table_rows(*conn).contains_key(key@) && table_rows(*conn)[key@] == (
            row.0@,
            row.1,
        ),
{
    conn.query_row(
        "SELECT data, cached_at FROM kline_cache WHERE cache_key = ?1",
        [key],
        |row| Ok((row.get(0)?, row.get(1)?)),
    )
}

/// Calls `rusqlite::Connection::execute` with the statement that inserts a
/// row under a cache key or replaces the row that is there. `execute`
/// returns the number of rows changed, or an error. The contract claims
/// that after success the table holds the new row under the key and is
/// unchanged under every other; of an error it claims nothing.
#[verifier::external_body]
fn upsert_row(conn: &mut rusqlite::Connection, key: &str, data: &str, cached_at: i64) -> (r:
    Result<usize, rusqlite::Error>)
    ensures
        r is Ok ==> table_rows(*final(conn)) == table_rows(*old(conn)).insert(
            key@,
            (data@, cached_at),
        ),
{
    conn.execute(
        "INSERT OR REPLACE INTO kline_cache (cache_key, data, cached_at) VALUES (?1, ?2, ?3)",
        (key, data, cached_at),
    )
}

/// Formats a `rusqlite::Error` by its `Display`. Nothing is claimed of the
/// text.
#[verifier::external_body]
fn error_text(error: &rusqlite::Error) -> (r: String) {
    format!("{}", error)
}

/// Calls `chrono::Utc::now().timestamp()`: the seconds since the Unix
/// epoch by the system clock. Nothing is claimed of the value. The call
/// panics where the system clock stands before the epoch, or so far after
/// it that chrono has no date for it.
#[verifier::external_body]
fn now_seconds() -> i64 {
    chrono::Utc::now().timestamp()
}

/// Whether `message` is `prefix` with some text behind it.
pub open spec fn starts_with(message: Seq<char>, prefix: Seq<char>) -> bool {
    prefix.len() <= message.len() && message.subrange(0, prefix.len() as int) == prefix
}

/// `prefix` with the text of the error behind it.
fn described(prefix: &str, error: &rusqlite::Error) -> (r: String)
    ensures
        starts_with(r@, prefix@),
{
    let mut message = prefix.to_owned();
    let text = error_text(error);
    message.append(text.as_str());
    assert(message@.subrange(0, prefix@.len() as int) =~= prefix@);
    message
}

/// What a read at `now` makes of the row found under the key of an
/// interval.
pub fn fresh_data(row: Option<(String, i64)>, interval: &str, now: i64) -> (r: Option<String>)
    ensures
        match r {
            Some(data) => fresh_data_spec(row_view(row), interval@, now) == Some(data@),
            None => fresh_data_spec(row_view(row), interval@, now) is None,
        },
{
    let ttl = ttl_seconds(interval);
    match row {
        Some((data, cached_at)) => {
            if (now as i128) - (cached_at as i128) < ttl as i128 {
                Some(data)
            } else {
                None
            }
        },
        None => None,
    }
}

/// A row as contracts speak of it.
pub open spec fn row_view(row: Option<(String, i64)>) -> Option<(Seq<char>, i64)> {
    match row {
        Some(found) => Some((found.0@, found.1)),
        None => None,
    }
}

/// How long candles of an interval stay fresh, in seconds.
pub fn ttl_seconds(interval: &str) -> (r: i64)
    ensures
        r == ttl_spec(interval@),
        MIN_TTL <= r <= MAX_TTL,
{
    let n = interval.unicode_len();
    let mut d: usize = 0;
    let mut value: i64 = 0;
    let mut overflow = false;
    while d < n && is_digit(interval.get_char(d))
        invariant
            d <= n,
            n == interval@.len(),
            digit_run(interval@, 0) == digit_run(interval@, d as int),
            forall|k: int| 0 <= k < d ==> is_digit(interval@[k]),
            value >= 0,
            !overflow ==> value == decimal_value(interval@, d as int),
            overflow ==> decimal_value(interval@, d as int) > i64::MAX,
        decreases n - d,
    {
        let c = interval.get_char(d);
        let digit: i64 = (c as u32 - '0' as u32) as i64;
        if !overflow {
            match value.checked_mul(10) {
                Some(tenfold) => match tenfold.checked_add(digit) {
                    Some(next) => {
                        value = next;
                    },
                    None => {
                        overflow = true;
                    },
                },
                None => {
                    overflow = true;
                },
            }
        }
        d += 1;
    }
    let most: i64 = MAX_TTL;
    let raw: i64 = if (!overflow && value <= 0) || d >= n {
        3_600
    } else {
        let unit = interval.get_char(d);
        let each: i64 = if unit == 'm' {
            60
        } else if unit == 'h' {
            3_600
        } else if unit == 'd' {
            86_400
        } else if unit == 'w' {
            604_800
        } else {
            0
        };
        if unit == 'M' {
            most
        } else if each == 0 {
            3_600
        } else if overflow {
            most
        } else {
            match value.checked_mul(each) {
                Some(product) => product,
                None => most,
            }
        }
    };
    if raw < MIN_TTL {
        MIN_TTL
    } else if raw > most {
        most
    } else {
        raw
    }
}

/// The key of an entry.
pub fn cache_key(symbol: &str, interval: &str) -> (key: String)
    ensures
        key@ == cache_key_spec(symbol@, interval@),
{
    let mut key = symbol.to_owned();
    key.append(":");
    key.append(interval);
    proof {
        reveal_strlit(":");
        assert(":"@ =~= seq![':']);
    }
    key
}

/// A cache of serialized candles, keyed by symbol and source interval, in
/// an in-memory SQLite table.
///
/// Rows are never dropped; one that has outlived its interval's TTL reads
/// as missing until it is written again.
pub struct CacheDb {
    conn: rusqlite::Connection,
}

impl View for CacheDb {
    type V = Map<Seq<char>, (Seq<char>, i64)>;

    closed spec fn view(&self) -> Map<Seq<char>, (Seq<char>, i64)> {
        table_rows(self.conn)
    }
}

/// The data of a read, as contracts speak of it.
pub open spec fn data_view(r: Option<String>) -> Option<Seq<char>> {
    match r {
        Some(data) => Some(data@),
        None => None,
    }
}

impl CacheDb {
    /// A cache on a new in-memory database. The error says whether the
    /// database could not be opened or the table not be created.
    pub fn new() -> (r: Result<Self, String>)
        ensures
            r matches Err(message) ==> starts_with(message@, "Failed to open cache db: "@)
                || starts_with(message@, "Failed to create cache table: "@),
    {
        let conn = match open_memory() {
            Ok(conn) => conn,
            Err(error) => {
                return Err(described("Failed to open cache db: ", &error));
            },
        };
        match create_table(&conn) {
            Ok(()) => Ok(CacheDb { conn }),
            Err(error) => Err(described("Failed to create cache table: ", &error)),
        }
    }

    /// How long candles of an interval stay fresh, in seconds.
    pub fn ttl_seconds(interval: &str) -> (r: i64)
        ensures
            r == ttl_spec(interval@),
            MIN_TTL <= r <= MAX_TTL,
    {
        ttl_seconds(interval)
    }

    /// What a read at `now` finds: the data under the symbol and the
    /// interval, where it is fresh. A read that finds data finds what the
    /// table holds; a read of what is missing or stale finds nothing. A
    /// query that fails reads as a miss.
    pub fn get_at(&self, symbol: &str, interval: &str, now: i64) -> (r: Option<String>)
        ensures
            r matches Some(data) ==> read_spec(self@, symbol@, interval@, now) == Some(data@),
            read_spec(self@, symbol@, interval@, now) is None ==> r is None,
    {
        let key = cache_key(symbol, interval);
        let row = match select_row(&self.conn, key.as_str()) {
            Ok(row) => Some(row),
            Err(_) => None,
        };
        fresh_data(row, interval, now)
    }

    /// What a read finds now, by the system clock: what `get_at` finds at
    /// the time that the clock shows. It panics where the clock stands
    /// before the Unix epoch.
    pub fn get(&self, symbol: &str, interval: &str) -> (r: Option<String>)
        ensures
            exists|now: i64|
                {
                    &&& r matches Some(data) ==> #[trigger] read_spec(
                        self@,
                        symbol@,
                        interval@,
                        now,
                    ) == Some(data@)
                    &&& read_spec(self@, symbol@, interval@, now) is None ==> r is None
                },
    {
        let now = now_seconds();
        self.get_at(symbol, interval, now)
    }

    /// Stores the data under the symbol and the interval as written at
    /// `now`, in place of what was there. The error is that of the
    /// statement, where it fails.
    pub fn set_at(&mut self, symbol: &str, interval: &str, data: &str, now: i64) -> (r: Result<
        (),
        String,
    >)
        ensures
            r is Ok ==> final(self)@ == written_spec(old(self)@, symbol@, interval@, data@, now),
            r matches Err(message) ==> starts_with(message@, "Cache write error: "@),
    {
        let key = cache_key(symbol, interval);
        match upsert_row(&mut self.conn, key.as_str(), data, now) {
            Ok(_) => Ok(()),
            Err(error) => Err(described("Cache write error: ", &error)),
        }
    }

    /// Stores the data as written now, by the system clock: what `set_at`
    /// stores at the time that the clock shows. It panics where the clock
    /// stands before the Unix epoch.
    pub fn set(&mut self, symbol: &str, interval: &str, data: &str) -> (r: Result<(), String>)
        ensures
            r is Ok ==> exists|now: i64|
                final(self)@ == #[trigger] written_spec(
                    old(self)@,
                    symbol@,
                    interval@,
                    data@,
                    now,
                ),
            r matches Err(message) ==> starts_with(message@, "Cache write error: "@),
    {
        let now = now_seconds();
        self.set_at(symbol, interval, data, now)
    }
}

} // verus!
