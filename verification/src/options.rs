use vstd::prelude::*;
use crate::error::DriverError;
use crate::text::{chars_of, push_char, push_chars, range_contains, range_starts_with, string_from_chars, trim, trim_bounds, trim_start, trim_end, is_space, lemma_trim_end_after_prefix, lemma_trim_end_is_prefix, lemma_trim_without_leading_space};

verus! {

/// Fetch-buffer settings used by the ODBC driver.
///
/// `max_column_size = Some(_)` enables buffered fetching and can truncate long text or binary
/// fields to the configured size. `max_column_size = None` keeps fetching unbuffered so variable
/// sized values are not truncated by this crate's buffer allocation.
#[derive(Debug, Clone, Copy, PartialEq, Eq, Structural)]
pub struct OdbcBufferSettings {
    /// Number of rows fetched in each batch.
    pub batch_size: usize,
    /// Maximum text or binary column size in buffered mode, or `None` for unbuffered mode.
    pub max_column_size: Option<usize>,
}

impl OdbcBufferSettings {
    /// The settings accepted by the option setters: a positive batch size and, when
    /// buffering, a positive column size.
    pub open spec fn valid(self) -> bool {
        &&& self.batch_size > 0
        &&& self.max_column_size matches Some(size) ==> size > 0
    }
}

impl Default for OdbcBufferSettings {
    fn default() -> (r: Self)
        ensures
            r.batch_size == 64,
            r.max_column_size is None,
    {
        OdbcBufferSettings { batch_size: 64, max_column_size: None }
    }
}

/// Logging level of statements, mirroring the levels of `log::LevelFilter`.
#[derive(Debug, Clone, Copy, PartialEq, Eq, Structural)]
pub enum LogLevel {
    Off,
    Error,
    Warn,
    Info,
    Debug,
    Trace,
}

/// A length of time, as whole seconds and the nanoseconds beyond them.
#[derive(Debug, Clone, Copy, PartialEq, Eq, Structural)]
pub struct StatementDuration {
    pub secs: u64,
    pub nanos: u32,
}

/// What the options of a connection hold.
pub struct ConnectOptionsView {
    pub conn_str: Seq<char>,
    pub buffer_settings: OdbcBufferSettings,
    pub statement_cache_capacity: usize,
    pub log_statements: LogLevel,
    pub log_slow_statements: LogLevel,
    pub log_slow_statement_duration: StatementDuration,
}

/// Connection options for an ODBC data source. They have no `Debug`: the connection string may
/// hold credentials.
#[derive(Clone)]
pub struct OdbcConnectOptions {
    conn_str: String,
    buffer_settings: OdbcBufferSettings,
    statement_cache_capacity: usize,
    log_statements: LogLevel,
    log_slow_statements: LogLevel,
    log_slow_statement_duration: StatementDuration,
}

impl View for OdbcConnectOptions {
    type V = ConnectOptionsView;

    closed spec fn view(&self) -> ConnectOptionsView {
        ConnectOptionsView {
            conn_str: self.conn_str@,
            buffer_settings: self.buffer_settings,
            statement_cache_capacity: self.statement_cache_capacity,
            log_statements: self.log_statements,
            log_slow_statements: self.log_slow_statements,
            log_slow_statement_duration: self.log_slow_statement_duration,
        }
    }
}

/// The prefix `odbc:` that legacy URLs carry.
pub open spec fn odbc_prefix() -> Seq<char> {
    seq!['o', 'd', 'b', 'c', ':']
}

/// The prefix `DSN=` that names a data source.
pub open spec fn dsn_prefix() -> Seq<char> {
    seq!['D', 'S', 'N', '=']
}

/// `s` without a leading `odbc:`.
pub open spec fn strip_odbc_prefix(s: Seq<char>) -> Seq<char> {
    if s.len() >= 5 && s.subrange(0, 5) == odbc_prefix() {
        s.subrange(5, s.len() as int)
    } else {
        s
    }
}

/// The connection string for an input: trimmed, without a legacy `odbc:` prefix, and a bare
/// data source name (one without `=`) turned into `DSN=<name>`.
pub open spec fn normalized_connection_string(input: Seq<char>) -> Seq<char> {
    let rest = strip_odbc_prefix(trim(input));
    if rest.contains('=') {
        rest
    } else {
        dsn_prefix() + rest
    }
}

/// Whether `s` begins with the legacy prefix `odbc:`.
pub open spec fn has_odbc_prefix(s: Seq<char>) -> bool {
    s.len() >= 5 && s.subrange(0, 5) == odbc_prefix()
}

/// Every connection string the options hold has a key: it holds `=`.
pub proof fn lemma_connection_string_has_key(input: Seq<char>)
    ensures
        normalized_connection_string(input).contains('='),
{
    let rest = strip_odbc_prefix(trim(input));
    if !rest.contains('=') {
        assert((dsn_prefix() + rest)[3] == '=');
    }
}

/// A standard connection string (one that holds `=`) without surrounding whitespace is kept
/// exactly as it is.
pub proof fn lemma_standard_connection_string_kept(s: Seq<char>)
    requires
        s.contains('='),
        trim(s) == s,
        !has_odbc_prefix(s),
    ensures
        normalized_connection_string(s) == s,
{
}

/// A bare data source name (one without `=`) without surrounding whitespace becomes
/// `DSN=<name>`.
pub proof fn lemma_bare_dsn_named(s: Seq<char>)
    requires
        !s.contains('='),
        trim(s) == s,
        !has_odbc_prefix(s),
    ensures
        normalized_connection_string(s) == dsn_prefix() + s,
{
}

/// The legacy `odbc:` prefix is ignored: `odbc:<s>` reads as `<s>` does, for any `s` that
/// does not itself begin with whitespace or with `odbc:`.
pub proof fn lemma_legacy_prefix_ignored(s: Seq<char>)
    requires
        s.len() == 0 || !is_space(s[0]),
        !has_odbc_prefix(s),
    ensures
        normalized_connection_string(odbc_prefix() + s) == normalized_connection_string(s),
{
    let p = odbc_prefix();
    let t = p + s;
    assert(t[0] == 'o');
    assert(trim_start(t) == t);
    lemma_trim_end_after_prefix(p, s);
    assert(trim(t) == p + trim_end(s));
    assert((p + trim_end(s)).subrange(0, 5) =~= p);
    assert(strip_odbc_prefix(trim(t)) =~= trim_end(s));
    lemma_trim_without_leading_space(s);
    lemma_trim_end_is_prefix(s);
    if trim_end(s).len() >= 5 {
        assert(trim_end(s).subrange(0, 5) =~= s.subrange(0, 5));
    }
    assert(strip_odbc_prefix(trim(s)) == trim_end(s));
}

/// One call of a setter of the options, with its arguments.
#[derive(Debug, Clone, Copy, PartialEq, Eq, Structural)]
pub enum OptionsUpdate {
    BufferSettings(OdbcBufferSettings),
    BatchSize(usize),
    MaxColumnSize(Option<usize>),
    StatementCacheCapacity(usize),
    LogStatements(LogLevel),
    LogSlowStatements(LogLevel, StatementDuration),
}

/// The options after one setter call.
pub open spec fn apply_update(v: ConnectOptionsView, u: OptionsUpdate) -> ConnectOptionsView {
    match u {
        OptionsUpdate::BufferSettings(settings) => ConnectOptionsView { buffer_settings: settings, ..v },
        OptionsUpdate::BatchSize(batch_size) => ConnectOptionsView {
            buffer_settings: OdbcBufferSettings { batch_size, ..v.buffer_settings },
            ..v
        },
        OptionsUpdate::MaxColumnSize(max_column_size) => ConnectOptionsView {
            buffer_settings: OdbcBufferSettings { max_column_size, ..v.buffer_settings },
            ..v
        },
        OptionsUpdate::StatementCacheCapacity(capacity) => ConnectOptionsView {
            statement_cache_capacity: capacity,
            ..v
        },
        OptionsUpdate::LogStatements(level) => ConnectOptionsView { log_statements: level, ..v },
        OptionsUpdate::LogSlowStatements(level, duration) => ConnectOptionsView {
            log_slow_statements: level,
            log_slow_statement_duration: duration,
            ..v
        },
    }
}

/// The options after a sequence of setter calls, in order.
pub open spec fn apply_updates(v: ConnectOptionsView, us: Seq<OptionsUpdate>) -> ConnectOptionsView
    decreases us.len(),
{
    if us.len() == 0 {
        v
    } else {
        apply_updates(apply_update(v, us[0]), us.drop_first())
    }
}

/// No sequence of setter calls changes the connection string.
pub proof fn lemma_updates_keep_connection_string(v: ConnectOptionsView, us: Seq<OptionsUpdate>)
    ensures
        apply_updates(v, us).conn_str == v.conn_str,
    decreases us.len(),
{
    if us.len() > 0 {
        lemma_updates_keep_connection_string(apply_update(v, us[0]), us.drop_first());
    }
}

impl OdbcConnectOptions {
    /// The options an input parses to: its normalized connection string, with the default
    /// settings for everything else.
    pub open spec fn spec_parse(input: Seq<char>) -> ConnectOptionsView {
        ConnectOptionsView {
            conn_str: normalized_connection_string(input),
            buffer_settings: OdbcBufferSettings { batch_size: 64, max_column_size: None },
            statement_cache_capacity: 100,
            log_statements: LogLevel::Debug,
            log_slow_statements: LogLevel::Warn,
            log_slow_statement_duration: StatementDuration { secs: 1, nanos: 0 },
        }
    }

    /// Parses a standard ODBC connection string, a bare DSN name, or either with the legacy
    /// `odbc:` prefix, with default settings for everything else.
    pub fn parse(input: &str) -> (r: Self)
        ensures
            r@.conn_str == normalized_connection_string(input@),
            r@.buffer_settings == (OdbcBufferSettings { batch_size: 64, max_column_size: None }),
            r@.statement_cache_capacity == 100,
            r@.log_statements == LogLevel::Debug,
            r@.log_slow_statements == LogLevel::Warn,
            r@.log_slow_statement_duration == (StatementDuration { secs: 1, nanos: 0 }),
    {
        let chars = chars_of(input);
        let (start, end) = trim_bounds(&chars);
        let ghost trimmed = chars@.subrange(start as int, end as int);
        let prefix: Vec<char> = vec!['o', 'd', 'b', 'c', ':'];
        assert(prefix@ == odbc_prefix());
        let mut from = start;
        if range_starts_with(&chars, start, end, &prefix) {
            assert(trimmed.subrange(0, 5) =~= chars@.subrange(start as int, start + 5));
            from = start + 5;
            assert(strip_odbc_prefix(trimmed) =~= chars@.subrange(from as int, end as int));
        } else {
            proof {
                if trimmed.len() >= 5 {
                    assert(trimmed.subrange(0, 5) =~= chars@.subrange(start as int, start + 5));
                }
            }
        }
        assert(strip_odbc_prefix(trimmed) =~= chars@.subrange(from as int, end as int));
        let conn_str = if range_contains(&chars, from, end, '=') {
            string_from_chars(&chars, from, end)
        } else {
            let mut s = String::new();
            push_char(&mut s, 'D');
            push_char(&mut s, 'S');
            push_char(&mut s, 'N');
            push_char(&mut s, '=');
            let name = string_from_chars(&chars, from, end);
            let name_chars = chars_of(name.as_str());
            push_chars(&mut s, &name_chars);
            assert(s@ =~= dsn_prefix() + chars@.subrange(from as int, end as int));
            s
        };
        OdbcConnectOptions {
            conn_str,
            buffer_settings: OdbcBufferSettings::default(),
            statement_cache_capacity: 100,
            log_statements: LogLevel::Debug,
            log_slow_statements: LogLevel::Warn,
            log_slow_statement_duration: StatementDuration { secs: 1, nanos: 0 },
        }
    }

    /// Returns the normalized ODBC connection string.
    pub fn connection_string(&self) -> (r: &str)
        ensures
            r@ == self@.conn_str,
    {
        self.conn_str.as_str()
    }

    /// Sets the buffer configuration for this connection.
    pub fn buffer_settings(&mut self, settings: OdbcBufferSettings) -> (r: &mut Self)
        requires
            settings.valid(),
        ensures
            (*r)@ == (ConnectOptionsView { buffer_settings: settings, ..old(self)@ }),
            (*r)@ == apply_update(old(self)@, OptionsUpdate::BufferSettings(settings)),
            *final(self) == *final(r),
    {
        self.buffer_settings = settings;
        self
    }

    /// Returns the current buffer settings.
    pub fn buffer_settings_ref(&self) -> (r: &OdbcBufferSettings)
        ensures
            *r == self@.buffer_settings,
    {
        &self.buffer_settings
    }

    /// Sets the number of rows fetched in each batch.
    pub fn batch_size(&mut self, batch_size: usize) -> (r: &mut Self)
        requires
            batch_size > 0,
        ensures
            (*r)@ == (ConnectOptionsView {
                buffer_settings: OdbcBufferSettings { batch_size, ..old(self)@.buffer_settings },
                ..old(self)@
            }),
            (*r)@ == apply_update(old(self)@, OptionsUpdate::BatchSize(batch_size)),
            *final(self) == *final(r),
    {
        self.buffer_settings.batch_size = batch_size;
        self
    }

    /// Sets the maximum buffered column size, or `None` for unbuffered fetching.
    pub fn max_column_size(&mut self, max_column_size: Option<usize>) -> (r: &mut Self)
        requires
            max_column_size matches Some(size) ==> size > 0,
        ensures
            (*r)@ == (ConnectOptionsView {
                buffer_settings: OdbcBufferSettings {
                    max_column_size,
                    ..old(self)@.buffer_settings
                },
                ..old(self)@
            }),
            (*r)@ == apply_update(old(self)@, OptionsUpdate::MaxColumnSize(max_column_size)),
            *final(self) == *final(r),
    {
        self.buffer_settings.max_column_size = max_column_size;
        self
    }

    /// Sets the maximum number of prepared statements kept in this connection's cache.
    pub fn statement_cache_capacity(&mut self, capacity: usize) -> (r: &mut Self)
        ensures
            (*r)@ == (ConnectOptionsView { statement_cache_capacity: capacity, ..old(self)@ }),
            (*r)@ == apply_update(old(self)@, OptionsUpdate::StatementCacheCapacity(capacity)),
            *final(self) == *final(r),
    {
        self.statement_cache_capacity = capacity;
        self
    }

    /// Sets regular statement logging level.
    pub fn log_statements(&mut self, level: LogLevel) -> (r: &mut Self)
        ensures
            (*r)@ == (ConnectOptionsView { log_statements: level, ..old(self)@ }),
            (*r)@ == apply_update(old(self)@, OptionsUpdate::LogStatements(level)),
            *final(self) == *final(r),
    {
        self.log_statements = level;
        self
    }

    /// Sets slow statement logging level and threshold.
    pub fn log_slow_statements(&mut self, level: LogLevel, duration: StatementDuration) -> (r:
        &mut Self)
        ensures
            (*r)@ == (ConnectOptionsView {
                log_slow_statements: level,
                log_slow_statement_duration: duration,
                ..old(self)@
            }),
            (*r)@ == apply_update(old(self)@, OptionsUpdate::LogSlowStatements(level, duration)),
            *final(self) == *final(r),
    {
        self.log_slow_statements = level;
        self.log_slow_statement_duration = duration;
        self
    }

    /// The buffer settings a connection opened with these options fetches with.
    pub fn fetch_settings(&self) -> (r: OdbcBufferSettings)
        ensures
            r == self@.buffer_settings,
    {
        self.buffer_settings
    }

    /// The number of prepared statements kept in the cache.
    pub fn get_statement_cache_capacity(&self) -> (r: usize)
        ensures
            r == self@.statement_cache_capacity,
    {
        self.statement_cache_capacity
    }

    /// The regular statement logging level.
    pub fn get_log_statements(&self) -> (r: LogLevel)
        ensures
            r == self@.log_statements,
    {
        self.log_statements
    }

    /// The slow statement logging level and threshold.
    pub fn get_log_slow_statements(&self) -> (r: (LogLevel, StatementDuration))
        ensures
            r == (self@.log_slow_statements, self@.log_slow_statement_duration),
    {
        (self.log_slow_statements, self.log_slow_statement_duration)
    }
}

impl core::str::FromStr for OdbcConnectOptions {
    type Err = DriverError;

    fn from_str(input: &str) -> (r: Result<Self, DriverError>)
        ensures
            r matches Ok(options) && options@ == OdbcConnectOptions::spec_parse(input@),
    {
        Ok(OdbcConnectOptions::parse(input))
    }
}


} // verus!
