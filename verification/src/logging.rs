//! Logging set-up: how the `log` section of a configuration becomes the
//! console, rolling-file and database sinks of a service.
use vstd::prelude::*;
use crate::paths::{
    file_name_of, is_absolute_path, joined_path, path_file_name, path_is_absolute, path_join,
};
use crate::text::{concat, concat3, owned, replace_char, replace_char_str};

verus! {

broadcast use vstd::string::group_string_axioms;

/// The `log` section of a configuration.
#[derive(Debug, Clone)]
pub struct LogConfig {
    pub level: String,
    pub path: String,
    pub file: String,
    pub stdout: bool,
    pub max_age: u32,
    pub rotation_time: u32,
    pub database: bool,
    pub database_path: String,
}

impl Default for LogConfig {
    fn default() -> (r: Self)
        ensures
            r.level@.len() == 0,
            r.path@.len() == 0,
            r.file@.len() == 0,
            !r.stdout,
            r.max_age == 0,
            r.rotation_time == 0,
            !r.database,
            r.database_path@.len() == 0,
    {
        LogConfig {
            level: String::new(),
            path: String::new(),
            file: String::new(),
            stdout: false,
            max_age: 0,
            rotation_time: 0,
            database: false,
            database_path: String::new(),
        }
    }
}

/// How a service logs.
#[derive(Debug, Clone)]
pub struct LoggingOptions {
    /// The service name, such as `xiaozhi-server`.
    pub service: String,
    /// The level, where `RUST_LOG` does not set one.
    pub level: String,
    /// Whether to log to the console.
    pub stdout: bool,
    /// The rolling log file, if any.
    pub file: Option<FileLogOptions>,
    /// The log database, if any.
    pub database: Option<DatabaseLogOptions>,
    /// The directory of the configuration file; relative paths start there.
    pub config_base_dir: String,
}

/// A rolling log file: directory, file name, retention and period.
#[derive(Debug, Clone)]
pub struct FileLogOptions {
    pub dir: String,
    pub filename: String,
    pub max_age: u32,
    pub rotation_hours: u32,
}

/// The SQLite database logs are kept in.
#[derive(Debug, Clone)]
pub struct DatabaseLogOptions {
    pub path: String,
}

/// A path as configured, taken relative to `base` unless absolute.
pub open spec fn resolved_path(raw: Seq<char>, base: Seq<char>) -> Seq<char> {
    if is_absolute_path(raw) { raw } else { joined_path(base, raw) }
}

/// The log directory: `<base>/logs` when none is configured.
pub open spec fn log_dir(path: Seq<char>, base: Seq<char>) -> Seq<char> {
    if path.len() == 0 { joined_path(base, "logs"@) } else { resolved_path(path, base) }
}

/// Where a service's log database lives by default:
/// `<base>/data/logs/<service>.db`.
pub open spec fn default_db_path(service: Seq<char>, base: Seq<char>) -> Seq<char> {
    joined_path(joined_path(joined_path(base, "data"@), "logs"@), service + ".db"@)
}

/// Resolves a configured path against the configuration's directory.
pub fn resolve_path(raw: &str, base: &str) -> (r: String)
    ensures
        r@ == resolved_path(raw@, base@),
{
    if path_is_absolute(raw) {
        owned(raw)
    } else {
        path_join(base, raw)
    }
}

/// The directory log files go to.
pub fn resolve_log_dir(log: &LogConfig, base: &str) -> (r: String)
    ensures
        r@ == log_dir(log.path@, base@),
{
    if log.path.as_str().is_empty() {
        return path_join(base, "logs");
    }
    resolve_path(log.path.as_str(), base)
}

/// Joining `data` and then `logs` is joining `data/logs`.
pub proof fn law_data_logs_in_one_step(base: Seq<char>, name: Seq<char>)
    ensures
        default_db_path(name, base) == joined_path(joined_path(base, "data/logs"@), name + ".db"@),
{
    reveal_strlit("data");
    reveal_strlit("logs");
    reveal_strlit("data/logs");
    let d = joined_path(base, "data"@);
    assert(d.len() > 0 && d.last() == 'a');
    assert(joined_path(d, "logs"@) =~= joined_path(base, "data/logs"@));
}

/// The default log database of a service: `<base>/data/logs/<service>.db`.
pub fn default_database_path(service: &str, base: &str) -> (r: String)
    ensures
        r@ == default_db_path(service@, base@),
        r@ == joined_path(joined_path(base@, "data/logs"@), service@ + ".db"@),
{
    proof {
        law_data_logs_in_one_step(base@, service@);
    }
    let data = path_join(base, "data");
    let logs = path_join(data.as_str(), "logs");
    let name = concat(service, ".db");
    path_join(logs.as_str(), name.as_str())
}

impl LoggingOptions {
    /// Console logging at `info` for a service, from the current directory.
    pub fn new(service: &str) -> (r: Self)
        ensures
            r.service@ == service@,
            r.level@ == "info"@,
            r.stdout,
            r.file is None,
            r.database is None,
            r.config_base_dir@ == "."@,
    {
        LoggingOptions {
            service: owned(service),
            level: owned("info"),
            stdout: true,
            file: None,
            database: None,
            config_base_dir: owned("."),
        }
    }

    /// The options a `log` section gives, relative to the current directory.
    pub fn from_log_config(service: &str, log: &LogConfig) -> (r: Self)
        ensures
            r.configured(service@, *log, "."@),
    {
        Self::from_log_config_with_base(service, log, ".")
    }

    /// `self` is what the `log` section gives for the service and base: the
    /// level and console flag as configured; a file sink when a path or a
    /// file name is configured; a database sink when enabled, at the
    /// configured or the default path.
    pub open spec fn configured(self, service: Seq<char>, log: LogConfig, base: Seq<char>) -> bool {
        &&& self.service@ == service
        &&& self.level@ == log.level@
        &&& self.stdout == log.stdout
        &&& self.config_base_dir@ == base
        &&& if log.path@.len() > 0 || log.file@.len() > 0 {
            self.file matches Some(f) && {
                &&& f.dir@ == log_dir(log.path@, base)
                &&& f.filename@ == log.file@
                &&& f.max_age == log.max_age
                &&& f.rotation_hours == log.rotation_time
            }
        } else {
            self.file is None
        }
        &&& if log.database {
            self.database matches Some(d) && d.path@ == if log.database_path@.len() == 0 {
                default_db_path(service, base)
            } else {
                resolved_path(log.database_path@, base)
            }
        } else {
            self.database is None
        }
    }

    /// The options a `log` section gives, relative to `config_base_dir`.
    pub fn from_log_config_with_base(service: &str, log: &LogConfig, config_base_dir: &str) -> (r: Self)
        ensures
            r.configured(service@, *log, config_base_dir@),
    {
        let file = if !log.path.as_str().is_empty() || !log.file.as_str().is_empty() {
            Some(FileLogOptions {
                dir: resolve_log_dir(log, config_base_dir),
                filename: log.file.clone(),
                max_age: log.max_age,
                rotation_hours: log.rotation_time,
            })
        } else {
            None
        };
        let database = if log.database {
            let path = if log.database_path.as_str().is_empty() {
                default_database_path(service, config_base_dir)
            } else {
                resolve_path(log.database_path.as_str(), config_base_dir)
            };
            Some(DatabaseLogOptions { path })
        } else {
            None
        };
        LoggingOptions {
            service: owned(service),
            level: log.level.clone(),
            stdout: log.stdout,
            file,
            database,
            config_base_dir: owned(config_base_dir),
        }
    }

    /// The same options with the log database at `path`.
    pub fn with_database_path(self, path: &str) -> (r: Self)
        ensures
            r.service == self.service,
            r.level == self.level,
            r.stdout == self.stdout,
            r.file == self.file,
            r.config_base_dir == self.config_base_dir,
            r.database matches Some(d) && d.path@ == path@,
    {
        let mut opts = self;
        opts.database = Some(DatabaseLogOptions { path: owned(path) });
        opts
    }
}

/// How often the log file rolls over.
#[derive(Debug, Clone, Copy, PartialEq, Eq, Structural)]
pub enum Rotation {
    Hourly,
    Daily,
}

/// A period of at most an hour rolls hourly; any longer one daily.
pub fn pick_rotation(rotation_hours: u32) -> (r: Rotation)
    ensures
        r == if rotation_hours <= 1 { Rotation::Hourly } else { Rotation::Daily },
{
    if rotation_hours <= 1 {
        Rotation::Hourly
    } else {
        Rotation::Daily
    }
}

/// The last component of a configured file name, or `app.log`.
pub open spec fn log_file_name(name: Seq<char>) -> Seq<char> {
    match file_name_of(name) {
        Some(n) => n,
        None => "app.log"@,
    }
}

/// Keeps only the file-name part of a configured log file name.
pub fn sanitize_filename(name: &str) -> (r: String)
    ensures
        r@ == log_file_name(name@),
{
    match path_file_name(name) {
        Some(n) => n,
        None => owned("app.log"),
    }
}

/// The filter directives used when `RUST_LOG` is not set: the level for
/// everything and for the service's own crate (`-` read as `_`).
pub open spec fn filter_directives(service: Seq<char>, level: Seq<char>) -> Seq<char> {
    level + ","@ + replace_char(service, '-', '_') + "="@ + level
}

/// The default filter directives of a set of options.
pub fn env_filter_spec(opts: &LoggingOptions) -> (r: String)
    ensures
        r@ == filter_directives(opts.service@, opts.level@),
{
    let module = replace_char_str(opts.service.as_str(), '-', '_');
    let head = concat3(opts.level.as_str(), ",", module.as_str());
    concat3(head.as_str(), "=", opts.level.as_str())
}

/// The logging background work that lives as long as the process.
pub struct DbLogWorker;

/// A record of one log event.
#[derive(Debug, Clone)]
pub struct LogEntry {
    pub created_at: String,
    pub service: String,
    pub level: String,
    pub target: String,
    pub message: String,
    pub fields: String,
}

/// The message a log record stores: the event's message, or the event's
/// name when it has none.
pub open spec fn entry_message(message: Seq<char>, event_name: Seq<char>) -> Seq<char> {
    if message.len() == 0 { event_name } else { message }
}

/// The sink that hands log records of one service to the database writer.
pub struct DbLogLayer {
    pub service: String,
}

impl DbLogLayer {
    /// The record for an event of this layer's service.
    pub fn entry(
        &self,
        created_at: &str,
        level: &str,
        target: &str,
        message: &str,
        event_name: &str,
        fields: &str,
    ) -> (r: LogEntry)
        ensures
            r.created_at@ == created_at@,
            r.service@ == self.service@,
            r.level@ == level@,
            r.target@ == target@,
            r.message@ == entry_message(message@, event_name@),
            r.fields@ == fields@,
    {
        let m = if message.is_empty() { owned(event_name) } else { owned(message) };
        LogEntry {
            created_at: owned(created_at),
            service: self.service.clone(),
            level: owned(level),
            target: owned(target),
            message: m,
            fields: owned(fields),
        }
    }
}

/// The database writer trims a service's records after every this many
/// inserts (and when it stops).
pub const TRIM_EVERY: u64 = 500;

/// Records kept per service when trimming.
pub const MAX_ROWS_PER_SERVICE: i64 = 10000;

/// Whether the writer trims old records after its `insert_count`-th insert.
pub fn should_trim(insert_count: u64) -> (r: bool)
    ensures
        r == (insert_count % TRIM_EVERY == 0),
{
    insert_count % TRIM_EVERY == 0
}

} // verus!
