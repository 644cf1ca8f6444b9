//! Settings from the environment, and the line format of the log.
use vstd::prelude::*;

use crate::text::{starts_with, str_equal};

verus! {

/// Severity of a log record, most severe first.
#[derive(Debug, Clone, Copy, PartialEq, Eq, Structural)]
pub enum LogLevel {
    Error,
    Warn,
    Info,
    Debug,
    Trace,
}

/// Which backend keeps the account material.
#[derive(Debug, Clone, Copy, PartialEq, Eq, Structural)]
pub enum StoreType {
    File,
    Vault,
}

/// Why the settings could not be made.
#[derive(Debug, Clone, PartialEq, Eq)]
pub enum ConfigError {
    /// The home directory is not known.
    MissingHome,
    /// The store type names no backend; carries the name.
    UnknownStoreType(String),
}

/// The log level a setting names; an absent setting means `WARN`, an unknown one `INFO`.
pub open spec fn level_named(name: Option<Seq<char>>) -> LogLevel {
    match name {
        None => LogLevel::Warn,
        Some(n) => if n == "DEBUG"@ {
            LogLevel::Debug
        } else if n == "INFO"@ {
            LogLevel::Info
        } else if n == "WARN"@ {
            LogLevel::Warn
        } else if n == "ERROR"@ {
            LogLevel::Error
        } else {
            LogLevel::Info
        },
    }
}

/// The default store directory under a home directory.
pub open spec fn default_store_dir(home: Seq<char>) -> Seq<char> {
    home + "/.config/certifika"@
}

pub open spec fn opt_string_view(o: Option<String>) -> Option<Seq<char>> {
    match o {
        Some(s) => Some(s@),
        None => None,
    }
}

/// The client's settings.
#[derive(Debug, Clone, PartialEq, Eq)]
pub struct Config {
    pub store_type: StoreType,
    pub base_dir: String,
    pub log_level: LogLevel,
}

fn level_of(name: Option<String>) -> (r: LogLevel)
    ensures
        r == level_named(opt_string_view(name)),
{
    match name {
        None => LogLevel::Warn,
        Some(n) => if str_equal(n.as_str(), "DEBUG") {
            LogLevel::Debug
        } else if str_equal(n.as_str(), "INFO") {
            LogLevel::Info
        } else if str_equal(n.as_str(), "WARN") {
            LogLevel::Warn
        } else if str_equal(n.as_str(), "ERROR") {
            LogLevel::Error
        } else {
            LogLevel::Info
        },
    }
}

impl Config {
    /// Settings from the values of the environment: the home directory (required),
    /// the store directory (default `<home>/.config/certifika`), the log level and the
    /// store type (`file`, the default, or `vault`).
    pub fn parse(
        home: Option<String>,
        store_dir: Option<String>,
        log_level: Option<String>,
        store_type: Option<String>,
    ) -> (r: Result<Config, ConfigError>)
        ensures
            home is None ==> r == Err::<Config, ConfigError>(ConfigError::MissingHome),
            r matches Ok(c) ==> home is Some && c.log_level == level_named(
                opt_string_view(log_level),
            ) && c.base_dir@ == match store_dir {
                Some(d) => d@,
                None => default_store_dir(home->Some_0@),
            } && match store_type {
                None => c.store_type == StoreType::File,
                Some(t) => (t@ == "file"@ && c.store_type == StoreType::File) || (t@
                    == "vault"@ && c.store_type == StoreType::Vault),
            },
            home is Some ==> match store_type {
                Some(t) => (t@ == "file"@ || t@ == "vault"@) <==> r is Ok,
                None => r is Ok,
            },
            r matches Err(e) ==> home is None || (store_type matches Some(t) && e
                == ConfigError::UnknownStoreType(t)),
    {
        let home = match home {
            Some(h) => h,
            None => return Err(ConfigError::MissingHome),
        };
        let base_dir = match store_dir {
            Some(d) => d,
            None => {
                let mut d = home;
                d.append("/.config/certifika");
                d
            },
        };
        let log_level = level_of(log_level);
        let store_type = match store_type {
            None => StoreType::File,
            Some(t) => if str_equal(t.as_str(), "file") {
                StoreType::File
            } else if str_equal(t.as_str(), "vault") {
                StoreType::Vault
            } else {
                return Err(ConfigError::UnknownStoreType(t));
            },
        };
        Ok(Config { store_type, base_dir, log_level })
    }
}

/// How severe a level is: 1 for `Error` up to 5 for `Trace`.
pub open spec fn severity(level: LogLevel) -> u8 {
    match level {
        LogLevel::Error => 1,
        LogLevel::Warn => 2,
        LogLevel::Info => 3,
        LogLevel::Debug => 4,
        LogLevel::Trace => 5,
    }
}

fn severity_of(level: LogLevel) -> (r: u8)
    ensures
        r == severity(level),
{
    match level {
        LogLevel::Error => 1,
        LogLevel::Warn => 2,
        LogLevel::Info => 3,
        LogLevel::Debug => 4,
        LogLevel::Trace => 5,
    }
}

/// Whether the configured level `max` lets a record of `level` through: records no
/// less severe than `max` are.
pub fn level_allows(max: LogLevel, level: LogLevel) -> (r: bool)
    ensures
        r == (severity(level) <= severity(max)),
{
    severity_of(level) <= severity_of(max)
}

/// Whether a record of `level` is logged: everything up to `Debug`.
pub open spec fn level_enabled(level: LogLevel) -> bool {
    level != LogLevel::Trace
}

/// The name of a level as the log shows it.
pub open spec fn level_name(level: LogLevel) -> Seq<char> {
    match level {
        LogLevel::Error => "ERROR"@,
        LogLevel::Warn => "WARN"@,
        LogLevel::Info => "INFO"@,
        LogLevel::Debug => "DEBUG"@,
        LogLevel::Trace => "TRACE"@,
    }
}

/// `message` without line feeds, tabs and spaces.
pub open spec fn compact(message: Seq<char>) -> Seq<char>
    decreases message.len(),
{
    if message.len() == 0 {
        seq![]
    } else {
        let c = message.last();
        compact(message.drop_last()) + if c == '\n' || c == '\t' || c == ' ' {
            seq![]
        } else {
            seq![c]
        }
    }
}

/// The log line of a record: `{"level":"<LEVEL>","message":<message>}`, the message
/// compacted and written as it is (records carry JSON text as their message).
pub open spec fn log_line(level: LogLevel, message: Seq<char>) -> Seq<char> {
    "{\"level\":\""@ + level_name(level) + "\",\"message\":"@ + compact(message) + "}"@
}

fn level_str(level: LogLevel) -> (r: &'static str)
    ensures
        r@ == level_name(level),
{
    match level {
        LogLevel::Error => "ERROR",
        LogLevel::Warn => "WARN",
        LogLevel::Info => "INFO",
        LogLevel::Debug => "DEBUG",
        LogLevel::Trace => "TRACE",
    }
}

fn compact_message(message: &str) -> (r: String)
    ensures
        r@ == compact(message@),
{
    let n = message.unicode_len();
    let mut out = String::new();
    let mut i: usize = 0;
    while i < n
        invariant
            n == message@.len(),
            i <= n,
            out@ == compact(message@.subrange(0, i as int)),
        decreases n - i,
    {
        let c = message.get_char(i);
        if c != '\n' && c != '\t' && c != ' ' {
            out.append(message.substring_char(i, i + 1));
        }
        proof {
            let next = message@.subrange(0, i + 1);
            assert(next.drop_last() =~= message@.subrange(0, i as int));
            assert(message@.subrange(i as int, i + 1) =~= seq![c]);
        }
        i = i + 1;
    }
    assert(message@.subrange(0, n as int) =~= message@);
    out
}

/// The log line for a record of `level` from `target`, if it is logged: only
/// enabled levels and targets within this application are.
pub fn format_log_line(level: LogLevel, target: &str, message: &str) -> (r: Option<String>)
    ensures
        match r {
            Some(line) => level_enabled(level) && crate::APP_NAME@.len() <= target@.len()
                && target@.subrange(0, crate::APP_NAME@.len() as int) == crate::APP_NAME@
                && line@ == log_line(level, message@),
            None => !level_enabled(level) || !(crate::APP_NAME@.len() <= target@.len()
                && target@.subrange(0, crate::APP_NAME@.len() as int) == crate::APP_NAME@),
        },
{
    if level == LogLevel::Trace || !starts_with(target, crate::APP_NAME) {
        return None;
    }
    let mut line = String::from_str("{\"level\":\"");
    line.append(level_str(level));
    line.append("\",\"message\":");
    line.append(compact_message(message).as_str());
    line.append("}");
    Some(line)
}

} // verus!
