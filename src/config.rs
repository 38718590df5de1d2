use vstd::prelude::*;
use vstd::string::StrSliceExecFns;

verus! {

/// The shortest and longest pause between two passes, in seconds.
pub const MIN_INTERVAL_SECS: u64 = 1;
pub const MAX_INTERVAL_SECS: u64 = 300;

/// The shortest and longest time one probe may take, in seconds.
pub const MIN_TIMEOUT_SECS: u64 = 1;
pub const MAX_TIMEOUT_SECS: u64 = 60;

/// How much the log sink lets through.
#[derive(Debug, Clone, Copy, PartialEq, Eq, Structural)]
pub enum LogLevel {
    Error,
    Warn,
    Info,
    Debug,
    Trace,
}

/// The level that a name selects; any name but the four others selects `Info`.
pub open spec fn level_named(name: Seq<char>) -> LogLevel {
    if name == "debug"@ {
        LogLevel::Debug
    } else if name == "warn"@ {
        LogLevel::Warn
    } else if name == "error"@ {
        LogLevel::Error
    } else if name == "trace"@ {
        LogLevel::Trace
    } else {
        LogLevel::Info
    }
}

/// Tells whether two texts hold the same characters.
pub fn same_text(a: &str, b: &str) -> (r: bool)
    ensures
        r == (a@ == b@),
{
    let n = a.unicode_len();
    if n != b.unicode_len() {
        return false;
    }
    let mut i: usize = 0;
    while i < n
        invariant
            n == a@.len(),
            n == b@.len(),
            i <= n,
            forall|j: int| 0 <= j < i ==> a@[j] == b@[j],
        decreases n - i,
    {
        if a.get_char(i) != b.get_char(i) {
            return false;
        }
        i = i + 1;
    }
    assert(a@ =~= b@);
    true
}

impl LogLevel {
    /// The level that `name` selects: `debug`, `warn`, `error` and `trace`
    /// select their level, anything else `Info`.
    pub fn from_name(name: &str) -> (r: LogLevel)
        ensures
            r == level_named(name@),
    {
        if same_text(name, "debug") {
            LogLevel::Debug
        } else if same_text(name, "warn") {
            LogLevel::Warn
        } else if same_text(name, "error") {
            LogLevel::Error
        } else if same_text(name, "trace") {
            LogLevel::Trace
        } else {
            LogLevel::Info
        }
    }
}

/// A value of the configuration that lies outside its bounds.
#[derive(Debug, Clone, Copy, PartialEq, Eq, Structural)]
pub enum ConfigError {
    IntervalOutOfRange(u64),
    TimeoutOutOfRange(u64),
}

/// Everything a run needs, fixed before the first pass.
pub struct RunConfig {
    pub level: LogLevel,
    /// Pause between two passes, in seconds.
    pub interval_secs: u64,
    /// Time limit of one probe, in seconds.
    pub timeout_secs: u64,
    /// TCP targets, `host:port` with an optional `tcp://` in front.
    pub tcp: Vec<String>,
    /// HTTP(S) URLs.
    pub http: Vec<String>,
}

impl RunConfig {
    /// Both durations lie within their bounds.
    pub open spec fn wf(&self) -> bool {
        MIN_INTERVAL_SECS <= self.interval_secs <= MAX_INTERVAL_SECS
            && MIN_TIMEOUT_SECS <= self.timeout_secs <= MAX_TIMEOUT_SECS
    }

    /// Builds a configuration, refusing an interval outside 1 to 300 seconds
    /// first, then a timeout outside 1 to 60 seconds.
    pub fn new(
        level: LogLevel,
        interval_secs: u64,
        timeout_secs: u64,
        tcp: Vec<String>,
        http: Vec<String>,
    ) -> (r: Result<RunConfig, ConfigError>)
        ensures
            !(MIN_INTERVAL_SECS <= interval_secs <= MAX_INTERVAL_SECS) ==> r == Err::<
                RunConfig,
                ConfigError,
            >(ConfigError::IntervalOutOfRange(interval_secs)),
            MIN_INTERVAL_SECS <= interval_secs <= MAX_INTERVAL_SECS && !(MIN_TIMEOUT_SECS
                <= timeout_secs <= MAX_TIMEOUT_SECS) ==> r == Err::<RunConfig, ConfigError>(
                ConfigError::TimeoutOutOfRange(timeout_secs),
            ),
            r is Ok <==> (MIN_INTERVAL_SECS <= interval_secs <= MAX_INTERVAL_SECS
                && MIN_TIMEOUT_SECS <= timeout_secs <= MAX_TIMEOUT_SECS),
            r matches Ok(c) ==> c.wf() && c.level == level && c.interval_secs == interval_secs
                && c.timeout_secs == timeout_secs && c.tcp@ == tcp@ && c.http@ == http@,
    {
        if interval_secs < MIN_INTERVAL_SECS || interval_secs > MAX_INTERVAL_SECS {
            return Err(ConfigError::IntervalOutOfRange(interval_secs));
        }
        if timeout_secs < MIN_TIMEOUT_SECS || timeout_secs > MAX_TIMEOUT_SECS {
            return Err(ConfigError::TimeoutOutOfRange(timeout_secs));
        }
        Ok(RunConfig { level, interval_secs, timeout_secs, tcp, http })
    }
}

} // verus!
