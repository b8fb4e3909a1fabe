use vstd::prelude::*;

verus! {

/// Queue polling parameters.
#[derive(Debug, Clone)]
pub struct SqsConfig {
    /// URL of the queue to poll.
    pub queue_url: String,
    /// Largest number of messages taken in one receive.
    pub max_messages: i32,
    /// Long-poll wait, in seconds.
    pub wait_time_seconds: i32,
    /// Visibility timeout given to received messages, in seconds.
    pub visibility_timeout: i32,
}

/// Where the probe endpoints listen.
#[derive(Debug, Clone)]
pub struct HealthConfig {
    /// Host to bind to.
    pub host: String,
    /// Port to bind to.
    pub port: u16,
}

/// Logging settings.
#[derive(Debug, Clone)]
pub struct LoggingConfig {
    /// Log level (trace, debug, info, warn, error).
    pub level: String,
}

/// The worker's configuration, loaded once at startup.
#[derive(Debug, Clone)]
pub struct Config {
    pub sqs: SqsConfig,
    pub health: HealthConfig,
    pub logging: LoggingConfig,
}

pub const DEFAULT_MAX_MESSAGES: i32 = 10;

pub const DEFAULT_WAIT_TIME_SECONDS: i32 = 20;

pub const DEFAULT_VISIBILITY_TIMEOUT: i32 = 30;

pub const DEFAULT_PORT: u16 = 8080;

/// The configuration that holds every default: an empty queue URL, ten
/// messages per receive, a twenty second wait, a thirty second visibility
/// timeout, the wildcard bind address on port 8080, and level `info`.
pub open spec fn is_default_config(c: Config) -> bool {
    &&& c.sqs.queue_url@ == Seq::<char>::empty()
    &&& c.sqs.max_messages == DEFAULT_MAX_MESSAGES
    &&& c.sqs.wait_time_seconds == DEFAULT_WAIT_TIME_SECONDS
    &&& c.sqs.visibility_timeout == DEFAULT_VISIBILITY_TIMEOUT
    &&& c.health.host@ == "0.0.0.0"@
    &&& c.health.port == DEFAULT_PORT
    &&& c.logging.level@ == "info"@
}

impl Default for Config {
    fn default() -> (c: Self)
        ensures
            is_default_config(c),
    {
        Config {
            sqs: SqsConfig {
                queue_url: String::new(),
                max_messages: DEFAULT_MAX_MESSAGES,
                wait_time_seconds: DEFAULT_WAIT_TIME_SECONDS,
                visibility_timeout: DEFAULT_VISIBILITY_TIMEOUT,
            },
            health: HealthConfig { host: String::from_str("0.0.0.0"), port: DEFAULT_PORT },
            logging: LoggingConfig { level: String::from_str("info") },
        }
    }
}

/// The settings the worker reads at startup, each absent where it is not set.
#[derive(Debug, Clone)]
pub struct Settings {
    pub queue_url: Option<String>,
    pub max_messages: Option<String>,
    pub wait_time_seconds: Option<String>,
    pub visibility_timeout: Option<String>,
    pub health_host: Option<String>,
    pub health_port: Option<String>,
    pub log_level: Option<String>,
}

/// Why the settings give no configuration.
#[derive(Debug, Clone, Copy, PartialEq, Eq, Structural)]
pub enum ConfigError {
    /// The queue URL is not set.
    MissingQueueUrl,
    /// The maximum number of messages is not a decimal `i32`.
    InvalidMaxMessages,
    /// The long-poll wait is not a decimal `i32`.
    InvalidWaitTimeSeconds,
    /// The visibility timeout is not a decimal `i32`.
    InvalidVisibilityTimeout,
    /// The probe port is not a decimal `u16`.
    InvalidHealthPort,
}

pub open spec fn is_digit(c: char) -> bool {
    '0' <= c <= '9'
}

/// The value of a nonempty run of decimal digits.
pub open spec fn digits_value(s: Seq<char>) -> int
    decreases s.len(),
{
    if s.len() == 0 {
        0
    } else {
        digits_value(s.drop_last()) * 10 + (s.last() as int - '0' as int)
    }
}

pub open spec fn all_digits(s: Seq<char>) -> bool {
    s.len() > 0 && forall|i: int| 0 <= i < s.len() ==> is_digit(#[trigger] s[i])
}

/// The integer that `s` writes in decimal: an optional `+` or `-`, then one
/// or more ASCII digits, and nothing else.
pub open spec fn decimal_value(s: Seq<char>) -> Option<int> {
    if s.len() > 0 && (s[0] == '+' || s[0] == '-') {
        if all_digits(s.drop_first()) {
            Some(
                if s[0] == '-' {
                    -digits_value(s.drop_first())
                } else {
                    digits_value(s.drop_first())
                },
            )
        } else {
            None
        }
    } else if all_digits(s) {
        Some(digits_value(s))
    } else {
        None
    }
}

/// What parsing `s` as an `i32` gives.
pub open spec fn i32_of(s: Seq<char>) -> Option<i32> {
    match decimal_value(s) {
        Some(v) => if i32::MIN <= v <= i32::MAX {
            Some(v as i32)
        } else {
            None
        },
        None => None,
    }
}

/// What parsing `s` as a `u16` gives: an unsigned type takes no `-`.
pub open spec fn u16_of(s: Seq<char>) -> Option<u16> {
    match decimal_value(s) {
        Some(v) => if s[0] != '-' && 0 <= v <= u16::MAX {
            Some(v as u16)
        } else {
            None
        },
        None => None,
    }
}

/// Relies on `str::parse::<i32>`, whose documented grammar is an optional
/// sign followed by ASCII digits, in range.
#[verifier::external_body]
fn parse_i32(s: &str) -> (r: Option<i32>)
    ensures
        r == i32_of(s@),
{
    s.parse::<i32>().ok()
}

/// Relies on `str::parse::<u16>`, whose documented grammar is an optional
/// `+` followed by ASCII digits, in range.
#[verifier::external_body]
fn parse_u16(s: &str) -> (r: Option<u16>)
    ensures
        r == u16_of(s@),
{
    s.parse::<u16>().ok()
}

/// A numeric setting: its default where absent, else its parsed value.
pub open spec fn i32_setting(v: Option<String>, default: i32) -> Option<i32> {
    match v {
        Some(s) => i32_of(s@),
        None => Some(default),
    }
}

pub open spec fn port_setting(v: Option<String>) -> Option<u16> {
    match v {
        Some(s) => u16_of(s@),
        None => Some(DEFAULT_PORT),
    }
}

pub open spec fn text_setting(v: Option<String>, default: Seq<char>) -> Seq<char> {
    match v {
        Some(s) => s@,
        None => default,
    }
}

/// The first problem with `st`, in the order the settings are read.
pub open spec fn settings_error(st: Settings) -> Option<ConfigError> {
    if st.queue_url is None {
        Some(ConfigError::MissingQueueUrl)
    } else if i32_setting(st.max_messages, DEFAULT_MAX_MESSAGES) is None {
        Some(ConfigError::InvalidMaxMessages)
    } else if i32_setting(st.wait_time_seconds, DEFAULT_WAIT_TIME_SECONDS) is None {
        Some(ConfigError::InvalidWaitTimeSeconds)
    } else if i32_setting(st.visibility_timeout, DEFAULT_VISIBILITY_TIMEOUT) is None {
        Some(ConfigError::InvalidVisibilityTimeout)
    } else if port_setting(st.health_port) is None {
        Some(ConfigError::InvalidHealthPort)
    } else {
        None
    }
}

/// Whether `c` is the configuration that `st` gives: each setting that is
/// present, the default for each that is absent.
pub open spec fn configured_from(st: Settings, c: Config) -> bool {
    &&& Some(c.sqs.queue_url) == st.queue_url
    &&& Some(c.sqs.max_messages) == i32_setting(st.max_messages, DEFAULT_MAX_MESSAGES)
    &&& Some(c.sqs.wait_time_seconds) == i32_setting(
        st.wait_time_seconds,
        DEFAULT_WAIT_TIME_SECONDS,
    )
    &&& Some(c.sqs.visibility_timeout) == i32_setting(
        st.visibility_timeout,
        DEFAULT_VISIBILITY_TIMEOUT,
    )
    &&& Some(c.health.port) == port_setting(st.health_port)
    &&& c.health.host@ == text_setting(st.health_host, "0.0.0.0"@)
    &&& c.logging.level@ == text_setting(st.log_level, "info"@)
}

fn i32_or_default(v: &Option<String>, default: i32) -> (r: Option<i32>)
    ensures
        r == i32_setting(*v, default),
{
    match v {
        Some(s) => parse_i32(s.as_str()),
        None => Some(default),
    }
}

fn text_or_default(v: Option<String>, default: &str) -> (r: String)
    ensures
        r@ == text_setting(v, default@),
{
    match v {
        Some(s) => s,
        None => String::from_str(default),
    }
}

/// Builds the configuration from the settings read at startup: the queue
/// URL is required, every other setting has a default.
pub fn load_config(st: Settings) -> (r: Result<Config, ConfigError>)
    ensures
        r is Ok <==> settings_error(st) is None,
        r matches Ok(c) ==> configured_from(st, c),
        r matches Err(e) ==> settings_error(st) == Some(e),
{
    let queue_url = match st.queue_url {
        Some(u) => u,
        None => return Err(ConfigError::MissingQueueUrl),
    };
    let max_messages = match i32_or_default(&st.max_messages, DEFAULT_MAX_MESSAGES) {
        Some(n) => n,
        None => return Err(ConfigError::InvalidMaxMessages),
    };
    let wait_time_seconds = match i32_or_default(&st.wait_time_seconds, DEFAULT_WAIT_TIME_SECONDS) {
        Some(n) => n,
        None => return Err(ConfigError::InvalidWaitTimeSeconds),
    };
    let visibility_timeout = match i32_or_default(&st.visibility_timeout, DEFAULT_VISIBILITY_TIMEOUT) {
        Some(n) => n,
        None => return Err(ConfigError::InvalidVisibilityTimeout),
    };
    let port = match &st.health_port {
        Some(p) => match parse_u16(p.as_str()) {
            Some(n) => n,
            None => return Err(ConfigError::InvalidHealthPort),
        },
        None => DEFAULT_PORT,
    };
    let mut config = Config::default();
    config.sqs.queue_url = queue_url;
    config.sqs.max_messages = max_messages;
    config.sqs.wait_time_seconds = wait_time_seconds;
    config.sqs.visibility_timeout = visibility_timeout;
    config.health.host = text_or_default(st.health_host, "0.0.0.0");
    config.health.port = port;
    config.logging.level = text_or_default(st.log_level, "info");
    Ok(config)
}

} // verus!
