//! The options of the proxy, as the configuration file gives them.

use vstd::prelude::*;
use vstd::std_specs::convert::FromSpecImpl;
use vstd::string::StringSliceAdditionalSpecFns;
use vstd::utf8::valid_utf8;

use crate::dns::ResolveOptions;

verus! {

/// What concerns the process as a whole.
#[derive(Debug)]
pub struct GeneralOptions {
    /// Switch to this user when running as root, after the sockets are
    /// bound, to drop privileges.
    pub user: Option<String>,
}

impl Default for GeneralOptions {
    /// No user to switch to.
    fn default() -> (options: Self)
        ensures
            options.user is None,
    {
        GeneralOptions { user: None }
    }
}

/// Where the proxy listens.
#[derive(Debug)]
pub struct ListenerOptions {
    /// Hosts and ports to bind a listening socket to, each an IP address or
    /// a domain name with a port (`127.0.0.1:5000`, `[::]:5000`,
    /// `localhost:5000`).
    pub address: Vec<String>,
    /// How to resolve the listening addresses: IPv4 or IPv6 only.
    pub resolve_options: ResolveOptions,
}

/// Where the proxy forwards to.
#[derive(Debug)]
pub struct RemoteOptions {
    /// Host and port of the upstream.
    pub address: String,
    /// How to resolve the upstream address: IPv4 or IPv6 only.
    pub resolve_options: ResolveOptions,
}

impl RemoteOptions {
    /// The names to resolve for the upstream: a list of the one address.
    pub fn addresses(&self) -> (names: Vec<String>)
        ensures
            names@.len() == 1,
            names@[0]@ == self.address@,
    {
        let mut names: Vec<String> = Vec::new();
        names.push(self.address.clone());
        names
    }
}

/// A severity up to which messages are logged.
#[derive(Debug, Clone, Copy, PartialEq, Eq, Structural)]
pub enum LogLevel {
    Off,
    Error,
    Warn,
    Info,
    Debug,
    Trace,
}

/// Whether to log to the systemd journal in place of the console.
#[derive(Debug, Copy, Clone, PartialEq, Eq, Structural)]
pub struct JournaldOption(bool);

impl JournaldOption {
    /// Whether the journal is asked for.
    pub closed spec fn spec_get(&self) -> bool {
        self.0
    }

    /// The option that asks for the journal, or for the console.
    pub fn new(journald: bool) -> (option: Self)
        ensures
            option.get() == journald,
    {
        JournaldOption(journald)
    }

    /// Whether the journal is asked for.
    #[verifier::when_used_as_spec(spec_get)]
    pub fn get(&self) -> (journald: bool)
        ensures
            journald == self.spec_get(),
    {
        self.0
    }
}

impl Default for JournaldOption {
    /// The console.
    fn default() -> (option: Self)
        ensures
            !option.get(),
    {
        JournaldOption(false)
    }
}

impl From<JournaldOption> for bool {
    fn from(option: JournaldOption) -> (journald: bool) {
        option.0
    }
}

impl FromSpecImpl<JournaldOption> for bool {
    open spec fn obeys_from_spec() -> bool {
        true
    }

    open spec fn from_spec(option: JournaldOption) -> bool {
        option.get()
    }
}

/// Whether console messages go without a timestamp.
#[derive(Debug, Copy, Clone, PartialEq, Eq, Structural)]
pub struct DisableTimestamps(bool);

impl DisableTimestamps {
    /// Whether the timestamps are to be left out.
    pub closed spec fn spec_get(&self) -> bool {
        self.0
    }

    /// The option that leaves the timestamps out, or keeps them.
    pub fn new(disable_timestamps: bool) -> (option: Self)
        ensures
            option.get() == disable_timestamps,
    {
        DisableTimestamps(disable_timestamps)
    }

    /// Whether the timestamps are to be left out.
    #[verifier::when_used_as_spec(spec_get)]
    pub fn get(&self) -> (disable_timestamps: bool)
        ensures
            disable_timestamps == self.spec_get(),
    {
        self.0
    }
}

impl Default for DisableTimestamps {
    /// Without timestamps.
    fn default() -> (option: Self)
        ensures
            option.get(),
    {
        DisableTimestamps(true)
    }
}

impl From<DisableTimestamps> for bool {
    fn from(option: DisableTimestamps) -> (disable_timestamps: bool) {
        option.0
    }
}

impl FromSpecImpl<DisableTimestamps> for bool {
    open spec fn obeys_from_spec() -> bool {
        true
    }

    open spec fn from_spec(option: DisableTimestamps) -> bool {
        option.get()
    }
}

/// Where and how the proxy logs.
#[derive(Debug, Clone, Copy)]
pub struct LoggingOptions {
    /// Off, Error, Warn, Info, Debug or Trace.
    pub log_level: Option<LogLevel>,
    /// Use the systemd journal in place of the console.
    pub journald: JournaldOption,
    /// On the console only: leave the timestamps out of the messages.
    pub disable_timestamps: DisableTimestamps,
}

impl Default for LoggingOptions {
    /// The console without timestamps, at the level the environment names.
    fn default() -> (options: Self)
        ensures
            options.log_level is None,
            !options.journald.get(),
            options.disable_timestamps.get(),
    {
        LoggingOptions {
            log_level: None,
            journald: JournaldOption::default(),
            disable_timestamps: DisableTimestamps::default(),
        }
    }
}

/// What the proxy does to payloads.
#[derive(Debug)]
pub struct FilterOptions {
    /// The key of the XOR filter, in base64.
    pub xor_key: String,
    /// Apply the filter to the first `head_len` bytes of each datagram
    /// only.
    pub head_len: Option<usize>,
}

/// All options of the proxy.
#[derive(Debug)]
pub struct Config {
    pub general: GeneralOptions,
    pub listener: ListenerOptions,
    pub remote: RemoteOptions,
    pub logging: LoggingOptions,
    pub filters: FilterOptions,
}

/// Why the bytes of a configuration file are no configuration text.
#[derive(Debug, Clone, Copy, PartialEq, Eq, Structural)]
pub enum ConfigError {
    /// The bytes are not UTF-8.
    NotUtf8,
}

/// Calls `core::str::from_utf8`.
///
/// Taken on trust, as the documentation of the standard library has it: the
/// call succeeds on the byte slices that are valid UTF-8 and on no others,
/// and the string it returns is made of the bytes it was given.
#[verifier::external_body]
fn from_utf8(raw: &[u8]) -> (text: Option<&str>)
    ensures
        text is Some <==> valid_utf8(raw@),
        text matches Some(s) ==> s.spec_bytes() == raw@,
{
    match core::str::from_utf8(raw) {
        Ok(text) => Some(text),
        Err(_) => None,
    }
}

/// The text of the configuration in a file that holds the bytes `file`.
///
/// The text is made of all the bytes of the file, however many they are.
/// Bytes that are not UTF-8 are an error.
pub fn config_text(file: &[u8]) -> (text: Result<&str, ConfigError>)
    ensures
        valid_utf8(file@) ==> text is Ok && text->Ok_0.spec_bytes() == file@,
        !valid_utf8(file@) ==> text == Err::<&str, ConfigError>(ConfigError::NotUtf8),
{
    match from_utf8(file) {
        Some(text) => Ok(text),
        None => Err(ConfigError::NotUtf8),
    }
}

} // verus!
