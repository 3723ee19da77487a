//! Sending configuration and its interpretation.
//!
//! `Config` is an immutable bag of plain values; a copy travels into every
//! worker. The methods here interpret its textual fields: the worker-count
//! policy, the log level, the send mode, and front-end validation.

use vstd::prelude::*;

use crate::numparse;
use crate::strutil;

verus! {

/// Immutable sending configuration.
#[derive(Debug, Clone)]
pub struct Config {
    /// SMTP server address.
    pub smtp_server: String,
    /// SMTP server port.
    pub port: u16,
    /// Envelope sender address.
    pub from: String,
    /// Comma-separated recipient list.
    pub to: String,
    /// Directory of pre-formed message files.
    pub dir: Option<String>,
    /// Extension of the message files in `dir`, without the leading dot.
    pub extension: String,
    /// Worker count: "auto" for the logical CPU count, or a positive number.
    pub processes: String,
    /// Transactions per SMTP session before the session is closed.
    pub batch_size: usize,
    /// Per-command SMTP timeout, in seconds.
    pub smtp_timeout: u64,
    /// Log level keyword: error, warn, info, debug or trace.
    pub log_level: String,
    /// Send the file bytes verbatim, labelled as keeping the original headers.
    pub keep_headers: bool,
    /// Rewrite e-mail addresses in the message bytes.
    pub anonymize_emails: bool,
    /// Domain of the rewritten addresses.
    pub anonymize_domain: String,
    /// Rebuild the message with `from`/`to` from this configuration.
    pub modify_headers: bool,
    /// Repeat rounds indefinitely until interrupted.
    pub loop_mode: bool,
    /// Number of rounds when not looping indefinitely.
    pub repeat: u32,
    /// Pause between rounds, in seconds.
    pub loop_interval: u64,
    /// Pause before retrying after a failed round, in seconds.
    pub retry_interval: u64,
    /// A single file to send as an attachment.
    pub attachment: Option<String>,
    /// A directory whose every file is sent as a separate attachment e-mail.
    pub attachment_dir: Option<String>,
    /// Subject template for attachment modes; `{filename}` is substituted.
    pub subject_template: Option<String>,
    /// Text-body template for attachment modes; `{filename}` is substituted.
    pub text_template: Option<String>,
    /// HTML-body template for attachment modes; `{filename}` is substituted.
    pub html_template: Option<String>,
    /// Pause between messages within a batch, in milliseconds.
    pub email_send_interval_ms: u64,
    /// Authenticate with username and password.
    pub auth_mode: bool,
    /// Account name, used only when `auth_mode` is set.
    pub username: Option<String>,
    /// Account password, used only when `auth_mode` is set.
    pub password: Option<String>,
    /// Use TLS; implicit on port 465, STARTTLS otherwise.
    pub use_tls: bool,
    /// Accept invalid TLS certificates.
    pub accept_invalid_certs: bool,
    /// Directory where the bytes of failed sends are persisted.
    pub failed_emails_dir: Option<String>,
    /// Log file path; when set, log output also goes there.
    pub log_file: Option<String>,
}

/// How many workers to run.
#[derive(Debug, PartialEq, Eq, Structural)]
pub enum ProcessMode {
    /// One worker per logical CPU.
    Auto,
    /// A fixed worker count.
    Fixed(usize),
}

/// Log verbosity, mirroring the standard five levels.
#[derive(Debug, Clone, Copy, PartialEq, Eq, Structural)]
pub enum LogLevel {
    Error,
    Warn,
    Info,
    Debug,
    Trace,
}

/// Which kind of sources a run draws from.
#[derive(Debug, Clone, Copy, PartialEq, Eq, Structural)]
pub enum SendMode {
    /// Pre-formed message files from `dir`.
    EmlBatch,
    /// One file sent as an attachment.
    SingleAttachment,
    /// Every file of a directory sent as a separate attachment e-mail.
    AttachmentDir,
}

/// Default SMTP port.
pub fn default_port() -> (r: u16)
    ensures
        r == 25,
{
    25
}

/// Default message-file extension.
pub fn default_extension() -> (r: String)
    ensures
        r@ == "eml"@,
{
    "eml".to_owned()
}

/// Default worker-count policy.
pub fn default_processes() -> (r: String)
    ensures
        r@ == "auto"@,
{
    "auto".to_owned()
}

/// Default transactions per session.
pub fn default_batch_size() -> (r: usize)
    ensures
        r == 1,
{
    1
}

/// Default per-command timeout in seconds.
pub fn default_smtp_timeout() -> (r: u64)
    ensures
        r == 30,
{
    30
}

/// Default log level keyword.
pub fn default_log_level() -> (r: String)
    ensures
        r@ == "info"@,
{
    "info".to_owned()
}

/// Default domain for rewritten addresses.
pub fn default_anonymize_domain() -> (r: String)
    ensures
        r@ == "example.com"@,
{
    "example.com".to_owned()
}

/// Default number of rounds.
pub fn default_repeat() -> (r: u32)
    ensures
        r == 1,
{
    1
}

/// Default pause between rounds, in seconds.
pub fn default_loop_interval() -> (r: u64)
    ensures
        r == 1,
{
    1
}

/// Default pause before a retry, in seconds.
pub fn default_retry_interval() -> (r: u64)
    ensures
        r == 5,
{
    5
}

/// The worker-count policy that the `processes` text denotes: "auto" or an
/// unparsable or zero value select the CPU count, a positive number is fixed.
pub open spec fn spec_process_mode(processes: Seq<char>) -> ProcessMode {
    if processes == "auto"@ {
        ProcessMode::Auto
    } else {
        match numparse::parse_dec(processes, usize::MAX as int) {
            Some(n) => if n > 0 {
                ProcessMode::Fixed(n as usize)
            } else {
                ProcessMode::Auto
            },
            None => ProcessMode::Auto,
        }
    }
}

/// The log level that the `log_level` keyword denotes, after ASCII
/// lowercasing; anything unrecognised means `Info`.
pub open spec fn spec_log_level(level: Seq<char>) -> LogLevel {
    let l = strutil::lower_seq(level);
    if l == "error"@ {
        LogLevel::Error
    } else if l == "warn"@ {
        LogLevel::Warn
    } else if l == "info"@ {
        LogLevel::Info
    } else if l == "debug"@ {
        LogLevel::Debug
    } else if l == "trace"@ {
        LogLevel::Trace
    } else {
        LogLevel::Info
    }
}

/// The send mode that a configuration selects: an attachment directory wins
/// over a single attachment, which wins over the message-file mode.
pub open spec fn spec_send_mode(c: &Config) -> SendMode {
    if c.attachment_dir is Some {
        SendMode::AttachmentDir
    } else if c.attachment is Some {
        SendMode::SingleAttachment
    } else {
        SendMode::EmlBatch
    }
}

impl Config {
    /// The configured log verbosity.
    pub fn get_log_level(&self) -> (r: LogLevel)
        ensures
            r == spec_log_level(self.log_level@),
    {
        let l = strutil::ascii_lowercase(self.log_level.as_str());
        if strutil::str_eq(l.as_str(), "error") {
            LogLevel::Error
        } else if strutil::str_eq(l.as_str(), "warn") {
            LogLevel::Warn
        } else if strutil::str_eq(l.as_str(), "info") {
            LogLevel::Info
        } else if strutil::str_eq(l.as_str(), "debug") {
            LogLevel::Debug
        } else if strutil::str_eq(l.as_str(), "trace") {
            LogLevel::Trace
        } else {
            LogLevel::Info
        }
    }

    /// The configured worker-count policy.
    pub fn process_mode(&self) -> (r: ProcessMode)
        ensures
            r == spec_process_mode(self.processes@),
    {
        if strutil::str_eq(self.processes.as_str(), "auto") {
            ProcessMode::Auto
        } else {
            match numparse::try_parse_usize(self.processes.as_str()) {
                Some(n) => if n > 0 {
                    ProcessMode::Fixed(n)
                } else {
                    ProcessMode::Auto
                },
                None => ProcessMode::Auto,
            }
        }
    }

    /// The send mode this configuration selects.
    pub fn send_mode(&self) -> (r: SendMode)
        ensures
            r == spec_send_mode(self),
    {
        if self.attachment_dir.is_some() {
            SendMode::AttachmentDir
        } else if self.attachment.is_some() {
            SendMode::SingleAttachment
        } else {
            SendMode::EmlBatch
        }
    }
}

impl Default for Config {
    /// A configuration with every field at its default.
    fn default() -> (r: Config)
        ensures
            r.smtp_server@ == Seq::<char>::empty(),
            r.port == 25,
            r.from@ == Seq::<char>::empty(),
            r.to@ == Seq::<char>::empty(),
            r.dir is None,
            r.extension@ == "eml"@,
            r.processes@ == "auto"@,
            r.batch_size == 1,
            r.smtp_timeout == 30,
            r.log_level@ == "info"@,
            !r.keep_headers,
            !r.anonymize_emails,
            r.anonymize_domain@ == "example.com"@,
            !r.modify_headers,
            !r.loop_mode,
            r.repeat == 1,
            r.loop_interval == 1,
            r.retry_interval == 5,
            r.attachment is None,
            r.attachment_dir is None,
            r.subject_template is None,
            r.text_template is None,
            r.html_template is None,
            r.email_send_interval_ms == 0,
            !r.auth_mode,
            r.username is None,
            r.password is None,
            !r.use_tls,
            !r.accept_invalid_certs,
            r.failed_emails_dir is None,
            r.log_file is None,
    {
        Config {
            smtp_server: String::new(),
            port: default_port(),
            from: String::new(),
            to: String::new(),
            dir: None,
            extension: default_extension(),
            processes: default_processes(),
            batch_size: default_batch_size(),
            smtp_timeout: default_smtp_timeout(),
            log_level: default_log_level(),
            keep_headers: false,
            anonymize_emails: false,
            anonymize_domain: default_anonymize_domain(),
            modify_headers: false,
            loop_mode: false,
            repeat: default_repeat(),
            loop_interval: default_loop_interval(),
            retry_interval: default_retry_interval(),
            attachment: None,
            attachment_dir: None,
            subject_template: None,
            text_template: None,
            html_template: None,
            email_send_interval_ms: 0,
            auth_mode: false,
            username: None,
            password: None,
            use_tls: false,
            accept_invalid_certs: false,
            failed_emails_dir: None,
            log_file: None,
        }
    }
}

/// Which field a front-end must still fill in, if any. The variants carry the
/// message key that the front-end renders through the translation table.
pub open spec fn spec_validate(c: &Config) -> Option<Seq<char>> {
    if c.smtp_server@.len() == 0 {
        Some("error-no-smtp-server"@)
    } else if c.from@.len() == 0 {
        Some("error-no-sender"@)
    } else if c.to@.len() == 0 {
        Some("error-no-recipient"@)
    } else if c.attachment_dir is None && c.attachment is None && c.dir is None {
        Some("error-no-eml-dir"@)
    } else if c.auth_mode && spec_opt_empty(&c.username) {
        Some("error-no-username"@)
    } else if c.auth_mode && spec_opt_empty(&c.password) {
        Some("error-no-password"@)
    } else {
        None
    }
}

/// Whether an optional string is absent or empty.
pub open spec fn spec_opt_empty(s: &Option<String>) -> bool {
    match s {
        Some(v) => v@.len() == 0,
        None => true,
    }
}

fn opt_empty(s: &Option<String>) -> (r: bool)
    ensures
        r == spec_opt_empty(s),
{
    match s {
        Some(v) => v.as_str().is_empty(),
        None => true,
    }
}

/// Checks a configuration before a run starts. The error is the message key
/// of the first missing field; the front-end renders it through `t`.
pub fn validate_config(c: &Config) -> (r: Result<(), String>)
    ensures
        match r {
            Ok(()) => spec_validate(c) is None,
            Err(key) => spec_validate(c) == Some(key@),
        },
{
    if c.smtp_server.as_str().is_empty() {
        return Err("error-no-smtp-server".to_owned());
    }
    if c.from.as_str().is_empty() {
        return Err("error-no-sender".to_owned());
    }
    if c.to.as_str().is_empty() {
        return Err("error-no-recipient".to_owned());
    }
    if c.attachment_dir.is_none() && c.attachment.is_none() && c.dir.is_none() {
        return Err("error-no-eml-dir".to_owned());
    }
    if c.auth_mode && opt_empty(&c.username) {
        return Err("error-no-username".to_owned());
    }
    if c.auth_mode && opt_empty(&c.password) {
        return Err("error-no-password".to_owned());
    }
    Ok(())
}

} // verus!
