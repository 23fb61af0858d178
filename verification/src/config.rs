//! The daemon's configuration model.
//!
//! The host reads the configuration file, the command line and the
//! environment; what arrives here are the resulting plain values. This
//! module holds the defaults, the validity checks a configuration must
//! pass at startup, and the values derived from a configuration while
//! the daemon runs.

use vstd::prelude::*;
use crate::decimal::{push_decimal, spec_decimal};
use crate::host::{now_timestamp, random_below};
use crate::policy::PolicyRule;
use crate::providers::UserDetails;
use crate::token::Token;

verus! {

/// The lowest inactivity threshold, in hours, at which a child
/// certificate authority may be suspended.
pub const CA_SUSPEND_MIN_HOURS: i64 = 48;

/// The lowest accepted refresh interval, in seconds.
pub const CA_REFRESH_SECONDS_MIN: u32 = 3600;

/// The highest accepted refresh interval, in seconds.
pub const CA_REFRESH_SECONDS_MAX: u32 = 86400;

/// How often `what` occurs in `text`.
pub open spec fn count_char(text: Seq<char>, what: char) -> nat
    decreases text.len(),
{
    if text.len() == 0 {
        0
    } else {
        count_char(text.drop_last(), what) + if text.last() == what {
            1nat
        } else {
            0nat
        }
    }
}

/// How often `what` occurs in `text`, by scanning.
fn count_char_in(text: &str, what: char) -> (count: usize)
    ensures
        count == count_char(text@, what),
{
    let n = text.unicode_len();
    let mut count: usize = 0;
    let mut i: usize = 0;
    while i < n
        invariant
            i <= n == text@.len(),
            count == count_char(text@.take(i as int), what),
            count <= i,
        decreases n - i,
    {
        let c = text.get_char(i);
        proof {
            assert(text@.take(i + 1).drop_last() =~= text@.take(i as int));
            assert(text@.take(i + 1).last() == text@[i as int]);
        }
        if c == what {
            count += 1;
        }
        i += 1;
    }
    proof {
        assert(text@.take(n as int) =~= text@);
    }
    count
}

//------------ ConfigError ---------------------------------------------------

/// Why a configuration could not be read or does not hold: all fatal,
/// all at startup.
#[derive(Debug, PartialEq, Eq)]
pub enum ConfigError {
    /// The configuration file could not be read.
    IoError(String),
    /// The configuration file could not be parsed.
    ParseError(String),
    /// A URI in the configuration is not valid.
    UriError(String),
    Other(String),
}

impl ConfigError {
    pub fn other(s: &str) -> (error: ConfigError)
        ensures
            error matches ConfigError::Other(msg) && msg@ == s@,
    {
        ConfigError::Other(s.to_owned())
    }
}

//------------ LogLevel ------------------------------------------------------

/// How much is logged: the levels of the standard logging facade.
#[derive(Clone, Copy, Debug, PartialEq, Eq, Structural)]
pub enum LogLevel {
    Off,
    Error,
    Warn,
    Info,
    Debug,
    Trace,
}

impl LogLevel {
    /// The level's position, `Off` lowest, `Trace` highest.
    pub open spec fn spec_rank(self) -> int {
        match self {
            LogLevel::Off => 0,
            LogLevel::Error => 1,
            LogLevel::Warn => 2,
            LogLevel::Info => 3,
            LogLevel::Debug => 4,
            LogLevel::Trace => 5,
        }
    }

    /// The less verbose of two levels.
    pub open spec fn spec_min(self, other: LogLevel) -> LogLevel {
        if self.spec_rank() <= other.spec_rank() {
            self
        } else {
            other
        }
    }

    pub fn rank(self) -> (r: u8)
        ensures
            r as int == self.spec_rank(),
    {
        match self {
            LogLevel::Off => 0,
            LogLevel::Error => 1,
            LogLevel::Warn => 2,
            LogLevel::Info => 3,
            LogLevel::Debug => 4,
            LogLevel::Trace => 5,
        }
    }

    /// Cap the level: the less verbose of the two.
    pub fn min_with(self, cap: LogLevel) -> (capped: LogLevel)
        ensures
            capped == self.spec_min(cap),
    {
        if self.rank() <= cap.rank() {
            self
        } else {
            cap
        }
    }

    /// The level a configuration names, lower case.
    pub fn parse(name: &String) -> (level: Option<LogLevel>)
        ensures
            level == LogLevel::spec_parse(name@),
    {
        if name.eq(&String::from_str("off")) {
            Some(LogLevel::Off)
        } else if name.eq(&String::from_str("error")) {
            Some(LogLevel::Error)
        } else if name.eq(&String::from_str("warn")) {
            Some(LogLevel::Warn)
        } else if name.eq(&String::from_str("info")) {
            Some(LogLevel::Info)
        } else if name.eq(&String::from_str("debug")) {
            Some(LogLevel::Debug)
        } else if name.eq(&String::from_str("trace")) {
            Some(LogLevel::Trace)
        } else {
            None
        }
    }

    pub open spec fn spec_parse(name: Seq<char>) -> Option<LogLevel> {
        if name == "off"@ {
            Some(LogLevel::Off)
        } else if name == "error"@ {
            Some(LogLevel::Error)
        } else if name == "warn"@ {
            Some(LogLevel::Warn)
        } else if name == "info"@ {
            Some(LogLevel::Info)
        } else if name == "debug"@ {
            Some(LogLevel::Debug)
        } else if name == "trace"@ {
            Some(LogLevel::Trace)
        } else {
            None
        }
    }
}

//------------ LogType -------------------------------------------------------

/// The target to log to.
#[derive(Clone, Copy, Debug, PartialEq, Eq, Structural)]
pub enum LogType {
    Stderr,
    File,
    Syslog,
}

impl LogType {
    /// The target a configuration names.
    pub fn parse(name: &String) -> (target: Option<LogType>)
        ensures
            target == LogType::spec_parse(name@),
    {
        if name.eq(&String::from_str("stderr")) {
            Some(LogType::Stderr)
        } else if name.eq(&String::from_str("file")) {
            Some(LogType::File)
        } else if name.eq(&String::from_str("syslog")) {
            Some(LogType::Syslog)
        } else {
            None
        }
    }

    pub open spec fn spec_parse(name: Seq<char>) -> Option<LogType> {
        if name == "stderr"@ {
            Some(LogType::Stderr)
        } else if name == "file"@ {
            Some(LogType::File)
        } else if name == "syslog"@ {
            Some(LogType::Syslog)
        } else {
            None
        }
    }
}

//------------ HttpsMode -----------------------------------------------------

/// Where the TLS key and certificate come from.
#[derive(Clone, Copy, Debug, PartialEq, Eq, Structural)]
pub enum HttpsMode {
    /// Use the files under the data directory as they are.
    Existing,
    /// Generate a self-signed pair when none exists.
    Generate,
}

impl HttpsMode {
    /// The mode a configuration names.
    pub fn parse(name: &String) -> (mode: Option<HttpsMode>)
        ensures
            mode == HttpsMode::spec_parse(name@),
    {
        if name.eq(&String::from_str("existing")) {
            Some(HttpsMode::Existing)
        } else if name.eq(&String::from_str("generate")) {
            Some(HttpsMode::Generate)
        } else {
            None
        }
    }

    pub open spec fn spec_parse(name: Seq<char>) -> Option<HttpsMode> {
        if name == "existing"@ {
            Some(HttpsMode::Existing)
        } else if name == "generate"@ {
            Some(HttpsMode::Generate)
        } else {
            None
        }
    }
}

//------------ AuthType ------------------------------------------------------

/// Which credential scheme is active.
#[derive(Clone, Copy, Debug, PartialEq, Eq, Structural)]
pub enum AuthType {
    AdminToken,
    ConfigFile,
    OpenIDConnect,
}

impl AuthType {
    /// The scheme a configuration names.
    pub fn parse(name: &String) -> (scheme: Option<AuthType>)
        ensures
            scheme == AuthType::spec_parse(name@),
    {
        if name.eq(&String::from_str("admin-token")) {
            Some(AuthType::AdminToken)
        } else if name.eq(&String::from_str("config-file")) {
            Some(AuthType::ConfigFile)
        } else if name.eq(&String::from_str("openid-connect")) {
            Some(AuthType::OpenIDConnect)
        } else {
            None
        }
    }

    pub open spec fn spec_parse(name: Seq<char>) -> Option<AuthType> {
        if name == "admin-token"@ {
            Some(AuthType::AdminToken)
        } else if name == "config-file"@ {
            Some(AuthType::ConfigFile)
        } else if name == "openid-connect"@ {
            Some(AuthType::OpenIDConnect)
        } else {
            None
        }
    }
}

//------------ ConfigDefaults ------------------------------------------------

/// The value each setting takes when the configuration file leaves it
/// out. Settings the host may also override from the environment — the
/// recovery flag, the log level, the aggregation thresholds — carry
/// their plain default here; applying the environment is the host's.
pub struct ConfigDefaults;

impl ConfigDefaults {
    pub fn ip() -> (ip: String)
        ensures
            ip@ == "127.0.0.1"@,
    {
        String::from_str("127.0.0.1")
    }

    pub fn port() -> (port: u16)
        ensures
            port == 3000,
    {
        3000
    }

    pub fn https_mode() -> (mode: HttpsMode)
        ensures
            mode == HttpsMode::Generate,
    {
        HttpsMode::Generate
    }

    pub fn data_dir() -> (dir: String)
        ensures
            dir@ == "./data"@,
    {
        String::from_str("./data")
    }

    pub fn always_recover_data() -> (recover: bool)
        ensures
            recover == false,
    {
        false
    }

    pub fn log_level() -> (level: LogLevel)
        ensures
            level == LogLevel::Info,
    {
        LogLevel::Info
    }

    pub fn log_type() -> (target: LogType)
        ensures
            target == LogType::File,
    {
        LogType::File
    }

    pub fn log_file() -> (file: String)
        ensures
            file@ == "./krill.log"@,
    {
        String::from_str("./krill.log")
    }

    pub fn syslog_facility() -> (facility: String)
        ensures
            facility@ == "daemon"@,
    {
        String::from_str("daemon")
    }

    pub fn auth_type() -> (scheme: AuthType)
        ensures
            scheme == AuthType::AdminToken,
    {
        AuthType::AdminToken
    }

    pub fn auth_policies() -> (rules: Vec<PolicyRule>)
        ensures
            rules@.len() == 0,
    {
        Vec::new()
    }

    pub fn auth_private_attributes() -> (names: Vec<String>)
        ensures
            names@.len() == 0,
    {
        Vec::new()
    }

    pub fn ca_refresh_seconds() -> (seconds: u32)
        ensures
            seconds == 600,
    {
        600
    }

    pub fn ca_refresh_parents_batch_size() -> (size: usize)
        ensures
            size == 25,
    {
        25
    }

    pub fn post_limit_api() -> (bytes: u64)
        ensures
            bytes == 256 * 1024,
    {
        256 * 1024
    }

    pub fn post_limit_rfc8181() -> (bytes: u64)
        ensures
            bytes == 32 * 1024 * 1024,
    {
        32 * 1024 * 1024
    }

    pub fn rfc8181_log_dir() -> (dir: Option<String>)
        ensures
            dir is None,
    {
        None
    }

    pub fn post_limit_rfc6492() -> (bytes: u64)
        ensures
            bytes == 1024 * 1024,
    {
        1024 * 1024
    }

    pub fn rfc6492_log_dir() -> (dir: Option<String>)
        ensures
            dir is None,
    {
        None
    }

    pub fn bgp_risdumps_enabled() -> (enabled: bool)
        ensures
            enabled == true,
    {
        true
    }

    pub fn bgp_risdumps_v4_uri() -> (uri: String)
        ensures
            uri@ == "http://www.ris.ripe.net/dumps/riswhoisdump.IPv4.gz"@,
    {
        String::from_str("http://www.ris.ripe.net/dumps/riswhoisdump.IPv4.gz")
    }

    pub fn bgp_risdumps_v6_uri() -> (uri: String)
        ensures
            uri@ == "http://www.ris.ripe.net/dumps/riswhoisdump.IPv6.gz"@,
    {
        String::from_str("http://www.ris.ripe.net/dumps/riswhoisdump.IPv6.gz")
    }

    pub fn roa_aggregate_threshold() -> (threshold: usize)
        ensures
            threshold == 100,
    {
        100
    }

    pub fn roa_deaggregate_threshold() -> (threshold: usize)
        ensures
            threshold == 90,
    {
        90
    }

    pub fn timing_publish_next_hours() -> (hours: i64)
        ensures
            hours == 24,
    {
        24
    }

    pub fn timing_publish_next_jitter_hours() -> (hours: i64)
        ensures
            hours == 4,
    {
        4
    }

    pub fn timing_publish_hours_before_next() -> (hours: i64)
        ensures
            hours == 8,
    {
        8
    }

    pub fn timing_child_certificate_valid_weeks() -> (weeks: i64)
        ensures
            weeks == 52,
    {
        52
    }

    pub fn timing_child_certificate_reissue_weeks_before() -> (weeks: i64)
        ensures
            weeks == 4,
    {
        4
    }

    pub fn timing_roa_valid_weeks() -> (weeks: i64)
        ensures
            weeks == 52,
    {
        52
    }

    pub fn timing_roa_reissue_weeks_before() -> (weeks: i64)
        ensures
            weeks == 4,
    {
        4
    }

    pub fn timing_aspa_valid_weeks() -> (weeks: i64)
        ensures
            weeks == 52,
    {
        52
    }

    pub fn timing_aspa_reissue_weeks_before() -> (weeks: i64)
        ensures
            weeks == 4,
    {
        4
    }
}

//------------ IssuanceTimingConfig ------------------------------------------

/// When issued objects are published, reissued and allowed to expire.
pub struct IssuanceTimingConfig {
    pub timing_publish_next_hours: i64,
    pub timing_publish_next_jitter_hours: i64,
    pub timing_publish_hours_before_next: i64,
    pub timing_child_certificate_valid_weeks: i64,
    pub timing_child_certificate_reissue_weeks_before: i64,
    pub timing_roa_valid_weeks: i64,
    pub timing_roa_reissue_weeks_before: i64,
    pub timing_aspa_valid_weeks: i64,
    pub timing_aspa_reissue_weeks_before: i64,
}

impl IssuanceTimingConfig {
    /// The conditions startup validation holds these settings to.
    pub open spec fn wf(&self) -> bool {
        &&& self.timing_publish_next_hours >= 2
        &&& self.timing_publish_next_jitter_hours >= 0
        &&& self.timing_publish_next_jitter_hours <= self.timing_publish_next_hours / 2
        &&& self.timing_publish_hours_before_next >= 1
        &&& self.timing_publish_hours_before_next < self.timing_publish_next_hours
        &&& self.timing_child_certificate_valid_weeks >= 2
        &&& self.timing_child_certificate_reissue_weeks_before >= 1
        &&& self.timing_child_certificate_reissue_weeks_before
            < self.timing_child_certificate_valid_weeks
        &&& self.timing_roa_valid_weeks >= 2
        &&& self.timing_roa_reissue_weeks_before >= 1
        &&& self.timing_roa_reissue_weeks_before < self.timing_roa_valid_weeks
    }

    /// The next update time that `publish_next` computes once the
    /// clock and the jitter draw are fixed: `now`, plus the regular
    /// interval, plus the drawn jitter minutes.
    pub fn publish_next_from(&self, now: i64, jitter_minutes: i64) -> (at: i64)
        requires
            2 <= self.timing_publish_next_hours <= 1_000_000,
            0 <= jitter_minutes < 60 * self.timing_publish_next_jitter_hours
                || jitter_minutes == 0,
            self.timing_publish_next_jitter_hours <= 500_000,
            -1_000_000_000_000 <= now <= 1_000_000_000_000,
        ensures
            at == now + 60 * (60 * self.timing_publish_next_hours + jitter_minutes),
    {
        let regular_mins = self.timing_publish_next_hours * 60;
        now + 60 * (regular_mins + jitter_minutes)
    }

    /// What one call of `publish_next` can compute: some clock reading
    /// and some jitter draw below the configured bound, combined as
    /// `publish_next_from` does.
    pub open spec fn publish_next_outcome(&self, now: i64, jitter_minutes: i64, at: i64) -> bool {
        &&& -1_000_000_000_000 <= now <= 1_000_000_000_000
        &&& 0 <= jitter_minutes < 60 * self.timing_publish_next_jitter_hours
        &&& at == now + 60 * (60 * self.timing_publish_next_hours + jitter_minutes)
    }

    /// The next update time: now, plus the regular interval, plus a
    /// random share of the configured jitter. The randomness keeps the
    /// republication of many certificate authorities from clustering.
    /// A clock reading outside of three thousand years around the epoch
    /// is clamped.
    pub fn publish_next(&self) -> (at: i64)
        requires
            self.wf(),
            self.timing_publish_next_hours <= 1_000_000,
            self.timing_publish_next_jitter_hours >= 1,
        ensures
            exists|now: i64, jitter_minutes: i64|
                #[trigger] self.publish_next_outcome(now, jitter_minutes, at),
    {
        let now = now_timestamp();
        let now = if now > 1_000_000_000_000 {
            1_000_000_000_000
        } else if now < -1_000_000_000_000 {
            -1_000_000_000_000
        } else {
            now
        };
        let jitter_minutes = random_below(60 * self.timing_publish_next_jitter_hours);
        let at = self.publish_next_from(now, jitter_minutes);
        proof {
            assert(self.publish_next_outcome(now, jitter_minutes, at));
        }
        at
    }
}

//------------ RepositoryRetentionConfig -------------------------------------

/// How long the repository keeps notification, snapshot and delta
/// files that newer publications have superseded.
pub struct RepositoryRetentionConfig {
    pub retention_old_notification_files_seconds: i64,
    pub retention_delta_files_min_nr: usize,
    pub retention_delta_files_min_seconds: i64,
    pub retention_delta_files_max_nr: usize,
    pub retention_delta_files_max_seconds: i64,
    pub retention_archive: bool,
}

impl RepositoryRetentionConfig {
    /// Files still referenced by recently replaced notification files
    /// are kept this long.
    pub fn dflt_retention_old_notification_files_seconds() -> (seconds: i64)
        ensures
            seconds == 600,
    {
        600
    }

    /// At least this many delta files stay listed, however old.
    pub fn dflt_retention_delta_files_min_nr() -> (count: usize)
        ensures
            count == 5,
    {
        5
    }

    /// Deltas younger than this always stay listed.
    pub fn dflt_retention_delta_files_min_seconds() -> (seconds: i64)
        ensures
            seconds == 1200,
    {
        1200
    }

    /// Between the two ages, at most this many deltas stay listed.
    pub fn dflt_retention_delta_files_max_nr() -> (count: usize)
        ensures
            count == 50,
    {
        50
    }

    /// Deltas older than this never stay listed.
    pub fn dflt_retention_delta_files_max_seconds() -> (seconds: i64)
        ensures
            seconds == 7200,
    {
        7200
    }

    /// Archive superseded files rather than delete them.
    pub fn dflt_retention_archive() -> (archive: bool)
        ensures
            archive == false,
    {
        false
    }
}

//------------ MetricsConfig -------------------------------------------------

/// Which details the metrics endpoint leaves out.
pub struct MetricsConfig {
    pub metrics_hide_ca_details: bool,
    pub metrics_hide_child_details: bool,
    pub metrics_hide_publisher_details: bool,
    pub metrics_hide_roa_details: bool,
}

//------------ TestBed -------------------------------------------------------

/// The URIs of the built-in test bed, when one is configured.
pub struct TestBed {
    ta_aia: String,
    ta_uri: String,
    rrdp_base_uri: String,
    rsync_jail: String,
}

impl TestBed {
    pub closed spec fn spec_ta_aia(&self) -> Seq<char> {
        self.ta_aia@
    }

    pub closed spec fn spec_ta_uri(&self) -> Seq<char> {
        self.ta_uri@
    }

    pub closed spec fn spec_rrdp_base_uri(&self) -> Seq<char> {
        self.rrdp_base_uri@
    }

    pub closed spec fn spec_rsync_jail(&self) -> Seq<char> {
        self.rsync_jail@
    }

    pub fn new(ta_aia: String, ta_uri: String, rrdp_base_uri: String, rsync_jail: String) -> (testbed: Self)
        ensures
            testbed.spec_ta_aia() == ta_aia@,
            testbed.spec_ta_uri() == ta_uri@,
            testbed.spec_rrdp_base_uri() == rrdp_base_uri@,
            testbed.spec_rsync_jail() == rsync_jail@,
    {
        TestBed { ta_aia, ta_uri, rrdp_base_uri, rsync_jail }
    }

    pub fn ta_aia(&self) -> (uri: &String)
        ensures
            uri@ == self.spec_ta_aia(),
    {
        &self.ta_aia
    }

    pub fn ta_uri(&self) -> (uri: &String)
        ensures
            uri@ == self.spec_ta_uri(),
    {
        &self.ta_uri
    }

    pub fn publication_server_uris(&self) -> (uris: PublicationServerUris)
        ensures
            uris.spec_rrdp_base_uri() == self.spec_rrdp_base_uri(),
            uris.spec_rsync_jail() == self.spec_rsync_jail(),
    {
        PublicationServerUris::new(self.rrdp_base_uri.clone(), self.rsync_jail.clone())
    }
}

//------------ PublicationServerUris -----------------------------------------

/// The two URIs under which a publication server serves: its RRDP base
/// and its rsync jail.
pub struct PublicationServerUris {
    rrdp_base_uri: String,
    rsync_jail: String,
}

impl PublicationServerUris {
    pub closed spec fn spec_rrdp_base_uri(&self) -> Seq<char> {
        self.rrdp_base_uri@
    }

    pub closed spec fn spec_rsync_jail(&self) -> Seq<char> {
        self.rsync_jail@
    }

    pub fn new(rrdp_base_uri: String, rsync_jail: String) -> (uris: Self)
        ensures
            uris.spec_rrdp_base_uri() == rrdp_base_uri@,
            uris.spec_rsync_jail() == rsync_jail@,
    {
        PublicationServerUris { rrdp_base_uri, rsync_jail }
    }

    pub fn rrdp_base_uri(&self) -> (uri: &String)
        ensures
            uri@ == self.spec_rrdp_base_uri(),
    {
        &self.rrdp_base_uri
    }

    pub fn rsync_jail(&self) -> (uri: &String)
        ensures
            uri@ == self.spec_rsync_jail(),
    {
        &self.rsync_jail
    }
}

//------------ LoggingLevels -------------------------------------------------

/// The per-component levels the host builds its logger with.
pub struct LoggingLevels {
    /// The configured level, applied to everything not capped below.
    pub base: LogLevel,
    /// Overly noisy transport and runtime frameworks.
    pub framework: LogLevel,
    /// This daemon's own event-sourcing and file utilities.
    pub krill_framework: LogLevel,
    /// The policy engine.
    pub oso: LogLevel,
    /// Whether each record names the component it came from.
    pub show_target: bool,
}

//------------ Config --------------------------------------------------------

/// The daemon's configuration: the file's values, with defaults filled
/// in and the environment applied, as the host hands them over.
pub struct Config {
    pub ip: String,
    pub port: u16,
    pub https_mode: HttpsMode,
    pub data_dir: String,
    pub always_recover_data: bool,
    pub pid_file: Option<String>,
    pub service_uri: Option<String>,
    pub log_level: LogLevel,
    pub log_type: LogType,
    pub log_file: String,
    pub syslog_facility: String,
    pub admin_token: Token,
    pub auth_type: AuthType,
    pub auth_policies: Vec<PolicyRule>,
    pub auth_private_attributes: Vec<String>,
    pub auth_users: Vec<UserDetails>,
    pub ca_refresh_seconds: u32,
    pub ca_refresh_parents_batch_size: usize,
    pub suspend_child_after_inactive_seconds: Option<i64>,
    pub suspend_child_after_inactive_hours: Option<i64>,
    pub post_limit_api: u64,
    pub post_limit_rfc8181: u64,
    pub rfc8181_log_dir: Option<String>,
    pub post_limit_rfc6492: u64,
    pub rfc6492_log_dir: Option<String>,
    pub bgp_risdumps_enabled: bool,
    pub bgp_risdumps_v4_uri: String,
    pub bgp_risdumps_v6_uri: String,
    pub roa_aggregate_threshold: usize,
    pub roa_deaggregate_threshold: usize,
    pub issuance_timing: IssuanceTimingConfig,
    pub repository_retention: RepositoryRetentionConfig,
    pub metrics: MetricsConfig,
    pub testbed: Option<TestBed>,
}

/// # Accessors
impl Config {
    pub fn set_data_dir(&mut self, data_dir: String)
        ensures
            *final(self) == (Config { data_dir, ..*old(self) }),
    {
        self.data_dir = data_dir;
    }

    /// The address to listen on, as `ip:port`.
    pub fn socket_addr(&self) -> (addr: String)
        ensures
            addr@ == self.ip@ + ":"@ + spec_decimal(self.port as int),
    {
        let mut addr = self.ip.clone();
        addr.append(":");
        push_decimal(&mut addr, self.port as u64);
        addr
    }

    /// Whether a self-signed TLS pair is to be generated.
    pub fn test_ssl(&self) -> (generate: bool)
        ensures
            generate == (self.https_mode == HttpsMode::Generate),
    {
        self.https_mode == HttpsMode::Generate
    }

    /// Where the TLS certificate lives, under the data directory.
    pub fn https_cert_file(&self) -> (path: String)
        ensures
            path@ == self.data_dir@ + "/ssl/cert.pem"@,
    {
        let mut path = self.data_dir.clone();
        path.append("/ssl/cert.pem");
        path
    }

    /// Where the TLS key lives, under the data directory.
    pub fn https_key_file(&self) -> (path: String)
        ensures
            path@ == self.data_dir@ + "/ssl/key.pem"@,
    {
        let mut path = self.data_dir.clone();
        path.append("/ssl/key.pem");
        path
    }

    /// The URI this service is reached under: the configured one, or
    /// one derived from the listen address.
    pub open spec fn spec_service_uri(&self) -> Seq<char> {
        match self.service_uri {
            Some(uri) => uri@,
            None => if self.ip@ == "127.0.0.1"@ {
                "https://localhost:"@ + spec_decimal(self.port as int) + "/"@
            } else {
                "https://"@ + self.ip@ + ":"@ + spec_decimal(self.port as int) + "/"@
            },
        }
    }

    pub fn service_uri(&self) -> (uri: String)
        ensures
            uri@ == self.spec_service_uri(),
    {
        match &self.service_uri {
            Some(uri) => uri.clone(),
            None => {
                let mut uri = if self.ip.eq(&String::from_str("127.0.0.1")) {
                    String::from_str("https://localhost:")
                } else {
                    let mut head = String::from_str("https://");
                    head.append(self.ip.as_str());
                    head.append(":");
                    head
                };
                push_decimal(&mut uri, self.port as u64);
                uri.append("/");
                assert(uri@ =~= self.spec_service_uri());
                uri
            },
        }
    }

    /// Where a publisher exchanges publication protocol messages with
    /// this service.
    pub fn rfc8181_uri(&self, publisher: &String) -> (uri: String)
        ensures
            uri@ == self.spec_service_uri() + "rfc8181/"@ + publisher@ + "/"@,
    {
        let mut uri = self.service_uri();
        uri.append("rfc8181/");
        uri.append(publisher.as_str());
        uri.append("/");
        assert(uri@ =~= self.spec_service_uri() + "rfc8181/"@ + publisher@ + "/"@);
        uri
    }

    /// The PID file: the configured one, or one under the data
    /// directory.
    pub fn pid_file(&self) -> (path: String)
        ensures
            path@ == match self.pid_file {
                Some(file) => file@,
                None => self.data_dir@ + "/krill.pid"@,
            },
    {
        match &self.pid_file {
            Some(file) => file.clone(),
            None => {
                let mut path = self.data_dir.clone();
                path.append("/krill.pid");
                path
            },
        }
    }

    /// How many hours after publication the next publication is due.
    pub fn republish_hours(&self) -> (hours: i64)
        requires
            self.issuance_timing.timing_publish_next_hours
                - self.issuance_timing.timing_publish_hours_before_next <= i64::MAX,
        ensures
            hours == if self.issuance_timing.timing_publish_hours_before_next
                < self.issuance_timing.timing_publish_next_hours {
                self.issuance_timing.timing_publish_next_hours
                    - self.issuance_timing.timing_publish_hours_before_next
            } else {
                0
            },
    {
        if self.issuance_timing.timing_publish_hours_before_next
            < self.issuance_timing.timing_publish_next_hours {
            self.issuance_timing.timing_publish_next_hours
                - self.issuance_timing.timing_publish_hours_before_next
        } else {
            0
        }
    }

    /// The inactivity threshold for suspending a child, in seconds:
    /// the one configured in seconds, or the one configured in hours.
    pub fn suspend_child_after_inactive_seconds(&self) -> (seconds: Option<i64>)
        requires
            match self.suspend_child_after_inactive_hours {
                Some(hours) => -2_500_000_000_000_000 <= hours <= 2_500_000_000_000_000,
                None => true,
            },
        ensures
            seconds == match self.suspend_child_after_inactive_seconds {
                Some(s) => Some(s),
                None => match self.suspend_child_after_inactive_hours {
                    Some(hours) => Some((hours * 3600) as i64),
                    None => None::<i64>,
                },
            },
    {
        match self.suspend_child_after_inactive_seconds {
            Some(seconds) => Some(seconds),
            None => match self.suspend_child_after_inactive_hours {
                Some(hours) => Some(hours * 3600),
                None => None,
            },
        }
    }

    pub fn testbed(&self) -> (testbed: Option<&TestBed>)
        ensures
            match testbed {
                Some(t) => self.testbed matches Some(own) && t == &own,
                None => self.testbed is None,
            },
    {
        self.testbed.as_ref()
    }

    /// Clamp a configured refresh interval into the accepted range, as
    /// startup does.
    pub fn clamped_ca_refresh_seconds(seconds: u32) -> (clamped: u32)
        ensures
            clamped == if seconds < CA_REFRESH_SECONDS_MIN {
                CA_REFRESH_SECONDS_MIN
            } else if seconds > CA_REFRESH_SECONDS_MAX {
                CA_REFRESH_SECONDS_MAX
            } else {
                seconds
            },
    {
        if seconds < CA_REFRESH_SECONDS_MIN {
            CA_REFRESH_SECONDS_MIN
        } else if seconds > CA_REFRESH_SECONDS_MAX {
            CA_REFRESH_SECONDS_MAX
        } else {
            seconds
        }
    }

    /// The levels the logger is built with: the configured level,
    /// capped per component so that noisy frameworks stay quiet. The
    /// policy engine's own logging opens up only when its environment
    /// variable is set, which the host reports in `polar_log_set`.
    pub fn logging_levels(&self, polar_log_set: bool) -> (levels: LoggingLevels)
        ensures
            levels.base == self.log_level,
            levels.framework == self.log_level.spec_min(LogLevel::Warn),
            levels.krill_framework == self.log_level.spec_min(LogLevel::Debug),
            levels.oso == self.log_level.spec_min(
                if polar_log_set {
                    LogLevel::Trace
                } else {
                    LogLevel::Info
                },
            ),
            levels.show_target == (self.log_level == LogLevel::Trace || self.log_level
                == LogLevel::Debug),
    {
        LoggingLevels {
            base: self.log_level,
            framework: self.log_level.min_with(LogLevel::Warn),
            krill_framework: self.log_level.min_with(LogLevel::Debug),
            oso: self.log_level.min_with(
                if polar_log_set {
                    LogLevel::Trace
                } else {
                    LogLevel::Info
                },
            ),
            show_target: self.log_level == LogLevel::Trace || self.log_level == LogLevel::Debug,
        }
    }

    /// The conditions a configuration must pass at startup.
    pub open spec fn spec_verify_ok(&self) -> bool {
        &&& self.port >= 1024
        &&& match self.service_uri {
            Some(uri) => uri@.len() > 0 && uri@.last() == '/' && count_char(uri@, '/') == 3,
            None => true,
        }
        &&& self.issuance_timing.wf()
        &&& match self.suspend_child_after_inactive_hours {
            Some(hours) => hours >= CA_SUSPEND_MIN_HOURS,
            None => true,
        }
    }

    /// Hold the configuration to the conditions startup demands:
    /// succeeds exactly when all of them hold.
    pub fn verify(&self) -> (result: Result<(), ConfigError>)
        ensures
            result is Ok <==> self.spec_verify_ok(),
            result matches Err(e) ==> e is Other,
    {
        if self.port < 1024 {
            return Err(ConfigError::other("port number must be >1024"));
        }

        if let Some(service_uri) = &self.service_uri {
            let n = service_uri.as_str().unicode_len();
            if n == 0 {
                return Err(ConfigError::other("service URI must end with '/'"));
            }
            if service_uri.as_str().get_char(n - 1) != '/' {
                return Err(ConfigError::other("service URI must end with '/'"));
            }
            if count_char_in(service_uri.as_str(), '/') != 3 {
                return Err(ConfigError::other(
                    "service URI must specify a host name only, e.g. https://rpki.example.com:3000/",
                ));
            }
        }

        let timing = &self.issuance_timing;
        if timing.timing_publish_next_hours < 2 {
            return Err(ConfigError::other("timing_publish_next_hours must be at least 2"));
        }
        if timing.timing_publish_next_jitter_hours < 0 {
            return Err(ConfigError::other("timing_publish_next_jitter_hours must be at least 0"));
        }
        if timing.timing_publish_next_jitter_hours > timing.timing_publish_next_hours / 2 {
            return Err(ConfigError::other(
                "timing_publish_next_jitter_hours must be at most timing_publish_next_hours divided by 2",
            ));
        }
        if timing.timing_publish_hours_before_next < 1 {
            return Err(ConfigError::other("timing_publish_hours_before_next must be at least 1"));
        }
        if timing.timing_publish_hours_before_next >= timing.timing_publish_next_hours {
            return Err(ConfigError::other(
                "timing_publish_hours_before_next must be smaller than timing_publish_hours",
            ));
        }
        if timing.timing_child_certificate_valid_weeks < 2 {
            return Err(ConfigError::other(
                "timing_child_certificate_valid_weeks must be at least 2",
            ));
        }
        if timing.timing_child_certificate_reissue_weeks_before < 1 {
            return Err(ConfigError::other(
                "timing_child_certificate_reissue_weeks_before must be at least 1",
            ));
        }
        if timing.timing_child_certificate_reissue_weeks_before
            >= timing.timing_child_certificate_valid_weeks {
            return Err(ConfigError::other(
                "timing_child_certificate_reissue_weeks_before must be smaller than timing_child_certificate_valid_weeks",
            ));
        }
        if timing.timing_roa_valid_weeks < 2 {
            return Err(ConfigError::other("timing_roa_valid_weeks must be at least 2"));
        }
        if timing.timing_roa_reissue_weeks_before < 1 {
            return Err(ConfigError::other("timing_roa_reissue_weeks_before must be at least 1"));
        }
        if timing.timing_roa_reissue_weeks_before >= timing.timing_roa_valid_weeks {
            return Err(ConfigError::other(
                "timing_roa_reissue_weeks_before must be smaller than timing_roa_valid_week",
            ));
        }

        if let Some(threshold) = self.suspend_child_after_inactive_hours {
            if threshold < CA_SUSPEND_MIN_HOURS {
                return Err(ConfigError::other(
                    "suspend_child_after_inactive_hours must be 48 or higher (or not set at all)",
                ));
            }
        }

        Ok(())
    }
}

/// What `Config::test` builds: local defaults, an admin token of
/// `secret`, and the data directory given.
pub open spec fn spec_is_test_config(
    config: Config,
    data_dir: Seq<char>,
    enable_testbed: bool,
    enable_ca_refresh: bool,
    enable_suspend: bool,
) -> bool {
    &&& config.ip@ == "127.0.0.1"@
    &&& config.port == 3000
    &&& config.https_mode == HttpsMode::Generate
    &&& config.data_dir@ == data_dir
    &&& config.always_recover_data == false
    &&& config.pid_file is None
    &&& config.service_uri is None
    &&& config.log_level == LogLevel::Debug
    &&& config.log_type == LogType::Stderr
    &&& config.log_file@ == data_dir + "/krill.log"@
    &&& config.syslog_facility@ == "daemon"@
    &&& config.admin_token@ == "secret"@
    &&& config.auth_type == AuthType::AdminToken
    &&& config.auth_policies@.len() == 0
    &&& config.auth_private_attributes@.len() == 0
    &&& config.auth_users@.len() == 0
    &&& config.ca_refresh_seconds == if enable_ca_refresh { 1u32 } else { 86400u32 }
    &&& config.ca_refresh_parents_batch_size == 10
    &&& config.suspend_child_after_inactive_seconds == if enable_suspend {
        Some(3i64)
    } else {
        None::<i64>
    }
    &&& config.suspend_child_after_inactive_hours is None
    &&& config.post_limit_api == 256 * 1024
    &&& config.post_limit_rfc8181 == 32 * 1024 * 1024
    &&& config.rfc8181_log_dir matches Some(dir) && dir@ == data_dir + "/rfc8181"@
    &&& config.post_limit_rfc6492 == 1024 * 1024
    &&& config.rfc6492_log_dir matches Some(dir) && dir@ == data_dir + "/rfc6492"@
    &&& config.bgp_risdumps_enabled == false
    &&& config.roa_aggregate_threshold == 3
    &&& config.roa_deaggregate_threshold == 2
    &&& config.issuance_timing.timing_publish_next_hours == 24
    &&& config.issuance_timing.timing_publish_next_jitter_hours == 4
    &&& config.issuance_timing.timing_publish_hours_before_next == 8
    &&& config.issuance_timing.timing_child_certificate_valid_weeks == 52
    &&& config.issuance_timing.timing_child_certificate_reissue_weeks_before == 4
    &&& config.issuance_timing.timing_roa_valid_weeks == 52
    &&& config.issuance_timing.timing_roa_reissue_weeks_before == 4
    &&& config.issuance_timing.timing_aspa_valid_weeks == 52
    &&& config.issuance_timing.timing_aspa_reissue_weeks_before == 4
    &&& (enable_testbed <==> config.testbed is Some)
    &&& (config.testbed matches Some(testbed) ==> testbed.spec_ta_aia()
        == "rsync://localhost/ta/ta.cer"@ && testbed.spec_ta_uri()
        == "https://localhost/ta/ta.cer"@ && testbed.spec_rrdp_base_uri()
        == "https://localhost/rrdp/"@ && testbed.spec_rsync_jail()
        == "rsync://localhost/repo/"@)
    &&& config.spec_verify_ok()
}

/// # Create
impl Config {
    /// A configuration for tests: local defaults, a token of `secret`,
    /// and the data directory given.
    fn test_config(
        data_dir: &String,
        enable_testbed: bool,
        enable_ca_refresh: bool,
        enable_suspend: bool,
    ) -> (config: Self)
        ensures
            spec_is_test_config(
                config,
                data_dir@,
                enable_testbed,
                enable_ca_refresh,
                enable_suspend,
            ),
    {
        let mut log_file = data_dir.clone();
        log_file.append("/krill.log");
        let mut rfc8181_log_dir = data_dir.clone();
        rfc8181_log_dir.append("/rfc8181");
        let mut rfc6492_log_dir = data_dir.clone();
        rfc6492_log_dir.append("/rfc6492");

        let issuance_timing = IssuanceTimingConfig {
            timing_publish_next_hours: ConfigDefaults::timing_publish_next_hours(),
            timing_publish_next_jitter_hours: ConfigDefaults::timing_publish_next_jitter_hours(),
            timing_publish_hours_before_next: ConfigDefaults::timing_publish_hours_before_next(),
            timing_child_certificate_valid_weeks:
                ConfigDefaults::timing_child_certificate_valid_weeks(),
            timing_child_certificate_reissue_weeks_before:
                ConfigDefaults::timing_child_certificate_reissue_weeks_before(),
            timing_roa_valid_weeks: ConfigDefaults::timing_roa_valid_weeks(),
            timing_roa_reissue_weeks_before: ConfigDefaults::timing_roa_reissue_weeks_before(),
            timing_aspa_valid_weeks: ConfigDefaults::timing_aspa_valid_weeks(),
            timing_aspa_reissue_weeks_before: ConfigDefaults::timing_aspa_reissue_weeks_before(),
        };

        let repository_retention = RepositoryRetentionConfig {
            retention_old_notification_files_seconds: 1,
            retention_delta_files_min_seconds: 0,
            retention_delta_files_min_nr: 5,
            retention_delta_files_max_seconds: 1,
            retention_delta_files_max_nr: 50,
            retention_archive: false,
        };

        let metrics = MetricsConfig {
            metrics_hide_ca_details: false,
            metrics_hide_child_details: false,
            metrics_hide_publisher_details: false,
            metrics_hide_roa_details: false,
        };

        let testbed = if enable_testbed {
            Some(TestBed::new(
                String::from_str("rsync://localhost/ta/ta.cer"),
                String::from_str("https://localhost/ta/ta.cer"),
                String::from_str("https://localhost/rrdp/"),
                String::from_str("rsync://localhost/repo/"),
            ))
        } else {
            None
        };

        Config {
            ip: ConfigDefaults::ip(),
            port: ConfigDefaults::port(),
            https_mode: HttpsMode::Generate,
            data_dir: data_dir.clone(),
            always_recover_data: false,
            pid_file: None,
            service_uri: None,
            log_level: LogLevel::Debug,
            log_type: LogType::Stderr,
            log_file,
            syslog_facility: ConfigDefaults::syslog_facility(),
            admin_token: Token::new(String::from_str("secret")),
            auth_type: AuthType::AdminToken,
            auth_policies: Vec::new(),
            auth_private_attributes: Vec::new(),
            auth_users: Vec::new(),
            ca_refresh_seconds: if enable_ca_refresh { 1 } else { 86400 },
            ca_refresh_parents_batch_size: 10,
            suspend_child_after_inactive_seconds: if enable_suspend { Some(3) } else { None },
            suspend_child_after_inactive_hours: None,
            post_limit_api: ConfigDefaults::post_limit_api(),
            post_limit_rfc8181: ConfigDefaults::post_limit_rfc8181(),
            rfc8181_log_dir: Some(rfc8181_log_dir),
            post_limit_rfc6492: ConfigDefaults::post_limit_rfc6492(),
            rfc6492_log_dir: Some(rfc6492_log_dir),
            bgp_risdumps_enabled: false,
            bgp_risdumps_v4_uri: ConfigDefaults::bgp_risdumps_v4_uri(),
            bgp_risdumps_v6_uri: ConfigDefaults::bgp_risdumps_v6_uri(),
            roa_aggregate_threshold: 3,
            roa_deaggregate_threshold: 2,
            issuance_timing,
            repository_retention,
            metrics,
            testbed,
        }
    }

    /// A configuration for tests.
    pub fn test(
        data_dir: &String,
        enable_testbed: bool,
        enable_ca_refresh: bool,
        enable_suspend: bool,
    ) -> (config: Self)
        ensures
            spec_is_test_config(
                config,
                data_dir@,
                enable_testbed,
                enable_ca_refresh,
                enable_suspend,
            ),
    {
        Self::test_config(data_dir, enable_testbed, enable_ca_refresh, enable_suspend)
    }

    /// A configuration for publication-server tests: as `test`, on its
    /// own port.
    pub fn pubd_test(data_dir: &String) -> (config: Self)
        ensures
            config.port == 3001,
            spec_is_test_config((Config { port: 3000u16, ..config }), data_dir@, false, false, false),
    {
        let mut config = Self::test_config(data_dir, false, false, false);
        config.port = 3001;
        config
    }
}

} // verus!
