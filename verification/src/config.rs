//! The configuration of the gateway and the rules that turn settings, as
//! read from a file and from the environment, into it.
//!
//! Settings are pairs of a dotted key and a text value: `server.host`,
//! `server.port`, `backend.type` and the fields of the chosen backend,
//! such as `backend.root_path`.

use crate::text::{
    all_digits, chars_of, digits_value, digits_value_grows, is_digit, join, same_chars, same_text,
    text_of,
};
use vstd::prelude::*;

verus! {

/// The whole configuration.
#[derive(Debug, Clone, PartialEq, Eq)]
pub struct Config {
    pub server: ServerConfig,
    pub backend: BackendConfig,
}

/// Where the gateway listens.
#[derive(Debug, Clone, PartialEq, Eq)]
pub struct ServerConfig {
    pub host: String,
    pub port: u16,
}

/// Which backend keeps the objects, and how to reach it.
#[derive(Debug, Clone, PartialEq, Eq)]
pub enum BackendConfig {
    Local { root_path: String, physical_bucket: String },
    S3 { region: String, physical_bucket: String, endpoint: Option<String> },
    Gcs { physical_bucket: String },
    Azure { account: String, access_key: String, physical_bucket: String },
}

/// Settings as pairs of key and value, in the order in which they were
/// read. Of several values for one key the last counts.
#[derive(Debug, Clone, PartialEq, Eq)]
pub struct Settings {
    pub entries: Vec<(String, String)>,
}

/// Why settings do not make a configuration.
#[derive(Debug, Clone, PartialEq, Eq)]
pub enum ConfigError {
    /// A required setting is missing; the payload is its key.
    Missing(String),
    /// `server.port` is not a decimal number up to 65535; the payload is
    /// the value found.
    InvalidPort(String),
    /// `backend.type` names no known backend; the payload is the value
    /// found.
    UnknownBackend(String),
}

/// The host to listen on when none is set.
pub fn default_host() -> (host: String)
    ensures
        host@ == "127.0.0.1"@,
{
    String::from_str("127.0.0.1")
}

/// The port to listen on when none is set.
pub fn default_port() -> (port: u16)
    ensures
        port == 8080,
{
    8080
}

/// The physical bucket of the local backend when none is set.
pub fn default_physical_bucket() -> (bucket: String)
    ensures
        bucket@ == "object-store-data"@,
{
    String::from_str("object-store-data")
}

impl Default for Config {
    fn default() -> (config: Config)
        ensures
            config.server.host@ == "127.0.0.1"@,
            config.server.port == 8080,
            config.backend matches BackendConfig::Local { root_path, physical_bucket }
                && root_path@ == "./data"@ && physical_bucket@ == "object-store-data"@,
    {
        Config {
            server: ServerConfig { host: default_host(), port: default_port() },
            backend: BackendConfig::Local {
                root_path: String::from_str("./data"),
                physical_bucket: default_physical_bucket(),
            },
        }
    }
}

/// The value that `entries` give for `key`: that of the last entry with
/// the key, if there is one.
pub open spec fn setting(entries: Seq<(String, String)>, key: Seq<char>) -> Option<Seq<char>>
    decreases entries.len(),
{
    if entries.len() == 0 {
        None
    } else if entries.last().0@ == key {
        Some(entries.last().1@)
    } else {
        setting(entries.drop_last(), key)
    }
}

/// The value for `key` when the settings of `over` take precedence over
/// those of `under`.
pub open spec fn layered(
    under: Seq<(String, String)>,
    over: Seq<(String, String)>,
    key: Seq<char>,
) -> Option<Seq<char>> {
    match setting(over, key) {
        Some(v) => Some(v),
        None => setting(under, key),
    }
}

/// The port that a text writes: one or more decimal digits, worth at most
/// 65535.
pub open spec fn port_of(s: Seq<char>) -> Option<u16> {
    if s.len() > 0 && all_digits(s) && digits_value(s) <= 65535 {
        Some(digits_value(s) as u16)
    } else {
        None
    }
}

/// The configuration that settings make, where `get` gives the value of a
/// key: the server's host and port with their defaults, and the backend
/// that `backend.type` chooses with the fields it requires.
pub open spec fn configured(
    get: spec_fn(Seq<char>) -> Option<Seq<char>>,
    r: Result<Config, ConfigError>,
) -> bool {
    let host = get("server.host"@);
    let port = get("server.port"@);
    let kind = get("backend.type"@);
    let bucket = get("backend.physical_bucket"@);
    if port is Some && port_of(port->0) is None {
        r matches Err(ConfigError::InvalidPort(v)) && v@ == port->0
    } else if kind is None {
        r matches Err(ConfigError::Missing(k)) && k@ == "backend.type"@
    } else if kind->0 == "local"@ {
        let root = get("backend.root_path"@);
        if root is None {
            r matches Err(ConfigError::Missing(k)) && k@ == "backend.root_path"@
        } else {
            &&& r matches Ok(config)
            &&& server_configured(host, port, config.server)
            &&& config.backend matches BackendConfig::Local { root_path, physical_bucket }
            &&& root_path@ == root->0
            &&& physical_bucket@ == (match bucket {
                Some(b) => b,
                None => "object-store-data"@,
            })
        }
    } else if kind->0 == "s3"@ {
        let region = get("backend.region"@);
        if region is None {
            r matches Err(ConfigError::Missing(k)) && k@ == "backend.region"@
        } else if bucket is None {
            r matches Err(ConfigError::Missing(k)) && k@ == "backend.physical_bucket"@
        } else {
            &&& r matches Ok(config)
            &&& server_configured(host, port, config.server)
            &&& config.backend matches BackendConfig::S3 { region: g, physical_bucket, endpoint }
            &&& g@ == region->0
            &&& physical_bucket@ == bucket->0
            &&& text_of(endpoint) == get("backend.endpoint"@)
        }
    } else if kind->0 == "gcs"@ {
        if bucket is None {
            r matches Err(ConfigError::Missing(k)) && k@ == "backend.physical_bucket"@
        } else {
            &&& r matches Ok(config)
            &&& server_configured(host, port, config.server)
            &&& config.backend matches BackendConfig::Gcs { physical_bucket }
            &&& physical_bucket@ == bucket->0
        }
    } else if kind->0 == "azure"@ {
        let account = get("backend.account"@);
        let access_key = get("backend.access_key"@);
        if account is None {
            r matches Err(ConfigError::Missing(k)) && k@ == "backend.account"@
        } else if access_key is None {
            r matches Err(ConfigError::Missing(k)) && k@ == "backend.access_key"@
        } else if bucket is None {
            r matches Err(ConfigError::Missing(k)) && k@ == "backend.physical_bucket"@
        } else {
            &&& r matches Ok(config)
            &&& server_configured(host, port, config.server)
            &&& config.backend matches BackendConfig::Azure { account: a, access_key: s, physical_bucket }
            &&& a@ == account->0
            &&& s@ == access_key->0
            &&& physical_bucket@ == bucket->0
        }
    } else {
        r matches Err(ConfigError::UnknownBackend(v)) && v@ == kind->0
    }
}

/// The server block that the settings for host and port make: each as
/// set, or its default.
pub open spec fn server_configured(
    host: Option<Seq<char>>,
    port: Option<Seq<char>>,
    server: ServerConfig,
) -> bool {
    &&& server.host@ == (match host {
        Some(h) => h,
        None => "127.0.0.1"@,
    })
    &&& server.port == (match port {
        Some(p) => port_of(p)->0,
        None => 8080u16,
    })
}

/// Reads a port number: one or more decimal digits, worth at most 65535.
pub fn parse_port(text: &str) -> (port: Option<u16>)
    ensures
        port == port_of(text@),
{
    let chars = chars_of(text);
    let n: usize = chars.len();
    if n == 0 {
        return None;
    }
    let mut value: u32 = 0;
    let mut i: usize = 0;
    while i < n
        invariant
            chars@ == text@,
            n == chars@.len(),
            i <= n,
            value <= 65535,
            value == digits_value(chars@.take(i as int)),
            forall|j: int| 0 <= j < i ==> is_digit(#[trigger] chars@[j]),
        decreases n - i,
    {
        let c = chars[i];
        if !('0' <= c && c <= '9') {
            return None;
        }
        proof {
            let upto = chars@.take(i + 1);
            assert(upto.drop_last() =~= chars@.take(i as int));
        }
        let digit: u32 = c as u32 - '0' as u32;
        value = value * 10 + digit;
        if value > 65535 {
            proof {
                digits_value_grows(chars@, i + 1);
            }
            return None;
        }
        i += 1;
    }
    assert(chars@.take(n as int) =~= chars@);
    Some(value as u16)
}

impl Settings {
    /// The value these settings give for `key`.
    pub open spec fn value_of(self, key: Seq<char>) -> Option<Seq<char>> {
        setting(self.entries@, key)
    }

    /// No settings.
    pub fn new() -> (settings: Settings)
        ensures
            settings.entries@.len() == 0,
    {
        Settings { entries: Vec::new() }
    }

    /// Adds a setting; it counts over any earlier one for the same key.
    pub fn set(&mut self, key: &str, value: &str)
        ensures
            final(self).value_of(key@) == Some(value@),
            forall|other: Seq<char>|
                other != key@ ==> final(self).value_of(other) == old(self).value_of(other),
    {
        let ghost before = self.entries@;
        self.entries.push((String::from_str(key), String::from_str(value)));
        proof {
            assert(self.entries@.drop_last() =~= before);
        }
    }

    /// The value these settings give for `key`, if any.
    pub fn get(&self, key: &str) -> (value: Option<&String>)
        ensures
            match value {
                Some(v) => self.value_of(key@) == Some(v@),
                None => self.value_of(key@) is None,
            },
    {
        let wanted = chars_of(key);
        let mut i: usize = self.entries.len();
        assert(self.entries@.take(i as int) =~= self.entries@);
        while i > 0
            invariant
                i <= self.entries@.len(),
                wanted@ == key@,
                setting(self.entries@, key@) == setting(self.entries@.take(i as int), key@),
            decreases i,
        {
            let have = chars_of(self.entries[i - 1].0.as_str());
            proof {
                let upto = self.entries@.take(i as int);
                assert(upto.drop_last() =~= self.entries@.take(i - 1));
            }
            if same_chars(have.as_slice(), wanted.as_slice()) {
                return Some(&self.entries[i - 1].1);
            }
            i -= 1;
        }
        None
    }
}

fn lookup<'a>(under: &'a Settings, over: &'a Settings, key: &str) -> (value: Option<&'a String>)
    ensures
        match value {
            Some(v) => layered(under.entries@, over.entries@, key@) == Some(v@),
            None => layered(under.entries@, over.entries@, key@) is None,
        },
{
    match over.get(key) {
        Some(v) => Some(v),
        None => under.get(key),
    }
}

fn require<'a>(under: &'a Settings, over: &'a Settings, key: &str) -> (value: Result<
    &'a String,
    ConfigError,
>)
    ensures
        match value {
            Ok(v) => layered(under.entries@, over.entries@, key@) == Some(v@),
            Err(e) => layered(under.entries@, over.entries@, key@) is None && (
            e matches ConfigError::Missing(k) && k@ == key@),
        },
{
    match lookup(under, over, key) {
        Some(v) => Ok(v),
        None => Err(ConfigError::Missing(String::from_str(key))),
    }
}

fn build(under: &Settings, over: &Settings) -> (r: Result<Config, ConfigError>)
    ensures
        configured(|key: Seq<char>| layered(under.entries@, over.entries@, key), r),
{
    let host = match lookup(under, over, "server.host") {
        Some(h) => h.clone(),
        None => default_host(),
    };
    let port = match lookup(under, over, "server.port") {
        Some(p) => match parse_port(p.as_str()) {
            Some(n) => n,
            None => {
                return Err(ConfigError::InvalidPort(p.clone()));
            },
        },
        None => default_port(),
    };
    let server = ServerConfig { host, port };
    let kind = match require(under, over, "backend.type") {
        Ok(k) => k,
        Err(e) => {
            return Err(e);
        },
    };
    if same_text(kind.as_str(), "local") {
        let root_path = match require(under, over, "backend.root_path") {
            Ok(v) => v.clone(),
            Err(e) => {
                return Err(e);
            },
        };
        let physical_bucket = match lookup(under, over, "backend.physical_bucket") {
            Some(b) => b.clone(),
            None => default_physical_bucket(),
        };
        Ok(Config { server, backend: BackendConfig::Local { root_path, physical_bucket } })
    } else if same_text(kind.as_str(), "s3") {
        let region = match require(under, over, "backend.region") {
            Ok(v) => v.clone(),
            Err(e) => {
                return Err(e);
            },
        };
        let physical_bucket = match require(under, over, "backend.physical_bucket") {
            Ok(v) => v.clone(),
            Err(e) => {
                return Err(e);
            },
        };
        let endpoint = match lookup(under, over, "backend.endpoint") {
            Some(v) => Some(v.clone()),
            None => None,
        };
        Ok(Config { server, backend: BackendConfig::S3 { region, physical_bucket, endpoint } })
    } else if same_text(kind.as_str(), "gcs") {
        let physical_bucket = match require(under, over, "backend.physical_bucket") {
            Ok(v) => v.clone(),
            Err(e) => {
                return Err(e);
            },
        };
        Ok(Config { server, backend: BackendConfig::Gcs { physical_bucket } })
    } else if same_text(kind.as_str(), "azure") {
        let account = match require(under, over, "backend.account") {
            Ok(v) => v.clone(),
            Err(e) => {
                return Err(e);
            },
        };
        let access_key = match require(under, over, "backend.access_key") {
            Ok(v) => v.clone(),
            Err(e) => {
                return Err(e);
            },
        };
        let physical_bucket = match require(under, over, "backend.physical_bucket") {
            Ok(v) => v.clone(),
            Err(e) => {
                return Err(e);
            },
        };
        Ok(
            Config {
                server,
                backend: BackendConfig::Azure { account, access_key, physical_bucket },
            },
        )
    } else {
        Err(ConfigError::UnknownBackend(kind.clone()))
    }
}

impl Config {
    /// The configuration that the settings of a file make together with
    /// those of the environment, which take precedence.
    pub fn from_file(file: &Settings, environment: &Settings) -> (r: Result<Config, ConfigError>)
        ensures
            configured(|key: Seq<char>| layered(file.entries@, environment.entries@, key), r),
    {
        build(file, environment)
    }

    /// The configuration that the settings of the environment make on
    /// their own.
    pub fn from_env(environment: &Settings) -> (r: Result<Config, ConfigError>)
        ensures
            configured(|key: Seq<char>| setting(environment.entries@, key), r),
    {
        let none = Settings::new();
        let r = build(&none, environment);
        r
    }
}

impl ConfigError {
    /// The text of this error.
    pub open spec fn message_text(self) -> Seq<char> {
        match self {
            ConfigError::Missing(key) => "missing setting: "@ + key@,
            ConfigError::InvalidPort(value) => "invalid port: "@ + value@,
            ConfigError::UnknownBackend(value) => "unknown backend type: "@ + value@,
        }
    }

    /// The human-readable message of this error.
    pub fn message(&self) -> (r: String)
        ensures
            r@ == self.message_text(),
    {
        match self {
            ConfigError::Missing(key) => join("missing setting: ", key.as_str()),
            ConfigError::InvalidPort(value) => join("invalid port: ", value.as_str()),
            ConfigError::UnknownBackend(value) => join("unknown backend type: ", value.as_str()),
        }
    }
}

} // verus!
