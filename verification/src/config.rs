use vstd::prelude::*;

use crate::yaml::ValueRep;
use crate::yaml::parse_yaml;
use crate::yaml::value_as_str;
use crate::yaml::value_as_u64;
use crate::yaml::value_get;
use crate::yaml::value_is_object;
use crate::yaml::value_rep;
use crate::yaml::yaml_value_of;

verus! {

/// Host every interface listens on unless the file says otherwise.
pub fn default_host() -> (r: String)
    ensures
        r@ == "0.0.0.0"@,
{
    String::from_str("0.0.0.0")
}

/// Port the service listens on unless the file or the CLI says otherwise.
pub fn default_port() -> (r: u16)
    ensures
        r == 8080,
{
    8080
}

/// Request timeout in seconds unless the file says otherwise; a knob
/// reserved for a future timeout feature, nothing enforces it yet.
pub fn default_timeout() -> (r: u64)
    ensures
        r == 30,
{
    30
}

/// The listener settings of the service.
#[derive(Debug, Clone)]
pub struct ServerConfig {
    pub host: String,
    pub port: u16,
    pub request_timeout: u64,
}

/// The whole resolved configuration: one `server` section.
#[derive(Debug, Clone)]
pub struct Config {
    pub server: ServerConfig,
}

/// Mathematical shape of a resolved configuration.
pub ghost struct ConfigModel {
    pub host: Seq<char>,
    pub port: u16,
    pub request_timeout: u64,
}

impl View for ServerConfig {
    type V = ConfigModel;

    open spec fn view(&self) -> ConfigModel {
        ConfigModel { host: self.host@, port: self.port, request_timeout: self.request_timeout }
    }
}

impl View for Config {
    type V = ConfigModel;

    open spec fn view(&self) -> ConfigModel {
        self.server@
    }
}

/// The configuration every field of which is at its built-in default.
pub open spec fn default_model() -> ConfigModel {
    ConfigModel { host: "0.0.0.0"@, port: 8080, request_timeout: 30 }
}

impl Default for ServerConfig {
    /// All-defaults settings: what a missing file and an empty section yield.
    fn default() -> (r: Self)
        ensures
            r@ == default_model(),
    {
        ServerConfig { host: default_host(), port: default_port(), request_timeout: default_timeout() }
    }
}

impl Default for Config {
    /// All-defaults configuration.
    fn default() -> (r: Self)
        ensures
            r@ == default_model(),
    {
        Config { server: ServerConfig::default() }
    }
}

/// Why loading the configuration failed; each variant carries a description
/// of the underlying cause.
#[derive(Debug)]
pub enum ConfigError {
    /// The file exists but could not be read.
    Io(String),
    /// The file was read but is not a well-formed configuration document.
    Yaml(String),
}

impl ConfigError {
    /// Diagnostic line for the operator, naming the failed step and the cause.
    pub fn message(&self) -> (r: String)
        ensures
            self matches ConfigError::Io(c) ==> r@ == "failed to read config file: "@ + c@,
            self matches ConfigError::Yaml(c) ==> r@ == "failed to parse config file: "@ + c@,
    {
        match self {
            ConfigError::Io(c) => {
                let mut s = String::from_str("failed to read config file: ");
                s.append(c.as_str());
                s
            },
            ConfigError::Yaml(c) => {
                let mut s = String::from_str("failed to parse config file: ");
                s.append(c.as_str());
                s
            },
        }
    }
}

/// Outcome of the bootstrap's attempt to read the configuration file.  The
/// read itself is filesystem I/O and stays outside the library; `Config::load`
/// takes its outcome and decides everything else.
pub enum ConfigSource {
    /// No file exists at the path.
    Missing,
    /// A file exists but reading it failed; the cause's description.
    Unreadable(String),
    /// The file's text.
    Text(String),
}

/// What the `host` field of the server section resolves to: the field's
/// string where present, the default where absent, an error on any other
/// shape.
pub open spec fn resolve_host(sm: Map<Seq<char>, ValueRep>) -> Result<Seq<char>, ()> {
    if !sm.contains_key("host"@) {
        Ok("0.0.0.0"@)
    } else {
        match sm["host"@] {
            ValueRep::Str(s) => Ok(s),
            _ => Err(()),
        }
    }
}

/// What the `port` field resolves to: an integer in 0..=65535 where present,
/// the default where absent, an error otherwise.
pub open spec fn resolve_port(sm: Map<Seq<char>, ValueRep>) -> Result<u16, ()> {
    if !sm.contains_key("port"@) {
        Ok(8080u16)
    } else {
        match sm["port"@] {
            ValueRep::Int(n) => if 0 <= n <= 65535 {
                Ok(n as u16)
            } else {
                Err(())
            },
            _ => Err(()),
        }
    }
}

/// What the `request_timeout` field resolves to: a nonnegative integer that
/// fits in u64 where present, the default where absent, an error otherwise.
pub open spec fn resolve_timeout(sm: Map<Seq<char>, ValueRep>) -> Result<u64, ()> {
    if !sm.contains_key("request_timeout"@) {
        Ok(30u64)
    } else {
        match sm["request_timeout"@] {
            ValueRep::Int(n) => if 0 <= n <= u64::MAX {
                Ok(n as u64)
            } else {
                Err(())
            },
            _ => Err(()),
        }
    }
}

/// What a whole parsed document resolves to.  The document must be a
/// mapping; a missing `server` key yields the all-defaults configuration; a
/// present `server` key must hold a mapping, whose known fields resolve
/// per-field and whose unknown fields are ignored.
pub open spec fn resolve_model(doc: ValueRep) -> Result<ConfigModel, ()> {
    match doc {
        ValueRep::Obj(m) => if !m.contains_key("server"@) {
            Ok(default_model())
        } else {
            match m["server"@] {
                ValueRep::Obj(sm) => if resolve_host(sm) is Err || resolve_port(sm) is Err
                    || resolve_timeout(sm) is Err {
                    Err(())
                } else {
                    Ok(
                        ConfigModel {
                            host: resolve_host(sm)->Ok_0,
                            port: resolve_port(sm)->Ok_0,
                            request_timeout: resolve_timeout(sm)->Ok_0,
                        },
                    )
                },
                _ => Err(()),
            }
        },
        _ => Err(()),
    }
}

/// Walks a parsed document and resolves it exactly as `resolve_model` says.
fn resolve_doc(v: &serde_json::Value) -> (r: Result<Config, ()>)
    ensures
        r is Err <==> resolve_model(value_rep(*v)) is Err,
        r matches Ok(c) ==> (resolve_model(value_rep(*v)) matches Ok(m) && c@ == m),
{
    if !value_is_object(v) {
        return Err(());
    }
    match value_get(v, "server") {
        None => Ok(Config { server: ServerConfig::default() }),
        Some(sv) => {
            if !value_is_object(sv) {
                return Err(());
            }
            let host: String = match value_get(sv, "host") {
                None => default_host(),
                Some(hv) => match value_as_str(hv) {
                    Some(s) => s,
                    None => {
                        return Err(());
                    },
                },
            };
            let port: u16 = match value_get(sv, "port") {
                None => default_port(),
                Some(pv) => match value_as_u64(pv) {
                    Some(u) => if u <= 65535 {
                        u as u16
                    } else {
                        return Err(());
                    },
                    None => {
                        return Err(());
                    },
                },
            };
            let request_timeout: u64 = match value_get(sv, "request_timeout") {
                None => default_timeout(),
                Some(tv) => match value_as_u64(tv) {
                    Some(u) => u,
                    None => {
                        return Err(());
                    },
                },
            };
            Ok(Config { server: ServerConfig { host, port, request_timeout } })
        },
    }
}

impl Config {
    /// Resolves the configuration from the outcome of the file read.  A
    /// missing file is success with pure defaults; a failed read is an I/O
    /// error; text is parsed as one YAML document and resolved per-field,
    /// and any malformed or ill-shaped document is a parse error — never a
    /// silent fall-back to defaults.
    pub fn load(source: ConfigSource) -> (r: Result<Config, ConfigError>)
        ensures
            source is Missing ==> (r matches Ok(c) && c@ == default_model()),
            source matches ConfigSource::Unreadable(m) ==> (r matches Err(e) && e matches
                ConfigError::Io(c) && c@ == m@),
            source matches ConfigSource::Text(s) ==> match yaml_value_of(s@) {
                None => r matches Err(e) && e is Yaml,
                Some(rep) => match resolve_model(rep) {
                    Ok(cm) => r matches Ok(c) && c@ == cm,
                    Err(_) => r matches Err(e) && e is Yaml,
                },
            },
    {
        match source {
            ConfigSource::Missing => Ok(Config::default()),
            ConfigSource::Unreadable(m) => Err(ConfigError::Io(m)),
            ConfigSource::Text(s) => match parse_yaml(s.as_str()) {
                Err(e) => Err(ConfigError::Yaml(e)),
                Ok(v) => match resolve_doc(&v) {
                    Ok(c) => Ok(c),
                    Err(_) => Err(
                        ConfigError::Yaml(String::from_str("invalid configuration document")),
                    ),
                },
            },
        }
    }

    /// Applies the CLI override: an explicitly supplied port replaces
    /// whatever the file or the defaults resolved; everything else stands.
    pub fn apply_port_override(&mut self, port: Option<u16>)
        ensures
            final(self)@.host == old(self)@.host,
            final(self)@.request_timeout == old(self)@.request_timeout,
            final(self)@.port == overridden_port(old(self)@.port, port),
    {
        match port {
            Some(p) => {
                self.server.port = p;
            },
            None => {},
        }
    }
}

/// The port that stands after the CLI override is applied to a resolved one.
pub open spec fn overridden_port(resolved: u16, cli: Option<u16>) -> u16 {
    match cli {
        Some(p) => p,
        None => resolved,
    }
}

/// The per-field defaulting law: a server section that omits a field yields
/// that field's built-in default, whatever else the section holds.
pub proof fn lemma_per_field_defaults(sm: Map<Seq<char>, ValueRep>)
    ensures
        !sm.contains_key("host"@) ==> resolve_host(sm) == Ok::<Seq<char>, ()>("0.0.0.0"@),
        !sm.contains_key("port"@) ==> resolve_port(sm) == Ok::<u16, ()>(8080u16),
        !sm.contains_key("request_timeout"@) ==> resolve_timeout(sm) == Ok::<u64, ()>(30u64),
{
}

/// The port precedence law: an explicit CLI value always wins; without one
/// the file's value wins; with neither, the built-in default stands.
pub proof fn lemma_port_precedence(sm: Map<Seq<char>, ValueRep>, cli: Option<u16>)
    requires
        resolve_port(sm) is Ok,
    ensures
        cli matches Some(p) ==> overridden_port(resolve_port(sm)->Ok_0, cli) == p,
        cli is None && sm.contains_key("port"@) ==> (sm["port"@] matches ValueRep::Int(n)
            ==> overridden_port(resolve_port(sm)->Ok_0, cli) == n),
        cli is None && !sm.contains_key("port"@) ==> overridden_port(
            resolve_port(sm)->Ok_0,
            cli,
        ) == 8080,
{
}

} // verus!
