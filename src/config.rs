use std::collections::HashMap;
use vstd::prelude::*;

verus! {

/// A backend to launch: its unique name, the command with its arguments,
/// extra environment variables, and whether it is used.
#[derive(Debug, Clone)]
pub struct McpServerConfig {
    pub name: String,
    pub command: String,
    pub args: Vec<String>,
    pub env: HashMap<String, String>,
    pub enabled: bool,
}

/// Global settings.
#[derive(Debug, Clone)]
pub struct Settings {
    /// Log level (trace, debug, info, warn, error).
    pub log_level: String,
    /// Port of the HTTP front-end.
    pub daemon_port: u16,
}

/// The stored configuration: settings and the list of backends.
#[derive(Debug, Clone)]
pub struct Config {
    pub settings: Settings,
    pub servers: Vec<McpServerConfig>,
}

/// A backend entry in the desktop client's JSON configuration.
#[derive(Debug, Clone)]
pub struct ClaudeDesktopServer {
    pub command: String,
    pub args: Vec<String>,
    pub env: HashMap<String, String>,
}

/// The desktop client's JSON configuration: backends by name.
#[derive(Debug, Clone)]
pub struct ClaudeDesktopConfig {
    pub mcp_servers: HashMap<String, ClaudeDesktopServer>,
}

/// Why an operation on the configuration failed.
#[derive(Debug, Clone)]
pub enum ConfigError {
    /// The configuration file could not be read or written.
    ReadError(String),
    /// The stored TOML could not be parsed.
    TomlParseError(String),
    /// The configuration could not be written as TOML.
    TomlSerializeError(String),
    /// An imported JSON file could not be parsed.
    JsonParseError(String),
    /// The platform has no configuration directory.
    ConfigDirNotFound,
    /// A backend of that name is already configured.
    ServerExists(String),
    /// No backend of that name is configured.
    ServerNotFound(String),
}

/// The default log level.
pub open spec fn spec_default_log_level() -> Seq<char> {
    seq!['i', 'n', 'f', 'o']
}

/// The default log level, `info`.
pub fn default_log_level() -> (r: String)
    ensures
        r@ == spec_default_log_level(),
{
    proof {
        reveal_strlit("info");
    }
    "info".to_owned()
}

/// The default port of the HTTP front-end, 3000.
pub fn default_daemon_port() -> (r: u16)
    ensures
        r == 3000,
{
    3000
}

/// Backends are enabled unless the configuration says otherwise.
pub fn default_enabled() -> (r: bool)
    ensures
        r,
{
    true
}

impl Default for Settings {
    fn default() -> (r: Self)
        ensures
            r.log_level@ == spec_default_log_level(),
            r.daemon_port == 3000,
    {
        Settings { log_level: default_log_level(), daemon_port: default_daemon_port() }
    }
}

impl Default for Config {
    fn default() -> (r: Self)
        ensures
            r.settings.log_level@ == spec_default_log_level(),
            r.settings.daemon_port == 3000,
            r.servers@.len() == 0,
    {
        Config { settings: Settings::default(), servers: Vec::new() }
    }
}

impl McpServerConfig {
    /// An enabled backend with no arguments and no extra environment.
    pub fn new(name: &str, command: &str) -> (r: Self)
        ensures
            r.name@ == name@,
            r.command@ == command@,
            r.args@.len() == 0,
            r.env@ == Map::<String, String>::empty(),
            r.enabled,
    {
        McpServerConfig {
            name: name.to_owned(),
            command: command.to_owned(),
            args: Vec::new(),
            env: HashMap::new(),
            enabled: true,
        }
    }

    /// The same backend with `args` as its arguments.
    pub fn with_args(self, args: Vec<String>) -> (r: Self)
        ensures
            r.args == args,
            r.name == self.name,
            r.command == self.command,
            r.env == self.env,
            r.enabled == self.enabled,
    {
        let mut s = self;
        s.args = args;
        s
    }

    /// The same backend with `env` as its extra environment.
    pub fn with_env(self, env: HashMap<String, String>) -> (r: Self)
        ensures
            r.env == env,
            r.name == self.name,
            r.command == self.command,
            r.args == self.args,
            r.enabled == self.enabled,
    {
        let mut s = self;
        s.env = env;
        s
    }

    /// An enabled backend named `name` from a desktop client's entry.
    pub fn from_desktop(name: String, server: ClaudeDesktopServer) -> (r: Self)
        ensures
            r.name == name,
            r.command == server.command,
            r.args == server.args,
            r.env == server.env,
            r.enabled,
    {
        McpServerConfig {
            name,
            command: server.command,
            args: server.args,
            env: server.env,
            enabled: true,
        }
    }
}

/// The names of the configured backends, in order.
pub open spec fn server_names(servers: Seq<McpServerConfig>) -> Seq<Seq<char>> {
    servers.map_values(|s: McpServerConfig| s.name@)
}

fn find_server(servers: &Vec<McpServerConfig>, name: &str) -> (r: Option<usize>)
    ensures
        match r {
            Some(i) => i < servers@.len() && servers@[i as int].name@ == name@ && forall|j: int|
                0 <= j < i ==> servers@[j].name@ != name@,
            None => !server_names(servers@).contains(name@),
        },
{
    let key = name.to_owned();
    let mut i: usize = 0;
    while i < servers.len()
        invariant
            i <= servers@.len(),
            key@ == name@,
            forall|j: int| 0 <= j < i ==> servers@[j].name@ != name@,
        decreases servers@.len() - i,
    {
        if servers[i].name == key {
            return Some(i);
        }
        i = i + 1;
    }
    assert forall|j: int| 0 <= j < server_names(servers@).len() implies server_names(servers@)[j]
        != name@ by {
        assert(servers@[j].name@ != name@);
    }
    None
}

/// Appends `server` to the configuration, unless a backend of its name is
/// already there.
pub fn add_server(config: &mut Config, server: McpServerConfig) -> (r: Result<(), ConfigError>)
    ensures
        server_names(old(config).servers@).contains(server.name@) <==> r is Err,
        match r {
            Ok(()) => final(config).servers@ == old(config).servers@.push(server),
            Err(e) => e matches ConfigError::ServerExists(n) && n == server.name && *final(config)
                == *old(config),
        },
        final(config).settings == old(config).settings,
{
    match find_server(&config.servers, server.name.as_str()) {
        Some(i) => {
            assert(server_names(config.servers@)[i as int] == server.name@);
            Err(ConfigError::ServerExists(server.name))
        },
        None => {
            config.servers.push(server);
            Ok(())
        },
    }
}

/// Removes the backend named `name` from the configuration and hands it back.
pub fn remove_server(config: &mut Config, name: &str) -> (r: Result<McpServerConfig, ConfigError>)
    ensures
        server_names(old(config).servers@).contains(name@) <==> r is Ok,
        match r {
            Ok(s) => exists|i: int|
                0 <= i < old(config).servers@.len() && s == old(config).servers@[i]
                    && s.name@ == name@ && (forall|j: int|
                    0 <= j < i ==> old(config).servers@[j].name@ != name@)
                    && final(config).servers@ == old(config).servers@.remove(i),
            Err(e) => e matches ConfigError::ServerNotFound(n) && n@ == name@ && *final(config)
                == *old(config),
        },
        final(config).settings == old(config).settings,
{
    match find_server(&config.servers, name) {
        Some(i) => {
            assert(server_names(config.servers@)[i as int] == name@);
            Ok(config.servers.remove(i))
        },
        None => Err(ConfigError::ServerNotFound(name.to_owned())),
    }
}

/// The enabled backends, in configuration order.
pub fn enabled_servers(config: &Config) -> (r: Vec<&McpServerConfig>)
    ensures
        r@.map_values(|s: &McpServerConfig| *s) == config.servers@.filter(
            |s: McpServerConfig| s.enabled,
        ),
{
    let mut r: Vec<&McpServerConfig> = Vec::new();
    let mut i: usize = 0;
    while i < config.servers.len()
        invariant
            i <= config.servers@.len(),
            r@.map_values(|s: &McpServerConfig| *s) == config.servers@.take(i as int).filter(
                |s: McpServerConfig| s.enabled,
            ),
        decreases config.servers@.len() - i,
    {
        let s = &config.servers[i];
        let ghost prev = r@;
        assert(config.servers@.take(i + 1).drop_last() =~= config.servers@.take(i as int));
        assert(config.servers@.take(i + 1).last() == *s);
        reveal(Seq::filter);
        assert(config.servers@.take(i + 1).filter(|s: McpServerConfig| s.enabled) == if s.enabled {
            config.servers@.take(i as int).filter(|s: McpServerConfig| s.enabled).push(*s)
        } else {
            config.servers@.take(i as int).filter(|s: McpServerConfig| s.enabled)
        });
        if s.enabled {
            r.push(s);
            assert(r@.map_values(|s: &McpServerConfig| *s) =~= prev.map_values(
                |s: &McpServerConfig| *s,
            ).push(*s));
        }
        i = i + 1;
    }
    assert(config.servers@.take(i as int) =~= config.servers@);
    r
}

/// Joins two path components with `/`, as a path join does on Unix.
pub open spec fn path_join(base: Seq<char>, part: Seq<char>) -> Seq<char> {
    if base.len() == 0 {
        part
    } else if base.last() == '/' {
        base + part
    } else {
        base + seq!['/'] + part
    }
}

/// The directory, under the platform's configuration directory, that holds
/// this bridge's files.
pub open spec fn spec_config_dir(base: Seq<char>) -> Seq<char> {
    path_join(base, seq!['m', 'c', 'p', '-', 'b', 'r', 'i', 'd', 'g', 'e'])
}

/// The configuration file under the platform's configuration directory.
pub open spec fn spec_config_path(base: Seq<char>) -> Seq<char> {
    path_join(
        spec_config_dir(base),
        seq!['c', 'o', 'n', 'f', 'i', 'g', '.', 't', 'o', 'm', 'l'],
    )
}

fn join_path(base: &str, part: &str) -> (r: String)
    ensures
        r@ == path_join(base@, part@),
{
    let n = base.unicode_len();
    if n == 0 {
        return part.to_owned();
    }
    let mut r = base.to_owned();
    if base.get_char(n - 1) != '/' {
        r.append("/");
        proof {
            reveal_strlit("/");
        }
    }
    r.append(part);
    r
}

/// This bridge's directory under `base`, the platform's configuration
/// directory; fails when the platform has none.
pub fn config_dir(base: Option<String>) -> (r: Result<String, ConfigError>)
    ensures
        match base {
            Some(b) => r matches Ok(p) && p@ == spec_config_dir(b@),
            None => r matches Err(ConfigError::ConfigDirNotFound),
        },
{
    match base {
        Some(b) => {
            proof {
                reveal_strlit("mcp-bridge");
            }
            Ok(join_path(b.as_str(), "mcp-bridge"))
        },
        None => Err(ConfigError::ConfigDirNotFound),
    }
}

/// The configuration file under `base`, the platform's configuration
/// directory; fails when the platform has none.
pub fn config_path(base: Option<String>) -> (r: Result<String, ConfigError>)
    ensures
        match base {
            Some(b) => r matches Ok(p) && p@ == spec_config_path(b@),
            None => r matches Err(ConfigError::ConfigDirNotFound),
        },
{
    match config_dir(base) {
        Ok(d) => {
            proof {
                reveal_strlit("config.toml");
            }
            Ok(join_path(d.as_str(), "config.toml"))
        },
        Err(e) => Err(e),
    }
}

} // verus!
