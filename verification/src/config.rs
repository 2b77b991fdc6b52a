//! Settings, where they are kept, and the key to the service.

use crate::paths::{expand_tilde, in_base, path_join, path_joined, tilde_expanded, under_base};
use crate::text;
use crate::text::trimmed;
use vstd::prelude::*;

verus! {

/// Default model: tool-calling capable. Model ids are retired from time to time,
/// so this is a starting point rather than a guarantee.
pub const DEFAULT_MODEL: &'static str = "glm-5-3";

pub struct Config {
    pub auth: AuthConfig,
    pub proxy: ProxyConfig,
    pub chat: ChatConfig,
    pub agent: AgentConfig,
}

pub struct AuthConfig {
    /// Path to a file containing the API key.
    pub key_file: Option<String>,
    /// Inline key. Discouraged; the file or the environment is preferred.
    pub api_key: Option<String>,
}

pub struct ProxyConfig {
    /// 0 = ephemeral port (default). Fixed port only if you want to share the
    /// proxy with other local tools.
    pub port: u16,
    pub pcr0_environment: String,
    pub backend_url: Option<String>,
}

pub struct ChatConfig {
    pub model: String,
}

pub struct AgentConfig {
    pub model: String,
    pub goose_path: Option<String>,
    /// Default working directory for agent sessions.
    pub cwd: String,
    /// Goose builtin extensions to enable; empty disables builtins.
    pub builtins: Vec<String>,
    pub mcp_servers: Vec<McpServerDecl>,
}

pub struct McpServerDecl {
    pub name: String,
    /// "stdio" or "http".
    pub transport: String,
    pub command: Option<String>,
    pub args: Vec<String>,
    pub url: Option<String>,
    /// Names and values, in ascending order of the names, none of them twice.
    pub env: Vec<(String, String)>,
}

pub struct McpServerModel {
    pub name: Seq<char>,
    pub transport: Seq<char>,
    pub command: Option<Seq<char>>,
    pub args: Seq<Seq<char>>,
    pub url: Option<Seq<char>>,
    pub env: Seq<(Seq<char>, Seq<char>)>,
}

impl DeepView for McpServerDecl {
    type V = McpServerModel;

    open spec fn deep_view(&self) -> McpServerModel {
        McpServerModel {
            name: self.name@,
            transport: self.transport@,
            command: self.command.deep_view(),
            args: self.args.deep_view(),
            url: self.url.deep_view(),
            env: self.env.deep_view(),
        }
    }
}

impl Default for AuthConfig {
    fn default() -> (c: Self)
        ensures
            c.key_file is None,
            c.api_key is None,
    {
        AuthConfig { key_file: None, api_key: None }
    }
}

impl Default for ProxyConfig {
    fn default() -> (c: Self)
        ensures
            c.port == 0,
            c.pcr0_environment@ == "production"@,
            c.backend_url is None,
    {
        ProxyConfig {
            port: 0,
            pcr0_environment: "production".to_string(),
            backend_url: None,
        }
    }
}

impl Default for ChatConfig {
    fn default() -> (c: Self)
        ensures
            c.model@ == DEFAULT_MODEL@,
    {
        ChatConfig { model: DEFAULT_MODEL.to_string() }
    }
}

impl Default for AgentConfig {
    fn default() -> (c: Self)
        ensures
            c.model@ == DEFAULT_MODEL@,
            c.goose_path is None,
            c.cwd@ == "."@,
            c.builtins.deep_view() == seq!["developer"@],
            c.mcp_servers.deep_view() == Seq::<McpServerModel>::empty(),
    {
        let c = AgentConfig {
            model: DEFAULT_MODEL.to_string(),
            goose_path: None,
            cwd: ".".to_string(),
            builtins: vec!["developer".to_string()],
            mcp_servers: Vec::new(),
        };
        assert(c.builtins.deep_view() =~= seq!["developer"@]);
        assert(c.mcp_servers.deep_view() =~= Seq::<McpServerModel>::empty());
        c
    }
}

impl Default for Config {
    fn default() -> (c: Self)
        ensures
            c.auth.key_file is None,
            c.auth.api_key is None,
            c.proxy.port == 0,
            c.proxy.pcr0_environment@ == "production"@,
            c.proxy.backend_url is None,
            c.chat.model@ == DEFAULT_MODEL@,
            c.agent.model@ == DEFAULT_MODEL@,
            c.agent.goose_path is None,
            c.agent.cwd@ == "."@,
            c.agent.builtins.deep_view() == seq!["developer"@],
            c.agent.mcp_servers.deep_view() == Seq::<McpServerModel>::empty(),
    {
        Config {
            auth: AuthConfig::default(),
            proxy: ProxyConfig::default(),
            chat: ChatConfig::default(),
            agent: AgentConfig::default(),
        }
    }
}

/// The transport of a server that names none.
pub fn default_transport() -> (r: String)
    ensures
        r@ == "stdio"@,
{
    "stdio".to_string()
}

/// Where the settings are kept.
pub fn config_dir(base: &Option<String>) -> (r: String)
    ensures
        r@ == under_base(base.deep_view(), "maple-tui"@),
{
    in_base(base, "maple-tui")
}

/// Where the sessions are kept.
pub fn data_dir(base: &Option<String>) -> (r: String)
    ensures
        r@ == under_base(base.deep_view(), "maple-tui"@),
{
    in_base(base, "maple-tui")
}

/// Where the logs are kept.
pub fn state_dir(base: &Option<String>) -> (r: String)
    ensures
        r@ == under_base(base.deep_view(), "maple-tui"@),
{
    in_base(base, "maple-tui")
}

/// The file that holds the settings.
pub fn config_file(config_dir: &str) -> (r: String)
    ensures
        r@ == path_joined(config_dir@, "config.toml"@),
{
    path_join(config_dir, "config.toml")
}

/// The file that holds the key, where no other is named.
pub fn default_key_file(config_dir: &str) -> (r: String)
    ensures
        r@ == path_joined(config_dir@, "api_key"@),
{
    path_join(config_dir, "api_key")
}

/// A key without white space around it, if there is anything to it.
pub open spec fn usable_key(text: Option<Seq<char>>) -> Option<Seq<char>> {
    match text {
        Some(t) => if trimmed(t).len() > 0 {
            Some(trimmed(t))
        } else {
            None
        },
        None => None,
    }
}

/// Whether others than the owner have any right to a file with these permissions.
pub open spec fn exposes(mode: u32) -> bool {
    mode & 0o077 != 0
}

/// Whether others than the owner have any right to a file with these permissions.
pub fn is_exposed(mode: u32) -> (r: bool)
    ensures
        r == exposes(mode),
{
    mode & 0o077 != 0
}

/// A key without white space around it, if there is anything to it.
pub fn key_in(text: &Option<String>) -> (r: Option<String>)
    ensures
        r.deep_view() == usable_key(text.deep_view()),
{
    match text {
        Some(t) => {
            let key = text::trim(t.as_str());
            if key.as_str().is_empty() {
                None
            } else {
                Some(key)
            }
        },
        None => None,
    }
}

/// The key to use: from the environment, or else from the file, or else from the
/// settings.
pub open spec fn resolved_key(
    env: Option<Seq<char>>,
    file: Option<Seq<char>>,
    inline: Option<Seq<char>>,
) -> Option<Seq<char>> {
    if usable_key(env) is Some {
        usable_key(env)
    } else if usable_key(file) is Some {
        usable_key(file)
    } else {
        usable_key(inline)
    }
}

impl Config {
    /// The file that the key is read from.
    pub fn key_file(&self, config_dir: &str, home: &Option<String>) -> (r: String)
        ensures
            r@ == match self.auth.key_file {
                Some(p) => tilde_expanded(p@, home.deep_view()),
                None => path_joined(config_dir@, "api_key"@),
            },
    {
        match &self.auth.key_file {
            Some(p) => expand_tilde(p.clone(), home),
            None => default_key_file(config_dir),
        }
    }

    /// Resolution order: environment > key file > inline key. `file` is the text
    /// of the key file, if it exists.
    pub fn resolve_api_key(
        &self,
        env: &Option<String>,
        file: &Option<String>,
        key_file: &str,
    ) -> (r: Result<String, String>)
        ensures
            match resolved_key(
                env.deep_view(),
                file.deep_view(),
                self.auth.api_key.deep_view(),
            ) {
                Some(key) => r is Ok && r->Ok_0@ == key,
                None => r is Err && r->Err_0@
                    == "no Maple API key found. Set $MAPLE_API_KEY, or write your key to "@
                    + key_file@
                    + " (chmod 600). Keys are created at https://trymaple.ai (Pro/Team/Max plans)."@,
            },
    {
        if let Some(key) = key_in(env) {
            return Ok(key);
        }
        if let Some(key) = key_in(file) {
            return Ok(key);
        }
        if let Some(key) = key_in(&self.auth.api_key) {
            return Ok(key);
        }
        Err(
            text::cat3(
                "no Maple API key found. Set $MAPLE_API_KEY, or write your key to ",
                key_file,
                " (chmod 600). Keys are created at https://trymaple.ai (Pro/Team/Max plans).",
            ),
        )
    }
}

} // verus!
