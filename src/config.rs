//! Application and account configuration.
use vstd::prelude::*;

use crate::client::XmppClientConfig;

verus! {

/// Where and how to reach the server of an account.
#[derive(Clone, Debug, PartialEq, Eq)]
pub struct ServerConfig {
    pub host: String,
    pub port: u16,
    pub use_tls: bool,
    pub accept_invalid_certs: bool,
}

impl Default for ServerConfig {
    fn default() -> (r: Self)
        ensures
            r.host@ == "localhost"@,
            r.port == 5222,
            r.use_tls,
            !r.accept_invalid_certs,
    {
        ServerConfig {
            host: String::from_str("localhost"),
            port: 5222,
            use_tls: true,
            accept_invalid_certs: false,
        }
    }
}

/// One configured account.
#[derive(Clone, Debug, PartialEq, Eq)]
pub struct AccountConfig {
    pub jid: String,
    pub password: String,
    pub resource: String,
    pub server: ServerConfig,
    pub auto_connect: bool,
    pub save_password: bool,
}

impl Default for AccountConfig {
    fn default() -> (r: Self)
        ensures
            r.jid@ == Seq::<char>::empty(),
            r.password@ == Seq::<char>::empty(),
            r.resource@ == "xmpp-client"@,
            r.server.host@ == "localhost"@,
            r.server.port == 5222,
            r.server.use_tls,
            !r.server.accept_invalid_certs,
            !r.auto_connect,
            !r.save_password,
    {
        AccountConfig {
            jid: String::new(),
            password: String::new(),
            resource: String::from_str("xmpp-client"),
            server: ServerConfig::default(),
            auto_connect: false,
            save_password: false,
        }
    }
}

/// The whole application configuration.
#[derive(Clone, Debug, PartialEq, Eq)]
pub struct AppConfig {
    pub accounts: Vec<AccountConfig>,
    pub default_account: Option<String>,
    pub log_level: String,
    pub theme: String,
    pub notification_enabled: bool,
    /// Directory received files are saved to.
    pub file_transfer_dir: String,
    /// Largest file accepted for transfer, in bytes.
    pub max_file_size: u64,
    pub message_history_limit: u32,
}

/// `base` joined with the path `part`, as a path join does on Unix: an
/// absolute `part` replaces `base`.
pub open spec fn path_join(base: Seq<char>, part: Seq<char>) -> Seq<char> {
    if part.len() > 0 && part[0] == '/' {
        part
    } else if base.len() == 0 || base.last() == '/' {
        base + part
    } else {
        base + seq!['/'] + part
    }
}

/// Joins the path `part` onto `base`; an absolute `part` replaces `base`.
pub fn join_path(base: &str, part: &str) -> (r: String)
    ensures
        r@ == path_join(base@, part@),
{
    proof {
        reveal_strlit("/");
        assert("/"@ =~= seq!['/']);
    }
    if part.unicode_len() > 0 && part.get_char(0) == '/' {
        return String::from_str(part);
    }
    let n = base.unicode_len();
    if n == 0 || base.get_char(n - 1) == '/' {
        String::from_str(base).concat(part)
    } else {
        String::from_str(base).concat("/").concat(part)
    }
}

/// The directory received files go to: the user's download directory, else
/// `Downloads` in the home directory, else `Downloads` relative to the
/// working directory.
pub open spec fn transfer_dir(download: Option<Seq<char>>, home: Option<Seq<char>>) -> Seq<char> {
    match download {
        Some(d) => d,
        None => match home {
            Some(h) => path_join(h, "Downloads"@),
            None => "Downloads"@,
        },
    }
}

/// Relies on `dirs::download_dir`: the user's download directory, where the
/// platform defines one.
#[verifier::external_body]
fn download_dir() -> (r: Option<String>) {
    dirs::download_dir().map(|p| p.to_string_lossy().into_owned())
}

/// Relies on `dirs::home_dir`: the user's home directory, where it is known.
#[verifier::external_body]
fn home_dir() -> (r: Option<String>) {
    dirs::home_dir().map(|p| p.to_string_lossy().into_owned())
}

impl AppConfig {
    /// The default configuration, given the user's download and home
    /// directories where they are known.
    pub fn with_dirs(download: Option<String>, home: Option<String>) -> (r: AppConfig)
        ensures
            r.accounts@.len() == 0,
            r.default_account is None,
            r.log_level@ == "info"@,
            r.theme@ == "default"@,
            r.notification_enabled,
            r.file_transfer_dir@ == transfer_dir(
                match download { Some(d) => Some(d@), None => None },
                match home { Some(h) => Some(h@), None => None },
            ),
            r.max_file_size == 100 * 1024 * 1024,
            r.message_history_limit == 1000,
    {
        proof {
            reveal_strlit("Downloads");
        }
        let dir = match download {
            Some(d) => d,
            None => match home {
                Some(h) => join_path(h.as_str(), "Downloads"),
                None => String::from_str("Downloads"),
            },
        };
        AppConfig {
            accounts: Vec::new(),
            default_account: None,
            log_level: String::from_str("info"),
            theme: String::from_str("default"),
            notification_enabled: true,
            file_transfer_dir: dir,
            max_file_size: 100 * 1024 * 1024,
            message_history_limit: 1000,
        }
    }
}

impl Default for AppConfig {
    fn default() -> (r: Self)
        ensures
            r.accounts@.len() == 0,
            r.default_account is None,
            r.log_level@ == "info"@,
            r.theme@ == "default"@,
            r.notification_enabled,
            r.max_file_size == 100 * 1024 * 1024,
            r.message_history_limit == 1000,
    {
        AppConfig::with_dirs(download_dir(), home_dir())
    }
}

/// Knows where the configuration file lives.
#[derive(Clone, Debug)]
pub struct ConfigManager {
    pub config_path: String,
}

/// The application's directory inside the user's configuration directory.
pub open spec fn app_config_dir(config_dir: Seq<char>) -> Seq<char> {
    path_join(config_dir, "xmpp-client"@)
}

/// The configuration file inside the user's configuration directory.
pub open spec fn config_file_path(config_dir: Seq<char>) -> Seq<char> {
    path_join(app_config_dir(config_dir), "config.toml"@)
}

impl ConfigManager {
    pub open spec fn path(&self) -> Seq<char> {
        self.config_path@
    }

    /// The application's directory inside the configuration directory
    /// `config_dir`; it must exist before the file is written.
    pub fn app_dir(config_dir: &str) -> (r: String)
        ensures
            r@ == app_config_dir(config_dir@),
    {
        proof {
            reveal_strlit("xmpp-client");
        }
        join_path(config_dir, "xmpp-client")
    }

    /// A manager for the configuration file in the user's configuration
    /// directory `config_dir`.
    pub fn in_config_dir(config_dir: &str) -> (r: ConfigManager)
        ensures
            r.path() == config_file_path(config_dir@),
    {
        proof {
            reveal_strlit("config.toml");
        }
        let dir = ConfigManager::app_dir(config_dir);
        ConfigManager { config_path: join_path(dir.as_str(), "config.toml") }
    }

    /// The path of the configuration file.
    pub fn config_path(&self) -> (r: &str)
        ensures
            r@ == self.path(),
    {
        self.config_path.as_str()
    }
}

/// The client configuration of an account: its identity and server, with
/// reconnection on, at most 5 attempts, 10 seconds apart.
impl vstd::std_specs::convert::FromSpecImpl<AccountConfig> for XmppClientConfig {
    open spec fn obeys_from_spec() -> bool {
        true
    }

    open spec fn from_spec(a: AccountConfig) -> XmppClientConfig {
        XmppClientConfig {
            jid: a.jid,
            password: a.password,
            resource: a.resource,
            server_host: a.server.host,
            server_port: a.server.port,
            use_tls: a.server.use_tls,
            accept_invalid_certs: a.server.accept_invalid_certs,
            auto_reconnect: true,
            max_reconnect_attempts: 5,
            reconnect_delay_secs: 10,
        }
    }
}

impl From<AccountConfig> for XmppClientConfig {
    fn from(account: AccountConfig) -> XmppClientConfig {
        XmppClientConfig {
            jid: account.jid,
            password: account.password,
            resource: account.resource,
            server_host: account.server.host,
            server_port: account.server.port,
            use_tls: account.server.use_tls,
            accept_invalid_certs: account.server.accept_invalid_certs,
            auto_reconnect: true,
            max_reconnect_attempts: 5,
            reconnect_delay_secs: 10,
        }
    }
}

} // verus!
