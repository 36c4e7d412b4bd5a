//! Host configuration records that the dialogs, tabs and panes read.

use vstd::prelude::*;
use vstd::string::*;

verus! {

/// Database identifier of a stored host.
pub type HostId = i64;

/// Identifier of an established session.
pub type SessionId = u64;

/// The default SSH port.
pub const DEFAULT_SSH_PORT: u16 = 22;

/// How a host authenticates.
#[derive(Debug)]
pub enum AuthConfig {
    /// Password authentication; the password itself lives in a secret
    /// store and is named by this reference.
    Password { password_ref: String },
    /// Public key authentication with an optional passphrase reference.
    PublicKey { key_path: String, passphrase_ref: Option<String> },
    /// Authentication through the SSH agent.
    Agent,
}

impl AuthConfig {
    /// Password authentication with the given reference.
    pub fn password(password_ref: String) -> (r: AuthConfig)
        ensures
            r == (AuthConfig::Password { password_ref }),
    {
        AuthConfig::Password { password_ref }
    }

    /// Public key authentication.
    pub fn public_key(key_path: String, passphrase_ref: Option<String>) -> (r: AuthConfig)
        ensures
            r == (AuthConfig::PublicKey { key_path, passphrase_ref }),
    {
        AuthConfig::PublicKey { key_path, passphrase_ref }
    }

    /// Agent authentication.
    pub fn agent() -> (r: AuthConfig)
        ensures
            r == AuthConfig::Agent,
    {
        AuthConfig::Agent
    }
}

impl Clone for AuthConfig {
    fn clone(&self) -> (r: Self)
        ensures
            r == *self,
    {
        match self {
            AuthConfig::Password { password_ref } => AuthConfig::Password {
                password_ref: password_ref.clone(),
            },
            AuthConfig::PublicKey { key_path, passphrase_ref } => AuthConfig::PublicKey {
                key_path: key_path.clone(),
                passphrase_ref: clone_opt_string(passphrase_ref),
            },
            AuthConfig::Agent => AuthConfig::Agent,
        }
    }
}

/// A copy of an optional string.
pub fn clone_opt_string(s: &Option<String>) -> (r: Option<String>)
    ensures
        r == *s,
{
    match s {
        Some(v) => Some(v.clone()),
        None => None,
    }
}

/// A stored SSH host.
#[derive(Debug)]
pub struct HostConfig {
    /// Database id, once stored.
    pub id: Option<HostId>,
    /// Display name.
    pub name: String,
    /// Address of the host.
    pub host: String,
    /// SSH port.
    pub port: u16,
    /// Login name.
    pub username: String,
    /// Authentication.
    pub auth_config: AuthConfig,
    /// Optional group for the host list.
    pub group: Option<String>,
    /// Optional free text.
    pub description: Option<String>,
}

impl HostConfig {
    /// A new, not yet stored host on the default SSH port.
    pub fn new(name: String, host: String, username: String, auth_config: AuthConfig) -> (r: HostConfig)
        ensures
            r.id is None,
            r.name == name,
            r.host == host,
            r.username == username,
            r.auth_config == auth_config,
            r.port == DEFAULT_SSH_PORT,
            r.group is None,
            r.description is None,
    {
        HostConfig {
            id: None,
            name,
            host,
            port: DEFAULT_SSH_PORT,
            username,
            auth_config,
            group: None,
            description: None,
        }
    }

    /// `user@host` as tabs and panes title a connection.
    pub fn user_at_host(&self) -> (r: String)
        ensures
            r@ == self.username@ + "@"@ + self.host@,
    {
        let mut s = self.username.clone();
        s.append("@");
        s.append(self.host.as_str());
        s
    }
}

impl Clone for HostConfig {
    fn clone(&self) -> (r: Self)
        ensures
            r == *self,
    {
        HostConfig {
            id: self.id,
            name: self.name.clone(),
            host: self.host.clone(),
            port: self.port,
            username: self.username.clone(),
            auth_config: self.auth_config.clone(),
            group: clone_opt_string(&self.group),
            description: clone_opt_string(&self.description),
        }
    }
}

/// Why a connection ended.
#[derive(Debug, Clone, Copy, PartialEq, Eq, Structural)]
pub enum DisconnectReason {
    /// The user closed it.
    UserInitiated,
    /// The server closed it.
    ServerClosed,
    /// The network failed.
    NetworkError,
}

/// Where a terminal connection stands.
#[derive(Debug, Clone, Copy, PartialEq, Eq, Structural)]
pub enum ConnectionState {
    /// Never connected.
    Idle,
    Connecting,
    Authenticating,
    /// Connected since the given time, in milliseconds on the owner's clock.
    Connected { connected_at_ms: u64 },
    /// Trying again, the given attempt.
    Reconnecting { attempt: u32 },
    Disconnecting,
    Disconnected { reason: DisconnectReason },
}

impl ConnectionState {
    /// Whether the connection is up.
    pub open spec fn active(self) -> bool {
        self is Connected
    }

    /// Whether the connection is up.
    pub fn is_active(&self) -> (r: bool)
        ensures
            r == self.active(),
    {
        match self {
            ConnectionState::Connected { .. } => true,
            _ => false,
        }
    }
}

/// Why a connection operation failed.
#[derive(Debug)]
pub enum ConnectionError {
    /// There is no connection.
    Disconnected,
    /// The configuration is unusable.
    Configuration(String),
    /// Authentication cannot proceed.
    Authentication(String),
    /// The transport failed.
    Io(String),
}

/// The size of a terminal.
#[derive(Debug, Clone, Copy, PartialEq, Eq, Structural)]
pub struct TerminalSize {
    pub rows: u16,
    pub cols: u16,
}

impl TerminalSize {
    /// `rows` × `cols`.
    pub fn new(rows: u16, cols: u16) -> (r: TerminalSize)
        ensures
            r == (TerminalSize { rows, cols }),
    {
        TerminalSize { rows, cols }
    }
}

} // verus!
