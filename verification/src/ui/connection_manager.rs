//! Connecting a tab to a host: the SSH configuration a host gives, the
//! status bar's view of a connection, and the steps before the connection
//! is made (which the owner performs).

use vstd::prelude::*;
use vstd::string::*;

use crate::entities::{AuthConfig, ConnectionError, ConnectionState, HostConfig};
use crate::text::owned;
use crate::ui::status_bar::{ConnectionStatus, StatusBar, StatusInfo};
use crate::ui::tab_manager::{TabId, TabManager};

verus! {

/// How the SSH connection authenticates, with secrets resolved.
#[derive(Debug)]
pub enum AuthMethod {
    Password(String),
    PublicKey { key_path: String, passphrase: Option<String> },
    Agent,
}

/// What an SSH connection is made with.
#[derive(Debug)]
pub struct SshConfig {
    pub host: String,
    pub port: u16,
    pub username: String,
    pub auth_method: AuthMethod,
    /// The remote terminal's initial size.
    pub term_cols: u16,
    pub term_rows: u16,
}

/// The secret reference that connecting to a host needs resolved: the
/// password reference, or the passphrase reference of a key that has one.
pub open spec fn secret_ref_of(a: AuthConfig) -> Option<String> {
    match a {
        AuthConfig::Password { password_ref } => Some(password_ref),
        AuthConfig::PublicKey { passphrase_ref, .. } => passphrase_ref,
        AuthConfig::Agent => None,
    }
}

/// The secret reference that connecting to a host needs resolved.
pub fn secret_ref(auth: &AuthConfig) -> (r: Option<&str>)
    ensures
        match r {
            Some(s) => secret_ref_of(*auth) matches Some(x) && x@ == s@,
            None => secret_ref_of(*auth) is None,
        },
{
    match auth {
        AuthConfig::Password { password_ref } => Some(password_ref.as_str()),
        AuthConfig::PublicKey { passphrase_ref, .. } => match passphrase_ref {
            Some(p) => Some(p.as_str()),
            None => None,
        },
        AuthConfig::Agent => None,
    }
}

/// The error of converting a host whose secret could not be used.
pub open spec fn conversion_error_of(a: AuthConfig, resolved: Option<Result<Option<String>, String>>) -> Option<(bool, Seq<char>)> {
    match a {
        AuthConfig::Password { .. } => match resolved {
            Some(Err(e)) => Some((true, "密码解析失败: "@ + e@)),
            Some(Ok(None)) => Some((false, "无法获取密码，请检查密码配置"@)),
            _ => None,
        },
        AuthConfig::PublicKey { .. } => match resolved {
            Some(Err(e)) => Some((true, "私钥密码解析失败: "@ + e@)),
            _ => None,
        },
        AuthConfig::Agent => None,
    }
}

/// The SSH configuration of `host`. `resolved` is what the secret store
/// said of `secret_ref_of` the host's authentication (present exactly
/// when there is such a reference): an error, nothing, or the secret. A
/// password that cannot be read is a configuration error, a password that
/// is not there an authentication error, a passphrase that cannot be read
/// a configuration error; otherwise the configuration carries the host's
/// address, port and user, the secret, and an 80×24 terminal.
pub fn convert_to_ssh_config(host: &HostConfig, resolved: Option<Result<Option<String>, String>>) -> (r: Result<SshConfig, ConnectionError>)
    requires
        (secret_ref_of(host.auth_config) is Some) == (resolved is Some),
    ensures
        match conversion_error_of(host.auth_config, resolved) {
            Some((true, msg)) => r matches Err(ConnectionError::Configuration(m)) && m@ == msg,
            Some((false, msg)) => r matches Err(ConnectionError::Authentication(m)) && m@ == msg,
            None => r matches Ok(c) && c.host == host.host && c.port == host.port && c.username == host.username
                && c.term_cols == 80 && c.term_rows == 24 && match host.auth_config {
                AuthConfig::Password { .. } => resolved matches Some(Ok(Some(p))) && c.auth_method == AuthMethod::Password(p),
                AuthConfig::PublicKey { key_path, passphrase_ref } => c.auth_method == (AuthMethod::PublicKey {
                    key_path,
                    passphrase: match resolved {
                        Some(Ok(x)) => x,
                        _ => None,
                    },
                }),
                AuthConfig::Agent => c.auth_method == AuthMethod::Agent,
            },
        },
{
    let auth_method = match &host.auth_config {
        AuthConfig::Password { .. } => match resolved {
            Some(Err(e)) => {
                let mut m = owned("密码解析失败: ");
                m.append(e.as_str());
                return Err(ConnectionError::Configuration(m));
            },
            Some(Ok(None)) => {
                return Err(ConnectionError::Authentication(owned("无法获取密码，请检查密码配置")));
            },
            Some(Ok(Some(p))) => AuthMethod::Password(p),
            None => {
                return Err(ConnectionError::Authentication(owned("无法获取密码，请检查密码配置")));
            },
        },
        AuthConfig::PublicKey { key_path, .. } => {
            let passphrase = match resolved {
                Some(Err(e)) => {
                    let mut m = owned("私钥密码解析失败: ");
                    m.append(e.as_str());
                    return Err(ConnectionError::Configuration(m));
                },
                Some(Ok(x)) => x,
                None => None,
            };
            AuthMethod::PublicKey { key_path: key_path.clone(), passphrase }
        },
        AuthConfig::Agent => AuthMethod::Agent,
    };
    Ok(
        SshConfig {
            host: host.host.clone(),
            port: host.port,
            username: host.username.clone(),
            auth_method,
            term_cols: 80,
            term_rows: 24,
        },
    )
}

/// How the status bar shows a connection's state: down when idle or
/// disconnected, up when connected, connecting in every state between.
pub open spec fn status_of(state: ConnectionState) -> ConnectionStatus {
    match state {
        ConnectionState::Idle | ConnectionState::Disconnected { .. } => ConnectionStatus::Disconnected,
        ConnectionState::Connected { .. } => ConnectionStatus::Connected,
        _ => ConnectionStatus::Connecting,
    }
}

/// How the status bar shows a connection's state.
pub fn status_for_state(state: ConnectionState) -> (r: ConnectionStatus)
    ensures
        r == status_of(state),
{
    match state {
        ConnectionState::Idle | ConnectionState::Disconnected { .. } => ConnectionStatus::Disconnected,
        ConnectionState::Connected { .. } => ConnectionStatus::Connected,
        ConnectionState::Connecting | ConnectionState::Authenticating | ConnectionState::Reconnecting { .. }
        | ConnectionState::Disconnecting => ConnectionStatus::Connecting,
    }
}

/// Brings the status bar in line with the connection's state; the answer
/// says whether it changed.
pub fn sync_status_bar_from_state(state: ConnectionState, status_bar: &mut StatusBar) -> (r: bool)
    ensures
        r == (old(status_bar).status_info.connection_status != status_of(state)),
        final(status_bar).status_info == (StatusInfo {
            connection_status: status_of(state),
            ..old(status_bar).status_info
        }),
{
    let expected = status_for_state(state);
    if status_bar.status_info().connection_status != expected {
        status_bar.set_connection_status(expected);
        true
    } else {
        false
    }
}

/// The steps before connecting `host` in tab `tab_id`: the tab becomes
/// active, and the status bar shows the host's user and address and a
/// connection under way. The owner then connects.
pub fn begin_connect(host: &HostConfig, tab_id: TabId, tab_manager: &mut TabManager, status_bar: &mut StatusBar) -> (r: bool)
    requires
        old(tab_manager).wf(),
    ensures
        final(tab_manager).wf(),
        r == old(tab_manager).ids_spec().contains(tab_id),
        r ==> TabManager::switched(*old(tab_manager), *final(tab_manager), tab_id),
        !r ==> *final(tab_manager) == *old(tab_manager),
        final(status_bar).status_info == (StatusInfo {
            connection_status: ConnectionStatus::Connecting,
            username: Some(host.username),
            hostname: Some(host.host),
            ..old(status_bar).status_info
        }),
{
    let r = tab_manager.switch_to_tab(tab_id);
    status_bar.set_connection_status(ConnectionStatus::Connecting);
    status_bar.set_user_host(Some(host.username.clone()), Some(host.host.clone()));
    r
}

/// The message of a failed connection to the host named `name`.
pub fn connect_error_message(name: &str, error: &str) -> (r: String)
    ensures
        r@ == "SSH 连接失败: "@ + name@ + " - "@ + error@,
{
    let mut m = owned("SSH 连接失败: ");
    m.append(name);
    m.append(" - ");
    m.append(error);
    m
}

} // verus!
