//! Confirming the key of an unknown SSH host.

use vstd::prelude::*;
use vstd::string::*;

use crate::text::{decimal, owned, push_decimal};

verus! {

/// The key an SSH host presented.
#[derive(Debug)]
pub struct HostKeyInfo {
    pub hostname: String,
    pub port: u16,
    /// The key algorithm, `ssh-ed25519` for instance.
    pub key_type: String,
    /// The key's fingerprint, `SHA256:...`.
    pub fingerprint: String,
}

/// How the host is named to the user: its name, with `:port` unless the
/// port is 22.
pub open spec fn host_address(hostname: Seq<char>, port: u16) -> Seq<char> {
    if port == 22 {
        hostname
    } else {
        hostname + ":"@ + decimal(port as nat)
    }
}

impl HostKeyInfo {
    /// The key of `hostname:port`.
    pub fn new(hostname: String, port: u16, key_type: String, fingerprint: String) -> (r: HostKeyInfo)
        ensures
            r == (HostKeyInfo { hostname, port, key_type, fingerprint }),
    {
        HostKeyInfo { hostname, port, key_type, fingerprint }
    }

    /// How the host is named to the user.
    pub fn display_address(&self) -> (r: String)
        ensures
            r@ == host_address(self.hostname@, self.port),
    {
        if self.port == 22 {
            self.hostname.clone()
        } else {
            let mut s = self.hostname.clone();
            s.append(":");
            push_decimal(&mut s, self.port as u64);
            s
        }
    }
}

impl Clone for HostKeyInfo {
    fn clone(&self) -> (r: Self)
        ensures
            r == *self,
    {
        HostKeyInfo {
            hostname: self.hostname.clone(),
            port: self.port,
            key_type: self.key_type.clone(),
            fingerprint: self.fingerprint.clone(),
        }
    }
}

/// The user's answer.
#[derive(Debug, Clone, Copy, PartialEq, Eq, Structural)]
pub enum HostKeyResponse {
    Accept,
    Reject,
    /// Not answered yet.
    Pending,
}

impl Default for HostKeyResponse {
    fn default() -> (r: Self)
        ensures
            r == HostKeyResponse::Pending,
    {
        HostKeyResponse::Pending
    }
}

/// The host key dialog's state. The owner runs its answer callback with
/// what `do_accept` and `do_reject` return.
pub struct HostKeyDialog {
    pub host_key_info: HostKeyInfo,
    pub response: HostKeyResponse,
    /// Whether the host goes into `known_hosts`.
    pub remember_choice: bool,
}

impl HostKeyDialog {
    /// A dialog that has no answer yet and remembers the host by default.
    pub fn new(host_key_info: HostKeyInfo) -> (r: HostKeyDialog)
        ensures
            r.host_key_info == host_key_info,
            r.response == HostKeyResponse::Pending,
            r.remember_choice,
    {
        HostKeyDialog { host_key_info, response: HostKeyResponse::Pending, remember_choice: true }
    }

    /// The answer so far.
    pub fn response(&self) -> (r: HostKeyResponse)
        ensures
            r == self.response,
    {
        self.response
    }

    /// Accepts the key; the answer and whether to remember it go to the
    /// callback.
    pub fn do_accept(&mut self) -> (r: (HostKeyResponse, bool))
        ensures
            final(self).response == HostKeyResponse::Accept,
            r == (HostKeyResponse::Accept, old(self).remember_choice),
            final(self).remember_choice == old(self).remember_choice,
            final(self).host_key_info == old(self).host_key_info,
    {
        self.response = HostKeyResponse::Accept;
        (HostKeyResponse::Accept, self.remember_choice)
    }

    /// Rejects the key; the answer and whether to remember it go to the
    /// callback.
    pub fn do_reject(&mut self) -> (r: (HostKeyResponse, bool))
        ensures
            final(self).response == HostKeyResponse::Reject,
            r == (HostKeyResponse::Reject, old(self).remember_choice),
            final(self).remember_choice == old(self).remember_choice,
            final(self).host_key_info == old(self).host_key_info,
    {
        self.response = HostKeyResponse::Reject;
        (HostKeyResponse::Reject, self.remember_choice)
    }

    /// Flips whether the host is remembered.
    pub fn toggle_remember(&mut self)
        ensures
            final(self).remember_choice == !old(self).remember_choice,
            final(self).response == old(self).response,
            final(self).host_key_info == old(self).host_key_info,
    {
        self.remember_choice = !self.remember_choice;
    }

    /// The warning under the title.
    pub fn warning_text(&self) -> (r: String)
        ensures
            r@ == "The authenticity of host '"@ + host_address(self.host_key_info.hostname@, self.host_key_info.port)
                + "' can't be established."@,
    {
        let mut s = owned("The authenticity of host '");
        let a = self.host_key_info.display_address();
        s.append(a.as_str());
        s.append("' can't be established.");
        s
    }
}

} // verus!
