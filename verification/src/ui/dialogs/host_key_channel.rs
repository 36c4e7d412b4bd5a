//! The messages by which a connection asks the user about a host key and
//! gets the answer back.

use vstd::prelude::*;

verus! {

/// A question about a host key.
#[derive(Debug)]
pub struct HostKeyConfirmRequest {
    pub hostname: String,
    pub port: u16,
    pub key_type: String,
    pub fingerprint: String,
    /// What the answer refers to.
    pub request_id: u64,
}

impl HostKeyConfirmRequest {
    /// A question about the key of `hostname:port`, under the identifier
    /// that the counter `next_id` holds; the counter moves on by one
    /// (wrapping after `u64::MAX`), so that the next question gets the next
    /// identifier.
    pub fn new(hostname: String, port: u16, key_type: String, fingerprint: String, next_id: &mut u64) -> (r: HostKeyConfirmRequest)
        ensures
            r.hostname == hostname,
            r.port == port,
            r.key_type == key_type,
            r.fingerprint == fingerprint,
            r.request_id == *old(next_id),
            *final(next_id) == (if *old(next_id) == u64::MAX {
                0
            } else {
                *old(next_id) + 1
            }),
    {
        let request_id = *next_id;
        *next_id = if request_id == u64::MAX {
            0
        } else {
            request_id + 1
        };
        HostKeyConfirmRequest { hostname, port, key_type, fingerprint, request_id }
    }
}

impl Clone for HostKeyConfirmRequest {
    fn clone(&self) -> (r: Self)
        ensures
            r == *self,
    {
        HostKeyConfirmRequest {
            hostname: self.hostname.clone(),
            port: self.port,
            key_type: self.key_type.clone(),
            fingerprint: self.fingerprint.clone(),
            request_id: self.request_id,
        }
    }
}

/// An answer about a host key.
#[derive(Debug, Clone, Copy, PartialEq, Eq, Structural)]
pub struct HostKeyConfirmResponse {
    pub request_id: u64,
    pub accepted: bool,
    /// Whether the host goes into `known_hosts`.
    pub remember: bool,
}

impl HostKeyConfirmResponse {
    /// Acceptance of the key asked about under `request_id`.
    pub fn accept(request_id: u64, remember: bool) -> (r: HostKeyConfirmResponse)
        ensures
            r == (HostKeyConfirmResponse { request_id, accepted: true, remember }),
    {
        HostKeyConfirmResponse { request_id, accepted: true, remember }
    }

    /// Rejection of the key asked about under `request_id`; a rejection
    /// is never remembered.
    pub fn reject(request_id: u64) -> (r: HostKeyConfirmResponse)
        ensures
            r == (HostKeyConfirmResponse { request_id, accepted: false, remember: false }),
    {
        HostKeyConfirmResponse { request_id, accepted: false, remember: false }
    }
}

/// What waiting for the answer to `request_id` gives, from what arrived
/// (`None` when nothing did in time or the channel closed): the answer
/// when it refers to that request, else nothing.
pub fn answer_for(request_id: u64, received: Option<HostKeyConfirmResponse>) -> (r: Option<HostKeyConfirmResponse>)
    ensures
        r == (match received {
            Some(a) => if a.request_id == request_id {
                Some(a)
            } else {
                None
            },
            None => None,
        }),
{
    match received {
        Some(a) => {
            if a.request_id == request_id {
                Some(a)
            } else {
                None
            }
        },
        None => None,
    }
}

} // verus!
