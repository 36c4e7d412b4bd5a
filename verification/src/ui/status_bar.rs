//! The status bar: connection state, user and host, terminal size,
//! encoding and round-trip time.

use vstd::prelude::*;
use vstd::string::*;

use crate::text::{decimal, owned, push_decimal};

verus! {

/// The state of the connection as the status bar shows it.
#[derive(Debug, Clone, Copy, PartialEq, Eq, Structural)]
pub enum ConnectionStatus {
    Disconnected,
    Connecting,
    Connected,
    Error,
}

impl ConnectionStatus {
    /// The state's symbol.
    pub fn icon(&self) -> (r: &'static str)
        ensures
            r@ == (match *self {
                ConnectionStatus::Disconnected => "○"@,
                ConnectionStatus::Connecting => "◐"@,
                ConnectionStatus::Connected => "●"@,
                ConnectionStatus::Error => "✕"@,
            }),
    {
        match self {
            ConnectionStatus::Disconnected => "○",
            ConnectionStatus::Connecting => "◐",
            ConnectionStatus::Connected => "●",
            ConnectionStatus::Error => "✕",
        }
    }

    /// The state's label.
    pub fn text(&self) -> (r: &'static str)
        ensures
            r@ == (match *self {
                ConnectionStatus::Disconnected => "Disconnected"@,
                ConnectionStatus::Connecting => "Connecting..."@,
                ConnectionStatus::Connected => "Connected"@,
                ConnectionStatus::Error => "Error"@,
            }),
    {
        match self {
            ConnectionStatus::Disconnected => "Disconnected",
            ConnectionStatus::Connecting => "Connecting...",
            ConnectionStatus::Connected => "Connected",
            ConnectionStatus::Error => "Error",
        }
    }

    /// The state's color name.
    pub fn color_name(&self) -> (r: &'static str)
        ensures
            r@ == (match *self {
                ConnectionStatus::Disconnected => "gray"@,
                ConnectionStatus::Connecting => "yellow"@,
                ConnectionStatus::Connected => "green"@,
                ConnectionStatus::Error => "red"@,
            }),
    {
        match self {
            ConnectionStatus::Disconnected => "gray",
            ConnectionStatus::Connecting => "yellow",
            ConnectionStatus::Connected => "green",
            ConnectionStatus::Error => "red",
        }
    }
}

impl Default for ConnectionStatus {
    fn default() -> (r: Self)
        ensures
            r == ConnectionStatus::Disconnected,
    {
        ConnectionStatus::Disconnected
    }
}

/// What the status bar shows.
#[derive(Debug)]
pub struct StatusInfo {
    pub connection_status: ConnectionStatus,
    pub username: Option<String>,
    pub hostname: Option<String>,
    /// Terminal columns.
    pub cols: u16,
    /// Terminal rows.
    pub rows: u16,
    pub encoding: String,
    /// Round-trip time in milliseconds, when measured.
    pub rtt_ms: Option<u32>,
    /// The remote working directory, when known.
    pub cwd: Option<String>,
}

/// `⌊log2 x⌋` for `x ≥ 1`.
pub open spec fn log2_floor(x: nat) -> nat
    decreases x,
{
    if x <= 1 {
        0
    } else {
        1 + log2_floor(x / 2)
    }
}

/// Whether the double nearest to `n / 20` lies above it, for an odd `n`
/// not divisible by 5 and at least 20: with `k = ⌊log2(n / 20)⌋`, the
/// double's 53-bit significand is `n · 2^(52 - k) / 20` rounded, and it
/// rounds up when `n · 2^(52 - k)` leaves more than 10 modulo 20 (`2^s`
/// modulo 20 repeats 16, 12, 4, 8 for `s` modulo 4 from 0, for `s ≥ 2`).
pub open spec fn double_above(n: nat) -> bool {
    let s = 52 - log2_floor(n / 20);
    let c: int = if s % 4 == 0 {
        16
    } else if s % 4 == 1 {
        12
    } else if s % 4 == 2 {
        4
    } else {
        8
    };
    (n * c) % 20 > 10
}

/// The tenths of a second that `{:.1}` prints for the double nearest to
/// `ms / 1000`: the nearest tenth; for a millisecond count ending in 50,
/// the side on which the double falls, and for an exact half (the double
/// equals it) the even tenth.
pub open spec fn rtt_tenths(ms: nat) -> nat {
    let t = ms / 100;
    let r = ms % 100;
    if r < 50 {
        t
    } else if r > 50 {
        t + 1
    } else if (2 * t + 1) % 5 == 0 {
        if t % 2 == 0 {
            t
        } else {
            t + 1
        }
    } else if double_above(2 * t + 1) {
        t + 1
    } else {
        t
    }
}

/// The text of a round-trip time: whole milliseconds below a second,
/// else seconds with one decimal.
pub open spec fn rtt_text(ms: nat) -> Seq<char> {
    if ms < 1000 {
        decimal(ms) + "ms"@
    } else {
        decimal(rtt_tenths(ms) / 10) + "."@ + decimal(rtt_tenths(ms) % 10) + "s"@
    }
}

fn log2_floor_exec(x: u64) -> (r: u64)
    requires
        1 <= x < 0x2000_0000,
    ensures
        r == log2_floor(x as nat),
        r < 29,
{
    proof {
        vstd::arithmetic::power2::lemma2_to64();
        lemma_log2_floor_below(x as nat, 29);
    }
    let mut y = x;
    let mut k: u64 = 0;
    while y > 1
        invariant
            y >= 1,
            k + log2_floor(y as nat) == log2_floor(x as nat),
            log2_floor(x as nat) < 29,
        decreases y,
    {
        y = y / 2;
        k = k + 1;
    }
    k
}

proof fn lemma_log2_floor_below(x: nat, j: nat)
    requires
        j >= 1,
        x < vstd::arithmetic::power2::pow2(j),
    ensures
        log2_floor(x) < j,
    decreases x,
{
    if x > 1 {
        vstd::arithmetic::power2::lemma_pow2_unfold(j);
        vstd::arithmetic::power2::lemma2_to64();
        if j == 1 {
            assert(vstd::arithmetic::power2::pow2(1) == 2);
        } else {
            lemma_log2_floor_below(x / 2, (j - 1) as nat);
        }
    }
}

fn tenths_of(ms: u32) -> (r: u32)
    requires
        ms >= 1000,
    ensures
        r == rtt_tenths(ms as nat),
{
    let t: u32 = ms / 100;
    let r: u32 = ms % 100;
    if r < 50 {
        t
    } else if r > 50 {
        t + 1
    } else {
        let n: u64 = 2 * (t as u64) + 1;
        if n % 5 == 0 {
            if t % 2 == 0 {
                t
            } else {
                t + 1
            }
        } else {
            let k = log2_floor_exec(n / 20);
            let s: u64 = 52 - k;
            let c: u64 = if s % 4 == 0 {
                16
            } else if s % 4 == 1 {
                12
            } else if s % 4 == 2 {
                4
            } else {
                8
            };
            if (n * c) % 20 > 10 {
                t + 1
            } else {
                t
            }
        }
    }
}

impl StatusInfo {
    /// Disconnected, no user or host, 80×24, UTF-8, no round-trip time.
    pub fn new() -> (r: StatusInfo)
        ensures
            r.connection_status == ConnectionStatus::Disconnected,
            r.username is None,
            r.hostname is None,
            r.cols == 80,
            r.rows == 24,
            r.encoding@ == "UTF-8"@,
            r.rtt_ms is None,
            r.cwd is None,
    {
        StatusInfo {
            connection_status: ConnectionStatus::Disconnected,
            username: None,
            hostname: None,
            cols: 80,
            rows: 24,
            encoding: owned("UTF-8"),
            rtt_ms: None,
            cwd: None,
        }
    }

    /// With the given connection state.
    pub fn with_connection_status(self, status: ConnectionStatus) -> (r: StatusInfo)
        ensures
            r == (StatusInfo { connection_status: status, ..self }),
    {
        StatusInfo { connection_status: status, ..self }
    }

    /// With the given user and host.
    pub fn with_user_host(self, username: String, hostname: String) -> (r: StatusInfo)
        ensures
            r == (StatusInfo { username: Some(username), hostname: Some(hostname), ..self }),
    {
        StatusInfo { username: Some(username), hostname: Some(hostname), ..self }
    }

    /// With the given terminal size.
    pub fn with_size(self, cols: u16, rows: u16) -> (r: StatusInfo)
        ensures
            r == (StatusInfo { cols, rows, ..self }),
    {
        StatusInfo { cols, rows, ..self }
    }

    /// With the given encoding.
    pub fn with_encoding(self, encoding: String) -> (r: StatusInfo)
        ensures
            r == (StatusInfo { encoding, ..self }),
    {
        StatusInfo { encoding, ..self }
    }

    /// With the given round-trip time, in milliseconds.
    pub fn with_rtt(self, rtt_ms: u32) -> (r: StatusInfo)
        ensures
            r == (StatusInfo { rtt_ms: Some(rtt_ms), ..self }),
    {
        StatusInfo { rtt_ms: Some(rtt_ms), ..self }
    }

    /// `user@host`, or whichever of the two is known.
    pub fn user_host_display(&self) -> (r: Option<String>)
        ensures
            match (self.username, self.hostname) {
                (Some(u), Some(h)) => r matches Some(s) && s@ == u@ + "@"@ + h@,
                (None, Some(h)) => r matches Some(s) && s@ == h@,
                (Some(u), None) => r matches Some(s) && s@ == u@,
                (None, None) => r is None,
            },
    {
        match (&self.username, &self.hostname) {
            (Some(user), Some(host)) => {
                let mut s = user.clone();
                s.append("@");
                s.append(host.as_str());
                Some(s)
            },
            (None, Some(host)) => Some(host.clone()),
            (Some(user), None) => Some(user.clone()),
            (None, None) => None,
        }
    }

    /// `columns×rows`.
    pub fn size_display(&self) -> (r: String)
        ensures
            r@ == decimal(self.cols as nat) + "×"@ + decimal(self.rows as nat),
    {
        let mut s = String::new();
        push_decimal(&mut s, self.cols as u64);
        s.append("×");
        push_decimal(&mut s, self.rows as u64);
        s
    }

    /// The round-trip time: `50ms` below a second, `1.5s` from a second
    /// up.
    pub fn rtt_display(&self) -> (r: Option<String>)
        ensures
            match self.rtt_ms {
                Some(ms) => r matches Some(s) && s@ == rtt_text(ms as nat),
                None => r is None,
            },
    {
        match self.rtt_ms {
            None => None,
            Some(ms) => {
                let mut s = String::new();
                if ms < 1000 {
                    push_decimal(&mut s, ms as u64);
                    s.append("ms");
                } else {
                    let tenths = tenths_of(ms);
                    push_decimal(&mut s, (tenths / 10) as u64);
                    s.append(".");
                    push_decimal(&mut s, (tenths % 10) as u64);
                    s.append("s");
                }
                Some(s)
            },
        }
    }
}

impl Default for StatusInfo {
    fn default() -> (r: Self)
        ensures
            r.connection_status == ConnectionStatus::Disconnected,
            r.username is None,
            r.hostname is None,
            r.cols == 0,
            r.rows == 0,
            r.encoding@.len() == 0,
            r.rtt_ms is None,
            r.cwd is None,
    {
        StatusInfo {
            connection_status: ConnectionStatus::Disconnected,
            username: None,
            hostname: None,
            cols: 0,
            rows: 0,
            encoding: String::new(),
            rtt_ms: None,
            cwd: None,
        }
    }
}

impl Clone for StatusInfo {
    fn clone(&self) -> (r: Self)
        ensures
            r == *self,
    {
        StatusInfo {
            connection_status: self.connection_status,
            username: crate::entities::clone_opt_string(&self.username),
            hostname: crate::entities::clone_opt_string(&self.hostname),
            cols: self.cols,
            rows: self.rows,
            encoding: self.encoding.clone(),
            rtt_ms: self.rtt_ms,
            cwd: crate::entities::clone_opt_string(&self.cwd),
        }
    }
}

/// The status bar's state.
pub struct StatusBar {
    pub status_info: StatusInfo,
}

impl StatusBar {
    /// A bar with `StatusInfo::new`.
    pub fn new() -> (r: StatusBar)
        ensures
            r.status_info.connection_status == ConnectionStatus::Disconnected,
            r.status_info.cols == 80,
            r.status_info.rows == 24,
            r.status_info.encoding@ == "UTF-8"@,
            r.status_info.username is None,
            r.status_info.hostname is None,
            r.status_info.rtt_ms is None,
            r.status_info.cwd is None,
    {
        StatusBar { status_info: StatusInfo::new() }
    }

    /// Replaces everything shown.
    pub fn update_status(&mut self, info: StatusInfo)
        ensures
            final(self).status_info == info,
    {
        self.status_info = info;
    }

    /// Sets the connection state.
    pub fn set_connection_status(&mut self, status: ConnectionStatus)
        ensures
            final(self).status_info == (StatusInfo { connection_status: status, ..old(self).status_info }),
    {
        self.status_info.connection_status = status;
    }

    /// Sets user and host.
    pub fn set_user_host(&mut self, username: Option<String>, hostname: Option<String>)
        ensures
            final(self).status_info == (StatusInfo { username, hostname, ..old(self).status_info }),
    {
        self.status_info.username = username;
        self.status_info.hostname = hostname;
    }

    /// Sets the terminal size.
    pub fn set_size(&mut self, cols: u16, rows: u16)
        ensures
            final(self).status_info == (StatusInfo { cols, rows, ..old(self).status_info }),
    {
        self.status_info.cols = cols;
        self.status_info.rows = rows;
    }

    /// Sets the round-trip time.
    pub fn set_rtt(&mut self, rtt_ms: Option<u32>)
        ensures
            final(self).status_info == (StatusInfo { rtt_ms, ..old(self).status_info }),
    {
        self.status_info.rtt_ms = rtt_ms;
    }

    /// What the bar shows.
    pub fn status_info(&self) -> (r: &StatusInfo)
        ensures
            *r == self.status_info,
    {
        &self.status_info
    }
}

} // verus!
