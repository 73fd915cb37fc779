//! Persisted settings: sync mode, intervals, the LAN master address, the pair
//! code, and the widget placement.

use vstd::prelude::*;
use vstd::string::*;
use crate::clock::now_unix_ms;
use crate::servers::server_host;
use crate::servers::server_table;
use crate::text::{contains_char, digit_char, is_white_space, lemma_padded_decimal_digits, lemma_trimmed_edges, lemma_trimmed_fixed, decimal, padded_decimal, push_decimal, push_padded_decimal, trim, trimmed};
use crate::widget::default_widget_scale;

verus! {

/// Port that a LAN master listens on.
pub const MASTER_PORT: u16 = 36363;

/// Shortest automatic sync interval, in seconds.
pub const MIN_SYNC_INTERVAL_SECS: u64 = 2;

/// Longest automatic sync interval, in seconds.
pub const MAX_SYNC_INTERVAL_SECS: u64 = 3600;

/// Where this device takes its time from.
#[derive(Clone, Copy, Debug, PartialEq, Eq, Structural)]
pub enum SyncMode {
    /// Straight from an NTP server.
    LocalNtp,
    /// From an NTP server, and serving it to LAN slaves.
    Master,
    /// From a LAN master.
    Slave,
}

/// The master address used when none is given: `127.0.0.1:<MASTER_PORT>`.
pub open spec fn default_master_host() -> Seq<char> {
    "127.0.0.1:"@ + decimal(MASTER_PORT as nat)
}

/// A master address as it is stored: trimmed; the default address when blank;
/// with the master port appended when it names no port.
pub open spec fn normalized_master_host(host: Seq<char>) -> Seq<char> {
    let t = trimmed(host);
    if t.len() == 0 {
        default_master_host()
    } else if t.contains(':') {
        t
    } else {
        t + ":"@ + decimal(MASTER_PORT as nat)
    }
}

/// A pair code that the app made up itself: six decimal digits.
pub open spec fn is_generated_pair_code(code: Seq<char>) -> bool {
    exists|n: nat| n < 1000000 && code == padded_decimal(n, 6)
}

/// A generated pair code has six characters and nothing to trim.
pub proof fn lemma_generated_pair_code(code: Seq<char>)
    requires
        is_generated_pair_code(code),
    ensures
        code.len() == 6,
        trimmed(code) == code,
{
    let n = choose|n: nat| n < 1000000 && code == padded_decimal(n, 6);
    lemma_padded_decimal_digits(n, 6);
}

/// The default master address is already normalized.
pub proof fn lemma_default_master_host_normalized()
    ensures
        normalized_master_host(default_master_host()) == default_master_host(),
{
    assert(trimmed(Seq::<char>::empty()) == Seq::<char>::empty());
    assert(normalized_master_host(Seq::<char>::empty()) == default_master_host());
    law_normalize_master_host_idempotent(Seq::<char>::empty());
}

/// `"127.0.0.1:<MASTER_PORT>"`.
pub fn default_master_host_string() -> (s: String)
    ensures
        s@ == default_master_host(),
{
    let mut s = String::from_str("127.0.0.1:");
    push_decimal(&mut s, MASTER_PORT as u64);
    s
}

/// Normalizes a LAN master address (see `normalized_master_host`).
pub fn normalize_master_host(host: &str) -> (s: String)
    ensures
        s@ == normalized_master_host(host@),
{
    let trimmed = trim(host);
    if trimmed.is_empty() {
        return default_master_host_string();
    }
    if contains_char(trimmed, ':') {
        String::from_str(trimmed)
    } else {
        let mut s = String::from_str(trimmed);
        s.append(":");
        push_decimal(&mut s, MASTER_PORT as u64);
        s
    }
}

/// Forces a sync interval into `[MIN_SYNC_INTERVAL_SECS, MAX_SYNC_INTERVAL_SECS]`.
pub fn clamp_sync_interval(seconds: u64) -> (r: u64)
    ensures
        r == crate::widget::clamp_spec(
            seconds as int,
            MIN_SYNC_INTERVAL_SECS as int,
            MAX_SYNC_INTERVAL_SECS as int,
        ),
{
    if seconds < MIN_SYNC_INTERVAL_SECS {
        MIN_SYNC_INTERVAL_SECS
    } else if seconds > MAX_SYNC_INTERVAL_SECS {
        MAX_SYNC_INTERVAL_SECS
    } else {
        seconds
    }
}

/// The pair code made from the clock reading `ms`: its last six decimal
/// digits, zero padded.
pub fn pair_code_from_millis(ms: u64) -> (s: String)
    ensures
        s@ == padded_decimal((ms % 1000000) as nat, 6),
{
    let mut s = String::new();
    push_padded_decimal(&mut s, ms % 1000000, 6);
    assert(s@ =~= padded_decimal((ms % 1000000) as nat, 6));
    s
}

/// A fresh pair code, taken from the wall clock.
pub fn default_pair_code() -> (s: String)
    ensures
        is_generated_pair_code(s@),
{
    let s = pair_code_from_millis(now_unix_ms());
    s
}

proof fn lemma_port_digits()
    ensures
        decimal(MASTER_PORT as nat).len() > 0,
        decimal(MASTER_PORT as nat).last() == digit_char(3),
        !is_white_space(digit_char(3)),
{
}

/// Normalizing an address that is already normalized changes nothing.
pub proof fn law_normalize_master_host_idempotent(host: Seq<char>)
    ensures
        normalized_master_host(normalized_master_host(host)) == normalized_master_host(host),
{
    let t = trimmed(host);
    let n = normalized_master_host(host);
    lemma_port_digits();
    lemma_trimmed_edges(host);
    if t.len() == 0 {
        reveal_strlit("127.0.0.1:");
        assert(n[9] == ':');
        assert(n.contains(':'));
    } else if t.contains(':') {
    } else {
        reveal_strlit(":");
        assert(n[t.len() as int] == ':');
        assert(n.contains(':'));
        assert(n[0] == t[0]);
    }
    lemma_trimmed_fixed(n);
}

/// The settings that are saved between runs.
#[derive(Clone, Debug)]
pub struct SavedConfig {
    pub auto_sync: bool,
    pub sync_interval_secs: u64,
    pub ntp_server: String,
    pub sync_mode: SyncMode,
    pub master_host: String,
    pub pair_code: String,
    pub widget_enabled: bool,
    pub widget_x: Option<i32>,
    pub widget_y: Option<i32>,
    pub widget_scale: u32,
}

impl SavedConfig {
    /// The settings of a first run: automatic sync every 5 seconds against the
    /// first server, local NTP mode, the default master address, a fresh pair
    /// code, no widget.
    pub open spec fn is_first_run(self) -> bool {
        &&& self.auto_sync
        &&& self.sync_interval_secs == 5
        &&& self.ntp_server@ == server_table()[0].0
        &&& self.sync_mode == SyncMode::LocalNtp
        &&& self.master_host@ == default_master_host()
        &&& is_generated_pair_code(self.pair_code@)
        &&& !self.widget_enabled
        &&& self.widget_x.is_none()
        &&& self.widget_y.is_none()
        &&& self.widget_scale == 100
    }
}

impl Default for SavedConfig {
    fn default() -> (c: Self)
        ensures
            c.is_first_run(),
    {
        SavedConfig {
            auto_sync: true,
            sync_interval_secs: 5,
            ntp_server: String::from_str(server_host(0)),
            sync_mode: SyncMode::LocalNtp,
            master_host: default_master_host_string(),
            pair_code: default_pair_code(),
            widget_enabled: false,
            widget_x: None,
            widget_y: None,
            widget_scale: default_widget_scale(),
        }
    }
}

} // verus!
