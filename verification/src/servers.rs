//! The NTP servers that can be chosen, and lookup by host name.

use vstd::prelude::*;
use vstd::string::*;
use crate::text::str_eq;

verus! {

/// A selectable NTP server: host name, short name, display label.
#[derive(Clone, Debug)]
pub struct ActiveServer {
    pub host: String,
    pub name: String,
    pub label: String,
}

impl View for ActiveServer {
    type V = (Seq<char>, Seq<char>, Seq<char>);

    open spec fn view(&self) -> (Seq<char>, Seq<char>, Seq<char>) {
        (self.host@, self.name@, self.label@)
    }
}

/// Number of selectable servers.
pub const SERVER_COUNT: usize = 5;

/// The selectable servers, in menu order: (host, name, label).
pub open spec fn server_table() -> Seq<(Seq<char>, Seq<char>, Seq<char>)> {
    seq![
        ("ntp.tencent.com"@, "Tencent"@, "腾讯云"@),
        ("ntp.aliyun.com"@, "Aliyun"@, "阿里云"@),
        ("time.asia.apple.com"@, "Apple"@, "Apple Asia"@),
        ("time.google.com"@, "Google"@, "Google"@),
        ("pool.ntp.org"@, "Pool"@, "pool.ntp.org"@),
    ]
}

/// Index of the first server whose host is `host`, or -1.
pub open spec fn server_index(host: Seq<char>) -> int {
    if host == server_table()[0].0 {
        0
    } else if host == server_table()[1].0 {
        1
    } else if host == server_table()[2].0 {
        2
    } else if host == server_table()[3].0 {
        3
    } else if host == server_table()[4].0 {
        4
    } else {
        -1
    }
}

/// Whether `host` is one of the selectable servers.
pub open spec fn is_known_host(host: Seq<char>) -> bool {
    server_index(host) >= 0
}

/// The server chosen for `host`: its table entry, or the first server when the
/// host is unknown.
pub open spec fn found_server(host: Seq<char>) -> (Seq<char>, Seq<char>, Seq<char>) {
    if is_known_host(host) {
        server_table()[server_index(host)]
    } else {
        server_table()[0]
    }
}

/// The host name of entry `i`.
pub fn server_host(i: usize) -> (h: &'static str)
    requires
        i < SERVER_COUNT,
    ensures
        h@ == server_table()[i as int].0,
{
    if i == 0 {
        "ntp.tencent.com"
    } else if i == 1 {
        "ntp.aliyun.com"
    } else if i == 2 {
        "time.asia.apple.com"
    } else if i == 3 {
        "time.google.com"
    } else {
        "pool.ntp.org"
    }
}

/// Entry `i` of the table.
pub fn server_entry(i: usize) -> (s: ActiveServer)
    requires
        i < SERVER_COUNT,
    ensures
        s@ == server_table()[i as int],
{
    let (host, name, label) = if i == 0 {
        ("ntp.tencent.com", "Tencent", "腾讯云")
    } else if i == 1 {
        ("ntp.aliyun.com", "Aliyun", "阿里云")
    } else if i == 2 {
        ("time.asia.apple.com", "Apple", "Apple Asia")
    } else if i == 3 {
        ("time.google.com", "Google", "Google")
    } else {
        ("pool.ntp.org", "Pool", "pool.ntp.org")
    };
    ActiveServer {
        host: String::from_str(host),
        name: String::from_str(name),
        label: String::from_str(label),
    }
}

/// Every selectable server, in menu order.
pub fn available_servers() -> (v: Vec<ActiveServer>)
    ensures
        v@.len() == SERVER_COUNT,
        forall|i: int| 0 <= i < SERVER_COUNT ==> #[trigger] v@[i]@ == server_table()[i],
{
    let mut v: Vec<ActiveServer> = Vec::new();
    let mut i: usize = 0;
    while i < SERVER_COUNT
        invariant
            i <= SERVER_COUNT,
            v@.len() == i,
            forall|k: int| 0 <= k < i ==> #[trigger] v@[k]@ == server_table()[k],
        decreases SERVER_COUNT - i,
    {
        v.push(server_entry(i));
        i = i + 1;
    }
    v
}

/// Index of the table entry whose host is `server`, if any.
pub fn server_position(server: &str) -> (r: Option<usize>)
    ensures
        match r {
            Some(i) => i < SERVER_COUNT && i as int == server_index(server@),
            None => !is_known_host(server@),
        },
{
    let mut i: usize = 0;
    while i < SERVER_COUNT
        invariant
            i <= SERVER_COUNT,
            forall|k: int| 0 <= k < i ==> server@ != #[trigger] server_table()[k].0,
        decreases SERVER_COUNT - i,
    {
        if str_eq(server_host(i), server) {
            return Some(i);
        }
        i = i + 1;
    }
    None
}

/// The server for `server`: the table entry with that host, or the first
/// entry when no entry has it.
pub fn find_server(server: &str) -> (s: ActiveServer)
    ensures
        s@ == found_server(server@),
{
    match server_position(server) {
        Some(i) => server_entry(i),
        None => server_entry(0),
    }
}

/// No two servers share a host, so each host finds its own entry.
pub proof fn lemma_hosts_distinct()
    ensures
        forall|i: int| 0 <= i < SERVER_COUNT ==> #[trigger] server_index(server_table()[i].0) == i,
{
    reveal_strlit("ntp.tencent.com");
    reveal_strlit("ntp.aliyun.com");
    reveal_strlit("time.asia.apple.com");
    reveal_strlit("time.google.com");
    reveal_strlit("pool.ntp.org");
    let t = server_table();
    assert(t[0].0.len() != t[1].0.len());
    assert(t[0].0.len() != t[2].0.len());
    assert(t[0].0[0] != t[3].0[0]);
    assert(t[0].0.len() != t[4].0.len());
    assert(t[1].0.len() != t[2].0.len());
    assert(t[1].0.len() != t[3].0.len());
    assert(t[1].0.len() != t[4].0.len());
    assert(t[2].0.len() != t[3].0.len());
    assert(t[2].0.len() != t[4].0.len());
    assert(t[3].0.len() != t[4].0.len());
}

/// The server that a lookup finds is a known one, and looking it up again by
/// its own host finds it again.
pub proof fn lemma_found_server_is_stable(host: Seq<char>)
    ensures
        is_known_host(found_server(host).0),
        found_server(found_server(host).0) == found_server(host),
{
    lemma_hosts_distinct();
    if is_known_host(host) {
        assert(server_index(server_table()[server_index(host)].0) == server_index(host));
    } else {
        assert(server_index(server_table()[0].0) == 0);
    }
}

/// Looking a server up by a host of the table gives back that host; by any
/// other host, the first server.
pub proof fn law_find_server_keeps_known_host(host: Seq<char>)
    ensures
        is_known_host(host) ==> found_server(host).0 == host,
        !is_known_host(host) ==> found_server(host) == server_table()[0],
{
}

} // verus!
