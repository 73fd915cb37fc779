//! What one refresh reports: the corrected time, the latency of each server,
//! and the source it came from; and the messages a LAN master and its slaves
//! exchange.
//!
//! The clock offset is a type parameter `O`: the library moves it around but
//! never computes with it.

use vstd::prelude::*;
use vstd::string::*;
use crate::calibration::CalibrationStage;
use crate::config::SyncMode;
use crate::servers::{lemma_hosts_distinct, server_host, server_index, server_table, SERVER_COUNT};
use crate::text::{str_eq, trim, trimmed};

verus! {

/// Round-trip time of one server in milliseconds (-1 when unknown) and its
/// state: `"ok"`, `"standby"` or `"timeout"`.
#[derive(Clone, Debug)]
pub struct ServerLatency {
    pub rtt: i64,
    pub status: String,
}

/// The latency of the server `host`.
#[derive(Clone, Debug)]
pub struct LatencyEntry {
    pub host: String,
    pub latency: ServerLatency,
}

/// The result of one refresh.
#[derive(Clone, Debug)]
pub struct NtpTimePayload<O> {
    /// Corrected Unix time in milliseconds.
    pub server_time: u64,
    /// Offset of the local clock from the source's, in milliseconds.
    pub ntp_offset: O,
    /// Round-trip time in milliseconds, -1 when this refresh brought no data.
    pub ntp_rtt: i64,
    pub has_fresh_data: bool,
    pub sample_id: u64,
    pub ntp_server: String,
    pub server_latencies: Vec<LatencyEntry>,
    pub sync_mode: SyncMode,
    pub source_label: String,
    pub calibration_stage: CalibrationStage,
}

/// A slave's request for the master's time.
#[derive(Clone, Debug)]
pub struct MasterTimeRequest {
    pub pair_code: String,
    pub client_sent_ms: u64,
}

/// A master's answer: `ok` with the latest payload, or a message saying why
/// not.
#[derive(Clone, Debug)]
pub struct MasterTimeResponse<O> {
    pub ok: bool,
    pub message: String,
    pub payload: Option<NtpTimePayload<O>>,
}

/// The latency reported for `host` when `active` is the server queried and
/// `outcome` is its rounded round-trip time, `None` when it did not answer.
pub open spec fn latency_for(host: Seq<char>, active: Seq<char>, outcome: Option<i64>) -> (
    i64,
    Seq<char>,
) {
    if host != active {
        (-1i64, "standby"@)
    } else {
        match outcome {
            Some(rtt) => (rtt, "ok"@),
            None => (-1i64, "timeout"@),
        }
    }
}

/// The label of the local source in mode `mode`.
pub open spec fn local_label(mode: SyncMode) -> Seq<char> {
    match mode {
        SyncMode::LocalNtp => "本机 NTP"@,
        SyncMode::Master => "局域网主机 / NTP"@,
        SyncMode::Slave => "局域网从机"@,
    }
}

/// The label of a source that is the LAN master at `target`.
pub open spec fn master_label(target: Seq<char>) -> Seq<char> {
    "局域网主机 "@ + target
}

/// Error text of a refresh against the local server that got nothing.
pub open spec fn no_local_response_message() -> Seq<char> {
    "当前 NTP 服务器无响应"@
}

/// Error text of a master reply with nothing on its line.
pub open spec fn empty_reply_message() -> Seq<char> {
    "主机未返回有效同步数据"@
}

/// Error text of a master reply that is `ok` yet carries no payload.
pub open spec fn missing_payload_message() -> Seq<char> {
    "主机未返回时间数据"@
}

/// Label of the local source in mode `mode`.
pub fn local_source_label(mode: SyncMode) -> (s: String)
    ensures
        s@ == local_label(mode),
{
    match mode {
        SyncMode::LocalNtp => String::from_str("本机 NTP"),
        SyncMode::Master => String::from_str("局域网主机 / NTP"),
        SyncMode::Slave => String::from_str("局域网从机"),
    }
}

fn latency(rtt: i64, status: &str) -> (l: ServerLatency)
    ensures
        l.rtt == rtt,
        l.status@ == status@,
{
    ServerLatency { rtt, status: String::from_str(status) }
}

/// The latency table of a refresh against the local server `active_host`:
/// one entry per selectable server, in menu order, so no host occurs twice; the queried server
/// reports `active_rtt` (`None`: it timed out), every other one stands by.
pub fn local_latencies(active_host: &str, active_rtt: Option<i64>) -> (v: Vec<LatencyEntry>)
    ensures
        v@.len() == SERVER_COUNT,
        forall|i: int, j: int|
            0 <= i < SERVER_COUNT && 0 <= j < SERVER_COUNT && i != j ==> (#[trigger] v@[i]).host@
                != (#[trigger] v@[j]).host@,
        forall|i: int|
            0 <= i < SERVER_COUNT ==> {
                &&& (#[trigger] v@[i]).host@ == server_table()[i].0
                &&& (v@[i].latency.rtt, v@[i].latency.status@) == latency_for(
                    server_table()[i].0,
                    active_host@,
                    active_rtt,
                )
            },
{
    let mut v: Vec<LatencyEntry> = Vec::new();
    let mut i: usize = 0;
    while i < SERVER_COUNT
        invariant
            i <= SERVER_COUNT,
            v@.len() == i,
            forall|k: int|
                0 <= k < i ==> {
                    &&& (#[trigger] v@[k]).host@ == server_table()[k].0
                    &&& (v@[k].latency.rtt, v@[k].latency.status@) == latency_for(
                        server_table()[k].0,
                        active_host@,
                        active_rtt,
                    )
                },
        decreases SERVER_COUNT - i,
    {
        let host = server_host(i);
        let l = if !str_eq(host, active_host) {
            latency(-1, "standby")
        } else {
            match active_rtt {
                Some(rtt) => latency(rtt, "ok"),
                None => latency(-1, "timeout"),
            }
        };
        v.push(LatencyEntry { host: String::from_str(host), latency: l });
        i = i + 1;
    }
    proof {
        lemma_hosts_distinct();
        assert forall|i: int, j: int|
            0 <= i < SERVER_COUNT && 0 <= j < SERVER_COUNT && i != j implies (#[trigger] v@[i]).host@
                != (#[trigger] v@[j]).host@ by {
            assert(server_index(server_table()[i].0) == i);
            assert(server_index(server_table()[j].0) == j);
        }
    }
    v
}

/// The offset and round-trip time a refresh reports: those of its fresh
/// sample when it has one (`fresh`); otherwise the previous result's offset
/// (`default` when there is none) and no round-trip time (-1).
pub fn settle_offset<O>(fresh: Option<(O, i64)>, previous_offset: Option<O>, default: O) -> (r: (
    O,
    i64,
))
    ensures
        match fresh {
            Some((offset, rtt)) => r == (offset, rtt),
            None => r == (
                match previous_offset {
                    Some(o) => o,
                    None => default,
                },
                -1i64,
            ),
        },
{
    match fresh {
        Some((offset, rtt)) => (offset, rtt),
        None => match previous_offset {
            Some(o) => (o, -1),
            None => (default, -1),
        },
    }
}

/// A refresh against the local server may go on when it got a sample or a
/// previous result can stand in; otherwise it fails with
/// `no_local_response_message`.
pub fn check_local_data(has_sample: bool, has_previous: bool) -> (r: Result<(), String>)
    ensures
        r is Ok <==> (has_sample || has_previous),
        r matches Err(e) ==> e@ == no_local_response_message(),
{
    if !has_sample && !has_previous {
        Err(String::from_str("当前 NTP 服务器无响应"))
    } else {
        Ok(())
    }
}

/// The payload of a refresh against the local server `active_host` in mode
/// `mode`.
pub fn local_payload<O>(
    server_time: u64,
    ntp_offset: O,
    ntp_rtt: i64,
    has_fresh_data: bool,
    sample_id: u64,
    active_host: &str,
    server_latencies: Vec<LatencyEntry>,
    mode: SyncMode,
    stage: CalibrationStage,
) -> (p: NtpTimePayload<O>)
    ensures
        p.server_time == server_time,
        p.ntp_offset == ntp_offset,
        p.ntp_rtt == ntp_rtt,
        p.has_fresh_data == has_fresh_data,
        p.sample_id == sample_id,
        p.ntp_server@ == active_host@,
        p.server_latencies == server_latencies,
        p.sync_mode == mode,
        p.source_label@ == local_label(mode),
        p.calibration_stage == stage,
{
    NtpTimePayload {
        server_time,
        ntp_offset,
        ntp_rtt,
        has_fresh_data,
        sample_id,
        ntp_server: String::from_str(active_host),
        server_latencies,
        sync_mode: mode,
        source_label: local_source_label(mode),
        calibration_stage: stage,
    }
}

/// The payload of a slave that took its time from the master at `target`:
/// fresh, in slave mode, with one latency entry for the master.
pub fn slave_payload<O>(
    server_time: u64,
    ntp_offset: O,
    rtt: i64,
    sample_id: u64,
    target: &str,
    stage: CalibrationStage,
) -> (p: NtpTimePayload<O>)
    ensures
        p.server_time == server_time,
        p.ntp_offset == ntp_offset,
        p.ntp_rtt == rtt,
        p.has_fresh_data,
        p.sample_id == sample_id,
        p.ntp_server@ == target@,
        p.server_latencies@.len() == 1,
        p.server_latencies@[0].host@ == target@,
        p.server_latencies@[0].latency.rtt == rtt,
        p.server_latencies@[0].latency.status@ == "ok"@,
        p.sync_mode == SyncMode::Slave,
        p.source_label@ == master_label(target@),
        p.calibration_stage == stage,
{
    let mut latencies: Vec<LatencyEntry> = Vec::new();
    latencies.push(LatencyEntry { host: String::from_str(target), latency: latency(rtt, "ok") });
    let mut label = String::from_str("局域网主机 ");
    label.append(target);
    NtpTimePayload {
        server_time,
        ntp_offset,
        ntp_rtt: rtt,
        has_fresh_data: true,
        sample_id,
        ntp_server: String::from_str(target),
        server_latencies: latencies,
        sync_mode: SyncMode::Slave,
        source_label: label,
        calibration_stage: stage,
    }
}

/// A line read from the master is usable when it holds more than white
/// space; otherwise the refresh fails with `empty_reply_message`.
pub fn check_reply_line(line: &str) -> (r: Result<(), String>)
    ensures
        r is Ok <==> trimmed(line@).len() > 0,
        r matches Err(e) ==> e@ == empty_reply_message(),
{
    if trim(line).is_empty() {
        Err(String::from_str("主机未返回有效同步数据"))
    } else {
        Ok(())
    }
}

/// The result that a slave takes from the answer `r`: its payload when the
/// master said `ok`, nothing otherwise.
pub open spec fn slave_outcome<O>(r: MasterTimeResponse<O>) -> Option<NtpTimePayload<O>> {
    if r.ok {
        r.payload
    } else {
        None
    }
}

/// What a slave takes from a master's answer: the payload of an `ok` answer;
/// the master's message when it refused; `missing_payload_message` when it
/// said `ok` and sent nothing.
pub fn accept_master_response<O>(response: MasterTimeResponse<O>) -> (r: Result<
    NtpTimePayload<O>,
    String,
>)
    ensures
        r is Ok <==> slave_outcome(response) is Some,
        slave_outcome(response) matches Some(p) ==> r == Ok::<NtpTimePayload<O>, String>(p),
        !response.ok ==> r == Err::<NtpTimePayload<O>, String>(response.message),
        response.ok ==> match response.payload {
            Some(p) => r == Ok::<NtpTimePayload<O>, String>(p),
            None => r matches Err(e) && e@ == missing_payload_message(),
        },
{
    if !response.ok {
        return Err(response.message);
    }
    match response.payload {
        Some(p) => Ok(p),
        None => Err(String::from_str("主机未返回时间数据")),
    }
}

/// An answer that refuses with `message`.
pub fn refusal<O>(message: String) -> (r: MasterTimeResponse<O>)
    ensures
        !r.ok,
        r.message == message,
        r.payload.is_none(),
{
    MasterTimeResponse { ok: false, message, payload: None }
}

/// The refusal of a request that could not be parsed; `detail` is the
/// parser's description.
pub fn malformed_request<O>(detail: &str) -> (r: MasterTimeResponse<O>)
    ensures
        !r.ok,
        r.message@ == "请求格式错误: "@ + detail@,
        r.payload.is_none(),
{
    let mut message = String::from_str("请求格式错误: ");
    message.append(detail);
    refusal(message)
}

/// The refusal of a request whose line was blank.
pub fn empty_request<O>() -> (r: MasterTimeResponse<O>)
    ensures
        !r.ok,
        r.message@ == "空请求"@,
        r.payload.is_none(),
{
    refusal(String::from_str("空请求"))
}

/// The refusal of a request that could not be read; `detail` is the reader's
/// description.
pub fn unreadable_request<O>(detail: &str) -> (r: MasterTimeResponse<O>)
    ensures
        !r.ok,
        r.message@ == "读取请求失败: "@ + detail@,
        r.payload.is_none(),
{
    let mut message = String::from_str("读取请求失败: ");
    message.append(detail);
    refusal(message)
}

} // verus!
