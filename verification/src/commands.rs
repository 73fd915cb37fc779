//! The state changes that the UI's commands make, the answer a LAN master
//! gives its slaves, and the update-status bookkeeping.

use vstd::prelude::*;
use vstd::string::*;
use crate::calibration::restarted;
use crate::config::{
    clamp_sync_interval, default_pair_code, lemma_generated_pair_code,
    law_normalize_master_host_idempotent, normalize_master_host, normalized_master_host, SyncMode,
    MAX_SYNC_INTERVAL_SECS, MIN_SYNC_INTERVAL_SECS,
};
use crate::payload::{
    empty_request, malformed_request, refusal, slave_outcome, unreadable_request,
    MasterTimeRequest, MasterTimeResponse, NtpTimePayload,
};
use crate::servers::{found_server, is_known_host, lemma_found_server_is_stable, server_entry, server_position};
use crate::state::{accepted_pair_code, AppState};
use crate::text::{law_trim_idempotent, str_eq, trim, trimmed};
use crate::update::{is_busy_phase, update_in_progress, UpdateStatusPayload};
use crate::widget::{clamp_spec, clamp_widget_scale, WIDGET_MAX_SCALE, WIDGET_MIN_SCALE};

verus! {

/// Message of a master that is asked while not in master mode.
pub open spec fn not_master_message() -> Seq<char> {
    "当前设备未处于局域网主机模式"@
}

/// Message of a master that is asked with the wrong pair code.
pub open spec fn wrong_pair_code_message() -> Seq<char> {
    "配对码不正确"@
}

/// Message of a master that has no result to hand out yet.
pub open spec fn not_synced_message() -> Seq<char> {
    "主机当前尚未完成同步"@
}

/// Refusal of a download while an update task runs.
pub open spec fn download_busy_message() -> Seq<char> {
    "更新任务正在进行中"@
}

/// Refusal of an install when nothing was downloaded.
pub open spec fn nothing_downloaded_message() -> Seq<char> {
    "尚未下载可安装的更新"@
}

/// Whether a slave's pair code matches the master's: equal once both are
/// trimmed.
pub open spec fn pair_codes_match(offered: Seq<char>, expected: Seq<char>) -> bool {
    trimmed(offered) == trimmed(expected)
}

/// Whether a device in mode `mode` with pair code `expected` serves a slave
/// that offers `offered`.
pub open spec fn master_accepts(mode: SyncMode, offered: Seq<char>, expected: Seq<char>) -> bool {
    mode == SyncMode::Master && pair_codes_match(offered, expected)
}

/// What the slave ends up with: the master's last result when it serves the
/// slave, nothing otherwise.
pub open spec fn master_outcome<O>(
    mode: SyncMode,
    offered: Seq<char>,
    expected: Seq<char>,
    snapshot: Option<NtpTimePayload<O>>,
) -> Option<NtpTimePayload<O>> {
    if master_accepts(mode, offered, expected) {
        snapshot
    } else {
        None
    }
}

/// `r` is the answer of a device in mode `mode` with pair code `expected`,
/// whose last result is `snapshot`, to a slave offering `offered`: refused
/// (with the reason) when the device is not a master, when the codes do not
/// match, or when there is no result yet; otherwise `ok` with the result.
pub open spec fn is_master_reply<O>(
    mode: SyncMode,
    expected: Seq<char>,
    offered: Seq<char>,
    snapshot: Option<NtpTimePayload<O>>,
    r: MasterTimeResponse<O>,
) -> bool {
    &&& slave_outcome(r) == master_outcome(mode, offered, expected, snapshot)
    &&& !r.ok ==> r.payload.is_none()
    &&& mode != SyncMode::Master ==> !r.ok && r.message@ == not_master_message()
    &&& mode == SyncMode::Master && !pair_codes_match(offered, expected) ==> !r.ok && r.message@
        == wrong_pair_code_message()
    &&& mode == SyncMode::Master && pair_codes_match(offered, expected) ==> match snapshot {
        Some(p) => r.ok && r.message@ == "ok"@ && r.payload == Some(p),
        None => !r.ok && r.message@ == not_synced_message(),
    }
}

impl<O> AppState<O> {
    /// Turns automatic sync on or off and begins a new calibration round; the
    /// last result stays.
    pub fn set_auto_sync(&mut self, enabled: bool, now_ms: u64)
        requires
            old(self).wf(),
        ensures
            *final(self) == (AppState::<O> {
                auto_sync: enabled,
                calibration: restarted(enabled, now_ms),
                ..*old(self)
            }),
            final(self).wf(),
    {
        self.auto_sync = enabled;
        self.restart_calibration(false, now_ms);
    }

    /// Sets the automatic sync interval, forced into its range.
    pub fn set_sync_interval(&mut self, seconds: u64)
        requires
            old(self).wf(),
        ensures
            *final(self) == (AppState::<O> {
                sync_interval_secs: clamp_spec(
                    seconds as int,
                    MIN_SYNC_INTERVAL_SECS as int,
                    MAX_SYNC_INTERVAL_SECS as int,
                ) as u64,
                ..*old(self)
            }),
            final(self).wf(),
    {
        self.sync_interval_secs = clamp_sync_interval(seconds);
    }

    /// Selects the NTP server with host `server`; `true` when there is one,
    /// in which case a new calibration round begins and the last result is
    /// dropped; otherwise nothing changes.
    pub fn set_ntp_server(&mut self, server: &str, now_ms: u64) -> (accepted: bool)
        requires
            old(self).wf(),
        ensures
            accepted == is_known_host(server@),
            final(self).wf(),
            accepted ==> final(self).active_server@ == found_server(server@) && *final(self) == (
            AppState::<O> {
                active_server: final(self).active_server,
                calibration: restarted(old(self).auto_sync, now_ms),
                last_payload: None,
                ..*old(self)
            }),
            !accepted ==> *final(self) == *old(self),
    {
        match server_position(server) {
            Some(i) => {
                self.active_server = server_entry(i);
                self.restart_calibration(true, now_ms);
                proof {
                    lemma_found_server_is_stable(server@);
                }
                true
            },
            None => false,
        }
    }

    /// Changes the sync mode; a new calibration round begins and the last
    /// result is dropped.
    pub fn set_sync_mode(&mut self, mode: SyncMode, now_ms: u64)
        requires
            old(self).wf(),
        ensures
            *final(self) == (AppState::<O> {
                sync_mode: mode,
                calibration: restarted(old(self).auto_sync, now_ms),
                last_payload: None,
                ..*old(self)
            }),
            final(self).wf(),
    {
        self.sync_mode = mode;
        self.restart_calibration(true, now_ms);
    }

    /// Sets the LAN master address, normalized; a new calibration round
    /// begins and the last result is dropped.
    pub fn set_master_host(&mut self, host: &str, now_ms: u64)
        requires
            old(self).wf(),
        ensures
            final(self).master_host@ == normalized_master_host(host@),
            *final(self) == (AppState::<O> {
                master_host: final(self).master_host,
                calibration: restarted(old(self).auto_sync, now_ms),
                last_payload: None,
                ..*old(self)
            }),
            final(self).wf(),
    {
        self.master_host = normalize_master_host(host);
        self.restart_calibration(true, now_ms);
        proof {
            law_normalize_master_host_idempotent(host@);
        }
    }

    /// Sets the pair code: the typed code trimmed, or a fresh one when
    /// nothing is left.
    pub fn set_pair_code(&mut self, code: &str)
        requires
            old(self).wf(),
        ensures
            accepted_pair_code(code@, final(self).pair_code@),
            *final(self) == (AppState::<O> { pair_code: final(self).pair_code, ..*old(self) }),
            final(self).wf(),
    {
        let trimmed_code = trim(code);
        self.pair_code = if trimmed_code.is_empty() {
            default_pair_code()
        } else {
            String::from_str(trimmed_code)
        };
        proof {
            law_trim_idempotent(code@);
            if trimmed(code@).len() == 0 {
                lemma_generated_pair_code(self.pair_code@);
            }
        }
    }

    /// Turns the widget on or off: off also dismisses it and lets go of it;
    /// on clears the dismissal.
    pub fn set_widget_enabled(&mut self, enabled: bool)
        ensures
            enabled ==> *final(self) == (AppState::<O> {
                widget_enabled: true,
                widget_dismissed: false,
                ..*old(self)
            }),
            !enabled ==> *final(self) == (AppState::<O> {
                widget_enabled: false,
                widget_dismissed: true,
                widget_force_visible: false,
                ..*old(self)
            }),
    {
        self.widget_enabled = enabled;
        if !enabled {
            self.widget_dismissed = true;
            self.widget_force_visible = false;
        } else {
            self.widget_dismissed = false;
        }
    }

    /// Sets the widget scale, forced into its range.
    pub fn set_widget_scale(&mut self, scale: u32)
        requires
            old(self).wf(),
        ensures
            *final(self) == (AppState::<O> {
                widget_scale: clamp_spec(
                    scale as int,
                    WIDGET_MIN_SCALE as int,
                    WIDGET_MAX_SCALE as int,
                ) as u32,
                ..*old(self)
            }),
            final(self).wf(),
    {
        self.widget_scale = clamp_widget_scale(scale);
    }

    /// Remembers where the widget stands.
    pub fn set_widget_position(&mut self, x: i32, y: i32)
        ensures
            *final(self) == (AppState::<O> { widget_position: Some((x, y)), ..*old(self) }),
    {
        self.widget_position = Some((x, y));
    }

    /// The widget's close button: the widget is turned off and dismissed,
    /// nothing stays folded into the tray, nothing holds it visible.
    pub fn dismiss_widget(&mut self)
        ensures
            *final(self) == (AppState::<O> {
                widget_dismissed: true,
                widget_enabled: false,
                collapsed_to_tray: false,
                widget_force_visible: false,
                ..*old(self)
            }),
    {
        self.widget_dismissed = true;
        self.widget_enabled = false;
        self.collapsed_to_tray = false;
        self.widget_force_visible = false;
    }

    /// The corrected time to set the system clock to: that of the last
    /// result, or an error when there is none.
    pub fn system_time_to_apply(&self) -> (r: Result<u64, String>)
        ensures
            match self.last_payload {
                Some(p) => r == Ok::<u64, String>(p.server_time),
                None => r matches Err(e) && e@ == "尚无可用同步结果"@,
            },
    {
        match &self.last_payload {
            Some(p) => Ok(p.server_time),
            None => Err(String::from_str("尚无可用同步结果")),
        }
    }

    /// The master's answer to a slave that offers `pair_code`, `snapshot`
    /// being the master's last result: refused when this device is not a
    /// master, when the codes do not match, or when there is no result yet;
    /// otherwise `ok` with the result.
    pub fn master_response(&self, pair_code: &str, snapshot: Option<NtpTimePayload<O>>) -> (r:
        MasterTimeResponse<O>)
        ensures
            is_master_reply(self.sync_mode, self.pair_code@, pair_code@, snapshot, r),
    {
        if self.sync_mode != SyncMode::Master {
            return refusal(String::from_str("当前设备未处于局域网主机模式"));
        }
        if !str_eq(trim(pair_code), trim(self.pair_code.as_str())) {
            return refusal(String::from_str("配对码不正确"));
        }
        match snapshot {
            Some(payload) => MasterTimeResponse {
                ok: true,
                message: String::from_str("ok"),
                payload: Some(payload),
            },
            None => refusal(String::from_str("主机当前尚未完成同步")),
        }
    }

    /// The master's answer to one request: `line` is the line read from the
    /// slave (or the reader's error text), `parsed` the request parsed from
    /// that line (or the parser's error text), `snapshot` the master's last
    /// result. An unreadable line, a blank line and an unparsable request are
    /// refused with their reasons; a parsed request is answered by
    /// `master_response`.
    pub fn answer_request(
        &self,
        line: Result<&str, &str>,
        parsed: Result<MasterTimeRequest, String>,
        snapshot: Option<NtpTimePayload<O>>,
    ) -> (r: MasterTimeResponse<O>)
        ensures
            match line {
                Err(detail) => !r.ok && r.payload.is_none() && r.message@ == "读取请求失败: "@
                    + detail@,
                Ok(l) => if trimmed(l@).len() == 0 {
                    !r.ok && r.payload.is_none() && r.message@ == "空请求"@
                } else {
                    match parsed {
                        Err(detail) => !r.ok && r.payload.is_none() && r.message@
                            == "请求格式错误: "@ + detail@,
                        Ok(request) => is_master_reply(
                            self.sync_mode,
                            self.pair_code@,
                            request.pair_code@,
                            snapshot,
                            r,
                        ),
                    }
                },
            },
    {
        match line {
            Err(detail) => unreadable_request(detail),
            Ok(l) => {
                if trim(l).is_empty() {
                    return empty_request();
                }
                match parsed {
                    Err(detail) => malformed_request(detail.as_str()),
                    Ok(request) => self.master_response(request.pair_code.as_str(), snapshot),
                }
            },
        }
    }

    /// Starts a download: refused with `download_busy_message` while an
    /// update task runs, the state unchanged; otherwise the status becomes
    /// "preparing the download" for `current_version`, keeping the release
    /// notes shown so far.
    pub fn begin_download(&mut self, current_version: String) -> (r: Result<(), String>)
        ensures
            is_busy_phase(old(self).update_status.phase@) ==> (r matches Err(e) && e@
                == download_busy_message()) && *final(self) == *old(self),
            !is_busy_phase(old(self).update_status.phase@) ==> {
                &&& r is Ok
                &&& final(self).update_status.phase@ == "downloading"@
                &&& final(self).update_status.current_version == current_version
                &&& final(self).update_status.version.is_none()
                &&& final(self).update_status.message@ == "正在准备下载安装..."@
                &&& final(self).update_status.notes == old(self).update_status.notes
                &&& final(self).update_status.downloaded_bytes == Some(0u64)
                &&& final(self).update_status.total_bytes.is_none()
                &&& *final(self) == (AppState::<O> {
                    update_status: final(self).update_status,
                    ..*old(self)
                })
            },
    {
        if self.update_busy() {
            return Err(String::from_str("更新任务正在进行中"));
        }
        let notes = self.update_status.copy().notes;
        self.update_status = UpdateStatusPayload::preparing_download(current_version, notes);
        Ok(())
    }

    /// Starts installing the downloaded update, `downloaded` holding its
    /// version and release notes: refused with `nothing_downloaded_message`
    /// when nothing was downloaded, the state unchanged; otherwise the status
    /// becomes "installing" that version, for the version running now.
    pub fn begin_install(&mut self, downloaded: Option<(String, Option<String>)>) -> (r: Result<
        (),
        String,
    >)
        ensures
            downloaded.is_none() ==> (r matches Err(e) && e@ == nothing_downloaded_message())
                && *final(self) == *old(self),
            downloaded matches Some((version, notes)) ==> {
                &&& r is Ok
                &&& final(self).update_status.phase@ == "installing"@
                &&& final(self).update_status.current_version
                    == old(self).update_status.current_version
                &&& final(self).update_status.version == Some(version)
                &&& final(self).update_status.message@
                    == "正在启动安装器，应用将自动关闭并在安装完成后回到 v"@ + version@
                &&& final(self).update_status.notes == notes
                &&& final(self).update_status.downloaded_bytes.is_none()
                &&& final(self).update_status.total_bytes.is_none()
                &&& *final(self) == (AppState::<O> {
                    update_status: final(self).update_status,
                    ..*old(self)
                })
            },
    {
        match downloaded {
            None => Err(String::from_str("尚未下载可安装的更新")),
            Some((version, notes)) => {
                let current = self.update_status.current_version.clone();
                self.update_status = UpdateStatusPayload::installing(current, version, notes);
                Ok(())
            },
        }
    }

    /// Whether an update task is running, so that another may not start.
    pub fn update_busy(&self) -> (b: bool)
        ensures
            b == is_busy_phase(self.update_status.phase@),
    {
        update_in_progress(self.update_status.phase.as_str())
    }

    /// Records a new update status and hands back a copy of it.
    pub fn set_update_status(&mut self, status: UpdateStatusPayload) -> (r: UpdateStatusPayload)
        ensures
            r == status,
            *final(self) == (AppState::<O> { update_status: status, ..*old(self) }),
    {
        let r = status.copy();
        self.update_status = status;
        r
    }
}

/// Whatever seconds are asked for, the stored interval lies in its range,
/// and asking for the stored value again keeps it.
pub proof fn law_sync_interval_in_range(seconds: u64)
    ensures
        MIN_SYNC_INTERVAL_SECS <= clamp_spec(
            seconds as int,
            MIN_SYNC_INTERVAL_SECS as int,
            MAX_SYNC_INTERVAL_SECS as int,
        ) <= MAX_SYNC_INTERVAL_SECS,
        clamp_spec(
            clamp_spec(
                seconds as int,
                MIN_SYNC_INTERVAL_SECS as int,
                MAX_SYNC_INTERVAL_SECS as int,
            ),
            MIN_SYNC_INTERVAL_SECS as int,
            MAX_SYNC_INTERVAL_SECS as int,
        ) == clamp_spec(seconds as int, MIN_SYNC_INTERVAL_SECS as int, MAX_SYNC_INTERVAL_SECS as int),
{
}

/// A slave that offers a master's pair code, with white space around it or
/// not, receives exactly the master's last result; a device that is not a
/// master hands out nothing.
pub proof fn law_paired_slave_receives_master_result<O>(
    mode: SyncMode,
    offered: Seq<char>,
    expected: Seq<char>,
    snapshot: Option<NtpTimePayload<O>>,
)
    requires
        trimmed(expected) == expected,
    ensures
        mode == SyncMode::Master && trimmed(offered) == expected ==> master_outcome(
            mode,
            offered,
            expected,
            snapshot,
        ) == snapshot,
        mode != SyncMode::Master ==> master_outcome(mode, offered, expected, snapshot).is_none(),
{
}

} // verus!
