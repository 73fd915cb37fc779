//! The application state behind the UI: settings, the last refresh, the
//! calibration round, and the shell surfaces (main window, tray, widget).
//!
//! Every operation here is a step from one state to the next; the caller
//! supplies the time (`now_ms`, milliseconds on a monotonic clock) and what
//! it observed of the windows, and performs the I/O the step asks for.

use vstd::prelude::*;
use vstd::string::*;
use crate::calibration::{after_refresh, restarted, Calibration, CalibrationStage};
use crate::config::{
    clamp_sync_interval, default_master_host, default_pair_code, is_generated_pair_code,
    lemma_default_master_host_normalized, lemma_generated_pair_code,
    law_normalize_master_host_idempotent, normalize_master_host, normalized_master_host,
    SavedConfig, SyncMode, MAX_SYNC_INTERVAL_SECS, MIN_SYNC_INTERVAL_SECS,
};
use crate::payload::NtpTimePayload;
use crate::servers::{
    available_servers, find_server, found_server, is_known_host, lemma_found_server_is_stable,
    server_table, ActiveServer, SERVER_COUNT,
};
use crate::text::{law_trim_idempotent, trim, trimmed};
use crate::update::UpdateStatusPayload;
use crate::widget::{clamp_spec, clamp_widget_scale, WIDGET_MAX_SCALE, WIDGET_MIN_SCALE};

verus! {

/// Shortest time the startup splash stays up, in milliseconds.
pub const SPLASH_MIN_VISIBLE_MS: u64 = 1200;

/// Longest time the startup splash stays up, in milliseconds.
pub const SPLASH_MAX_VISIBLE_MS: u64 = 3200;

/// The application state. `O` is the type of the clock offset.
pub struct AppState<O> {
    pub active_server: ActiveServer,
    pub last_payload: Option<NtpTimePayload<O>>,
    pub cycle_count: u64,
    pub auto_sync: bool,
    pub sync_interval_secs: u64,
    pub sync_mode: SyncMode,
    pub master_host: String,
    pub pair_code: String,
    pub widget_enabled: bool,
    pub collapsed_to_tray: bool,
    pub widget_dismissed: bool,
    pub widget_force_visible: bool,
    pub widget_position: Option<(i32, i32)>,
    pub widget_scale: u32,
    pub calibration: Calibration,
    pub startup_completed: bool,
    pub update_status: UpdateStatusPayload,
}

/// The settings panel's view of the state.
pub struct SyncSettingsPayload {
    pub auto_sync: bool,
    pub sync_interval_secs: u64,
    pub ntp_server: String,
    pub sync_mode: SyncMode,
    pub master_host: String,
    pub pair_code: String,
    pub widget_enabled: bool,
    pub widget_scale: u32,
    pub calibration_stage: CalibrationStage,
    pub active_servers: Vec<ActiveServer>,
}

/// What the next refresh queries.
pub enum RefreshTarget {
    /// The NTP server `host`, for a device in `mode` (local NTP or master).
    Ntp { host: String, mode: SyncMode },
    /// The LAN master at `host` (as configured, not yet normalized), with the
    /// pair code to present.
    Master { host: String, pair_code: String },
}

/// The label of a previous result that stands in for a failed refresh.
pub open spec fn stale_label(mode: SyncMode, master_host: Seq<char>) -> Seq<char> {
    if mode == SyncMode::Slave {
        "局域网主机不可达，沿用上次结果 ("@ + normalized_master_host(master_host) + ")"@
    } else {
        "网络无数据，沿用上次结果"@
    }
}

/// `st` is the previous result `prev` standing in for refresh `sample_id` in
/// mode `mode`: no fresh data, no round-trip time, the stand-in label, the
/// current calibration stage; everything else as before.
pub open spec fn is_stale_copy<O>(
    st: NtpTimePayload<O>,
    prev: NtpTimePayload<O>,
    sample_id: u64,
    mode: SyncMode,
    master_host: Seq<char>,
    stage: CalibrationStage,
) -> bool {
    &&& st == NtpTimePayload::<O> {
        sample_id,
        has_fresh_data: false,
        ntp_rtt: -1i64,
        sync_mode: mode,
        source_label: st.source_label,
        calibration_stage: stage,
        ..prev
    }
    &&& st.source_label@ == stale_label(mode, master_host)
}

/// The widget position that a saved pair of coordinates stands for.
pub open spec fn position_of(x: Option<i32>, y: Option<i32>) -> Option<(i32, i32)> {
    match (x, y) {
        (Some(a), Some(b)) => Some((a, b)),
        _ => None,
    }
}

/// The pair code that a typed code becomes: the code trimmed, or a generated
/// one where nothing is left after trimming.
pub open spec fn accepted_pair_code(typed: Seq<char>, result: Seq<char>) -> bool {
    if trimmed(typed).len() == 0 {
        is_generated_pair_code(result)
    } else {
        result == trimmed(typed)
    }
}

/// Builds the stand-in label (see `stale_label`).
fn stale_source_label(mode: SyncMode, master_host: &str) -> (s: String)
    ensures
        s@ == stale_label(mode, master_host@),
{
    match mode {
        SyncMode::Slave => {
            let mut s = String::from_str("局域网主机不可达，沿用上次结果 (");
            let host = normalize_master_host(master_host);
            s.append(host.as_str());
            s.append(")");
            s
        },
        _ => String::from_str("网络无数据，沿用上次结果"),
    }
}

fn copy_position(p: Option<(i32, i32)>, first: bool) -> (r: Option<i32>)
    ensures
        r == (match p {
            Some(q) => Some(if first {
                q.0
            } else {
                q.1
            }),
            None => None,
        }),
{
    match p {
        Some(q) => Some(if first {
            q.0
        } else {
            q.1
        }),
        None => None,
    }
}

impl SavedConfig {
    /// `self` holds the settings of `s`, as they are written to disk.
    pub open spec fn saved_from<O>(self, s: AppState<O>) -> bool {
        &&& self.auto_sync == s.auto_sync
        &&& self.sync_interval_secs == s.sync_interval_secs
        &&& self.ntp_server@ == s.active_server.host@
        &&& self.sync_mode == s.sync_mode
        &&& self.master_host@ == s.master_host@
        &&& self.pair_code@ == s.pair_code@
        &&& self.widget_enabled == s.widget_enabled
        &&& position_of(self.widget_x, self.widget_y) == s.widget_position
        &&& self.widget_scale == s.widget_scale
    }
}

impl<O> AppState<O> {
    /// The state's invariant: a well-formed calibration round, settings in
    /// their ranges, a selectable server, a normalized master address, and a
    /// trimmed, non-empty pair code.
    pub open spec fn wf(self) -> bool {
        &&& self.calibration.wf()
        &&& MIN_SYNC_INTERVAL_SECS <= self.sync_interval_secs <= MAX_SYNC_INTERVAL_SECS
        &&& WIDGET_MIN_SCALE <= self.widget_scale <= WIDGET_MAX_SCALE
        &&& is_known_host(self.active_server.host@)
        &&& self.active_server@ == found_server(self.active_server.host@)
        &&& normalized_master_host(self.master_host@) == self.master_host@
        &&& self.pair_code@.len() > 0
        &&& trimmed(self.pair_code@) == self.pair_code@
    }

    /// `post` is `pre` after loading `c` at `now_ms`: each setting taken from
    /// `c` in its normalized form, the calibration restarted, the last result
    /// dropped, the window state kept.
    pub open spec fn loaded(post: Self, pre: Self, c: SavedConfig, now_ms: u64) -> bool {
        &&& post.auto_sync == c.auto_sync
        &&& post.sync_interval_secs == clamp_spec(
            c.sync_interval_secs as int,
            MIN_SYNC_INTERVAL_SECS as int,
            MAX_SYNC_INTERVAL_SECS as int,
        )
        &&& post.active_server@ == found_server(c.ntp_server@)
        &&& post.sync_mode == c.sync_mode
        &&& post.master_host@ == normalized_master_host(c.master_host@)
        &&& accepted_pair_code(c.pair_code@, post.pair_code@)
        &&& post.widget_enabled == c.widget_enabled
        &&& post.widget_position == position_of(c.widget_x, c.widget_y)
        &&& post.widget_scale == clamp_spec(
            c.widget_scale as int,
            WIDGET_MIN_SCALE as int,
            WIDGET_MAX_SCALE as int,
        )
        &&& post.calibration == restarted(c.auto_sync, now_ms)
        &&& post.last_payload.is_none()
        &&& post.cycle_count == pre.cycle_count
        &&& post.collapsed_to_tray == pre.collapsed_to_tray
        &&& post.widget_dismissed == pre.widget_dismissed
        &&& post.widget_force_visible == pre.widget_force_visible
        &&& post.startup_completed == pre.startup_completed
        &&& post.update_status == pre.update_status
    }

    /// The state at start-up, before the saved settings are loaded: the
    /// first-run settings, a calibration round begun at `now_ms`, nothing
    /// shown yet, the updater idle at `version`.
    pub fn initial(version: String, now_ms: u64) -> (s: Self)
        ensures
            s.wf(),
            s.active_server@ == server_table()[0],
            s.auto_sync,
            s.sync_interval_secs == 5,
            s.sync_mode == SyncMode::LocalNtp,
            s.master_host@ == default_master_host(),
            is_generated_pair_code(s.pair_code@),
            !s.widget_enabled,
            s.widget_position.is_none(),
            s.widget_scale == 100,
            s.last_payload.is_none(),
            s.cycle_count == 0,
            !s.collapsed_to_tray,
            !s.widget_dismissed,
            !s.widget_force_visible,
            s.calibration == restarted(true, now_ms),
            !s.startup_completed,
            s.update_status.phase@ == "idle"@,
            s.update_status.current_version == version,
            s.update_status.version.is_none(),
            s.update_status.message@ == Seq::<char>::empty(),
            s.update_status.notes.is_none(),
            s.update_status.downloaded_bytes.is_none(),
            s.update_status.total_bytes.is_none(),
    {
        let config = SavedConfig::default();
        let active_server = find_server(config.ntp_server.as_str());
        let widget_position = match (config.widget_x, config.widget_y) {
            (Some(x), Some(y)) => Some((x, y)),
            _ => None,
        };
        proof {
            lemma_generated_pair_code(config.pair_code@);
            lemma_default_master_host_normalized();
            lemma_found_server_is_stable(config.ntp_server@);
        }
        AppState {
            active_server,
            last_payload: None,
            cycle_count: 0,
            auto_sync: config.auto_sync,
            sync_interval_secs: config.sync_interval_secs,
            sync_mode: config.sync_mode,
            master_host: config.master_host,
            pair_code: config.pair_code,
            widget_enabled: config.widget_enabled,
            collapsed_to_tray: false,
            widget_dismissed: false,
            widget_force_visible: false,
            widget_position,
            widget_scale: clamp_widget_scale(config.widget_scale),
            calibration: Calibration::restart(true, now_ms),
            startup_completed: false,
            update_status: UpdateStatusPayload::idle(version),
        }
    }

    /// The settings to write to disk.
    pub fn current_saved_config(&self) -> (c: SavedConfig)
        ensures
            c.saved_from(*self),
    {
        SavedConfig {
            auto_sync: self.auto_sync,
            sync_interval_secs: self.sync_interval_secs,
            ntp_server: self.active_server.host.clone(),
            sync_mode: self.sync_mode,
            master_host: self.master_host.clone(),
            pair_code: self.pair_code.clone(),
            widget_enabled: self.widget_enabled,
            widget_x: copy_position(self.widget_position, true),
            widget_y: copy_position(self.widget_position, false),
            widget_scale: self.widget_scale,
        }
    }

    /// Begins a new calibration round at `now_ms`, dropping the last result
    /// when `clear_payload` is set.
    pub fn restart_calibration(&mut self, clear_payload: bool, now_ms: u64)
        ensures
            *final(self) == (AppState::<O> {
                calibration: restarted(old(self).auto_sync, now_ms),
                last_payload: if clear_payload {
                    None
                } else {
                    old(self).last_payload
                },
                ..*old(self)
            }),
    {
        self.calibration = Calibration::restart(self.auto_sync, now_ms);
        if clear_payload {
            self.last_payload = None;
        }
    }

    /// Loads saved settings (see `loaded`).
    pub fn apply_saved_config(&mut self, config: SavedConfig, now_ms: u64)
        ensures
            Self::loaded(*final(self), *old(self), config, now_ms),
            final(self).wf(),
    {
        self.auto_sync = config.auto_sync;
        self.sync_interval_secs = clamp_sync_interval(config.sync_interval_secs);
        self.active_server = find_server(config.ntp_server.as_str());
        self.sync_mode = config.sync_mode;
        self.master_host = normalize_master_host(config.master_host.as_str());
        let code = trim(config.pair_code.as_str());
        self.pair_code = if code.is_empty() {
            default_pair_code()
        } else {
            String::from_str(code)
        };
        self.widget_enabled = config.widget_enabled;
        self.widget_position = match (config.widget_x, config.widget_y) {
            (Some(x), Some(y)) => Some((x, y)),
            _ => None,
        };
        self.widget_scale = clamp_widget_scale(config.widget_scale);
        self.restart_calibration(true, now_ms);
        proof {
            lemma_found_server_is_stable(config.ntp_server@);
            law_normalize_master_host_idempotent(config.master_host@);
            law_trim_idempotent(config.pair_code@);
            if trimmed(config.pair_code@).len() == 0 {
                lemma_generated_pair_code(self.pair_code@);
            }
        }
    }

    /// The stage that a payload built now reports.
    pub fn stage_for_payload(&self) -> (s: CalibrationStage)
        ensures
            s == self.calibration.stage,
    {
        self.calibration.stage
    }

    /// Advances the calibration round after a refresh at `now_ms`.
    pub fn update_calibration_after_refresh(&mut self, has_fresh_data: bool, now_ms: u64)
        requires
            old(self).wf(),
        ensures
            *final(self) == (AppState::<O> {
                calibration: after_refresh(
                    old(self).calibration,
                    old(self).auto_sync,
                    has_fresh_data,
                    now_ms,
                ),
                ..*old(self)
            }),
            final(self).wf(),
    {
        let auto_sync = self.auto_sync;
        self.calibration.update_after_refresh(auto_sync, has_fresh_data, now_ms);
    }

    /// Numbers the next refresh.
    pub fn next_sample_id(&mut self) -> (id: u64)
        requires
            old(self).cycle_count < u64::MAX,
        ensures
            id == old(self).cycle_count + 1,
            *final(self) == (AppState::<O> { cycle_count: id, ..*old(self) }),
    {
        self.cycle_count = self.cycle_count + 1;
        self.cycle_count
    }

    /// What the next refresh queries: the selected NTP server unless this
    /// device is a LAN slave, in which case its master.
    pub fn refresh_target(&self) -> (t: RefreshTarget)
        ensures
            match t {
                RefreshTarget::Ntp { host, mode } => self.sync_mode != SyncMode::Slave && mode
                    == self.sync_mode && host@ == self.active_server.host@,
                RefreshTarget::Master { host, pair_code } => self.sync_mode == SyncMode::Slave
                    && host@ == self.master_host@ && pair_code@ == self.pair_code@,
            },
    {
        match self.sync_mode {
            SyncMode::Slave => RefreshTarget::Master {
                host: self.master_host.clone(),
                pair_code: self.pair_code.clone(),
            },
            mode => RefreshTarget::Ntp { host: self.active_server.host.clone(), mode },
        }
    }

    /// Records the outcome of refresh `sample_id`, begun in mode `mode`.
    ///
    /// A new payload advances the calibration and is kept with the new stage.
    /// Any failure counts as a refresh without data for the calibration
    /// round, so that a round runs out of time even while an earlier result
    /// stands in. A failure with an earlier result on hand keeps that result
    /// as a stand-in stamped with the new stage (see `is_stale_copy`) and
    /// succeeds; a failure with nothing on hand is returned.
    pub fn finish_refresh(
        &mut self,
        outcome: Result<NtpTimePayload<O>, String>,
        sample_id: u64,
        mode: SyncMode,
        now_ms: u64,
    ) -> (r: Result<(), String>)
        requires
            old(self).wf(),
        ensures
            final(self).wf(),
            match outcome {
                Ok(p) => {
                    let c = after_refresh(
                        old(self).calibration,
                        old(self).auto_sync,
                        p.has_fresh_data,
                        now_ms,
                    );
                    &&& r is Ok
                    &&& *final(self) == (AppState::<O> {
                        calibration: c,
                        last_payload: Some(
                            NtpTimePayload::<O> { calibration_stage: c.stage, ..p },
                        ),
                        ..*old(self)
                    })
                },
                Err(e) => match old(self).last_payload {
                    Some(prev) => {
                        let c = after_refresh(
                            old(self).calibration,
                            old(self).auto_sync,
                            false,
                            now_ms,
                        );
                        &&& r is Ok
                        &&& final(self).calibration == c
                        &&& final(self).last_payload matches Some(st) && is_stale_copy(
                            st,
                            prev,
                            sample_id,
                            mode,
                            old(self).master_host@,
                            c.stage,
                        )
                        &&& *final(self) == (AppState::<O> {
                            calibration: c,
                            last_payload: final(self).last_payload,
                            ..*old(self)
                        })
                    },
                    None => {
                        &&& r == Err::<(), String>(e)
                        &&& *final(self) == (AppState::<O> {
                            calibration: after_refresh(
                                old(self).calibration,
                                old(self).auto_sync,
                                false,
                                now_ms,
                            ),
                            ..*old(self)
                        })
                    },
                },
            },
    {
        let auto_sync = self.auto_sync;
        match outcome {
            Ok(mut payload) => {
                self.calibration.update_after_refresh(auto_sync, payload.has_fresh_data, now_ms);
                payload.calibration_stage = self.calibration.stage;
                self.last_payload = Some(payload);
                Ok(())
            },
            Err(err) => {
                match self.last_payload.take() {
                    Some(mut stale) => {
                        self.calibration.update_after_refresh(auto_sync, false, now_ms);
                        stale.sample_id = sample_id;
                        stale.has_fresh_data = false;
                        stale.ntp_rtt = -1;
                        stale.sync_mode = mode;
                        stale.source_label = stale_source_label(mode, self.master_host.as_str());
                        stale.calibration_stage = self.calibration.stage;
                        self.last_payload = Some(stale);
                        Ok(())
                    },
                    None => {
                        self.calibration.update_after_refresh(auto_sync, false, now_ms);
                        Err(err)
                    },
                }
            },
        }
    }

    /// The settings panel's view.
    pub fn sync_settings_payload(&self) -> (p: SyncSettingsPayload)
        ensures
            p.auto_sync == self.auto_sync,
            p.sync_interval_secs == self.sync_interval_secs,
            p.ntp_server@ == self.active_server.host@,
            p.sync_mode == self.sync_mode,
            p.master_host@ == self.master_host@,
            p.pair_code@ == self.pair_code@,
            p.widget_enabled == self.widget_enabled,
            p.widget_scale == self.widget_scale,
            p.calibration_stage == self.calibration.stage,
            p.active_servers@.len() == SERVER_COUNT,
            forall|i: int|
                0 <= i < SERVER_COUNT ==> #[trigger] p.active_servers@[i]@ == server_table()[i],
    {
        SyncSettingsPayload {
            auto_sync: self.auto_sync,
            sync_interval_secs: self.sync_interval_secs,
            ntp_server: self.active_server.host.clone(),
            sync_mode: self.sync_mode,
            master_host: self.master_host.clone(),
            pair_code: self.pair_code.clone(),
            widget_enabled: self.widget_enabled,
            widget_scale: self.widget_scale,
            calibration_stage: self.calibration.stage,
            active_servers: available_servers(),
        }
    }
}

/// Writing the settings of a well-formed state to disk and loading them back
/// gives every setting back as it was, and a well-formed state.
pub proof fn law_saved_config_round_trip<O>(
    s: AppState<O>,
    c: SavedConfig,
    t: AppState<O>,
    now_ms: u64,
)
    requires
        s.wf(),
        c.saved_from(s),
        AppState::loaded(t, s, c, now_ms),
    ensures
        t.auto_sync == s.auto_sync,
        t.sync_interval_secs == s.sync_interval_secs,
        t.active_server@ == s.active_server@,
        t.sync_mode == s.sync_mode,
        t.master_host@ == s.master_host@,
        t.pair_code@ == s.pair_code@,
        t.widget_enabled == s.widget_enabled,
        t.widget_position == s.widget_position,
        t.widget_scale == s.widget_scale,
{
}

} // verus!
