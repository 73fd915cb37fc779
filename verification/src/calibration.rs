//! Calibration state machine: how many fresh samples have been seen since the
//! last restart, and whether the time baseline is being built, is stable, or
//! has degraded.

use vstd::prelude::*;
use vstd::string::*;

verus! {

/// Seconds between refreshes while a baseline is being built.
pub const CALIBRATION_INTERVAL_SECS: u64 = 2;

/// Milliseconds after which a calibration round gives up waiting.
pub const CALIBRATION_TIMEOUT_MS: u64 = 30000;

/// Fresh samples that make a calibration round stable.
pub const CALIBRATION_TARGET_SAMPLES: u32 = 3;

/// Where the time baseline stands.
#[derive(Clone, Copy, Debug, PartialEq, Eq, Structural)]
pub enum CalibrationStage {
    Idle,
    Calibrating,
    Stable,
    Degraded,
}

impl CalibrationStage {
    /// Whether a baseline is being built right now.
    pub fn is_calibrating(self) -> (b: bool)
        ensures
            b == (self == CalibrationStage::Calibrating),
    {
        match self {
            CalibrationStage::Calibrating => true,
            _ => false,
        }
    }
}

/// The calibration round: its stage, when it started (milliseconds on a
/// monotonic clock) and how many fresh samples it has counted.
#[derive(Clone, Copy, Debug, PartialEq, Eq, Structural)]
pub struct Calibration {
    pub stage: CalibrationStage,
    pub started_at_ms: Option<u64>,
    pub sample_count: u32,
}

/// How the tray describes a stage when there is no result to show.
pub open spec fn stage_text(stage: CalibrationStage) -> Seq<char> {
    match stage {
        CalibrationStage::Idle => "未同步，当前显示本地时间"@,
        CalibrationStage::Calibrating => "正在建立首轮时间基线"@,
        CalibrationStage::Stable => "同步稳定中"@,
        CalibrationStage::Degraded => "网络一般，等待下一轮校准"@,
    }
}

/// See `stage_text`.
pub fn stage_description(stage: CalibrationStage) -> (s: String)
    ensures
        s@ == stage_text(stage),
{
    match stage {
        CalibrationStage::Idle => String::from_str("未同步，当前显示本地时间"),
        CalibrationStage::Calibrating => String::from_str("正在建立首轮时间基线"),
        CalibrationStage::Stable => String::from_str("同步稳定中"),
        CalibrationStage::Degraded => String::from_str("网络一般，等待下一轮校准"),
    }
}

/// The round that `restart` begins.
pub open spec fn restarted(auto_sync: bool, now_ms: u64) -> Calibration {
    if auto_sync {
        Calibration {
            stage: CalibrationStage::Calibrating,
            started_at_ms: Some(now_ms),
            sample_count: 0,
        }
    } else {
        Calibration { stage: CalibrationStage::Idle, started_at_ms: None, sample_count: 0 }
    }
}

/// Whether a round that started at `started` has run out of time at `now_ms`
/// (a clock that went backwards counts as no time elapsed).
pub open spec fn timed_out(started: Option<u64>, now_ms: u64) -> bool {
    match started {
        Some(s) => now_ms >= s && now_ms - s >= CALIBRATION_TIMEOUT_MS,
        None => false,
    }
}

/// The round after a refresh that did (`fresh`) or did not bring new data.
pub open spec fn after_refresh(c: Calibration, auto_sync: bool, fresh: bool, now_ms: u64) -> Calibration {
    if !auto_sync {
        Calibration { stage: CalibrationStage::Idle, started_at_ms: None, sample_count: 0 }
    } else if c.stage == CalibrationStage::Stable || c.stage == CalibrationStage::Degraded {
        c
    } else {
        let started = if c.stage == CalibrationStage::Idle {
            Some(now_ms)
        } else {
            c.started_at_ms
        };
        let count = if fresh {
            c.sample_count + 1
        } else {
            c.sample_count as int
        };
        if fresh && count >= CALIBRATION_TARGET_SAMPLES {
            Calibration {
                stage: CalibrationStage::Stable,
                started_at_ms: None,
                sample_count: count as u32,
            }
        } else if timed_out(started, now_ms) {
            Calibration {
                stage: if fresh {
                    CalibrationStage::Stable
                } else {
                    CalibrationStage::Degraded
                },
                started_at_ms: None,
                sample_count: count as u32,
            }
        } else {
            Calibration {
                stage: CalibrationStage::Calibrating,
                started_at_ms: started,
                sample_count: count as u32,
            }
        }
    }
}

impl Calibration {
    /// A round is building a baseline exactly when it has a start time, an
    /// idle round has counted nothing, and a building round has not yet
    /// reached its target.
    pub open spec fn wf(self) -> bool {
        &&& (self.stage == CalibrationStage::Calibrating) == self.started_at_ms.is_some()
        &&& self.stage == CalibrationStage::Idle ==> self.sample_count == 0
        &&& self.stage == CalibrationStage::Calibrating ==> self.sample_count
            < CALIBRATION_TARGET_SAMPLES
        &&& self.sample_count <= CALIBRATION_TARGET_SAMPLES
    }

    /// A new round: building a baseline from `now_ms` when automatic sync is
    /// on, idle otherwise.
    pub fn restart(auto_sync: bool, now_ms: u64) -> (c: Calibration)
        ensures
            c == restarted(auto_sync, now_ms),
            c.wf(),
    {
        if auto_sync {
            Calibration {
                stage: CalibrationStage::Calibrating,
                started_at_ms: Some(now_ms),
                sample_count: 0,
            }
        } else {
            Calibration { stage: CalibrationStage::Idle, started_at_ms: None, sample_count: 0 }
        }
    }

    /// Advances the round after a refresh.
    pub fn update_after_refresh(&mut self, auto_sync: bool, has_fresh_data: bool, now_ms: u64)
        requires
            old(self).wf(),
        ensures
            *final(self) == after_refresh(*old(self), auto_sync, has_fresh_data, now_ms),
            final(self).wf(),
    {
        if !auto_sync {
            self.stage = CalibrationStage::Idle;
            self.started_at_ms = None;
            self.sample_count = 0;
            return ;
        }
        if self.stage == CalibrationStage::Idle {
            self.stage = CalibrationStage::Calibrating;
            self.started_at_ms = Some(now_ms);
        }
        if self.stage != CalibrationStage::Calibrating {
            return ;
        }
        if has_fresh_data {
            self.sample_count = self.sample_count + 1;
            if self.sample_count >= CALIBRATION_TARGET_SAMPLES {
                self.stage = CalibrationStage::Stable;
                self.started_at_ms = None;
                return ;
            }
        }
        let expired = match self.started_at_ms {
            Some(s) => now_ms >= s && now_ms - s >= CALIBRATION_TIMEOUT_MS,
            None => false,
        };
        if expired {
            self.stage = if has_fresh_data {
                CalibrationStage::Stable
            } else {
                CalibrationStage::Degraded
            };
            self.started_at_ms = None;
        }
    }
}

/// With automatic sync off, every refresh leaves the calibration idle with
/// nothing counted.
pub proof fn law_disabled_sync_is_idle(c: Calibration, fresh: bool, now_ms: u64)
    ensures
        after_refresh(c, false, fresh, now_ms) == restarted(false, now_ms),
{
}

/// A stable or degraded round stays exactly as it is while automatic sync is
/// on, whatever the refresh brings.
pub proof fn law_settled_round_is_kept(c: Calibration, fresh: bool, now_ms: u64)
    requires
        c.stage == CalibrationStage::Stable || c.stage == CalibrationStage::Degraded,
    ensures
        after_refresh(c, true, fresh, now_ms) == c,
{
}

/// While automatic sync is on, a refresh never leaves the round idle.
pub proof fn law_enabled_sync_is_never_idle(c: Calibration, fresh: bool, now_ms: u64)
    ensures
        after_refresh(c, true, fresh, now_ms).stage != CalibrationStage::Idle,
{
}

/// Every refresh keeps the round well formed.
pub proof fn law_refresh_keeps_wf(c: Calibration, auto_sync: bool, fresh: bool, now_ms: u64)
    requires
        c.wf(),
    ensures
        after_refresh(c, auto_sync, fresh, now_ms).wf(),
{
}

/// Three refreshes with fresh data after a restart with automatic sync on
/// make the round stable, at whatever times they come.
pub proof fn law_three_fresh_samples_stabilize(t0: u64, t1: u64, t2: u64, t3: u64)
    ensures
        after_refresh(
            after_refresh(after_refresh(restarted(true, t0), true, true, t1), true, true, t2),
            true,
            true,
            t3,
        ).stage == CalibrationStage::Stable,
{
}

/// A refresh without fresh data counts nothing: a building round that has
/// not run out of time keeps building with the same count and start time.
pub proof fn law_refresh_without_data_keeps_count(c: Calibration, now_ms: u64)
    requires
        c.wf(),
        c.stage == CalibrationStage::Calibrating,
        !timed_out(c.started_at_ms, now_ms),
    ensures
        after_refresh(c, true, false, now_ms) == c,
{
}

/// A refresh with fresh data counts one sample: a building round becomes
/// stable at the third, and otherwise (if not out of time) keeps building
/// from the same start with one more sample.
pub proof fn law_fresh_refresh_counts_one(c: Calibration, now_ms: u64)
    requires
        c.wf(),
        c.stage == CalibrationStage::Calibrating,
    ensures
        after_refresh(c, true, true, now_ms).sample_count == c.sample_count + 1,
        c.sample_count + 1 >= CALIBRATION_TARGET_SAMPLES ==> after_refresh(
            c,
            true,
            true,
            now_ms,
        ).stage == CalibrationStage::Stable,
        c.sample_count + 1 < CALIBRATION_TARGET_SAMPLES && !timed_out(c.started_at_ms, now_ms)
            ==> after_refresh(c, true, true, now_ms) == (Calibration {
            sample_count: (c.sample_count + 1) as u32,
            ..c
        }),
{
}

/// Refreshes without data in between do not spoil the count: three fresh
/// refreshes after a restart make the round stable, with a refresh without
/// data before the timeout between the first and the second.
pub proof fn law_three_fresh_samples_with_gap_stabilize(t0: u64, t1: u64, t2: u64, t3: u64, t4: u64)
    requires
        t1 < t0 + CALIBRATION_TIMEOUT_MS,
        t2 < t0 + CALIBRATION_TIMEOUT_MS,
    ensures
        after_refresh(
            after_refresh(
                after_refresh(after_refresh(restarted(true, t0), true, true, t1), true, false, t2),
                true,
                true,
                t3,
            ),
            true,
            true,
            t4,
        ).stage == CalibrationStage::Stable,
{
}

/// A building round that has run out of time without fresh data degrades.
pub proof fn law_timeout_without_data_degrades(c: Calibration, now_ms: u64)
    requires
        c.wf(),
        c.stage == CalibrationStage::Calibrating,
        timed_out(c.started_at_ms, now_ms),
    ensures
        after_refresh(c, true, false, now_ms).stage == CalibrationStage::Degraded,
        after_refresh(c, true, false, now_ms).started_at_ms.is_none(),
{
}

} // verus!
