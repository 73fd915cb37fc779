//! Decisions about the shell surfaces: the startup splash, the tray icon, the
//! floating widget, and when the next automatic sync is due.

use vstd::prelude::*;
use vstd::string::*;
use crate::calibration::{stage_description, stage_text, CalibrationStage, CALIBRATION_INTERVAL_SECS};
use crate::text::{decimal, push_decimal};
use crate::payload::NtpTimePayload;
use crate::state::{AppState, SPLASH_MAX_VISIBLE_MS, SPLASH_MIN_VISIBLE_MS};

verus! {

/// What to do with the widget window.
#[derive(Clone, Copy, Debug, PartialEq, Eq, Structural)]
pub enum WidgetVisibility {
    Show,
    Hide,
    /// Leave it as it is (it could not be created).
    Keep,
}

/// Milliseconds the current calibration round has run at `now_ms`, as the
/// splash counts them; a state with no round counts as having waited the
/// longest splash time.
pub open spec fn splash_elapsed<O>(s: AppState<O>, now_ms: u64) -> int {
    match s.calibration.started_at_ms {
        Some(t) => if now_ms >= t {
            now_ms - t
        } else {
            0
        },
        None => SPLASH_MAX_VISIBLE_MS as int,
    }
}

/// The last result is settled (stable or degraded) or fresh.
pub open spec fn settled_or_fresh<O>(last: Option<NtpTimePayload<O>>) -> bool {
    match last {
        Some(p) => p.calibration_stage == CalibrationStage::Stable || p.calibration_stage
            == CalibrationStage::Degraded || p.has_fresh_data,
        None => false,
    }
}

/// Whether the startup splash may give way to the main window at `now_ms`:
/// at once without automatic sync once the shortest splash time is over; with
/// it, once that time is over and a result is settled or fresh, or once the
/// longest splash time is over.
pub open spec fn startup_finished<O>(s: AppState<O>, now_ms: u64) -> bool {
    let e = splash_elapsed(s, now_ms);
    ||| s.startup_completed
    ||| !s.auto_sync && e >= SPLASH_MIN_VISIBLE_MS
    ||| s.auto_sync && e >= SPLASH_MIN_VISIBLE_MS && settled_or_fresh(s.last_payload)
    ||| s.auto_sync && e >= SPLASH_MAX_VISIBLE_MS
}

/// Seconds between automatic syncs: short while a baseline is being built.
pub open spec fn effective_interval_secs<O>(s: AppState<O>) -> int {
    if s.calibration.stage == CalibrationStage::Calibrating {
        CALIBRATION_INTERVAL_SECS as int
    } else {
        s.sync_interval_secs as int
    }
}

/// Whether an automatic sync is due at `now_ms`, the last one having been at
/// `last_sync_ms`.
pub open spec fn auto_sync_due<O>(s: AppState<O>, last_sync_ms: Option<u64>, now_ms: u64) -> bool {
    s.auto_sync && match last_sync_ms {
        None => true,
        Some(l) => now_ms >= l && now_ms - l >= effective_interval_secs(s) * 1000,
    }
}

/// What to do with the widget window, given whether it exists or could be
/// made (`widget_ready`) and whether the main window is minimized.
pub open spec fn widget_decision<O>(
    s: AppState<O>,
    widget_ready: bool,
    main_minimized: bool,
) -> WidgetVisibility {
    if !s.startup_completed {
        WidgetVisibility::Hide
    } else if !widget_ready {
        WidgetVisibility::Keep
    } else if !s.widget_enabled {
        WidgetVisibility::Hide
    } else if (s.collapsed_to_tray || main_minimized || s.widget_force_visible)
        && !s.widget_dismissed {
        WidgetVisibility::Show
    } else {
        WidgetVisibility::Hide
    }
}

/// The tray's word for a result: synced, or carried over.
pub open spec fn sync_state_text(fresh: bool) -> Seq<char> {
    if fresh {
        "已同步"@
    } else {
        "沿用上次同步"@
    }
}

/// The tray's latency figure: `<rtt>ms`, or `--` when unknown.
pub open spec fn latency_text(rtt: i64) -> Seq<char> {
    if rtt >= 0 {
        decimal(rtt as nat) + "ms"@
    } else {
        "--"@
    }
}

/// The tray tooltip's first line: `OpenTimeSync v<version>`.
pub open spec fn tooltip_title(version: Seq<char>) -> Seq<char> {
    "OpenTimeSync v"@ + version
}

/// See `sync_state_text`.
pub fn sync_state_label(fresh: bool) -> (s: String)
    ensures
        s@ == sync_state_text(fresh),
{
    if fresh {
        String::from_str("已同步")
    } else {
        String::from_str("沿用上次同步")
    }
}

/// See `latency_text`.
pub fn latency_label(rtt: i64) -> (s: String)
    ensures
        s@ == latency_text(rtt),
{
    if rtt >= 0 {
        let mut s = String::new();
        push_decimal(&mut s, rtt as u64);
        s.append("ms");
        s
    } else {
        String::from_str("--")
    }
}

/// The tray tooltip when there is no result: the title, then how the
/// calibration stands.
pub fn stage_tooltip(version: &str, stage: CalibrationStage) -> (s: String)
    ensures
        s@ == tooltip_title(version@) + "\n"@ + stage_text(stage),
{
    let mut s = String::from_str("OpenTimeSync v");
    s.append(version);
    s.append("\n");
    let text = stage_description(stage);
    s.append(text.as_str());
    s
}

impl<O> AppState<O> {
    /// Whether closing or minimizing the main window folds it into the tray.
    pub fn should_collapse_to_tray(&self) -> (b: bool)
        ensures
            b == self.widget_enabled,
    {
        self.widget_enabled
    }

    /// Whether the tray icon is shown: never before start-up has finished;
    /// after it, while the window is folded into the tray, the widget is on,
    /// or the main window is hidden.
    pub fn tray_should_show(&self, main_window_hidden: bool) -> (b: bool)
        ensures
            b == (self.startup_completed && (self.collapsed_to_tray || self.widget_enabled
                || main_window_hidden)),
    {
        self.startup_completed && (self.collapsed_to_tray || self.should_collapse_to_tray()
            || main_window_hidden)
    }

    /// See `startup_finished`.
    pub fn should_finish_startup_ui(&self, now_ms: u64) -> (b: bool)
        ensures
            b == startup_finished(*self, now_ms),
    {
        if self.startup_completed {
            return true;
        }
        let elapsed_ms: u64 = match self.calibration.started_at_ms {
            Some(t) => now_ms.saturating_sub(t),
            None => SPLASH_MAX_VISIBLE_MS,
        };
        if !self.auto_sync {
            return elapsed_ms >= SPLASH_MIN_VISIBLE_MS;
        }
        match &self.last_payload {
            Some(payload) => {
                if elapsed_ms >= SPLASH_MIN_VISIBLE_MS {
                    if payload.calibration_stage == CalibrationStage::Stable {
                        return true;
                    }
                    if payload.calibration_stage == CalibrationStage::Degraded {
                        return true;
                    }
                    if payload.has_fresh_data {
                        return true;
                    }
                }
            },
            None => {},
        }
        elapsed_ms >= SPLASH_MAX_VISIBLE_MS
    }

    /// Marks start-up as finished; `true` when it was not yet, so that the
    /// caller swaps the splash for the main window once only.
    pub fn mark_startup_completed(&mut self) -> (first: bool)
        ensures
            first == !old(self).startup_completed,
            *final(self) == (AppState::<O> { startup_completed: true, ..*old(self) }),
    {
        if self.startup_completed {
            return false;
        }
        self.startup_completed = true;
        true
    }

    /// The main window folds into the tray.
    pub fn hide_main_window_to_tray(&mut self)
        ensures
            *final(self) == (AppState::<O> { collapsed_to_tray: true, ..*old(self) }),
    {
        self.collapsed_to_tray = true;
    }

    /// The main window comes back: nothing is folded into the tray, and the
    /// widget is no longer held visible.
    pub fn restore_main_window(&mut self)
        ensures
            *final(self) == (AppState::<O> {
                collapsed_to_tray: false,
                widget_force_visible: false,
                ..*old(self)
            }),
    {
        self.collapsed_to_tray = false;
        self.widget_force_visible = false;
    }

    /// Decides the widget window's visibility (see `widget_decision`); with
    /// the widget off, also forgets that it was folded, dismissed or held
    /// visible.
    pub fn sync_widget_visibility(&mut self, widget_ready: bool, main_minimized: bool) -> (v:
        WidgetVisibility)
        ensures
            v == widget_decision(*old(self), widget_ready, main_minimized),
            *final(self) == if old(self).startup_completed && widget_ready
                && !old(self).widget_enabled {
                AppState::<O> {
                    collapsed_to_tray: false,
                    widget_dismissed: false,
                    widget_force_visible: false,
                    ..*old(self)
                }
            } else {
                *old(self)
            },
    {
        if !self.startup_completed {
            return WidgetVisibility::Hide;
        }
        let enabled = self.widget_enabled;
        if !widget_ready {
            return WidgetVisibility::Keep;
        }
        if !enabled {
            self.collapsed_to_tray = false;
            self.widget_dismissed = false;
            self.widget_force_visible = false;
            return WidgetVisibility::Hide;
        }
        if (self.collapsed_to_tray || main_minimized || self.widget_force_visible)
            && !self.widget_dismissed {
            WidgetVisibility::Show
        } else {
            WidgetVisibility::Hide
        }
    }

    /// The tray's widget item: turns the widget on and holds it visible when
    /// it is off (and answers `true`: the setting changed and is to be
    /// saved); otherwise hides it when `widget_visible`, shows it when not.
    pub fn toggle_widget_from_tray(&mut self, widget_visible: bool) -> (persist: bool)
        ensures
            persist == !old(self).widget_enabled,
            !old(self).widget_enabled ==> *final(self) == (AppState::<O> {
                widget_enabled: true,
                widget_dismissed: false,
                widget_force_visible: true,
                ..*old(self)
            }),
            old(self).widget_enabled ==> *final(self) == (AppState::<O> {
                widget_dismissed: widget_visible,
                widget_force_visible: !widget_visible,
                ..*old(self)
            }),
    {
        if !self.widget_enabled {
            self.widget_enabled = true;
            self.widget_dismissed = false;
            self.widget_force_visible = true;
            return true;
        }
        if widget_visible {
            self.widget_force_visible = false;
            self.widget_dismissed = true;
        } else {
            self.widget_force_visible = true;
            self.widget_dismissed = false;
        }
        false
    }

    /// Seconds to wait between automatic syncs now.
    pub fn effective_sync_interval(&self) -> (secs: u64)
        ensures
            secs == effective_interval_secs(*self),
    {
        if self.calibration.stage.is_calibrating() {
            CALIBRATION_INTERVAL_SECS
        } else {
            self.sync_interval_secs
        }
    }

    /// See `auto_sync_due`.
    pub fn should_auto_sync(&self, last_sync_ms: Option<u64>, now_ms: u64) -> (b: bool)
        requires
            self.wf(),
        ensures
            b == auto_sync_due(*self, last_sync_ms, now_ms),
    {
        if !self.auto_sync {
            return false;
        }
        match last_sync_ms {
            None => true,
            Some(last) => {
                let interval_ms = self.effective_sync_interval() * 1000;
                now_ms >= last && now_ms - last >= interval_ms
            },
        }
    }
}

/// Once the splash may give way, it may at every later moment too.
pub proof fn law_startup_finish_is_monotone<O>(s: AppState<O>, now1: u64, now2: u64)
    requires
        now1 <= now2,
        startup_finished(s, now1),
    ensures
        startup_finished(s, now2),
{
}

/// Without a running calibration round the splash gives way at once.
pub proof fn law_startup_without_round_finishes<O>(s: AppState<O>, now_ms: u64)
    requires
        s.calibration.started_at_ms.is_none(),
    ensures
        startup_finished(s, now_ms),
{
}

/// After start-up, an enabled widget that is not dismissed is shown while
/// the main window is minimized or folded into the tray, or while the tray
/// holds it visible; with none of these it is hidden.
pub proof fn law_widget_follows_main_window<O>(s: AppState<O>, main_minimized: bool)
    requires
        s.startup_completed,
        s.widget_enabled,
        !s.widget_dismissed,
    ensures
        main_minimized ==> widget_decision(s, true, main_minimized) == WidgetVisibility::Show,
        s.collapsed_to_tray ==> widget_decision(s, true, main_minimized) == WidgetVisibility::Show,
        s.widget_force_visible ==> widget_decision(s, true, main_minimized)
            == WidgetVisibility::Show,
        !main_minimized && !s.collapsed_to_tray && !s.widget_force_visible ==> widget_decision(
            s,
            true,
            main_minimized,
        ) == WidgetVisibility::Hide,
{
}

/// A widget closed with its close button stays hidden, whatever the main
/// window does, until it is turned on again.
pub proof fn law_dismissed_widget_stays_hidden<O>(
    s: AppState<O>,
    widget_ready: bool,
    main_minimized: bool,
)
    requires
        !s.widget_enabled,
        s.widget_dismissed,
    ensures
        widget_decision(s, widget_ready, main_minimized) != WidgetVisibility::Show,
{
}

/// Once start-up has finished, the tray's widget item flips a shown widget
/// to hidden and a hidden one to shown (turning it on first if it was off).
pub proof fn law_tray_toggle_flips_widget<O>(
    s: AppState<O>,
    t: AppState<O>,
    widget_visible: bool,
    main_minimized: bool,
)
    requires
        s.startup_completed,
        s.widget_enabled ==> t == (AppState::<O> {
            widget_dismissed: widget_visible,
            widget_force_visible: !widget_visible,
            ..s
        }),
        !s.widget_enabled ==> t == (AppState::<O> {
            widget_enabled: true,
            widget_dismissed: false,
            widget_force_visible: true,
            ..s
        }),
    ensures
        widget_decision(t, true, main_minimized) == if s.widget_enabled && widget_visible {
            WidgetVisibility::Hide
        } else {
            WidgetVisibility::Show
        },
{
}

} // verus!
