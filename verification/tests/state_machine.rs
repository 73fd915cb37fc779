use opentimesync::calibration::{stage_description, Calibration, CalibrationStage};
use opentimesync::config::{SavedConfig, SyncMode};
use opentimesync::payload::{
    accept_master_response, check_local_data, check_reply_line, empty_request, local_latencies,
    local_payload, local_source_label, malformed_request, slave_payload, unreadable_request,
    MasterTimeResponse, NtpTimePayload,
};
use opentimesync::shell::{latency_label, stage_tooltip, sync_state_label, WidgetVisibility};
use opentimesync::state::{AppState, RefreshTarget};
use opentimesync::widget::{position_widget, widget_dimensions, WorkArea};

fn payload(fresh: bool, stage: CalibrationStage) -> NtpTimePayload<f64> {
    let lat = local_latencies("ntp.aliyun.com", Some(12));
    let mut p = local_payload(1_000, 2.5f64, 12, fresh, 1, "ntp.aliyun.com", lat, SyncMode::LocalNtp, stage);
    p.has_fresh_data = fresh;
    p
}

#[test]
fn calibration_stabilizes_after_three_fresh_samples() {
    let mut c = Calibration::restart(true, 0);
    assert_eq!(c.stage, CalibrationStage::Calibrating);
    c.update_after_refresh(true, true, 100);
    c.update_after_refresh(true, true, 200);
    assert_eq!(c.stage, CalibrationStage::Calibrating);
    assert_eq!(c.sample_count, 2);
    c.update_after_refresh(true, true, 300);
    assert_eq!(c.stage, CalibrationStage::Stable);
    assert_eq!(c.started_at_ms, None);
    // settled rounds stay
    c.update_after_refresh(true, false, 100_000);
    assert_eq!(c.stage, CalibrationStage::Stable);
}

#[test]
fn calibration_times_out() {
    let mut c = Calibration::restart(true, 1_000);
    c.update_after_refresh(true, false, 30_999);
    assert_eq!(c.stage, CalibrationStage::Calibrating);
    c.update_after_refresh(true, false, 31_000);
    assert_eq!(c.stage, CalibrationStage::Degraded);
    let mut d = Calibration::restart(true, 1_000);
    d.update_after_refresh(true, true, 40_000);
    assert_eq!(d.stage, CalibrationStage::Stable);
}

#[test]
fn calibration_without_auto_sync_is_idle() {
    let mut c = Calibration::restart(false, 5);
    assert_eq!(c, Calibration { stage: CalibrationStage::Idle, started_at_ms: None, sample_count: 0 });
    c.update_after_refresh(false, true, 10);
    assert_eq!(c.stage, CalibrationStage::Idle);
    c.update_after_refresh(true, false, 20);
    assert_eq!(c.stage, CalibrationStage::Calibrating);
    assert_eq!(c.started_at_ms, Some(20));
    assert!(c.stage.is_calibrating());
    assert!(!CalibrationStage::Stable.is_calibrating());
}

#[test]
fn initial_state_and_settings_round_trip() {
    let mut s: AppState<f64> = AppState::initial("2.1.11".to_string(), 0);
    assert_eq!(s.active_server.host, "ntp.tencent.com");
    assert_eq!(s.calibration.stage, CalibrationStage::Calibrating);
    assert_eq!(s.update_status.phase, "idle");
    s.set_sync_interval(7);
    s.set_widget_position(10, -20);
    s.set_widget_scale(130);
    assert!(s.set_ntp_server("time.google.com", 5));
    s.set_master_host(" 10.0.0.2 ", 5);
    s.set_pair_code(" 4321 ");
    let saved = s.current_saved_config();
    assert_eq!(saved.widget_x, Some(10));
    assert_eq!(saved.widget_y, Some(-20));
    let mut t: AppState<f64> = AppState::initial("2.1.11".to_string(), 0);
    t.apply_saved_config(saved, 99);
    assert_eq!(t.sync_interval_secs, 7);
    assert_eq!(t.widget_position, Some((10, -20)));
    assert_eq!(t.widget_scale, 130);
    assert_eq!(t.active_server.host, "time.google.com");
    assert_eq!(t.active_server.label, "Google");
    assert_eq!(t.master_host, "10.0.0.2:36363");
    assert_eq!(t.pair_code, "4321");
    assert_eq!(t.calibration.started_at_ms, Some(99));
}

#[test]
fn loading_normalizes_settings() {
    let mut s: AppState<f64> = AppState::initial("1".to_string(), 0);
    let c = SavedConfig {
        auto_sync: false,
        sync_interval_secs: 1,
        ntp_server: "nowhere".to_string(),
        sync_mode: SyncMode::Slave,
        master_host: "".to_string(),
        pair_code: "   ".to_string(),
        widget_enabled: true,
        widget_x: Some(3),
        widget_y: None,
        widget_scale: 5000,
    };
    s.apply_saved_config(c, 42);
    assert_eq!(s.sync_interval_secs, 2);
    assert_eq!(s.active_server.host, "ntp.tencent.com");
    assert_eq!(s.master_host, "127.0.0.1:36363");
    assert_eq!(s.pair_code.len(), 6);
    assert_eq!(s.widget_position, None);
    assert_eq!(s.widget_scale, 220);
    assert_eq!(s.calibration.stage, CalibrationStage::Idle);
}

#[test]
fn unknown_server_is_refused() {
    let mut s: AppState<f64> = AppState::initial("1".to_string(), 0);
    s.finish_refresh(Ok(payload(true, CalibrationStage::Idle)), 1, SyncMode::LocalNtp, 10).unwrap();
    assert!(!s.set_ntp_server("example.org", 20));
    assert!(s.last_payload.is_some());
    assert_eq!(s.active_server.host, "ntp.tencent.com");
}

#[test]
fn refresh_outcomes() {
    let mut s: AppState<f64> = AppState::initial("1".to_string(), 0);
    // no previous result: the error comes back and the round counts no data
    let r = s.finish_refresh(Err("down".to_string()), 1, SyncMode::LocalNtp, 10);
    assert_eq!(r, Err("down".to_string()));
    assert!(s.last_payload.is_none());
    // a fresh result is stored with the current stage
    assert_eq!(s.next_sample_id(), 1);
    s.finish_refresh(Ok(payload(true, CalibrationStage::Idle)), 2, SyncMode::LocalNtp, 20).unwrap();
    let p = s.last_payload.as_ref().unwrap();
    assert_eq!(p.calibration_stage, CalibrationStage::Calibrating);
    assert_eq!(s.calibration.sample_count, 1);
    // a failure keeps the previous result as a stand-in
    s.finish_refresh(Err("down".to_string()), 3, SyncMode::LocalNtp, 30).unwrap();
    let p = s.last_payload.as_ref().unwrap();
    assert!(!p.has_fresh_data);
    assert_eq!(p.ntp_rtt, -1);
    assert_eq!(p.sample_id, 3);
    assert_eq!(p.server_time, 1_000);
    assert_eq!(p.ntp_offset, 2.5);
    assert_eq!(p.source_label, "网络无数据，沿用上次结果");
    s.finish_refresh(Err("down".to_string()), 4, SyncMode::Slave, 40).unwrap();
    assert_eq!(
        s.last_payload.as_ref().unwrap().source_label,
        "局域网主机不可达，沿用上次结果 (127.0.0.1:36363)"
    );
    assert_eq!(s.system_time_to_apply(), Ok(1_000));
}

#[test]
fn refresh_targets() {
    let mut s: AppState<f64> = AppState::initial("1".to_string(), 0);
    match s.refresh_target() {
        RefreshTarget::Ntp { host, mode } => {
            assert_eq!(host, "ntp.tencent.com");
            assert_eq!(mode, SyncMode::LocalNtp);
        }
        _ => panic!("expected an NTP target"),
    }
    s.set_sync_mode(SyncMode::Slave, 1);
    match s.refresh_target() {
        RefreshTarget::Master { host, .. } => assert_eq!(host, "127.0.0.1:36363"),
        _ => panic!("expected a master target"),
    }
    assert_eq!(s.system_time_to_apply(), Err("尚无可用同步结果".to_string()));
}

#[test]
fn latencies_and_payloads() {
    let lat = local_latencies("time.google.com", Some(33));
    assert_eq!(lat.len(), 5);
    assert_eq!(lat[3].host, "time.google.com");
    assert_eq!((lat[3].latency.rtt, lat[3].latency.status.as_str()), (33, "ok"));
    assert_eq!((lat[0].latency.rtt, lat[0].latency.status.as_str()), (-1, "standby"));
    let lat = local_latencies("pool.ntp.org", None);
    assert_eq!((lat[4].latency.rtt, lat[4].latency.status.as_str()), (-1, "timeout"));
    assert_eq!(check_local_data(false, false), Err("当前 NTP 服务器无响应".to_string()));
    assert_eq!(check_local_data(false, true), Ok(()));
    assert_eq!(local_source_label(SyncMode::Master), "局域网主机 / NTP");
    let sp = slave_payload(5u64, 1.0f64, 7, 9, "10.0.0.2:36363", CalibrationStage::Stable);
    assert_eq!(sp.source_label, "局域网主机 10.0.0.2:36363");
    assert_eq!(sp.server_latencies[0].latency.status, "ok");
    assert_eq!(sp.sync_mode, SyncMode::Slave);
    assert_eq!(check_reply_line(" \n"), Err("主机未返回有效同步数据".to_string()));
    assert_eq!(check_reply_line("{}\n"), Ok(()));
}

#[test]
fn master_answers() {
    let mut s: AppState<f64> = AppState::initial("1".to_string(), 0);
    s.set_pair_code("123456");
    let r = s.master_response("123456", Some(payload(true, CalibrationStage::Stable)));
    assert!(!r.ok);
    assert_eq!(r.message, "当前设备未处于局域网主机模式");
    s.set_sync_mode(SyncMode::Master, 0);
    let r = s.master_response("000000", Some(payload(true, CalibrationStage::Stable)));
    assert_eq!((r.ok, r.message.as_str()), (false, "配对码不正确"));
    let r = s.master_response(" 123456 ", None);
    assert_eq!((r.ok, r.message.as_str()), (false, "主机当前尚未完成同步"));
    let r = s.master_response(" 123456 ", Some(payload(true, CalibrationStage::Stable)));
    assert!(r.ok);
    assert_eq!(r.message, "ok");
    let got = accept_master_response(r).unwrap();
    assert_eq!(got.server_time, 1_000);
    let refused: MasterTimeResponse<f64> = empty_request();
    assert_eq!(accept_master_response(refused).err(), Some("空请求".to_string()));
    let bad: MasterTimeResponse<f64> = malformed_request("eof");
    assert_eq!(bad.message, "请求格式错误: eof");
    let unread: MasterTimeResponse<f64> = unreadable_request("reset");
    assert_eq!(unread.message, "读取请求失败: reset");
    let empty_ok: MasterTimeResponse<f64> = MasterTimeResponse { ok: true, message: "ok".to_string(), payload: None };
    assert_eq!(accept_master_response(empty_ok).err(), Some("主机未返回时间数据".to_string()));
}

#[test]
fn startup_splash() {
    let mut s: AppState<f64> = AppState::initial("1".to_string(), 1_000);
    assert!(!s.should_finish_startup_ui(1_500));
    assert!(!s.should_finish_startup_ui(2_200));
    s.finish_refresh(Ok(payload(true, CalibrationStage::Idle)), 1, SyncMode::LocalNtp, 1_100).unwrap();
    assert!(!s.should_finish_startup_ui(2_199));
    assert!(s.should_finish_startup_ui(2_200));
    let t: AppState<f64> = AppState::initial("1".to_string(), 1_000);
    assert!(t.should_finish_startup_ui(4_200));
    assert!(s.mark_startup_completed());
    assert!(!s.mark_startup_completed());
    assert!(s.should_finish_startup_ui(0));
}

#[test]
fn widget_and_tray() {
    let mut s: AppState<f64> = AppState::initial("1".to_string(), 0);
    assert_eq!(s.sync_widget_visibility(true, true), WidgetVisibility::Hide);
    assert!(!s.tray_should_show(true));
    s.mark_startup_completed();
    assert!(s.tray_should_show(true));
    assert!(!s.tray_should_show(false));
    // the tray turns the widget on and shows it
    assert!(s.toggle_widget_from_tray(false));
    assert!(s.widget_enabled);
    assert_eq!(s.sync_widget_visibility(true, false), WidgetVisibility::Show);
    assert!(s.tray_should_show(false));
    // and hides it again
    assert!(!s.toggle_widget_from_tray(true));
    assert_eq!(s.sync_widget_visibility(true, false), WidgetVisibility::Hide);
    assert_eq!(s.sync_widget_visibility(false, false), WidgetVisibility::Keep);
    s.hide_main_window_to_tray();
    s.set_widget_enabled(true);
    assert_eq!(s.sync_widget_visibility(true, false), WidgetVisibility::Show);
    s.restore_main_window();
    assert!(!s.collapsed_to_tray);
    s.dismiss_widget();
    assert_eq!(s.sync_widget_visibility(true, true), WidgetVisibility::Hide);
    assert!(!s.widget_dismissed);
    assert!(!s.should_collapse_to_tray());
}

#[test]
fn auto_sync_schedule() {
    let mut s: AppState<f64> = AppState::initial("1".to_string(), 0);
    assert!(s.should_auto_sync(None, 0));
    assert!(!s.should_auto_sync(Some(1_000), 2_999));
    assert!(s.should_auto_sync(Some(1_000), 3_000));
    s.set_auto_sync(false, 0);
    assert!(!s.should_auto_sync(None, 0));
    s.set_auto_sync(true, 0);
    s.calibration = Calibration { stage: CalibrationStage::Stable, started_at_ms: None, sample_count: 3 };
    assert_eq!(s.effective_sync_interval(), 5);
    assert!(!s.should_auto_sync(Some(0), 4_999));
    assert!(s.should_auto_sync(Some(0), 5_000));
}

#[test]
fn tray_texts() {
    assert_eq!(latency_label(12), "12ms");
    assert_eq!(latency_label(0), "0ms");
    assert_eq!(latency_label(-1), "--");
    assert_eq!(sync_state_label(true), "已同步");
    assert_eq!(sync_state_label(false), "沿用上次同步");
    assert_eq!(stage_tooltip("2.1.11", CalibrationStage::Degraded), "OpenTimeSync v2.1.11\n网络一般，等待下一轮校准");
    assert_eq!(stage_description(CalibrationStage::Idle), "未同步，当前显示本地时间");
}

#[test]
fn widget_geometry() {
    assert_eq!(widget_dimensions(100), (172, 42));
    assert_eq!(widget_dimensions(80), (156, 42));
    assert_eq!(widget_dimensions(125), (215, 43));
    assert_eq!(widget_dimensions(175), (301, 60));
    assert_eq!(widget_dimensions(220), (378, 75));
    for scale in 80u32..=220 {
        let f = scale as f64 / 100.0;
        let expect = (
            (172.0 * f).round().max(156.0) as u32,
            (34.0 * f).round().max(42.0) as u32,
        );
        assert_eq!(widget_dimensions(scale), expect, "scale {}", scale);
    }
    let area = WorkArea { x: 0, y: 0, width: 1920, height: 1040 };
    assert_eq!(position_widget(area, 172, 42, None), (1920 - 172 - 28, 1040 - 42 - 16));
    assert_eq!(position_widget(area, 172, 42, Some((100, 200))), (100, 200));
    assert_eq!(position_widget(area, 172, 42, Some((-50, 5000))), (8, 1040 - 42 - 8));
    let tiny = WorkArea { x: 10, y: 10, width: 50, height: 20 };
    assert_eq!(position_widget(tiny, 172, 42, None), (18, 18));
}
