use opentimesync::calibration::CalibrationStage;
use opentimesync::config::SyncMode;
use opentimesync::ntp::check_timestamps;
use opentimesync::payload::{local_latencies, settle_offset, slave_payload, MasterTimeRequest, NtpTimePayload};
use opentimesync::state::AppState;
use opentimesync::update::{check_outcome_status, UpdateStatusPayload};

fn master_result() -> NtpTimePayload<f64> {
    slave_payload(5_000u64, 1.5f64, 4, 1, "10.0.0.2:36363", CalibrationStage::Calibrating)
}

#[test]
fn unreachable_master_times_out_while_a_result_stands_in() {
    let mut s: AppState<f64> = AppState::initial("1".to_string(), 0);
    s.set_sync_mode(SyncMode::Slave, 0);
    s.finish_refresh(Ok(master_result()), 1, SyncMode::Slave, 100).unwrap();
    assert_eq!(s.calibration.stage, CalibrationStage::Calibrating);
    // the master stops answering; the earlier result stands in
    s.finish_refresh(Err("unreachable".to_string()), 2, SyncMode::Slave, 10_000).unwrap();
    assert_eq!(s.calibration.stage, CalibrationStage::Calibrating);
    s.finish_refresh(Err("unreachable".to_string()), 3, SyncMode::Slave, 30_000).unwrap();
    assert_eq!(s.calibration.stage, CalibrationStage::Degraded);
    assert_eq!(s.calibration.started_at_ms, None);
    let stale = s.last_payload.as_ref().unwrap();
    assert_eq!(stale.calibration_stage, CalibrationStage::Degraded);
    assert_eq!(stale.server_time, 5_000);
    assert!(!stale.has_fresh_data);
    // and the loop falls back to the configured cadence
    assert_eq!(s.effective_sync_interval(), 5);
}

#[test]
fn latency_hosts_are_distinct() {
    let lat = local_latencies("ntp.tencent.com", Some(3));
    for i in 0..lat.len() {
        for j in 0..lat.len() {
            if i != j {
                assert_ne!(lat[i].host, lat[j].host);
            }
        }
    }
}

#[test]
fn server_timestamps_are_checked_against_2000_only() {
    assert_eq!(check_timestamps(946_684_800, 946_684_800, "s"), Ok(()));
    assert_eq!(check_timestamps(4_000_000_000, 2_000_000_000, "s"), Ok(()));
    assert_eq!(
        check_timestamps(946_684_799, 1_700_000_000, "pool.ntp.org"),
        Err("invalid ntp timestamp from pool.ntp.org".to_string())
    );
    assert!(check_timestamps(1_700_000_000, 0, "s").is_err());
}

fn request(code: &str) -> Result<MasterTimeRequest, String> {
    Ok(MasterTimeRequest { pair_code: code.to_string(), client_sent_ms: 0 })
}

#[test]
fn master_answers_each_kind_of_request() {
    let mut s: AppState<f64> = AppState::initial("1".to_string(), 0);
    s.set_sync_mode(SyncMode::Master, 0);
    s.set_pair_code("777777");
    let r = s.answer_request(Err("reset by peer"), request("777777"), Some(master_result()));
    assert_eq!((r.ok, r.message.as_str()), (false, "读取请求失败: reset by peer"));
    let r = s.answer_request(Ok("  \n"), Err("EOF".to_string()), Some(master_result()));
    assert_eq!((r.ok, r.message.as_str()), (false, "空请求"));
    let r = s.answer_request(Ok("{oops"), Err("key must be a string".to_string()), Some(master_result()));
    assert_eq!((r.ok, r.message.as_str()), (false, "请求格式错误: key must be a string"));
    let r = s.answer_request(Ok("{..}"), request("111111"), Some(master_result()));
    assert_eq!((r.ok, r.message.as_str()), (false, "配对码不正确"));
    let r = s.answer_request(Ok("{..}"), request(" 777777 "), Some(master_result()));
    assert!(r.ok);
    assert_eq!(r.payload.unwrap().server_time, 5_000);
}

#[test]
fn update_steps() {
    let mut s: AppState<f64> = AppState::initial("1.0".to_string(), 0);
    s.set_update_status(check_outcome_status(
        "1.0".to_string(),
        Some(("1.1".to_string(), Some("fixes".to_string()))),
    ));
    assert_eq!(s.update_status.phase, "available");
    assert_eq!(s.update_status.message, "发现新版本 v1.1，点击下载并安装");
    assert_eq!(s.begin_download("1.0".to_string()), Ok(()));
    assert_eq!(s.update_status.phase, "downloading");
    assert_eq!(s.update_status.notes.as_deref(), Some("fixes"));
    assert_eq!(s.update_status.downloaded_bytes, Some(0));
    assert_eq!(s.begin_download("1.0".to_string()), Err("更新任务正在进行中".to_string()));
    s.set_update_status(UpdateStatusPayload::downloaded("1.0".to_string(), "1.1".to_string(), None, 10));
    assert_eq!(s.begin_install(None), Err("尚未下载可安装的更新".to_string()));
    assert_eq!(s.update_status.phase, "downloaded");
    assert_eq!(s.begin_install(Some(("1.1".to_string(), None))), Ok(()));
    assert_eq!(s.update_status.phase, "installing");
    assert_eq!(s.update_status.current_version, "1.0");
    let none = check_outcome_status("1.0".to_string(), None);
    assert_eq!((none.phase.as_str(), none.message.as_str()), ("upToDate", "已是最新版本"));
}

#[test]
fn offset_without_fresh_data_keeps_the_previous_one() {
    assert_eq!(settle_offset(Some((2.5f64, 12)), Some(9.0), 0.0), (2.5, 12));
    assert_eq!(settle_offset(None, Some(9.0f64), 0.0), (9.0, -1));
    assert_eq!(settle_offset::<f64>(None, None, 0.0), (0.0, -1));
}

#[test]
fn initial_update_status_is_idle_and_empty() {
    let s: AppState<f64> = AppState::initial("2.0".to_string(), 0);
    let u = &s.update_status;
    assert_eq!((u.phase.as_str(), u.current_version.as_str(), u.message.as_str()), ("idle", "2.0", ""));
    assert!(u.version.is_none() && u.notes.is_none());
    assert!(u.downloaded_bytes.is_none() && u.total_bytes.is_none());
}
