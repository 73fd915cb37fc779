use opentimesync::config::{
    clamp_sync_interval, default_master_host_string, default_pair_code, normalize_master_host,
    pair_code_from_millis, SavedConfig, SyncMode,
};
use opentimesync::servers::{available_servers, find_server, server_position};
use opentimesync::text::{
    contains_char, contains_str, is_white_space_char, push_decimal, push_padded_decimal, str_eq,
    trim,
};
use opentimesync::update::{format_update_error, update_in_progress, UpdateStatusPayload};
use opentimesync::widget::{clamp_widget_scale, default_widget_scale};

#[test]
fn trim_removes_unicode_white_space_at_both_ends() {
    assert_eq!(trim("  a b \t\n"), "a b");
    assert_eq!(trim("\u{3000}host\u{a0}"), "host");
    assert_eq!(trim("   "), "");
    assert_eq!(trim(""), "");
    assert_eq!(trim("x"), "x");
    assert_eq!(trim(trim(" q ")), trim(" q "));
}

#[test]
fn white_space_class_matches_std() {
    for c in ['\t', '\n', '\r', ' ', '\u{85}', '\u{a0}', '\u{2003}', '\u{3000}', 'a', ':', '0', '\u{200b}'] {
        assert_eq!(is_white_space_char(c), c.is_whitespace(), "{:?}", c);
    }
}

#[test]
fn searching_text() {
    assert!(contains_char("a:b", ':'));
    assert!(!contains_char("ab", ':'));
    assert!(contains_str("bad signature here", "signature"));
    assert!(!contains_str("sig", "signature"));
    assert!(contains_str("abc", ""));
    assert!(str_eq("abc", "abc"));
    assert!(!str_eq("abc", "abd"));
    assert!(!str_eq("abc", "ab"));
}

#[test]
fn decimal_rendering() {
    let mut s = String::from("x=");
    push_decimal(&mut s, 0);
    assert_eq!(s, "x=0");
    let mut s = String::new();
    push_decimal(&mut s, 36363);
    assert_eq!(s, "36363");
    let mut s = String::new();
    push_decimal(&mut s, u64::MAX);
    assert_eq!(s, u64::MAX.to_string());
    let mut s = String::new();
    push_padded_decimal(&mut s, 42, 6);
    assert_eq!(s, "000042");
    let mut s = String::new();
    push_padded_decimal(&mut s, 1234567, 6);
    assert_eq!(s, "234567");
}

#[test]
fn master_host_is_normalized() {
    assert_eq!(normalize_master_host(""), "127.0.0.1:36363");
    assert_eq!(normalize_master_host("   "), "127.0.0.1:36363");
    assert_eq!(normalize_master_host(" 192.168.1.5 "), "192.168.1.5:36363");
    assert_eq!(normalize_master_host("host:9000"), "host:9000");
    assert_eq!(default_master_host_string(), "127.0.0.1:36363");
}

#[test]
fn normalizing_twice_changes_nothing() {
    for h in ["", " a ", "b:1", "  c:2  ", "\tlan-master\n"] {
        let once = normalize_master_host(h);
        assert_eq!(normalize_master_host(&once), once);
    }
}

#[test]
fn pair_codes_have_six_digits() {
    assert_eq!(pair_code_from_millis(1_700_000_012_345), "012345");
    assert_eq!(pair_code_from_millis(7), "000007");
    let code = default_pair_code();
    assert_eq!(code.len(), 6);
    assert!(code.chars().all(|c| c.is_ascii_digit()));
}

#[test]
fn clamps() {
    assert_eq!(default_widget_scale(), 100);
    assert_eq!(clamp_widget_scale(0), 80);
    assert_eq!(clamp_widget_scale(150), 150);
    assert_eq!(clamp_widget_scale(1000), 220);
    assert_eq!(clamp_widget_scale(clamp_widget_scale(1000)), 220);
    assert_eq!(clamp_sync_interval(0), 2);
    assert_eq!(clamp_sync_interval(60), 60);
    assert_eq!(clamp_sync_interval(u64::MAX), 3600);
}

#[test]
fn first_run_config() {
    let c = SavedConfig::default();
    assert!(c.auto_sync);
    assert_eq!(c.sync_interval_secs, 5);
    assert_eq!(c.ntp_server, "ntp.tencent.com");
    assert_eq!(c.sync_mode, SyncMode::LocalNtp);
    assert_eq!(c.master_host, "127.0.0.1:36363");
    assert_eq!(c.pair_code.len(), 6);
    assert!(!c.widget_enabled);
    assert_eq!(c.widget_x, None);
    assert_eq!(c.widget_y, None);
    assert_eq!(c.widget_scale, 100);
}

#[test]
fn server_table_and_lookup() {
    let servers = available_servers();
    let hosts: Vec<&str> = servers.iter().map(|s| s.host.as_str()).collect();
    assert_eq!(
        hosts,
        vec!["ntp.tencent.com", "ntp.aliyun.com", "time.asia.apple.com", "time.google.com", "pool.ntp.org"]
    );
    assert_eq!(servers[0].label, "腾讯云");
    assert_eq!(servers[2].name, "Apple");
    let g = find_server("time.google.com");
    assert_eq!((g.host.as_str(), g.name.as_str(), g.label.as_str()), ("time.google.com", "Google", "Google"));
    let unknown = find_server("example.org");
    assert_eq!(unknown.host, "ntp.tencent.com");
    assert_eq!(unknown.name, "Tencent");
    assert_eq!(server_position("pool.ntp.org"), Some(4));
    assert_eq!(server_position("pool.ntp.org "), None);
}

#[test]
fn update_errors_are_worded() {
    assert_eq!(format_update_error("invalid signature for file"), "更新签名无效，请先检查发布签名配置");
    assert_eq!(format_update_error("ReleaseNotFound"), "未找到可用更新");
    assert_eq!(format_update_error("network down"), "network down");
    assert!(update_in_progress("checking"));
    assert!(update_in_progress("downloading"));
    assert!(update_in_progress("installing"));
    assert!(!update_in_progress("idle"));
    assert!(!update_in_progress("error"));
}

#[test]
fn update_status_texts() {
    let s = UpdateStatusPayload::available("1.0.0".to_string(), "1.2.0".to_string(), Some("notes".to_string()));
    assert_eq!(s.phase, "available");
    assert_eq!(s.message, "发现新版本 v1.2.0，点击下载并安装");
    assert_eq!(s.version.as_deref(), Some("1.2.0"));
    let s = UpdateStatusPayload::downloaded("1.0.0".to_string(), "1.2.0".to_string(), None, 99);
    assert_eq!(s.message, "v1.2.0 下载完成，点击安装并重启");
    assert_eq!((s.downloaded_bytes, s.total_bytes), (Some(99), Some(99)));
    let s = UpdateStatusPayload::install_failed("1.0.0".to_string(), "1.2.0".to_string(), None, "bad signature");
    assert_eq!(s.phase, "error");
    assert_eq!(s.message, "启动安装器失败：更新签名无效，请先检查发布签名配置");
    let s = UpdateStatusPayload::failed("1.0.0".to_string(), "boom");
    assert_eq!(s.message, "更新失败：boom");
    assert_eq!(UpdateStatusPayload::checking("1".to_string()).message, "正在检查更新...");
    assert_eq!(UpdateStatusPayload::up_to_date("1".to_string()).phase, "upToDate");
    let p = UpdateStatusPayload::preparing_download("1".to_string(), None);
    assert_eq!((p.phase.as_str(), p.downloaded_bytes), ("downloading", Some(0)));
    assert_eq!(UpdateStatusPayload::download_message("2.0"), "正在下载 v2.0");
    let i = UpdateStatusPayload::installing("1".to_string(), "2.0".to_string(), None);
    assert_eq!(i.message, "正在启动安装器，应用将自动关闭并在安装完成后回到 v2.0");
    let idle = UpdateStatusPayload::idle("3.0".to_string());
    assert_eq!((idle.phase.as_str(), idle.message.as_str()), ("idle", ""));
}
