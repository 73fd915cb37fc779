use opentimesync::civil::{windows_system_time, WindowsSystemTime};
use opentimesync::ntp::{
    check_response_len, invalid_timestamp_error, ntp_address, ntp_request_packet,
    ntp_timestamp_fields, outlier_window, wall_time_ms,
};
use opentimesync::clock::now_unix_ms;

fn st(year: u16, month: u16, day: u16, hour: u16, minute: u16, second: u16, ms: u16) -> WindowsSystemTime {
    WindowsSystemTime {
        year,
        month,
        day_of_week: 0,
        day,
        hour,
        minute,
        second,
        milliseconds: ms,
    }
}

#[test]
fn epoch_is_first_of_january_1970() {
    assert_eq!(windows_system_time(0), st(1970, 1, 1, 0, 0, 0, 0));
}

#[test]
fn leap_days_are_counted() {
    assert_eq!(windows_system_time(951_782_400_000), st(2000, 2, 29, 0, 0, 0, 0));
    assert_eq!(windows_system_time(1_709_251_199_999), st(2024, 2, 29, 23, 59, 59, 999));
    assert_eq!(windows_system_time(1_735_689_599_000), st(2024, 12, 31, 23, 59, 59, 0));
    assert_eq!(windows_system_time(4_107_542_400_000), st(2100, 3, 1, 0, 0, 0, 0));
}

#[test]
fn far_future_dates() {
    assert_eq!(windows_system_time(253_402_300_799_999), st(9999, 12, 31, 23, 59, 59, 999));
}

#[test]
fn request_packet_is_a_client_header_then_zeros() {
    let p = ntp_request_packet();
    assert_eq!(p.len(), 48);
    assert_eq!(p[0], 0x1b);
    assert!(p[1..].iter().all(|b| *b == 0));
}

#[test]
fn ntp_address_and_errors() {
    assert_eq!(ntp_address("pool.ntp.org"), "pool.ntp.org:123");
    assert_eq!(check_response_len(48), Ok(()));
    assert_eq!(check_response_len(64), Ok(()));
    assert_eq!(check_response_len(12), Err("short response: 12 bytes".to_string()));
    assert_eq!(check_response_len(0), Err("short response: 0 bytes".to_string()));
    assert_eq!(invalid_timestamp_error("a.b"), "invalid ntp timestamp from a.b");
}

#[test]
fn timestamp_fields_are_big_endian_and_shifted_to_unix() {
    let mut buf = [0u8; 48];
    // 2208988800 + 1 seconds, fraction 0x80000000 (half a second)
    let secs: u32 = 2_208_988_801;
    buf[32..36].copy_from_slice(&secs.to_be_bytes());
    buf[36..40].copy_from_slice(&0x8000_0000u32.to_be_bytes());
    buf[40..44].copy_from_slice(&5u32.to_be_bytes());
    buf[44..48].copy_from_slice(&0x0102_0304u32.to_be_bytes());
    assert_eq!(ntp_timestamp_fields(&buf, 32), (1, 0x8000_0000));
    // a time before the Unix epoch saturates to zero
    assert_eq!(ntp_timestamp_fields(&buf, 40), (0, 0x0102_0304));
}

#[test]
fn outlier_window_drops_from_both_ends() {
    assert_eq!(outlier_window(2, 0), None);
    assert_eq!(outlier_window(10, 1), Some((1, 9)));
    assert_eq!(outlier_window(3, 0), Some((0, 3)));
    assert_eq!(outlier_window(4, 2), None);
    assert_eq!(outlier_window(5, 2), Some((2, 3)));
}

#[test]
fn the_wall_clock_reads_after_2020() {
    assert!(now_unix_ms() > 1_577_836_800_000);
    assert!(wall_time_ms() > 1_577_836_800_000);
}
