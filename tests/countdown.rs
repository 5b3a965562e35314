use grape_planit::clock::LocalNow;
use grape_planit::config::{get_default_countdown_config, CountdownConfig, CustomCountdown};
use grape_planit::countdown::{
    calculate_countdown_timestamp, calculate_work_end_countdown, countdown_update, custom_countdown,
    get_all_countdowns, work_end_countdown,
};

// 2023-11-14T22:13:20Z
const NOW_TS: i64 = 1_700_000_000;

fn at_ten(nanos: u32) -> LocalNow {
    // 10:00:00 local time
    LocalNow { timestamp: NOW_TS, nanos, day_seconds: 36_000 }
}

fn work_end_config(time: &str, enabled: bool) -> CountdownConfig {
    let mut c = get_default_countdown_config();
    c.work_end_time = time.to_string();
    c.enable_work_end_countdown = enabled;
    c.time_display_mode = "workEnd".to_string();
    c
}

fn custom_config(target: &str, name: &str) -> CountdownConfig {
    let mut c = get_default_countdown_config();
    c.time_display_mode = "custom".to_string();
    c.custom_countdown = CustomCountdown { target: target.to_string(), name: name.to_string() };
    c
}

#[test]
fn work_end_in_the_past_is_finished() {
    let d = calculate_countdown_timestamp(&at_ten(250_000_000), &work_end_config("09:00", true), false);
    assert_eq!(d.mode, "workEnd");
    assert_eq!(d.status, "finished");
    assert_eq!(d.timestamp, 0);
    assert_eq!(d.target_info, "下班");
}

#[test]
fn work_end_exactly_now_is_finished() {
    let d = calculate_countdown_timestamp(&at_ten(0), &work_end_config("10:00", true), false);
    assert_eq!(d.status, "finished");
    assert_eq!(d.timestamp, 0);
}

#[test]
fn work_end_in_the_future_counts_whole_seconds() {
    let d = calculate_countdown_timestamp(&at_ten(0), &work_end_config("18:00", true), false);
    assert_eq!(d.status, "running");
    assert_eq!(d.timestamp, 8 * 3600);
    assert_eq!(d.target_info, "下班 18:00");
}

#[test]
fn work_end_remaining_drops_by_one_within_a_second() {
    let d = calculate_countdown_timestamp(&at_ten(400_000_000), &work_end_config("18:00", true), false);
    assert_eq!(d.status, "running");
    let t = 8 * 3600;
    assert!(d.timestamp >= t - 1 && d.timestamp <= t);
    assert_eq!(d.timestamp, t - 1);
}

#[test]
fn work_end_disabled_asks_for_a_time() {
    let d = calculate_countdown_timestamp(&at_ten(0), &work_end_config("18:00", false), false);
    assert_eq!(d.mode, "workEnd");
    assert_eq!(d.status, "reset");
    assert_eq!(d.timestamp, 0);
    assert_eq!(d.target_info, "请设置下班时间");
}

#[test]
fn work_end_unparsable_time_asks_for_a_time() {
    let d = calculate_countdown_timestamp(&at_ten(0), &work_end_config("25:99", true), false);
    assert_eq!(d.status, "reset");
    assert_eq!(d.target_info, "请设置下班时间");
    let e = calculate_countdown_timestamp(&at_ten(0), &work_end_config("", true), false);
    assert_eq!(e.status, "reset");
}

#[test]
fn work_end_reset_today_shows_reset() {
    let d = calculate_countdown_timestamp(&at_ten(0), &work_end_config("18:00", true), true);
    assert_eq!(d.status, "reset");
    assert_eq!(d.target_info, "已重置到明天");
}

#[test]
fn current_mode_is_a_plain_clock() {
    let d = calculate_countdown_timestamp(&at_ten(0), &get_default_countdown_config(), false);
    assert_eq!(d.mode, "current");
    assert_eq!(d.status, "running");
    assert_eq!(d.timestamp, 0);
    assert_eq!(d.target_info, "");
    let mut other = get_default_countdown_config();
    other.time_display_mode = "something".to_string();
    assert_eq!(calculate_countdown_timestamp(&at_ten(0), &other, false).mode, "current");
}

#[test]
fn custom_ten_minutes_ahead_is_running() {
    let d = calculate_countdown_timestamp(&at_ten(0), &custom_config("2023-11-14T22:23:20Z", "launch"), false);
    assert_eq!(d.mode, "custom");
    assert_eq!(d.status, "running");
    assert_eq!(d.timestamp, 600);
    assert_eq!(d.target_info, "launch");
}

#[test]
fn custom_target_with_offset_is_read_as_an_instant() {
    let d = calculate_countdown_timestamp(
        &at_ten(0),
        &custom_config("2023-11-15T06:23:20+08:00", "launch"),
        false,
    );
    assert_eq!(d.status, "running");
    assert_eq!(d.timestamp, 600);
}

#[test]
fn custom_past_target_is_finished() {
    let d = calculate_countdown_timestamp(&at_ten(0), &custom_config("2023-11-14T22:03:20Z", "launch"), false);
    assert_eq!(d.status, "finished");
    assert_eq!(d.timestamp, 0);
}

#[test]
fn custom_unparsable_target_is_reset() {
    let d = calculate_countdown_timestamp(&at_ten(0), &custom_config("next friday", "launch"), false);
    assert_eq!(d.mode, "custom");
    assert_eq!(d.status, "reset");
    assert_eq!(d.target_info, "请设置倒计时目标");
    let e = calculate_countdown_timestamp(&at_ten(0), &custom_config("", "launch"), false);
    assert_eq!(e.status, "reset");
}

#[test]
fn custom_countdown_from_parsed_target() {
    let name = "trip".to_string();
    let d = custom_countdown(&at_ten(500_000_000), Some((NOW_TS + 90, 0)), &name);
    assert_eq!(d.status, "running");
    assert_eq!(d.timestamp, 89);
    let e = custom_countdown(&at_ten(0), None, &name);
    assert_eq!(e.status, "reset");
}

#[test]
fn work_end_countdown_from_parsed_time() {
    let time = "12:30".to_string();
    let d = work_end_countdown(&at_ten(0), Some((12, 30)), &time).unwrap();
    assert_eq!(d.timestamp, 9000);
    assert_eq!(d.target_info, "下班 12:30");
    assert!(work_end_countdown(&at_ten(0), None, &time).is_none());
}

#[test]
fn work_end_countdown_absent_when_disabled() {
    assert!(calculate_work_end_countdown(&at_ten(0), &work_end_config("18:00", false), false).is_none());
    assert_eq!(get_all_countdowns(&at_ten(0), &work_end_config("18:00", false), false).len(), 0);
    assert_eq!(get_all_countdowns(&at_ten(0), &work_end_config("18:00", true), false).len(), 1);
}

#[test]
fn emitter_publishes_only_real_countdowns() {
    assert!(countdown_update(&at_ten(0), &get_default_countdown_config(), false).is_none());
    let d = countdown_update(&at_ten(0), &work_end_config("18:00", true), false).unwrap();
    assert_eq!(d.timestamp, 28_800);
    let c = countdown_update(&at_ten(0), &custom_config("bad", "x"), false).unwrap();
    assert_eq!(c.status, "reset");
}
