use himawari_wallpaper::frame::{
    frame_file_name, frame_secs, frame_time, is_stale, DownloadGate, UtcTime, FRAME_DELAY_MS, MAX_UTC_SECS, MIN_UTC_SECS,
};
use chrono::{DateTime, Datelike, Timelike};

#[test]
fn frame_is_twenty_minutes_back() {
    assert_eq!(frame_secs(1_551_800_000_000 + 1_200_000), 1_551_800_000);
    assert_eq!(frame_secs(1_551_800_000_999 + 1_200_000), 1_551_800_000);
    assert_eq!(frame_secs(1_200_000), 0);
    assert_eq!(frame_secs(1_200_000 - 1500), -1);
    assert_eq!(frame_secs(1_200_000 - 999), 0);
    assert_eq!(frame_secs(i64::MIN + 1_200_000), i64::MIN / 1000);
}

#[test]
fn frame_time_in_utc() {
    // 2019-03-05 15:33:20 UTC
    let t = frame_time(1_551_800_000_000 + 1_200_000);
    assert_eq!(t, UtcTime { year: 2019, month: 3, day: 5, hour: 15, minute: 33 });
    let epoch = frame_time(1_200_000);
    assert_eq!(epoch, UtcTime { year: 1970, month: 1, day: 1, hour: 0, minute: 0 });
    let before = frame_time(1_200_000 - 61_000);
    assert_eq!(before, UtcTime { year: 1969, month: 12, day: 31, hour: 23, minute: 58 });
}

#[test]
fn frame_file_names() {
    let t = UtcTime { year: 2019, month: 3, day: 5, hour: 15, minute: 33 };
    assert_eq!(frame_file_name(4, &t), "4d_5_15_3.png");
    assert_eq!(frame_file_name(2, &t), "2d_5_15_3.png");
    let late = UtcTime { year: 2019, month: 12, day: 31, hour: 0, minute: 9 };
    assert_eq!(frame_file_name(2, &late), "2d_31_0_0.png");
    let slot = UtcTime { minute: 39, ..t };
    assert_eq!(frame_file_name(4, &slot), frame_file_name(4, &t));
}

#[test]
fn stale_files() {
    let cur2 = String::from("2d_5_15_3.png");
    let cur4 = String::from("4d_5_15_3.png");
    for keep in ["icon.ico", "wallpaper.png", "conf.ini", "2d_5_15_3.png", "4d_5_15_3.png"] {
        assert!(!is_stale(&keep.to_string(), &cur2, &cur4), "{}", keep);
    }
    for old in ["2d_5_15_2.png", "4d_4_15_3.png", "notes.txt", "", "ICON.ICO"] {
        assert!(is_stale(&old.to_string(), &cur2, &cur4), "{}", old);
    }
}

#[test]
fn gate_lets_one_download_run() {
    let mut gate = DownloadGate::new();
    assert!(gate.try_begin());
    assert!(!gate.try_begin());
    assert!(gate.downloading);
    gate.finish();
    assert!(!gate.downloading);
    assert!(gate.try_begin());
}

#[test]
fn utc_bounds_are_chronos() {
    assert!(DateTime::from_timestamp(MIN_UTC_SECS, 0).is_some());
    assert!(DateTime::from_timestamp(MIN_UTC_SECS - 1, 0).is_none());
    assert!(DateTime::from_timestamp(MAX_UTC_SECS, 0).is_some());
    assert!(DateTime::from_timestamp(MAX_UTC_SECS + 1, 0).is_none());
    let first = frame_time(MIN_UTC_SECS * 1000 + FRAME_DELAY_MS);
    assert_eq!(first, UtcTime { year: -262143, month: 1, day: 1, hour: 0, minute: 0 });
    let last = frame_time(MAX_UTC_SECS * 1000 + FRAME_DELAY_MS);
    assert_eq!(last, UtcTime { year: 262142, month: 12, day: 31, hour: 23, minute: 59 });
}

fn is_leap_year(year: i64) -> bool {
    year.rem_euclid(4) == 0 && (year.rem_euclid(100) != 0 || year.rem_euclid(400) == 0)
}

fn days_from_epoch(year: i64, month: i64, day: i64) -> i64 {
    let before = [0, 31, 59, 90, 120, 151, 181, 212, 243, 273, 304, 334][(month - 1) as usize];
    let leap = if is_leap_year(year) && month > 2 { 1 } else { 0 };
    let leaps = (year + 3).div_euclid(4) - (year + 99).div_euclid(100) + (year + 399).div_euclid(400);
    365 * year + leaps + before + leap + day - 1 - 719528
}

fn days_in_month(year: i64, month: i64) -> i64 {
    match month {
        2 => if is_leap_year(year) { 29 } else { 28 },
        4 | 6 | 9 | 11 => 30,
        _ => 31,
    }
}

#[test]
fn frame_dates_follow_the_gregorian_calendar() {
    let mut secs: i64 = MIN_UTC_SECS;
    let step: i64 = 86_400 * 977 + 3_607;
    while secs <= MAX_UTC_SECS {
        let t = frame_time(secs * 1000 + FRAME_DELAY_MS);
        let (y, m, d) = (t.year as i64, t.month as i64, t.day as i64);
        assert!((1..=12).contains(&m) && d >= 1 && d <= days_in_month(y, m), "{}", secs);
        assert_eq!(days_from_epoch(y, m, d), secs.div_euclid(86_400), "{}", secs);
        assert_eq!(t.hour as i64, secs.rem_euclid(86_400) / 3600);
        assert_eq!(t.minute as i64, secs.rem_euclid(3600) / 60);
        let direct = DateTime::from_timestamp(secs, 0).unwrap();
        assert_eq!((direct.year(), direct.month(), direct.day(), direct.hour()), (t.year, t.month, t.day, t.hour));
        secs += step;
    }
    for day in -800_000i64..800_000 {
        let t = frame_time(day * 86_400_000 + FRAME_DELAY_MS);
        assert_eq!(days_from_epoch(t.year as i64, t.month as i64, t.day as i64), day);
    }
}
