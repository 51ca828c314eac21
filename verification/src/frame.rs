//! The satellite frame to fetch: its time (twenty minutes before now, in
//! UTC), the file it is cached in, which cached files are stale, and the
//! guard that lets only one download run at a time.

use vstd::prelude::*;
use vstd::string::*;
use chrono::{Datelike, NaiveDateTime, Timelike};
use crate::decimal::{decimal, push_decimal, decimal_value, is_canonical_numeral, lemma_decimal_reads_back, lemma_decimal_split};

verus! {

/// How far behind the present the fetched frame is, in milliseconds
/// (twenty minutes): the newest frames are not yet published.
pub const FRAME_DELAY_MS: i64 = 1_200_000;

/// The earliest second since the Unix epoch that chrono can turn into a
/// date (January 1 of year -262143, 00:00:00 UTC).
pub const MIN_UTC_SECS: i64 = -8_334_601_228_800;

/// The last second since the Unix epoch that chrono can turn into a date
/// (December 31 of year 262142, 23:59:59 UTC).
pub const MAX_UTC_SECS: i64 = 8_210_266_876_799;

/// A UTC time of day with its calendar date, to the minute.
#[derive(Clone, Copy, Debug, PartialEq, Eq)]
pub struct UtcTime {
    pub year: i32,
    pub month: u32,
    pub day: u32,
    pub hour: u32,
    pub minute: u32,
}

/// Whether `year` is a leap year of the proleptic Gregorian calendar
/// (year 0 is 1 BC).
pub open spec fn is_leap_year(year: int) -> bool {
    year % 4 == 0 && (year % 100 != 0 || year % 400 == 0)
}

/// The number of days of `month` (1 to 12) in `year`.
pub open spec fn days_in_month(year: int, month: int) -> int {
    if month == 2 {
        if is_leap_year(year) { 29 } else { 28 }
    } else if month == 4 || month == 6 || month == 9 || month == 11 {
        30
    } else {
        31
    }
}

/// The leap years from year 0 up to, not including, `year`; for a negative
/// `year`, minus the leap years from `year` up to, not including, year 0.
pub open spec fn leap_years_before(year: int) -> int {
    (year + 3) / 4 - (year + 99) / 100 + (year + 399) / 400
}

/// The days of `year` before the first of `month`.
pub open spec fn days_before_month(year: int, month: int) -> int {
    let common: int = if month == 1 { 0 } else if month == 2 { 31 } else if month == 3 { 59 }
        else if month == 4 { 90 } else if month == 5 { 120 } else if month == 6 { 151 }
        else if month == 7 { 181 } else if month == 8 { 212 } else if month == 9 { 243 }
        else if month == 10 { 273 } else if month == 11 { 304 } else { 334 };
    if is_leap_year(year) && month > 2 { common + 1 } else { common }
}

/// The number of days from 1970-01-01 to `year`-`month`-`day` of the
/// proleptic Gregorian calendar (negative before 1970); 719528 is the day
/// number of 1970-01-01 counted from 0000-01-01.
pub open spec fn days_from_epoch(year: int, month: int, day: int) -> int {
    365 * year + leap_years_before(year) + days_before_month(year, month) + day - 1 - 719528
}

/// The day numbers run through the calendar without gaps or overlaps:
/// 1970-01-01 is day 0; within a month each day follows the one before;
/// the first of a month follows the last day of the month before; and
/// January 1 follows December 31 of the year before. A year has 366 days
/// exactly when it is divisible by 4 and not by 100, or by 400.
pub proof fn lemma_calendar(year: int, month: int, day: int)
    requires
        1 <= month <= 12,
    ensures
        days_from_epoch(1970, 1, 1) == 0,
        days_from_epoch(year, month, day) == days_from_epoch(year, month, 1) + day - 1,
        month < 12 ==> days_from_epoch(year, month + 1, 1)
            == days_from_epoch(year, month, 1) + days_in_month(year, month),
        days_from_epoch(year + 1, 1, 1) == days_from_epoch(year, 12, 1) + days_in_month(year, 12),
        days_in_month(year, 2) == if year % 4 == 0 && (year % 100 != 0 || year % 400 == 0) { 29int } else { 28int },
        days_from_epoch(year + 1, 1, 1) - days_from_epoch(year, 1, 1)
            == if year % 4 == 0 && (year % 100 != 0 || year % 400 == 0) { 366int } else { 365int },
{
    let y = year;
    vstd::arithmetic::div_mod::lemma_fundamental_div_mod(y + 3, 4);
    vstd::arithmetic::div_mod::lemma_fundamental_div_mod(y + 4, 4);
    vstd::arithmetic::div_mod::lemma_fundamental_div_mod(y + 99, 100);
    vstd::arithmetic::div_mod::lemma_fundamental_div_mod(y + 100, 100);
    vstd::arithmetic::div_mod::lemma_fundamental_div_mod(y + 399, 400);
    vstd::arithmetic::div_mod::lemma_fundamental_div_mod(y + 400, 400);
    vstd::arithmetic::div_mod::lemma_fundamental_div_mod(y, 4);
    vstd::arithmetic::div_mod::lemma_fundamental_div_mod(y, 100);
    vstd::arithmetic::div_mod::lemma_fundamental_div_mod(y, 400);
    assert(leap_years_before(y + 1) - leap_years_before(y) == if is_leap_year(y) { 1int } else { 0int });
}

#[verifier::external_body]
#[allow(deprecated)]
fn utc_time_of(secs: i64) -> (t: UtcTime)
    requires
        MIN_UTC_SECS <= secs <= MAX_UTC_SECS,
    ensures
        days_from_epoch(t.year as int, t.month as int, t.day as int) == secs / 86400,
        1 <= t.month <= 12,
        1 <= t.day <= days_in_month(t.year as int, t.month as int),
        t.hour == (secs % 86400) / 3600,
        t.minute == (secs % 86400) % 3600 / 60,
{
    let naive = NaiveDateTime::from_timestamp(secs, 0);
    UtcTime {
        year: naive.year(),
        month: naive.month(),
        day: naive.day(),
        hour: naive.hour(),
        minute: naive.minute(),
    }
}

/// Division rounding toward zero, as Rust's `/` on signed integers does.
pub open spec fn trunc_div(a: int, d: int) -> int {
    if a >= 0 {
        a / d
    } else {
        -((-a) / d)
    }
}

/// The whole seconds since the Unix epoch of the frame to fetch at
/// `now_ms` milliseconds since the epoch.
pub open spec fn spec_frame_secs(now_ms: int) -> int {
    trunc_div(now_ms - FRAME_DELAY_MS, 1000)
}

/// Whether the frame time of `now_ms` is one that chrono can represent.
pub open spec fn frame_time_in_range(now_ms: int) -> bool {
    &&& now_ms - FRAME_DELAY_MS >= i64::MIN
    &&& MIN_UTC_SECS <= spec_frame_secs(now_ms) <= MAX_UTC_SECS
}

/// The seconds since the Unix epoch of the frame to fetch at `now_ms`:
/// twenty minutes earlier, cut to whole seconds.
pub fn frame_secs(now_ms: i64) -> (secs: i64)
    requires
        now_ms - FRAME_DELAY_MS >= i64::MIN,
    ensures
        secs == spec_frame_secs(now_ms as int),
{
    let t = now_ms - FRAME_DELAY_MS;
    if t >= 0 {
        t / 1000
    } else {
        let magnitude: u64 = ((-(t + 1)) as u64) + 1;
        let q: u64 = magnitude / 1000;
        -(q as i64)
    }
}

/// The UTC time of the frame to fetch at `now_ms`.
pub fn frame_time(now_ms: i64) -> (t: UtcTime)
    requires
        frame_time_in_range(now_ms as int),
    ensures
        days_from_epoch(t.year as int, t.month as int, t.day as int)
            == spec_frame_secs(now_ms as int) / 86400,
        t.hour == (spec_frame_secs(now_ms as int) % 86400) / 3600,
        t.minute == (spec_frame_secs(now_ms as int) % 86400) % 3600 / 60,
        1 <= t.month <= 12,
        1 <= t.day <= days_in_month(t.year as int, t.month as int),
{
    let secs = frame_secs(now_ms);
    utc_time_of(secs)
}

/// The name of the file a frame is cached in:
/// `"{dim}d_{day}_{hour}_{minute / 10}.png"`, so one file per grid size and
/// ten-minute slot of the day of the month.
pub open spec fn spec_frame_file_name(dim: nat, day: nat, hour: nat, minute: nat) -> Seq<char> {
    decimal(dim) + seq!['d', '_'] + decimal(day) + seq!['_'] + decimal(hour) + seq!['_']
        + decimal(minute / 10) + seq!['.', 'p', 'n', 'g']
}

/// The name of the file the frame at `t` with a `dim` x `dim` grid is
/// cached in.
pub fn frame_file_name(dim: u32, t: &UtcTime) -> (name: String)
    ensures
        name@ == spec_frame_file_name(dim as nat, t.day as nat, t.hour as nat, t.minute as nat),
{
    proof {
        reveal_strlit("d_");
        reveal_strlit("_");
        reveal_strlit(".png");
    }
    let mut name = String::new();
    push_decimal(&mut name, dim as u64);
    name.append("d_");
    push_decimal(&mut name, t.day as u64);
    name.append("_");
    push_decimal(&mut name, t.hour as u64);
    name.append("_");
    push_decimal(&mut name, (t.minute / 10) as u64);
    name.append(".png");
    name
}

/// Whether `name` is made of the numerals `dim`, `day`, `hour` and `slot`
/// in the pattern `{dim}d_{day}_{hour}_{slot}.png`, each numeral written
/// without leading zeros.
pub open spec fn name_fields(name: Seq<char>, dim: Seq<char>, day: Seq<char>, hour: Seq<char>, slot: Seq<char>) -> bool {
    &&& is_canonical_numeral(dim)
    &&& is_canonical_numeral(day)
    &&& is_canonical_numeral(hour)
    &&& is_canonical_numeral(slot)
    &&& name == dim + seq!['d', '_'] + day + seq!['_'] + hour + seq!['_'] + slot + seq!['.', 'p', 'n', 'g']
}

/// A frame's file name reads back as its grid size, day of the month, hour
/// and ten-minute slot: it is `{dim}d_{day}_{hour}_{slot}.png` with four
/// numerals whose values are `dim`, `day`, `hour` and `minute / 10`.
pub proof fn lemma_frame_file_name_fields(dim: nat, day: nat, hour: nat, minute: nat)
    ensures
        exists|a: Seq<char>, b: Seq<char>, c: Seq<char>, d: Seq<char>|
            #[trigger] name_fields(spec_frame_file_name(dim, day, hour, minute), a, b, c, d)
            && decimal_value(a) == dim && decimal_value(b) == day && decimal_value(c) == hour
            && decimal_value(d) == minute / 10,
{
    lemma_decimal_reads_back(dim);
    lemma_decimal_reads_back(day);
    lemma_decimal_reads_back(hour);
    lemma_decimal_reads_back(minute / 10);
    assert(name_fields(spec_frame_file_name(dim, day, hour, minute), decimal(dim), decimal(day),
        decimal(hour), decimal(minute / 10)));
}

/// The pattern of a file name, over any four numerals, grouped from the
/// right.
proof fn lemma_name_grouping(a: Seq<char>, b: Seq<char>, c: Seq<char>, d: Seq<char>)
    ensures
        a + seq!['d', '_'] + b + seq!['_'] + c + seq!['_'] + d + seq!['.', 'p', 'n', 'g']
            == a + (seq!['d', '_'] + (b + (seq!['_'] + (c + (seq!['_'] + (d + seq!['.', 'p', 'n', 'g'])))))),
{
    assert(a + seq!['d', '_'] + b + seq!['_'] + c + seq!['_'] + d + seq!['.', 'p', 'n', 'g']
        =~= a + (seq!['d', '_'] + (b + (seq!['_'] + (c + (seq!['_'] + (d + seq!['.', 'p', 'n', 'g'])))))));
}

/// Dropping a known head of a sequence.
proof fn lemma_skip_head(h: Seq<char>, t: Seq<char>)
    ensures
        (h + t).skip(h.len() as int) == t,
        h.len() > 0 ==> (h + t)[0] == h[0],
{
    assert((h + t).skip(h.len() as int) =~= t);
}

/// Two frames share a file exactly when they have the same grid size, day
/// of the month, hour and ten-minute slot.
pub proof fn lemma_frame_file_name_injective(dim1: nat, day1: nat, hour1: nat, minute1: nat,
    dim2: nat, day2: nat, hour2: nat, minute2: nat)
    ensures
        spec_frame_file_name(dim1, day1, hour1, minute1) == spec_frame_file_name(dim2, day2, hour2, minute2)
            <==> (dim1 == dim2 && day1 == day2 && hour1 == hour2 && minute1 / 10 == minute2 / 10),
{
    let n1 = spec_frame_file_name(dim1, day1, hour1, minute1);
    let n2 = spec_frame_file_name(dim2, day2, hour2, minute2);
    if n1 == n2 {
        let png = seq!['.', 'p', 'n', 'g'];
        let (a1, b1, c1, d1) = (decimal(dim1), decimal(day1), decimal(hour1), decimal(minute1 / 10));
        let (a2, b2, c2, d2) = (decimal(dim2), decimal(day2), decimal(hour2), decimal(minute2 / 10));
        lemma_name_grouping(a1, b1, c1, d1);
        lemma_name_grouping(a2, b2, c2, d2);
        let t1 = d1 + png;
        let t2 = d2 + png;
        let h1 = seq!['_'] + t1;
        let h2 = seq!['_'] + t2;
        let r1 = seq!['_'] + (c1 + h1);
        let r2 = seq!['_'] + (c2 + h2);
        let q1 = seq!['d', '_'] + (b1 + r1);
        let q2 = seq!['d', '_'] + (b2 + r2);
        lemma_skip_head(seq!['d', '_'], b1 + r1);
        lemma_skip_head(seq!['d', '_'], b2 + r2);
        lemma_decimal_split(dim1, dim2, q1, q2);
        lemma_skip_head(seq!['_'], c1 + h1);
        lemma_skip_head(seq!['_'], c2 + h2);
        lemma_decimal_split(day1, day2, r1, r2);
        lemma_skip_head(seq!['_'], t1);
        lemma_skip_head(seq!['_'], t2);
        lemma_decimal_split(hour1, hour2, h1, h2);
        lemma_decimal_split(minute1 / 10, minute2 / 10, png, png);
    }
}

/// The frame lags the present by twenty minutes, cut to whole seconds:
/// its time in milliseconds is at most twenty minutes before `now_ms`, and
/// less than a second more than that when the frame time is not negative.
pub proof fn lemma_frame_secs_delay(now_ms: int)
    requires
        now_ms - FRAME_DELAY_MS >= 0,
    ensures
        spec_frame_secs(now_ms) * 1000 <= now_ms - FRAME_DELAY_MS < spec_frame_secs(now_ms) * 1000 + 1000,
{
}

/// Before the epoch the frame time is also cut toward zero: its time in
/// milliseconds is at least twenty minutes before `now_ms`, and less than a
/// second more than that.
pub proof fn lemma_frame_secs_delay_negative(now_ms: int)
    requires
        now_ms - FRAME_DELAY_MS < 0,
    ensures
        spec_frame_secs(now_ms) * 1000 - 1000 < now_ms - FRAME_DELAY_MS <= spec_frame_secs(now_ms) * 1000,
{
}

/// Two frames of one grid size in the same ten-minute slot of the same hour
/// and day of the month are cached in the same file.
pub proof fn lemma_same_slot_same_file(dim: nat, t1: UtcTime, t2: UtcTime)
    requires
        t1.day == t2.day,
        t1.hour == t2.hour,
        t1.minute / 10 == t2.minute / 10,
    ensures
        spec_frame_file_name(dim, t1.day as nat, t1.hour as nat, t1.minute as nat)
            == spec_frame_file_name(dim, t2.day as nat, t2.hour as nat, t2.minute as nat),
{
}

/// The 2 x 2 and the 4 x 4 picture of a frame are cached in different
/// files.
pub proof fn lemma_grid_files_differ(day: nat, hour: nat, minute: nat)
    ensures
        spec_frame_file_name(2, day, hour, minute) != spec_frame_file_name(4, day, hour, minute),
{
    assert(spec_frame_file_name(2, day, hour, minute)[0] != spec_frame_file_name(4, day, hour, minute)[0]);
}

/// Exactly the five kept names are not stale: the icon, the wallpaper, the
/// configuration and the two cache files of the current frame; every other
/// file is deleted, whatever its name.
pub proof fn lemma_stale_unless_kept(path: Seq<char>, current_2x2: Seq<char>, current_4x4: Seq<char>)
    ensures
        spec_is_stale(path, current_2x2, current_4x4) <==> !(path == "icon.ico"@ || path == "wallpaper.png"@
            || path == "conf.ini"@ || path == current_2x2 || path == current_4x4),
{
}

/// The cache files of the current frame are never deleted.
pub proof fn lemma_current_frame_kept(current_2x2: Seq<char>, current_4x4: Seq<char>)
    ensures
        !spec_is_stale(current_2x2, current_2x2, current_4x4),
        !spec_is_stale(current_4x4, current_2x2, current_4x4),
{
}

/// Whether a file found in the working directory is to be deleted before a
/// download: everything but the icon, the wallpaper, the configuration and
/// the two cache files of the current frame.
pub open spec fn spec_is_stale(path: Seq<char>, current_2x2: Seq<char>, current_4x4: Seq<char>) -> bool {
    &&& path != "icon.ico"@
    &&& path != current_2x2
    &&& path != current_4x4
    &&& path != "wallpaper.png"@
    &&& path != "conf.ini"@
}

/// Whether the file `path` is stale, the current frame being cached in
/// `current_2x2` and `current_4x4`.
pub fn is_stale(path: &String, current_2x2: &String, current_4x4: &String) -> (stale: bool)
    ensures
        stale == spec_is_stale(path@, current_2x2@, current_4x4@),
{
    let icon = String::from_str("icon.ico");
    let wallpaper = String::from_str("wallpaper.png");
    let conf = String::from_str("conf.ini");
    !(*path == icon || *path == *current_2x2 || *path == *current_4x4 || *path == wallpaper
        || *path == conf)
}

/// The effect of [`DownloadGate::try_begin`] on a gate whose state is
/// `downloading`: whether the download starts, and the new state.
pub open spec fn spec_try_begin(downloading: bool) -> (bool, bool) {
    (!downloading, true)
}

/// Once a download has started, no other starts until it finishes; after
/// it finishes the next one starts.
pub proof fn lemma_gate_excludes(downloading: bool)
    ensures
        ({
            let (first, after_first) = spec_try_begin(downloading);
            let (second, _) = spec_try_begin(after_first);
            let (after_finish, _) = spec_try_begin(false);
            &&& !second
            &&& after_finish
            &&& first <==> !downloading
        }),
{
}

/// Whether a download is under way. At most one download runs at a time;
/// a request made meanwhile is dropped.
#[derive(Clone, Copy, Debug, PartialEq, Eq)]
pub struct DownloadGate {
    pub downloading: bool,
}

impl DownloadGate {
    /// No download under way.
    pub fn new() -> (gate: DownloadGate)
        ensures
            !gate.downloading,
    {
        DownloadGate { downloading: false }
    }

    /// Starts a download unless one is under way, and says whether it
    /// started; afterwards a download is under way either way.
    pub fn try_begin(&mut self) -> (started: bool)
        ensures
            (started, final(self).downloading) == spec_try_begin(old(self).downloading),
    {
        if self.downloading {
            false
        } else {
            self.downloading = true;
            true
        }
    }

    /// Marks the download as over.
    pub fn finish(&mut self)
        ensures
            !final(self).downloading,
    {
        self.downloading = false;
    }
}

} // verus!
