//! The countdown calculator: from the current moment and the configuration
//! to the payload that the widget displays.
use crate::clock::{hm_of, instant_of, local_now, parse_hm, parse_instant, LocalNow};
use crate::config::CountdownConfig;
use crate::text::owned;
use vstd::prelude::*;

verus! {

/// What the widget displays: the mode, the whole seconds left, a label and
/// one of the states `running`, `finished` or `reset`.
pub struct CountdownData {
    pub mode: String,
    pub timestamp: i64,
    pub target_info: String,
    pub status: String,
}

/// The mathematical content of a [`CountdownData`].
pub struct CountdownView {
    pub mode: Seq<char>,
    pub timestamp: i64,
    pub target_info: Seq<char>,
    pub status: Seq<char>,
}

impl View for CountdownData {
    type V = CountdownView;

    open spec fn view(&self) -> CountdownView {
        CountdownView {
            mode: self.mode@,
            timestamp: self.timestamp,
            target_info: self.target_info@,
            status: self.status@,
        }
    }
}

/// The display modes, read from the configured text.
pub enum DisplayMode {
    Current,
    WorkEnd,
    Custom,
}

/// Unknown text selects the plain clock.
pub open spec fn mode_of(s: Seq<char>) -> DisplayMode {
    if s == "workEnd"@ {
        DisplayMode::WorkEnd
    } else if s == "custom"@ {
        DisplayMode::Custom
    } else {
        DisplayMode::Current
    }
}

pub open spec fn nanos_per_second() -> int {
    1_000_000_000
}

/// Nanoseconds from `now` until the instant `secs` seconds plus `nanos`
/// nanoseconds after the epoch; negative once that instant has passed.
pub open spec fn nanos_until(now: LocalNow, secs: int, nanos: int) -> int {
    (secs * nanos_per_second() + nanos) - (now.timestamp * nanos_per_second() + now.nanos)
}

/// Whole seconds in a positive span of nanoseconds, rounded down and capped
/// at the largest `i64`.
pub open spec fn whole_seconds(d: int) -> i64 {
    if d / nanos_per_second() > i64::MAX {
        i64::MAX
    } else {
        (d / nanos_per_second()) as i64
    }
}

/// The countdown towards an instant: finished, with nothing left, once the
/// instant is reached; running otherwise.
pub open spec fn countdown_to(
    now: LocalNow,
    secs: int,
    nanos: int,
    mode: Seq<char>,
    finished_label: Seq<char>,
    running_label: Seq<char>,
) -> CountdownView {
    let d = nanos_until(now, secs, nanos);
    if d <= 0 {
        CountdownView { mode, timestamp: 0, target_info: finished_label, status: "finished"@ }
    } else {
        CountdownView {
            mode,
            timestamp: whole_seconds(d),
            target_info: running_label,
            status: "running"@,
        }
    }
}

/// The plain clock display: nothing counts down.
pub open spec fn clock_view() -> CountdownView {
    CountdownView { mode: "current"@, timestamp: 0, target_info: Seq::empty(), status: "running"@ }
}

/// A display in the `reset` state with a prompt.
pub open spec fn reset_view(mode: Seq<char>, prompt: Seq<char>) -> CountdownView {
    CountdownView { mode, timestamp: 0, target_info: prompt, status: "reset"@ }
}

/// Label shown once work has ended.
pub open spec fn off_work_label() -> Seq<char> {
    "下班"@
}

/// Label shown while work has not ended: it carries the configured time.
pub open spec fn work_end_label(time: Seq<char>) -> Seq<char> {
    "下班 "@ + time
}

/// Instant, in seconds since the epoch, of today's local time `h:m`.
pub open spec fn today_at(now: LocalNow, h: u32, m: u32) -> int {
    now.timestamp - now.day_seconds + h * 3600 + m * 60
}

/// The work-end countdown for a time of day that was parsed as `hm`.
pub open spec fn work_end_view(now: LocalNow, hm: Option<(u32, u32)>, time: Seq<char>) -> Option<
    CountdownView,
> {
    match hm {
        Some((h, m)) => Some(
            countdown_to(
                now,
                today_at(now, h, m),
                0,
                "workEnd"@,
                off_work_label(),
                work_end_label(time),
            ),
        ),
        None => None,
    }
}

/// The work-end countdown that the configuration asks for, if one can be
/// shown: the feature is on, a time is set and parses, and the countdown
/// was not reset today.
pub open spec fn work_end_spec(now: LocalNow, config: CountdownConfig, reset_today: bool) -> Option<
    CountdownView,
> {
    if !config.enable_work_end_countdown || config.work_end_time@.len() == 0 {
        None
    } else if reset_today {
        Some(reset_view("workEnd"@, "已重置到明天"@))
    } else {
        work_end_view(now, hm_of(config.work_end_time@), config.work_end_time@)
    }
}

/// The custom countdown towards a target that was parsed as `target`.
pub open spec fn custom_view(now: LocalNow, target: Option<(i64, u32)>, name: Seq<char>) -> CountdownView {
    match target {
        Some((s, n)) => countdown_to(now, s as int, n as int, "custom"@, name, name),
        None => reset_view("custom"@, "请设置倒计时目标"@),
    }
}

/// The display for a configuration at a moment.
pub open spec fn countdown_spec(now: LocalNow, config: CountdownConfig, reset_today: bool) -> CountdownView {
    match mode_of(config.time_display_mode@) {
        DisplayMode::Current => clock_view(),
        DisplayMode::WorkEnd => match work_end_spec(now, config, reset_today) {
            Some(v) => v,
            None => reset_view("workEnd"@, "请设置下班时间"@),
        },
        DisplayMode::Custom => custom_view(
            now,
            instant_of(config.custom_countdown.target@),
            config.custom_countdown.name@,
        ),
    }
}

fn countdown_to_instant(
    now: &LocalNow,
    secs: i128,
    nanos: u32,
    mode: String,
    finished_label: String,
    running_label: String,
) -> (r: CountdownData)
    requires
        -0x1_0000_0000_0000_0000 <= secs <= 0x1_0000_0000_0000_0000,
    ensures
        r@ == countdown_to(*now, secs as int, nanos as int, mode@, finished_label@, running_label@),
{
    let billion: i128 = 1_000_000_000;
    assert(-0x1_0000_0000_0000_0000 * 1_000_000_000 <= secs * 1_000_000_000
        <= 0x1_0000_0000_0000_0000 * 1_000_000_000) by (nonlinear_arith)
        requires
            -0x1_0000_0000_0000_0000 <= secs <= 0x1_0000_0000_0000_0000,
    ;
    let ts = now.timestamp as i128;
    assert(-0x1_0000_0000_0000_0000 * 1_000_000_000 <= ts * 1_000_000_000
        <= 0x1_0000_0000_0000_0000 * 1_000_000_000) by (nonlinear_arith)
        requires
            -0x1_0000_0000_0000_0000 <= ts <= 0x1_0000_0000_0000_0000,
    ;
    let d: i128 = (secs * billion + nanos as i128) - (ts * billion + now.nanos as i128);
    if d <= 0 {
        CountdownData { mode, timestamp: 0, target_info: finished_label, status: owned("finished") }
    } else {
        let q: i128 = d / billion;
        let left: i64 = if q > i64::MAX as i128 {
            i64::MAX
        } else {
            q as i64
        };
        CountdownData { mode, timestamp: left, target_info: running_label, status: owned("running") }
    }
}

/// The work-end countdown for a time of day already parsed as `hm` from
/// the text `time`; `None` where it did not parse.
pub fn work_end_countdown(now: &LocalNow, hm: Option<(u32, u32)>, time: &String) -> (r: Option<
    CountdownData,
>)
    ensures
        r matches Some(d) ==> work_end_view(*now, hm, time@) == Some(d@),
        r is None <==> work_end_view(*now, hm, time@) is None,
{
    match hm {
        Some((h, m)) => {
            let target: i128 = now.timestamp as i128 - now.day_seconds as i128 + h as i128 * 3600
                + m as i128 * 60;
            let mut label = owned("下班 ");
            label.append(time.as_str());
            Some(countdown_to_instant(now, target, 0, owned("workEnd"), owned("下班"), label))
        },
        None => None,
    }
}

/// The work-end countdown for a configuration: `None` where the feature is
/// off, no time is set, or the time does not parse.
pub fn calculate_work_end_countdown(now: &LocalNow, config: &CountdownConfig, reset_today: bool) -> (r:
    Option<CountdownData>)
    ensures
        r matches Some(d) ==> work_end_spec(*now, *config, reset_today) == Some(d@),
        r is None <==> work_end_spec(*now, *config, reset_today) is None,
{
    if !config.enable_work_end_countdown || config.work_end_time.as_str().unicode_len() == 0 {
        return None;
    }
    if reset_today {
        return Some(
            CountdownData {
                mode: owned("workEnd"),
                timestamp: 0,
                target_info: owned("已重置到明天"),
                status: owned("reset"),
            },
        );
    }
    let hm = parse_hm(config.work_end_time.as_str());
    work_end_countdown(now, hm, &config.work_end_time)
}

/// The custom countdown for a target already parsed as `target`, shown
/// under `name`.
pub fn custom_countdown(now: &LocalNow, target: Option<(i64, u32)>, name: &String) -> (r: CountdownData)
    ensures
        r@ == custom_view(*now, target, name@),
{
    match target {
        Some((s, n)) => countdown_to_instant(now, s as i128, n, owned("custom"), name.clone(), name.clone()),
        None => CountdownData {
            mode: owned("custom"),
            timestamp: 0,
            target_info: owned("请设置倒计时目标"),
            status: owned("reset"),
        },
    }
}

/// The display mode that the configured text selects.
pub fn display_mode(s: &String) -> (r: DisplayMode)
    ensures
        r == mode_of(s@),
{
    if *s == owned("workEnd") {
        DisplayMode::WorkEnd
    } else if *s == owned("custom") {
        DisplayMode::Custom
    } else {
        DisplayMode::Current
    }
}

/// The countdown calculator: what the widget shows at `now` for `config`,
/// where `reset_today` tells whether the work-end countdown was reset to
/// the next day earlier today.
pub fn calculate_countdown_timestamp(now: &LocalNow, config: &CountdownConfig, reset_today: bool) -> (r:
    CountdownData)
    ensures
        r@ == countdown_spec(*now, *config, reset_today),
{
    match display_mode(&config.time_display_mode) {
        DisplayMode::Current => CountdownData {
            mode: owned("current"),
            timestamp: 0,
            target_info: String::new(),
            status: owned("running"),
        },
        DisplayMode::WorkEnd => match calculate_work_end_countdown(now, config, reset_today) {
            Some(d) => d,
            None => CountdownData {
                mode: owned("workEnd"),
                timestamp: 0,
                target_info: owned("请设置下班时间"),
                status: owned("reset"),
            },
        },
        DisplayMode::Custom => {
            let target = parse_instant(config.custom_countdown.target.as_str());
            custom_countdown(now, target, &config.custom_countdown.name)
        },
    }
}


/// Every countdown that can be shown: at most the work-end one.
pub fn get_all_countdowns(now: &LocalNow, config: &CountdownConfig, reset_today: bool) -> (r: Vec<
    CountdownData,
>)
    ensures
        work_end_spec(*now, *config, reset_today) is None ==> r@.len() == 0,
        work_end_spec(*now, *config, reset_today) matches Some(v) ==> r@.len() == 1 && r@[0]@ == v,
{
    let mut all = Vec::new();
    if let Some(d) = calculate_work_end_countdown(now, config, reset_today) {
        all.push(d);
    }
    all
}

/// What one tick of the periodic emitter publishes: nothing in the plain
/// clock mode, the display otherwise.
pub open spec fn update_spec(now: LocalNow, config: CountdownConfig, reset_today: bool) -> Option<
    CountdownView,
> {
    if mode_of(config.time_display_mode@) is Current {
        None
    } else {
        Some(countdown_spec(now, config, reset_today))
    }
}

pub open spec fn view_of_update(r: Option<CountdownData>) -> Option<CountdownView> {
    match r {
        Some(d) => Some(d@),
        None => None,
    }
}

/// The payload that the periodic emitter publishes at `now`, if any.
pub fn countdown_update(now: &LocalNow, config: &CountdownConfig, reset_today: bool) -> (r: Option<
    CountdownData,
>)
    ensures
        view_of_update(r) == update_spec(*now, *config, reset_today),
{
    match display_mode(&config.time_display_mode) {
        DisplayMode::Current => None,
        _ => Some(calculate_countdown_timestamp(now, config, reset_today)),
    }
}

/// One tick of the periodic emitter, read against the local clock.
pub fn countdown_tick(config: &CountdownConfig, reset_today: bool) -> (r: Option<CountdownData>)
    ensures
        exists|now: LocalNow| view_of_update(r) == #[trigger] update_spec(now, *config, reset_today),
{
    let now = local_now();
    let r = countdown_update(&now, config, reset_today);
    assert(view_of_update(r) == update_spec(now, *config, reset_today));
    r
}

/// A work-end time of day that has already passed today gives a finished
/// display with no time left.
pub proof fn lemma_work_end_past(now: LocalNow, config: CountdownConfig, h: u32, m: u32)
    requires
        now.wf(),
        mode_of(config.time_display_mode@) is WorkEnd,
        config.enable_work_end_countdown,
        config.work_end_time@.len() > 0,
        hm_of(config.work_end_time@) == Some((h, m)),
        h * 3600 + m * 60 <= now.day_seconds,
    ensures
        countdown_spec(now, config, false).status == "finished"@,
        countdown_spec(now, config, false).timestamp == 0,
{
    let t = today_at(now, h, m);
    assert(t <= now.timestamp);
    assert(t * nanos_per_second() <= now.timestamp * nanos_per_second()) by (nonlinear_arith)
        requires
            t <= now.timestamp,
    ;
}

/// A work-end time of day `t` seconds ahead gives a running display with
/// `t - 1` or `t` whole seconds left, the difference being the fraction of
/// the current second that has gone by.
pub proof fn lemma_work_end_future(now: LocalNow, config: CountdownConfig, h: u32, m: u32)
    requires
        now.wf(),
        mode_of(config.time_display_mode@) is WorkEnd,
        config.enable_work_end_countdown,
        config.work_end_time@.len() > 0,
        hm_of(config.work_end_time@) == Some((h, m)),
        h * 3600 + m * 60 > now.day_seconds,
    ensures
        countdown_spec(now, config, false).status == "running"@,
        h * 3600 + m * 60 - now.day_seconds - 1 <= countdown_spec(now, config, false).timestamp,
        countdown_spec(now, config, false).timestamp <= h * 3600 + m * 60 - now.day_seconds,
{
    let t: int = h * 3600 + m * 60 - now.day_seconds;
    let d = nanos_until(now, today_at(now, h, m), 0);
    assert(d == t * 1_000_000_000 - now.nanos) by (nonlinear_arith)
        requires
            d == (now.timestamp + t) * 1_000_000_000 - (now.timestamp * 1_000_000_000 + now.nanos),
    ;
    assert(t <= 0x1_0000_0000 * 3660) by (nonlinear_arith)
        requires
            t == h * 3600 + m * 60 - now.day_seconds,
            h <= 0xffff_ffff,
            m <= 0xffff_ffff,
            now.day_seconds >= 0,
    ;
    assert((t - 1) * 1_000_000_000 < d <= t * 1_000_000_000) by (nonlinear_arith)
        requires
            d == t * 1_000_000_000 - now.nanos,
            0 <= now.nanos < 1_000_000_000,
    ;
    assert(t - 1 <= d / 1_000_000_000 <= t) by (nonlinear_arith)
        requires
            (t - 1) * 1_000_000_000 < d <= t * 1_000_000_000,
    ;
}

} // verus!
