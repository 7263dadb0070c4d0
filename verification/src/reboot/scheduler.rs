//! Tier selection and reminder times.
//!
//! The hours that count for the tier are those since the earliest detection
//! among the current evidence, not those since the state first recorded the
//! reboot as required.

use vstd::prelude::*;
use vstd::string::StringExecFns;
use crate::config::models::{text_seconds, timespan_setting, RebootConfig, TimeframeConfig};
use crate::database::models::{RebootSource, RebootState};
use crate::time::{clamp_i64, format_utc, utc_now, utc_text, whole_hours_between, Timestamp};
use crate::utils::text::{push_signed_decimal, signed_decimal};
use crate::utils::timespan::{
    format_timespan, parse_timespan, timespan_seconds, timespan_text, TimespanError,
};

verus! {

/// The lower bound of a tier in hours: that of the timespan text where there
/// is one, else the number of hours, else 0.
pub open spec fn tier_min_hours(tier: TimeframeConfig) -> nat {
    match text_seconds(tier.min_timespan) {
        Some(secs) => secs / 3600,
        None => match tier.min_hours {
            Some(hours) => hours as nat,
            None => 0,
        },
    }
}

/// The upper bound of a tier in hours, found as the lower one is; `None` for
/// a tier without an upper end.
pub open spec fn tier_max_hours(tier: TimeframeConfig) -> Option<nat> {
    match text_seconds(tier.max_timespan) {
        Some(secs) => Some(secs / 3600),
        None => match tier.max_hours {
            Some(hours) => Some(hours as nat),
            None => None,
        },
    }
}

/// Whether `hours` lies in the bracket of the tier, the lower bound included
/// and the upper one not.
pub open spec fn tier_contains(tier: TimeframeConfig, hours: int) -> bool {
    &&& tier_min_hours(tier) <= hours
    &&& match tier_max_hours(tier) {
        Some(max) => hours < max,
        None => true,
    }
}

/// Whether the tier at `index` is the one to apply after `hours`: the first
/// whose bracket contains the hours, or the last tier where no bracket does.
pub open spec fn is_selected_tier(tiers: Seq<TimeframeConfig>, hours: int, index: int) -> bool {
    &&& 0 <= index < tiers.len()
    &&& forall|j: int| 0 <= j < index ==> !tier_contains(#[trigger] tiers[j], hours)
    &&& tier_contains(tiers[index], hours) || index == tiers.len() - 1
}

/// A table of tiers without gaps: every bracket but the last is non-empty,
/// and each bracket starts where the one before it ends.
pub open spec fn table_contiguous(tiers: Seq<TimeframeConfig>) -> bool {
    &&& tiers.len() > 0
    &&& forall|i: int|
        0 <= i < tiers.len() - 1 ==> {
            &&& tier_max_hours(#[trigger] tiers[i]) is Some
            &&& tier_min_hours(tiers[i]) < tier_max_hours(tiers[i]).unwrap()
            &&& tier_max_hours(tiers[i]).unwrap() == tier_min_hours(tiers[i + 1])
        }
}

/// Whether `hours` lies between the two ends of a table: at or above the
/// lower bound of the first tier, and below the upper bound of the last
/// where that tier has one.
pub open spec fn table_spans(tiers: Seq<TimeframeConfig>, hours: int) -> bool {
    &&& tiers.len() > 0
    &&& hours >= tier_min_hours(tiers[0])
    &&& match tier_max_hours(tiers.last()) {
        Some(max) => hours < max,
        None => true,
    }
}

fn min_hours_of(tier: &TimeframeConfig) -> (hours: u64)
    ensures
        hours == tier_min_hours(*tier),
{
    match timespan_setting(&tier.min_timespan) {
        Some(secs) => secs / 3600,
        None => match tier.min_hours {
            Some(hours) => hours as u64,
            None => 0,
        },
    }
}

fn max_hours_of(tier: &TimeframeConfig) -> (hours: Option<u64>)
    ensures
        match hours {
            Some(h) => tier_max_hours(*tier) == Some(h as nat),
            None => tier_max_hours(*tier) is None,
        },
{
    match timespan_setting(&tier.max_timespan) {
        Some(secs) => Some(secs / 3600),
        None => match tier.max_hours {
            Some(hours) => Some(hours as u64),
            None => None,
        },
    }
}

fn contains_hours(tier: &TimeframeConfig, hours: i64) -> (inside: bool)
    ensures
        inside == tier_contains(*tier, hours as int),
{
    if hours < 0 {
        return false;
    }
    let h = hours as u64;
    if min_hours_of(tier) > h {
        return false;
    }
    match max_hours_of(tier) {
        Some(max) => h < max,
        None => true,
    }
}

/// The index of the tier to apply after `hours_elapsed` hours: the first
/// whose bracket contains them, else the last; none where there is no tier.
pub fn select_timeframe(config: &RebootConfig, hours_elapsed: i64) -> (index: Option<usize>)
    ensures
        match index {
            Some(i) => is_selected_tier(config.timeframes@, hours_elapsed as int, i as int),
            None => config.timeframes@.len() == 0,
        },
{
    let n = config.timeframes.len();
    let mut i: usize = 0;
    while i < n
        invariant
            n == config.timeframes@.len(),
            i <= n,
            forall|j: int| 0 <= j < i ==> !tier_contains(#[trigger] config.timeframes@[j], hours_elapsed as int),
        decreases n - i,
    {
        if contains_hours(&config.timeframes[i], hours_elapsed) {
            return Some(i);
        }
        i += 1;
    }
    if n == 0 {
        None
    } else {
        Some(n - 1)
    }
}

/// In a table without gaps, every number of hours between the two ends of
/// the table has a tier, and the tier applied is one whose bracket contains
/// that number. A table whose last tier has no upper end has a tier for
/// every number of hours from its first lower bound on.
pub proof fn lemma_contiguous_table_covers(tiers: Seq<TimeframeConfig>, hours: int)
    requires
        table_contiguous(tiers),
        table_spans(tiers, hours),
    ensures
        exists|index: int| #[trigger] is_selected_tier(tiers, hours, index),
        forall|index: int|
            #[trigger] is_selected_tier(tiers, hours, index) ==> tier_contains(tiers[index], hours),
{
    lemma_some_tier_contains(tiers, hours, tiers.len() - 1);
    let j = choose|j: int| 0 <= j <= tiers.len() - 1 && tier_contains(#[trigger] tiers[j], hours);
    lemma_first_containing_tier(tiers, hours, j);
    assert forall|index: int| #[trigger] is_selected_tier(tiers, hours, index) implies tier_contains(
        tiers[index],
        hours,
    ) by {
        if !tier_contains(tiers[index], hours) {
            assert(index == tiers.len() - 1);
            assert(j < index);
        }
    }
}

/// Where the tier at `upto` contains the hours, there is a first tier that
/// does, and it is the one selected.
proof fn lemma_first_containing_tier(tiers: Seq<TimeframeConfig>, hours: int, upto: int)
    requires
        0 <= upto < tiers.len(),
        tier_contains(tiers[upto], hours),
    ensures
        exists|index: int| 0 <= index <= upto && #[trigger] is_selected_tier(tiers, hours, index),
    decreases upto,
{
    if exists|k: int| 0 <= k < upto && tier_contains(#[trigger] tiers[k], hours) {
        let k = choose|k: int| 0 <= k < upto && tier_contains(#[trigger] tiers[k], hours);
        lemma_first_containing_tier(tiers, hours, k);
    } else {
        assert(is_selected_tier(tiers, hours, upto));
    }
}

/// In a table without gaps, hours at or above the first lower bound lie in
/// one of the brackets up to `upto`, or at or above the upper end of that
/// one.
proof fn lemma_some_tier_contains(tiers: Seq<TimeframeConfig>, hours: int, upto: int)
    requires
        table_contiguous(tiers),
        hours >= tier_min_hours(tiers[0]),
        0 <= upto < tiers.len(),
    ensures
        (exists|j: int| 0 <= j <= upto && tier_contains(#[trigger] tiers[j], hours)) || (
        tier_max_hours(tiers[upto]) is Some && hours >= tier_max_hours(tiers[upto]).unwrap()),
    decreases upto,
{
    if upto > 0 {
        lemma_some_tier_contains(tiers, hours, upto - 1);
        if !(exists|j: int| 0 <= j <= upto - 1 && tier_contains(#[trigger] tiers[j], hours)) {
            assert(tier_max_hours(tiers[upto - 1]).unwrap() == tier_min_hours(tiers[upto - 1 + 1]));
        } else {
            let j = choose|j: int| 0 <= j <= upto - 1 && tier_contains(#[trigger] tiers[j], hours);
            assert(0 <= j <= upto && tier_contains(tiers[j], hours));
        }
    }
}

/// Whether `index` is that of an earliest detection among `sources`.
pub open spec fn is_earliest(sources: Seq<RebootSource>, index: int) -> bool {
    &&& 0 <= index < sources.len()
    &&& forall|j: int|
        0 <= j < sources.len() ==> sources[index].detected_at.secs <= (
        #[trigger] sources[j]).detected_at.secs
}

/// Whether `hours` is the number of whole hours from the earliest detection
/// among `sources` to `now`; 0 where there is no evidence.
pub open spec fn is_hours_since_required(sources: Seq<RebootSource>, now: Timestamp, hours: int) -> bool {
    if sources.len() == 0 {
        hours == 0
    } else {
        exists|k: int|
            is_earliest(sources, k) && hours == whole_hours_between(
                (#[trigger] sources[k]).detected_at,
                now,
            )
    }
}

/// Whole hours from the earliest detection among the state's evidence to
/// `now`.
pub fn hours_since_required(state: &RebootState, now: Timestamp) -> (hours: i64)
    ensures
        is_hours_since_required(state.sources@, now, hours as int),
{
    let n = state.sources.len();
    if n == 0 {
        return 0;
    }
    let mut best: usize = 0;
    let mut i: usize = 1;
    while i < n
        invariant
            n == state.sources@.len(),
            1 <= i <= n,
            best < i,
            forall|j: int|
                0 <= j < i ==> state.sources@[best as int].detected_at.secs <= (
                #[trigger] state.sources@[j]).detected_at.secs,
        decreases n - i,
    {
        if state.sources[i].detected_at.secs < state.sources[best].detected_at.secs {
            best = i;
        }
        i += 1;
    }
    let hours = now.hours_since(&state.sources[best].detected_at);
    proof {
        assert(is_earliest(state.sources@, best as int));
        assert(hours == whole_hours_between(state.sources@[best as int].detected_at, now));
    }
    hours
}

/// What `get_timeframe_at` returns: nothing while no reboot is required or
/// where there is no tier, else the tier selected for the hours since the
/// earliest detection.
pub open spec fn is_timeframe_for(
    config: RebootConfig,
    state: RebootState,
    now: Timestamp,
    tier: Option<TimeframeConfig>,
) -> bool {
    if !state.reboot_required || config.timeframes@.len() == 0 {
        tier is None
    } else {
        exists|hours: int, i: int|
            #![trigger is_selected_tier(config.timeframes@, hours, i)]
            is_hours_since_required(state.sources@, now, hours) && is_selected_tier(
                config.timeframes@,
                hours,
                i,
            ) && tier == Some(config.timeframes@[i])
    }
}

/// The tier behind a reference to it.
pub open spec fn tier_of(tier: Option<&TimeframeConfig>) -> Option<TimeframeConfig> {
    match tier {
        Some(t) => Some(*t),
        None => None,
    }
}

/// The tier that applies to `state` at the time `now`.
pub fn get_timeframe_at<'a>(config: &'a RebootConfig, state: &RebootState, now: Timestamp) -> (tier:
    Option<&'a TimeframeConfig>)
    ensures
        is_timeframe_for(
            *config,
            *state,
            now,
            tier_of(tier),
        ),
{
    if !state.reboot_required {
        return None;
    }
    let hours = hours_since_required(state, now);
    match select_timeframe(config, hours) {
        Some(i) => {
            proof {
                assert(is_selected_tier(config.timeframes@, hours as int, i as int));
            }
            Some(&config.timeframes[i])
        },
        None => None,
    }
}

/// The tier that applies to `state` at the present time.
pub fn get_timeframe<'a>(config: &'a RebootConfig, state: &RebootState) -> (tier: Option<
    &'a TimeframeConfig,
>)
    ensures
        tier is Some <==> state.reboot_required && config.timeframes@.len() > 0,
        exists|now: Timestamp|
            #[trigger] is_timeframe_for(
                *config,
                *state,
                now,
                tier_of(tier),
            ),
{
    let now = utc_now();
    let tier = get_timeframe_at(config, state, now);
    proof {
        assert(is_timeframe_for(
            *config,
            *state,
            now,
            tier_of(tier),
        ));
    }
    tier
}

/// The time of the next reminder where 64 bits hold it: one reminder
/// interval of `tier` after `now`.
pub fn checked_next_reminder_time(tier: &TimeframeConfig, now: Timestamp) -> (next: Option<Timestamp>)
    ensures
        next == if now.secs + reminder_interval(*tier) <= i64::MAX {
            Some(Timestamp { secs: (now.secs + reminder_interval(*tier)) as i64 })
        } else {
            None::<Timestamp>
        },
{
    now.checked_add_secs(reminder_interval_seconds(tier))
}

/// The seconds between two reminders in a tier: those of the timespan text
/// where there is one, else the number of hours, else the number of minutes,
/// else one hour.
pub open spec fn reminder_interval(tier: TimeframeConfig) -> nat {
    match text_seconds(tier.reminder_interval) {
        Some(secs) => secs,
        None => match tier.reminder_interval_hours {
            Some(hours) => hours as nat * 3600,
            None => match tier.reminder_interval_minutes {
                Some(minutes) => minutes as nat * 60,
                None => 3600,
            },
        },
    }
}

/// The seconds between two reminders in `tier`.
pub fn reminder_interval_seconds(tier: &TimeframeConfig) -> (seconds: u64)
    ensures
        seconds == reminder_interval(*tier),
{
    match timespan_setting(&tier.reminder_interval) {
        Some(secs) => secs,
        None => match tier.reminder_interval_hours {
            Some(hours) => hours as u64 * 3600,
            None => match tier.reminder_interval_minutes {
                Some(minutes) => minutes as u64 * 60,
                None => 3600,
            },
        },
    }
}

/// The time of the next reminder: one reminder interval of `tier` after
/// `now`.
pub fn calculate_next_reminder_time(tier: &TimeframeConfig, now: Timestamp) -> (next: Timestamp)
    requires
        now.secs + reminder_interval(*tier) <= i64::MAX,
    ensures
        next.secs == now.secs + reminder_interval(*tier),
{
    now.checked_add_secs(reminder_interval_seconds(tier)).unwrap()
}

/// Reads a deferral such as `1h` or `30m` as a number of seconds.
pub fn parse_deferral(deferral: &str) -> (seconds: Result<i64, TimespanError>)
    ensures
        seconds == match timespan_seconds(deferral@) {
            Ok(secs) => if secs <= i64::MAX {
                Ok(secs as i64)
            } else {
                Err(TimespanError::Overflow)
            },
            Err(e) => Err(e),
        },
{
    match parse_timespan(deferral) {
        Ok(secs) => if secs <= i64::MAX as u64 {
            Ok(secs as i64)
        } else {
            Err(TimespanError::Overflow)
        },
        Err(e) => Err(e),
    }
}

/// A count with its unit, such as `5 minutes`.
pub open spec fn counted(n: int, unit: Seq<char>) -> Seq<char> {
    signed_decimal(n) + seq![' '] + unit
}

/// A larger and a smaller count, such as `2 hours, 5 minutes`; the smaller
/// one is left out where it is 0.
pub open spec fn counted_pair(
    large: int,
    large_unit: Seq<char>,
    small: int,
    small_unit: Seq<char>,
) -> Seq<char> {
    if small == 0 {
        counted(large, large_unit)
    } else {
        counted(large, large_unit) + ", "@ + counted(small, small_unit)
    }
}

/// A duration in words, in its two largest units.
pub open spec fn duration_words(secs: int) -> Seq<char> {
    if secs < 60 {
        counted(secs, "seconds"@)
    } else if secs < 3600 {
        counted_pair(secs / 60, "minutes"@, secs % 60, "seconds"@)
    } else if secs < 86400 {
        counted_pair(secs / 3600, "hours"@, (secs % 3600) / 60, "minutes"@)
    } else {
        counted_pair(secs / 86400, "days"@, (secs % 86400) / 3600, "hours"@)
    }
}

/// A duration in words, followed in brackets by its timespan text; a
/// negative duration has the timespan text of no time.
pub open spec fn duration_text(secs: int) -> Seq<char> {
    duration_words(secs) + " ("@ + timespan_text(
        if secs > 0 {
            secs as nat
        } else {
            0
        },
    ) + ")"@
}

fn push_counted(out: &mut String, n: i64, unit: &str)
    ensures
        final(out)@ == old(out)@ + counted(n as int, unit@),
{
    push_signed_decimal(out, n);
    out.push(' ');
    out.append(unit);
    proof {
        assert(final(out)@ =~= old(out)@ + counted(n as int, unit@));
    }
}

fn push_counted_pair(out: &mut String, large: i64, large_unit: &str, small: i64, small_unit: &str)
    ensures
        final(out)@ == old(out)@ + counted_pair(
            large as int,
            large_unit@,
            small as int,
            small_unit@,
        ),
{
    push_counted(out, large, large_unit);
    if small != 0 {
        out.append(", ");
        push_counted(out, small, small_unit);
    }
    proof {
        assert(final(out)@ =~= old(out)@ + counted_pair(
            large as int,
            large_unit@,
            small as int,
            small_unit@,
        ));
    }
}

/// Writes a duration of `secs` seconds in words and as a timespan text.
pub fn format_duration(secs: i64) -> (text: String)
    ensures
        text@ == duration_text(secs as int),
{
    let mut text = String::new();
    if secs < 60 {
        push_counted(&mut text, secs, "seconds");
    } else if secs < 3600 {
        push_counted_pair(&mut text, secs / 60, "minutes", secs % 60, "seconds");
    } else if secs < 86400 {
        push_counted_pair(&mut text, secs / 3600, "hours", (secs % 3600) / 60, "minutes");
    } else {
        push_counted_pair(&mut text, secs / 86400, "days", (secs % 86400) / 3600, "hours");
    }
    assert(text@ =~= duration_words(secs as int));
    let compact = format_timespan(
        if secs > 0 {
            secs as u64
        } else {
            0
        },
    );
    text.append(" (");
    text.append(compact.as_str());
    text.append(")");
    text
}

/// Writes a time as `YYYY-MM-DD HH:MM:SS` in UTC; nothing for a time beyond
/// the calendar.
pub fn format_time(time: Timestamp) -> (text: Option<String>)
    ensures
        text.deep_view() == utc_text(time.secs),
{
    format_utc(time.secs)
}

/// How long ago the last reboot was at the time `now`, in words.
pub open spec fn time_since_text(last_reboot_time: Option<Timestamp>, now: Timestamp) -> Seq<char> {
    match last_reboot_time {
        None => "unknown"@,
        Some(time) => if now.secs < time.secs {
            "in the future (clock mismatch)"@
        } else {
            duration_text(clamp_i64(now.secs - time.secs)) + " ago"@
        },
    }
}

/// Writes how long ago the last reboot was at the time `now`.
pub fn format_time_since(last_reboot_time: Option<Timestamp>, now: Timestamp) -> (text: String)
    ensures
        text@ == time_since_text(last_reboot_time, now),
{
    match last_reboot_time {
        None => "unknown".to_owned(),
        Some(time) => {
            if now.is_before(&time) {
                "in the future (clock mismatch)".to_owned()
            } else {
                let mut text = format_duration(now.seconds_since(&time));
                text.append(" ago");
                text
            }
        },
    }
}

/// Writes how long ago the last reboot was.
pub fn format_time_since_last_reboot(last_reboot_time: Option<Timestamp>) -> (text: String)
    ensures
        exists|now: Timestamp| text@ == #[trigger] time_since_text(last_reboot_time, now),
{
    let now = utc_now();
    let text = format_time_since(last_reboot_time, now);
    proof {
        assert(text@ == time_since_text(last_reboot_time, now));
    }
    text
}

} // verus!
