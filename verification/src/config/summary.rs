//! A one-line summary of a configuration, for the log.

use vstd::prelude::*;
use vstd::string::StringExecFns;
use crate::config::models::{Config, DetectionMethodsConfig, TimeframeConfig};
use crate::utils::text::{decimal, push_decimal};

verus! {

/// The lower bound of a tier as the summary shows it: the timespan text,
/// else the number of hours with `h`, else `0h`.
pub open spec fn min_text(tier: TimeframeConfig) -> Seq<char> {
    match tier.min_timespan {
        Some(text) => text@,
        None => match tier.min_hours {
            Some(hours) => decimal(hours as nat) + "h"@,
            None => "0h"@,
        },
    }
}

/// The upper bound of a tier as the summary shows it: the timespan text,
/// else the number of hours, else the sign for "no end".
pub open spec fn max_text(tier: TimeframeConfig) -> Seq<char> {
    match tier.max_timespan {
        Some(text) => text@,
        None => match tier.max_hours {
            Some(hours) => decimal(hours as nat),
            None => "∞"@,
        },
    }
}

/// The reminder interval of a tier as the summary shows it, or nothing
/// where the tier has none.
pub open spec fn interval_text(tier: TimeframeConfig) -> Seq<char> {
    match tier.reminder_interval {
        Some(text) => "Reminder interval: "@ + text@ + ", "@,
        None => match tier.reminder_interval_hours {
            Some(hours) => "Reminder interval: "@ + decimal(hours as nat) + "h, "@,
            None => match tier.reminder_interval_minutes {
                Some(minutes) => "Reminder interval: "@ + decimal(minutes as nat) + "m, "@,
                None => Seq::empty(),
            },
        },
    }
}

/// What the summary says of the first tier.
pub open spec fn first_timeframe_text(tier: TimeframeConfig) -> Seq<char> {
    "First timeframe: "@ + min_text(tier) + "-"@ + max_text(tier) + "h, "@ + interval_text(tier)
}

/// What the summary says of the checks: the short name of each that is
/// switched on, with a space behind it.
pub open spec fn methods_text(methods: DetectionMethodsConfig) -> Seq<char> {
    "Detection methods: "@ + (if methods.windows_update {
        "WinUpdate "@
    } else {
        Seq::empty()
    }) + (if methods.sccm {
        "SCCM "@
    } else {
        Seq::empty()
    }) + (if methods.registry {
        "Registry "@
    } else {
        Seq::empty()
    }) + (if methods.pending_file_operations {
        "FileOps "@
    } else {
        Seq::empty()
    })
}

/// The summary of a configuration: the name of the service, the number of
/// tiers, the paths of the database and of the log, the first tier where
/// there is one, and the checks.
pub open spec fn summary_text(config: Config) -> Seq<char> {
    "Service: "@ + config.service.name@ + ", "@ + "Timeframes: "@ + decimal(
        config.reboot.timeframes@.len(),
    ) + ", "@ + "Database: "@ + config.database.path@ + ", "@ + "Logging: "@
        + config.logging.path@ + ", "@ + (if config.reboot.timeframes@.len() > 0 {
        first_timeframe_text(config.reboot.timeframes@[0])
    } else {
        Seq::empty()
    }) + methods_text(config.reboot.detection_methods)
}

fn push_min(out: &mut String, tier: &TimeframeConfig)
    ensures
        final(out)@ == old(out)@ + min_text(*tier),
{
    match &tier.min_timespan {
        Some(text) => {
            out.append(text.as_str());
        },
        None => match tier.min_hours {
            Some(hours) => {
                push_decimal(out, hours as u64);
                out.append("h");
                assert(final(out)@ =~= old(out)@ + min_text(*tier));
            },
            None => {
                out.append("0h");
            },
        },
    }
}

fn push_max(out: &mut String, tier: &TimeframeConfig)
    ensures
        final(out)@ == old(out)@ + max_text(*tier),
{
    match &tier.max_timespan {
        Some(text) => {
            out.append(text.as_str());
        },
        None => match tier.max_hours {
            Some(hours) => {
                push_decimal(out, hours as u64);
            },
            None => {
                out.append("∞");
            },
        },
    }
}

fn push_interval(out: &mut String, tier: &TimeframeConfig)
    ensures
        final(out)@ == old(out)@ + interval_text(*tier),
{
    match &tier.reminder_interval {
        Some(text) => {
            out.append("Reminder interval: ");
            out.append(text.as_str());
            out.append(", ");
            assert(final(out)@ =~= old(out)@ + interval_text(*tier));
        },
        None => match tier.reminder_interval_hours {
            Some(hours) => {
                out.append("Reminder interval: ");
                push_decimal(out, hours as u64);
                out.append("h, ");
                assert(final(out)@ =~= old(out)@ + interval_text(*tier));
            },
            None => match tier.reminder_interval_minutes {
                Some(minutes) => {
                    out.append("Reminder interval: ");
                    push_decimal(out, minutes as u64);
                    out.append("m, ");
                    assert(final(out)@ =~= old(out)@ + interval_text(*tier));
                },
                None => {
                    assert(final(out)@ =~= old(out)@ + interval_text(*tier));
                },
            },
        },
    }
}

fn push_first_timeframe(out: &mut String, tier: &TimeframeConfig)
    ensures
        final(out)@ == old(out)@ + first_timeframe_text(*tier),
{
    out.append("First timeframe: ");
    push_min(out, tier);
    out.append("-");
    push_max(out, tier);
    out.append("h, ");
    push_interval(out, tier);
    assert(final(out)@ =~= old(out)@ + first_timeframe_text(*tier));
}

fn push_methods(out: &mut String, methods: &DetectionMethodsConfig)
    ensures
        final(out)@ == old(out)@ + methods_text(*methods),
{
    out.append("Detection methods: ");
    if methods.windows_update {
        out.append("WinUpdate ");
    }
    if methods.sccm {
        out.append("SCCM ");
    }
    if methods.registry {
        out.append("Registry ");
    }
    if methods.pending_file_operations {
        out.append("FileOps ");
    }
    assert(final(out)@ =~= old(out)@ + methods_text(*methods));
}

/// Writes the summary of `config`.
pub fn format_config_summary(config: &Config) -> (summary: String)
    ensures
        summary@ == summary_text(*config),
{
    let mut summary = String::new();
    summary.append("Service: ");
    summary.append(config.service.name.as_str());
    summary.append(", ");
    summary.append("Timeframes: ");
    push_decimal(&mut summary, config.reboot.timeframes.len() as u64);
    summary.append(", ");
    summary.append("Database: ");
    summary.append(config.database.path.as_str());
    summary.append(", ");
    summary.append("Logging: ");
    summary.append(config.logging.path.as_str());
    summary.append(", ");
    if config.reboot.timeframes.len() > 0 {
        push_first_timeframe(&mut summary, &config.reboot.timeframes[0]);
    }
    push_methods(&mut summary, &config.reboot.detection_methods);
    assert(summary@ =~= summary_text(*config));
    summary
}

} // verus!
