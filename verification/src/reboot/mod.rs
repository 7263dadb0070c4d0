//! The reminder schedule: which escalation tier applies after how many hours,
//! when the next reminder is due, and how durations and times are written.

pub mod detector;
pub mod history;
pub mod history_order;
pub mod scheduler;
pub mod system;
pub mod system_info;

pub use scheduler::{
    calculate_next_reminder_time, checked_next_reminder_time, format_duration, format_time, format_time_since,
    format_time_since_last_reboot, get_timeframe, get_timeframe_at, hours_since_required,
    parse_deferral, reminder_interval_seconds, select_timeframe,
};
