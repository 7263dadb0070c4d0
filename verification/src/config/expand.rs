//! Environment variables in the paths of a configuration.
//!
//! A path with a `%` in it may name environment variables. How a variable
//! is looked up is the host's business: it hands in the function that
//! expands a text.

use vstd::prelude::*;
use crate::config::models::Config;
use crate::utils::text::contains_char;

verus! {

/// Whether a path may name an environment variable.
pub open spec fn needs_expansion(path: String) -> bool {
    path@.contains('%')
}

/// Whether `after` is what becomes of the path `before` when all goes
/// well: what `expand` makes of it where it may name a variable, else the
/// path itself.
pub open spec fn is_expansion<E, F: Fn(&String) -> Result<String, E>>(
    expand: F,
    before: String,
    after: String,
) -> bool {
    if needs_expansion(before) {
        expand.ensures((&before,), Ok(after))
    } else {
        after == before
    }
}

/// Whether expanding the path `before` fails with `error`.
pub open spec fn fails_with<E, F: Fn(&String) -> Result<String, E>>(
    expand: F,
    before: String,
    error: E,
) -> bool {
    needs_expansion(before) && expand.ensures((&before,), Err(error))
}

fn expand_path<E, F: Fn(&String) -> Result<String, E>>(path: &mut String, expand: &F) -> (result:
    Result<(), E>)
    requires
        forall|text: &String| #[trigger] expand.requires((text,)),
    ensures
        match result {
            Ok(()) => is_expansion(*expand, *old(path), *final(path)),
            Err(e) => fails_with(*expand, *old(path), e) && *final(path) == *old(path),
        },
{
    if contains_char(path.as_str(), '%') {
        match expand(path) {
            Ok(expanded) => {
                *path = expanded;
                Ok(())
            },
            Err(e) => Err(e),
        }
    } else {
        Ok(())
    }
}

/// Expands the environment variables in the four paths of a configuration:
/// that of the database, that of the log, that of the icon and that of the
/// supervised service, in this order. Only a path with a `%` in it is
/// handed to `expand`. The first failure ends the work: the paths before
/// it are expanded then, and the others are as they were.
pub fn expand_env_vars_in_config<E, F: Fn(&String) -> Result<String, E>>(
    config: &mut Config,
    expand: F,
) -> (result: Result<(), E>)
    requires
        forall|text: &String| #[trigger] expand.requires((text,)),
    ensures
        final(config).service == old(config).service,
        final(config).reboot == old(config).reboot,
        final(config).notification.notification_type == old(config).notification.notification_type,
        final(config).notification.show_toast == old(config).notification.show_toast,
        final(config).notification.show_tray == old(config).notification.show_tray,
        final(config).notification.show_balloon == old(config).notification.show_balloon,
        final(config).notification.messages == old(config).notification.messages,
        final(config).notification.quiet_hours == old(config).notification.quiet_hours,
        final(config).notification.branding.title == old(config).notification.branding.title,
        final(config).notification.branding.company == old(config).notification.branding.company,
        final(config).logging.level == old(config).logging.level,
        final(config).logging.max_files == old(config).logging.max_files,
        final(config).logging.max_size == old(config).logging.max_size,
        final(config).watchdog.enabled == old(config).watchdog.enabled,
        final(config).watchdog.check_interval_seconds == old(config).watchdog.check_interval_seconds,
        final(config).watchdog.check_interval == old(config).watchdog.check_interval,
        final(config).watchdog.max_restart_attempts == old(config).watchdog.max_restart_attempts,
        final(config).watchdog.restart_delay_seconds == old(config).watchdog.restart_delay_seconds,
        final(config).watchdog.restart_delay == old(config).watchdog.restart_delay,
        final(config).watchdog.service_name == old(config).watchdog.service_name,
        match result {
            Ok(()) => {
                &&& is_expansion(expand, old(config).database.path, final(config).database.path)
                &&& is_expansion(expand, old(config).logging.path, final(config).logging.path)
                &&& is_expansion(
                    expand,
                    old(config).notification.branding.icon_path,
                    final(config).notification.branding.icon_path,
                )
                &&& is_expansion(
                    expand,
                    old(config).watchdog.service_path,
                    final(config).watchdog.service_path,
                )
            },
            Err(e) => {
                ||| {
                    &&& fails_with(expand, old(config).database.path, e)
                    &&& final(config).database.path == old(config).database.path
                    &&& final(config).logging.path == old(config).logging.path
                    &&& final(config).notification.branding.icon_path == old(
                        config,
                    ).notification.branding.icon_path
                    &&& final(config).watchdog.service_path == old(config).watchdog.service_path
                }
                ||| {
                    &&& is_expansion(expand, old(config).database.path, final(config).database.path)
                    &&& fails_with(expand, old(config).logging.path, e)
                    &&& final(config).logging.path == old(config).logging.path
                    &&& final(config).notification.branding.icon_path == old(
                        config,
                    ).notification.branding.icon_path
                    &&& final(config).watchdog.service_path == old(config).watchdog.service_path
                }
                ||| {
                    &&& is_expansion(expand, old(config).database.path, final(config).database.path)
                    &&& is_expansion(expand, old(config).logging.path, final(config).logging.path)
                    &&& fails_with(expand, old(config).notification.branding.icon_path, e)
                    &&& final(config).notification.branding.icon_path == old(
                        config,
                    ).notification.branding.icon_path
                    &&& final(config).watchdog.service_path == old(config).watchdog.service_path
                }
                ||| {
                    &&& is_expansion(expand, old(config).database.path, final(config).database.path)
                    &&& is_expansion(expand, old(config).logging.path, final(config).logging.path)
                    &&& is_expansion(
                        expand,
                        old(config).notification.branding.icon_path,
                        final(config).notification.branding.icon_path,
                    )
                    &&& fails_with(expand, old(config).watchdog.service_path, e)
                    &&& final(config).watchdog.service_path == old(config).watchdog.service_path
                }
            },
        },
{
    match expand_path(&mut config.database.path, &expand) {
        Err(e) => {
            return Err(e);
        },
        Ok(()) => {},
    }
    match expand_path(&mut config.logging.path, &expand) {
        Err(e) => {
            return Err(e);
        },
        Ok(()) => {},
    }
    match expand_path(&mut config.notification.branding.icon_path, &expand) {
        Err(e) => {
            return Err(e);
        },
        Ok(()) => {},
    }
    match expand_path(&mut config.watchdog.service_path, &expand) {
        Err(e) => {
            return Err(e);
        },
        Ok(()) => {},
    }
    Ok(())
}

} // verus!
