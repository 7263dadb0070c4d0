//! The reboot history: what the event log knows is added to what the
//! database knows, and the latest reboots are shown first.
//!
//! The host reads the database and the event log. A reboot is known by its
//! time: an event at a time that the history has already is left out.

use vstd::prelude::*;
use crate::config::models::RebootConfig;
use crate::database::models::{new_id, RebootHistory, RebootHistoryView};
use crate::reboot::history_order::{is_sorted_latest_first, sort_latest_first};
use crate::time::Timestamp;

verus! {

fn copy_text(text: &Option<String>) -> (copy: Option<String>)
    ensures
        copy == *text,
{
    match text {
        Some(t) => Some(t.clone()),
        None => None,
    }
}

fn copy_entry(entry: &RebootHistory) -> (copy: RebootHistory)
    ensures
        copy == *entry,
{
    RebootHistory {
        id: entry.id.clone(),
        reboot_time: entry.reboot_time,
        reason: copy_text(&entry.reason),
        source: copy_text(&entry.source),
        user_name: copy_text(&entry.user_name),
        computer_name: copy_text(&entry.computer_name),
        success: entry.success,
        duration: entry.duration,
    }
}

/// What the history holds of a shutdown event that the event log has of
/// the time `reboot_time`: a successful reboot of no length, by `System`
/// where the event names a user, on the computer named in the event.
pub open spec fn event_entry(
    id: Seq<char>,
    reboot_time: Timestamp,
    computer_name: Option<Seq<char>>,
    has_user: bool,
) -> RebootHistoryView {
    RebootHistoryView {
        id,
        reboot_time,
        reason: Some("System shutdown"@),
        source: Some("Event Log"@),
        user_name: Some(
            if has_user {
                "System"@
            } else {
                "Unknown"@
            },
        ),
        computer_name: Some(
            match computer_name {
                Some(name) => name,
                None => "Unknown"@,
            },
        ),
        success: true,
        duration: Some(0i64),
    }
}

/// The entry for a shutdown event of the event log, under a fresh
/// identifier. `computer_name` is the computer named in the event, and
/// `has_user` says whether the event names a user.
pub fn entry_from_event(reboot_time: Timestamp, computer_name: Option<&str>, has_user: bool) -> (entry:
    RebootHistory)
    ensures
        entry@ == event_entry(entry@.id, reboot_time, computer_name.deep_view(), has_user),
        entry@.id.len() == 36,
{
    entry_from_event_as(new_id(), reboot_time, computer_name, has_user)
}

/// The entry for a shutdown event of the event log, under the identifier
/// `id`.
pub fn entry_from_event_as(
    id: String,
    reboot_time: Timestamp,
    computer_name: Option<&str>,
    has_user: bool,
) -> (entry: RebootHistory)
    ensures
        entry@ == event_entry(id@, reboot_time, computer_name.deep_view(), has_user),
{
    RebootHistory {
        id,
        reboot_time,
        reason: Some("System shutdown".to_owned()),
        source: Some("Event Log".to_owned()),
        user_name: Some(
            if has_user {
                "System".to_owned()
            } else {
                "Unknown".to_owned()
            },
        ),
        computer_name: Some(
            match computer_name {
                Some(name) => name.to_owned(),
                None => "Unknown".to_owned(),
            },
        ),
        success: true,
        duration: Some(0),
    }
}

/// Whether `shown` holds the first `limit` of the entries of `entries`
/// when these are put latest first.
pub open spec fn is_latest_of(entries: Seq<RebootHistory>, limit: nat, shown: Seq<RebootHistory>) -> bool {
    exists|sorted: Seq<RebootHistory>|
        #![trigger is_sorted_latest_first(entries, sorted)]
        is_sorted_latest_first(entries, sorted) && shown == if sorted.len() > limit {
            sorted.take(limit as int)
        } else {
            sorted
        }
}

/// The latest `limit` of `entries`, latest first.
pub fn latest_entries(entries: Vec<RebootHistory>, limit: usize) -> (shown: Vec<RebootHistory>)
    ensures
        is_latest_of(entries@, limit as nat, shown@),
{
    let mut shown = entries;
    sort_latest_first(&mut shown);
    let ghost sorted = shown@;
    if shown.len() > limit {
        shown.truncate(limit);
    }
    proof {
        assert(is_sorted_latest_first(entries@, sorted));
    }
    shown
}


/// Whether the history has a reboot at the time `time`.
pub open spec fn knows_reboot_at(history: Seq<RebootHistory>, time: Timestamp) -> bool {
    exists|i: int| 0 <= i < history.len() && (#[trigger] history[i]).reboot_time == time
}

/// The history with the events added to it one after the other, each unless
/// the history has a reboot at its time by then.
pub open spec fn with_events(history: Seq<RebootHistory>, events: Seq<RebootHistory>) -> Seq<
    RebootHistory,
>
    decreases events.len(),
{
    if events.len() == 0 {
        history
    } else {
        let before = with_events(history, events.drop_last());
        if knows_reboot_at(before, events.last().reboot_time) {
            before
        } else {
            before.push(events.last())
        }
    }
}

/// How many events the host asks of the event log: as many as the
/// database leaves to be wished for, up to `limit`.
pub fn events_wanted(known: usize, limit: usize) -> (wanted: usize)
    ensures
        wanted == if known < limit {
            limit - known
        } else {
            0
        },
{
    if known < limit {
        limit - known
    } else {
        0
    }
}

/// What comes of putting together the two sources of the history.
#[derive(Debug)]
pub struct MergedHistory {
    /// The history to show.
    pub history: Vec<RebootHistory>,
    /// The events that the database did not know, to be written to it.
    pub added: Vec<RebootHistory>,
}

fn knows(history: &Vec<RebootHistory>, time: Timestamp) -> (known: bool)
    ensures
        known == knows_reboot_at(history@, time),
{
    let mut i: usize = 0;
    while i < history.len()
        invariant
            i <= history.len(),
            forall|k: int| 0 <= k < i ==> (#[trigger] history@[k]).reboot_time != time,
        decreases history.len() - i,
    {
        if history[i].reboot_time.secs == time.secs {
            return true;
        }
        i += 1;
    }
    false
}

/// Puts the reboot history together.
pub struct RebootHistoryManager {
    config: RebootConfig,
}

impl RebootHistoryManager {
    pub closed spec fn config(&self) -> RebootConfig {
        self.config
    }

    pub fn new(config: RebootConfig) -> (manager: Self)
        ensures
            manager.config() == config,
    {
        RebootHistoryManager { config }
    }

    /// What the event log has of the reboot history: the latest `limit` of
    /// the events read from it, latest first.
    pub fn get_reboot_history_from_event_log(&self, events: Vec<RebootHistory>, limit: usize) -> (history:
        Vec<RebootHistory>)
        ensures
            is_latest_of(events@, limit as nat, history@),
    {
        latest_entries(events, limit)
    }

    /// The reboot history from what the database has, `from_db`, and what
    /// the event log has, `from_log`: where the database has fewer than
    /// `limit` entries, the events of the log are added that are of a time
    /// not yet known; the latest `limit` of all are shown, latest first.
    pub fn get_reboot_history(
        &self,
        from_db: Vec<RebootHistory>,
        from_log: &Vec<RebootHistory>,
        limit: usize,
    ) -> (merged: MergedHistory)
        ensures
            is_merged_history(from_db@, from_log@, limit as nat, merged),
    {
        merge_history(from_db, from_log, limit)
    }
}

/// Whether `merged` is what comes of the entries of the database,
/// `from_db`, and the events of the event log, `from_log`, for a history
/// of at most `limit` entries.
pub open spec fn is_merged_history(
    from_db: Seq<RebootHistory>,
    from_log: Seq<RebootHistory>,
    limit: nat,
    merged: MergedHistory,
) -> bool {
    if from_db.len() >= limit {
        merged.added@.len() == 0 && is_latest_of(from_db, limit, merged.history@)
    } else {
        let all = with_events(from_db, from_log);
        &&& from_db.len() <= all.len()
        &&& merged.added@ == all.subrange(from_db.len() as int, all.len() as int)
        &&& is_latest_of(all, limit, merged.history@)
    }
}

/// The reboot history from what the database has and what the event log
/// has.
pub fn merge_history(from_db: Vec<RebootHistory>, from_log: &Vec<RebootHistory>, limit: usize) -> (merged:
    MergedHistory)
    ensures
        is_merged_history(from_db@, from_log@, limit as nat, merged),
{
    let mut all = from_db;
    let mut added: Vec<RebootHistory> = Vec::new();
    if all.len() < limit {
        let mut i: usize = 0;
        while i < from_log.len()
            invariant
                i <= from_log.len(),
                all@ == with_events(from_db@, from_log@.take(i as int)),
                from_db@.len() <= all@.len(),
                added@ == all@.subrange(from_db@.len() as int, all@.len() as int),
            decreases from_log.len() - i,
        {
            proof {
                assert(from_log@.take(i + 1).drop_last() == from_log@.take(i as int));
            }
            if !knows(&all, from_log[i].reboot_time) {
                all.push(copy_entry(&from_log[i]));
                added.push(copy_entry(&from_log[i]));
                proof {
                    assert(added@ =~= all@.subrange(from_db@.len() as int, all@.len() as int));
                }
            }
            i += 1;
        }
        proof {
            assert(from_log@.take(from_log@.len() as int) == from_log@);
        }
    } else {
        proof {
            assert(added@ =~= Seq::<RebootHistory>::empty());
        }
    }
    MergedHistory { history: latest_entries(all, limit), added }
}

} // verus!
