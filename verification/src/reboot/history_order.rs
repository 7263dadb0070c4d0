//! The order in which the reboot history is shown: latest reboot first.

use vstd::prelude::*;
use crate::database::models::RebootHistory;

verus! {

/// Whether the entries are in the order of their reboot times, latest
/// first.
pub open spec fn latest_first(entries: Seq<RebootHistory>) -> bool {
    forall|i: int, j: int|
        0 <= i < j < entries.len() ==> entries[i].reboot_time.secs >= entries[j].reboot_time.secs
}

/// The entries of a reboot at the time `secs`, in the order in which they
/// stand.
pub open spec fn entries_at(entries: Seq<RebootHistory>, secs: i64) -> Seq<RebootHistory> {
    entries.filter(|entry: RebootHistory| entry.reboot_time.secs == secs)
}

/// Whether `sorted` holds the entries of `entries` latest first, those of
/// reboots at the same time in the order in which they stood.
pub open spec fn is_sorted_latest_first(entries: Seq<RebootHistory>, sorted: Seq<RebootHistory>) -> bool {
    &&& latest_first(sorted)
    &&& sorted.to_multiset() == entries.to_multiset()
    &&& forall|secs: i64| #[trigger] entries_at(sorted, secs) == entries_at(entries, secs)
}

/// Calls `sort_by` of the standard library with a comparison of the reboot
/// times that puts the later one first. Trusted: the entries are the same
/// ones afterwards, in the order of their reboot times with the latest
/// first, and the sort is stable.
#[verifier::external_body]
pub(crate) fn sort_latest_first(entries: &mut Vec<RebootHistory>)
    ensures
        is_sorted_latest_first(old(entries)@, final(entries)@),
{
    entries.sort_by(|a, b| b.reboot_time.secs.cmp(&a.reboot_time.secs));
}

} // verus!
