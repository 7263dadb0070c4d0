//! What the service makes of values read from the registry.

use vstd::prelude::*;
use crate::utils::text::{eq_ignore_ascii_case, same_ignoring_ascii_case};

verus! {

/// Whether the computer's name as it is and as it will be after the next
/// start are the same name; the case of ASCII letters does not count.
pub fn compare_computer_names(active_name: &str, pending_name: &str) -> (same: bool)
    ensures
        same == same_ignoring_ascii_case(active_name@, pending_name@),
{
    eq_ignore_ascii_case(active_name, pending_name)
}

} // verus!
