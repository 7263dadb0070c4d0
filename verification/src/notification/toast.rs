//! A toast as it is handed to the desktop.

use vstd::prelude::*;
use vstd::string::StringExecFns;
use crate::utils::text::{has_prefix, starts_with};

verus! {

/// A toast notification.
#[derive(Debug, Clone)]
pub struct ToastNotification {
    pub title: String,
    pub message: String,
    pub icon_path: String,
    /// What happens when the user clicks the toast.
    pub action_uri: Option<String>,
    pub id: String,
}

/// The second line of a toast: an invitation to restart where the action is
/// a reboot, else the action itself; nothing without an action.
pub open spec fn second_line_text(action_uri: Option<String>) -> Option<Seq<char>> {
    match action_uri {
        None => None,
        Some(uri) => if has_prefix(uri@, "reboot:"@) {
            Some("Click to restart your computer now"@)
        } else {
            Some("Action: "@ + uri@)
        },
    }
}

impl ToastNotification {
    /// A toast without icon, action or identifier.
    pub fn new(title: &str, message: &str) -> (toast: Self)
        ensures
            toast.title@ == title@,
            toast.message@ == message@,
            toast.icon_path@.len() == 0,
            toast.action_uri is None,
            toast.id@.len() == 0,
    {
        ToastNotification {
            title: title.to_owned(),
            message: message.to_owned(),
            icon_path: String::new(),
            action_uri: None,
            id: String::new(),
        }
    }

    /// A toast with an icon and the identifier of its notification.
    pub fn new_with_icon(title: &str, message: &str, icon_path: &str, id: &str) -> (toast: Self)
        ensures
            toast.title@ == title@,
            toast.message@ == message@,
            toast.icon_path@ == icon_path@,
            toast.action_uri is None,
            toast.id@ == id@,
    {
        ToastNotification {
            title: title.to_owned(),
            message: message.to_owned(),
            icon_path: icon_path.to_owned(),
            action_uri: None,
            id: id.to_owned(),
        }
    }

    /// The second line of the toast.
    pub fn second_line(&self) -> (line: Option<String>)
        ensures
            line.deep_view() == second_line_text(self.action_uri),
    {
        match &self.action_uri {
            None => None,
            Some(uri) => if starts_with(uri.as_str(), "reboot:") {
                Some("Click to restart your computer now".to_owned())
            } else {
                Some("Action: ".to_owned().concat(uri.as_str()))
            },
        }
    }
}

} // verus!
