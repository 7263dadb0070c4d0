//! The records that the service keeps, and how times are kept in the
//! database.

pub mod columns;
pub mod models;

pub use columns::{ColumnValue, DateTimeUtc, InvalidColumnType};
pub use models::{
    Notification, NotificationInteraction, RebootHistory, RebootSource, RebootState, UserSession,
};
