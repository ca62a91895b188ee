//! Pending-redirect bookkeeping for a notification-click-to-redirect feature.
//!
//! A notification may carry a redirect URL. When the user is away from the
//! window at the moment the notification is shown, the URL is kept in a
//! one-entry mailbox together with the time it was stored; when the window
//! regains focus the front end is told to fetch it. Fetching clears the
//! mailbox, and an entry older than ten minutes is treated as absent.

pub mod slot;
pub mod state;
pub mod text;
