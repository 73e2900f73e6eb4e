//! Client-side protocol logic for freedesktop desktop notifications.
//!
//! A notification goes to one of two services: the legacy notification
//! service, or the desktop portal. This library holds what a client decides
//! and computes on the way: the name of the service, the form that the
//! notification takes for it, the identifier that the notification has once
//! it was sent, and which of the signals that come back speaks of it. It does
//! no bus work itself: it describes the calls to make, and reads what the
//! caller hands it of the replies and messages.

pub mod bus;
pub mod endpoint;
pub mod handle;
pub mod ident;
pub mod names;
pub mod notification;
pub mod request;
pub mod signal;
pub mod std_specs;

pub use bus::NotificationBus;
pub use handle::ZbusNotificationHandle;
pub use notification::Notification;
pub use signal::{ActionResponse, CloseReason};
