//! Fixed names of the two notification services on the session bus.

use vstd::prelude::*;

verus! {

/// Well-known bus name of the legacy notification service.
pub const NOTIFICATION_DEFAULT_BUS: &'static str = "org.freedesktop.Notifications";

/// Object path of the legacy notification service.
pub const NOTIFICATION_OBJECTPATH: &'static str = "/org/freedesktop/Notifications";

/// Interface of the legacy notification service.
pub const NOTIFICATION_INTERFACE: &'static str = "org.freedesktop.Notifications";

/// Well-known bus name of the desktop portal.
pub const NOTIFICATION_PORTAL_BUS: &'static str = "org.freedesktop.portal.Desktop";

/// Object path of the desktop portal.
pub const NOTIFICATION_PORTAL_OBJECTPATH: &'static str = "/org/freedesktop/portal/desktop";

/// Notification interface of the desktop portal.
pub const NOTIFICATION_PORTAL_INTERFACE: &'static str = "org.freedesktop.portal.Notification";

/// Path under which custom bus names are placed.
pub const NOTIFICATION_NAMESPACE: &'static str = "/de/hoodie/Notification";

/// Member of the legacy interface that shows a notification.
pub const NOTIFY: &'static str = "Notify";

/// Member of the legacy interface that closes a notification.
pub const CLOSE_NOTIFICATION: &'static str = "CloseNotification";

/// Member of the legacy interface that lists what the server can do.
pub const GET_CAPABILITIES: &'static str = "GetCapabilities";

/// Member of the legacy interface that describes the server.
pub const GET_SERVER_INFORMATION: &'static str = "GetServerInformation";

/// Member of the portal interface that shows a notification.
pub const ADD_NOTIFICATION: &'static str = "AddNotification";

/// Property of the portal interface that holds its version.
pub const PORTAL_VERSION: &'static str = "version";

/// Signal of the legacy interface for an action that the user invoked.
pub const ACTION_INVOKED: &'static str = "ActionInvoked";

/// Signal of the legacy interface for a notification that went away.
pub const NOTIFICATION_CLOSED: &'static str = "NotificationClosed";

} // verus!
