use xdg_notify::bus::NotificationBus;
use xdg_notify::handle::ZbusNotificationHandle;
use xdg_notify::ident::PortalIdCounter;
use xdg_notify::notification::Notification;
use xdg_notify::request::{SendError, SendRequest};
use xdg_notify::signal::ListenerState;

#[test]
fn new_handle_keeps_identifier_and_notification() {
    let notification = Notification::new("hello");
    let handle = ZbusNotificationHandle::new(7, notification.clone());
    assert_eq!(handle.id(), 7);
    assert_eq!(handle.notification(), &notification);
}

#[test]
fn sent_handle_remembers_the_bus_that_served_it() {
    let mut notification = Notification::new("hello");
    notification.body = "body".to_string();
    let handle = ZbusNotificationHandle::sent(&notification, NotificationBus::portal(), 3);
    assert_eq!(handle.id(), 3);
    assert_eq!(handle.notification().bus, NotificationBus::portal());
    assert_eq!(handle.notification().summary, "hello");
    assert_eq!(handle.notification().body, "body");
    assert_eq!(notification.bus, NotificationBus::default());
}

#[test]
fn close_goes_to_the_bus_and_identifier_of_the_handle() {
    let mut notification = Notification::new("hello");
    notification.bus = NotificationBus::custom("test/bus").unwrap();
    let handle = ZbusNotificationHandle::new(21, notification);
    let request = handle.close_fallible();
    assert_eq!(request.id, 21);
    assert_eq!(request.bus.as_str(), "de.hoodie.Notification.test.bus");
    let method = request.endpoint();
    assert_eq!(method.bus.as_str(), "de.hoodie.Notification.test.bus");
    assert_eq!(method.path, "/org/freedesktop/Notifications");
    assert_eq!(method.interface, "org.freedesktop.Notifications");
    assert_eq!(method.member, "CloseNotification");
}

#[test]
fn update_takes_the_identifier_that_the_service_echoed() {
    let mut handle = ZbusNotificationHandle::new(5, Notification::new("hello"));
    let mut counter = PortalIdCounter::new();
    let sent = {
        let request = handle.resend(None, &mut counter, None);
        match &request {
            SendRequest::Legacy(legacy) => assert_eq!(legacy.replaces_id, 5),
            SendRequest::Portal(_) => panic!("a failed probe means the legacy service"),
        }
        request.identifier(Ok(Some(9)))
    };
    assert_eq!(handle.update_fallible(sent), Ok(()));
    assert_eq!(handle.id(), 9);
}

#[test]
fn update_keeps_the_identifier_when_sending_failed() {
    let mut handle = ZbusNotificationHandle::new(5, Notification::new("hello"));
    let failure = SendError::Transport("no bus".to_string());
    assert_eq!(
        handle.update_fallible(Err(failure)),
        Err(SendError::Transport("no bus".to_string()))
    );
    assert_eq!(handle.id(), 5);
    assert_eq!(handle.update_fallible(Err(SendError::MissingIdentifier)), Err(SendError::MissingIdentifier));
    assert_eq!(handle.id(), 5);
}

#[test]
fn update_leaves_the_notification_alone() {
    let notification = Notification::new("hello");
    let mut handle = ZbusNotificationHandle::new(5, notification.clone());
    assert_eq!(handle.update_fallible(Ok(6)), Ok(()));
    assert_eq!(handle.notification(), &notification);
}

#[test]
fn resend_probes_afresh_and_goes_to_the_portal_when_it_answers() {
    let handle = ZbusNotificationHandle::new(5, Notification::new("hello"));
    let mut counter = PortalIdCounter::new();
    let request = handle.resend(Some(1), &mut counter, None);
    match &request {
        SendRequest::Portal(portal) => {
            assert_eq!(portal.id, 5);
            assert_eq!(portal.key, "5");
            assert_eq!(portal.bus, NotificationBus::portal());
        }
        SendRequest::Legacy(_) => panic!("the portal answered"),
    }
    assert_eq!(request.identifier(Ok(None)), Ok(5));
}

#[test]
fn resend_ignores_the_bus_that_served_before() {
    let handle = ZbusNotificationHandle::sent(&Notification::new("hello"), NotificationBus::portal(), 5);
    let mut counter = PortalIdCounter::new();
    let request = handle.resend(Some(0), &mut counter, None);
    match &request {
        SendRequest::Legacy(legacy) => {
            assert_eq!(legacy.bus, NotificationBus::default());
            assert_eq!(legacy.replaces_id, 5);
        }
        SendRequest::Portal(_) => panic!("version 0 means the legacy service"),
    }
}

#[test]
fn waiting_gives_a_listener_for_the_identifier() {
    let handle = ZbusNotificationHandle::new(33, Notification::new("hello"));
    let listener = handle.wait_for_action();
    assert_eq!(listener.target(), 33);
    assert_eq!(listener.state(), ListenerState::Subscribed);
}
