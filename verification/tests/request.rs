use xdg_notify::bus::NotificationBus;
use xdg_notify::ident::PortalIdCounter;
use xdg_notify::notification::{Hint, Notification, Urgency};
use xdg_notify::request::{
    encode, icon, image_file, priority, select_bus, PortalEntry, PortalIcon, PortalRequest,
    PortalValue, SendError, SendRequest,
};

fn sample() -> Notification {
    let mut notification = Notification::new("summary");
    notification.appname = "mailer".to_string();
    notification.body = "you have mail".to_string();
    notification.icon = "mail-unread".to_string();
    notification.actions.push("default".to_string());
    notification.actions.push("Open".to_string());
    notification.hints.push(Hint::Category("email.arrived".to_string()));
    notification.timeout = 3000;
    notification
}

fn portal_request<'a>(request: SendRequest<'a>) -> PortalRequest<'a> {
    match request {
        SendRequest::Portal(portal) => portal,
        SendRequest::Legacy(_) => panic!("the portal takes a portal request"),
    }
}

#[test]
fn select_bus_takes_the_portal_for_a_version_above_zero() {
    assert_eq!(select_bus(Some(1)), NotificationBus::portal());
    assert_eq!(select_bus(Some(2)), NotificationBus::portal());
    assert_eq!(select_bus(Some(u32::MAX)), NotificationBus::portal());
}

#[test]
fn select_bus_falls_back_when_the_probe_failed() {
    assert_eq!(select_bus(None), NotificationBus::default());
    assert_ne!(select_bus(None), NotificationBus::portal());
    assert_eq!(select_bus(None).as_str(), "org.freedesktop.Notifications");
}

#[test]
fn select_bus_falls_back_for_version_zero() {
    assert_eq!(select_bus(Some(0)), NotificationBus::default());
}

#[test]
fn priority_is_normal_without_urgency_hint() {
    let mut notification = Notification::new("summary");
    assert_eq!(priority(&notification), "normal");
    notification.hints.push(Hint::Category("email".to_string()));
    notification.hints.push(Hint::ImagePath("/tmp/a.png".to_string()));
    assert_eq!(priority(&notification), "normal");
}

#[test]
fn priority_is_urgent_for_critical() {
    let mut notification = Notification::new("summary");
    notification.hints.push(Hint::Urgency(Urgency::Critical));
    assert_eq!(priority(&notification), "urgent");
}

#[test]
fn priority_is_low_for_low() {
    let mut notification = Notification::new("summary");
    notification.hints.push(Hint::Urgency(Urgency::Low));
    assert_eq!(priority(&notification), "low");
}

#[test]
fn priority_is_normal_for_normal() {
    let mut notification = Notification::new("summary");
    notification.hints.push(Hint::Urgency(Urgency::Normal));
    assert_eq!(priority(&notification), "normal");
}

#[test]
fn priority_follows_the_first_urgency_hint() {
    let mut notification = Notification::new("summary");
    notification.hints.push(Hint::Transient(true));
    notification.hints.push(Hint::Urgency(Urgency::Low));
    notification.hints.push(Hint::Urgency(Urgency::Critical));
    assert_eq!(priority(&notification), "low");
}

#[test]
fn image_file_is_asked_for_without_icon_only() {
    let mut notification = Notification::new("summary");
    assert_eq!(image_file(&notification), None);
    notification.hints.push(Hint::ImagePath("/tmp/a.png".to_string()));
    assert_eq!(image_file(&notification), Some("/tmp/a.png"));
    notification.icon = "mail".to_string();
    assert_eq!(image_file(&notification), None);
}

#[test]
fn icon_is_themed_with_empty_name_when_the_image_is_unreadable() {
    let mut notification = Notification::new("summary");
    notification.hints.push(Hint::ImagePath("/no/such/file.png".to_string()));
    assert_eq!(icon(&notification, None), PortalIcon::Themed(""));
}

#[test]
fn icon_is_themed_with_empty_name_without_image_path() {
    let notification = Notification::new("summary");
    assert_eq!(icon(&notification, None), PortalIcon::Themed(""));
    assert_eq!(icon(&notification, Some(vec![1, 2, 3])), PortalIcon::Themed(""));
}

#[test]
fn icon_is_the_image_when_it_was_read() {
    let mut notification = Notification::new("summary");
    notification.hints.push(Hint::ImagePath("/tmp/a.png".to_string()));
    assert_eq!(icon(&notification, Some(vec![137, 80, 78, 71])), PortalIcon::Bytes(vec![137, 80, 78, 71]));
    assert_eq!(icon(&notification, Some(vec![])), PortalIcon::Bytes(vec![]));
}

#[test]
fn icon_is_the_named_one_where_the_notification_names_one() {
    let mut notification = Notification::new("summary");
    notification.icon = "mail".to_string();
    notification.hints.push(Hint::ImagePath("/tmp/a.png".to_string()));
    assert_eq!(icon(&notification, Some(vec![1])), PortalIcon::Themed("mail"));
    assert_eq!(icon(&notification, None), PortalIcon::Themed("mail"));
}

#[test]
fn encode_for_the_legacy_service_hands_the_notification_on() {
    let notification = sample();
    let mut counter = PortalIdCounter::new();
    let request = encode(&notification, 0, NotificationBus::default(), &mut counter, None);
    match &request {
        SendRequest::Legacy(legacy) => {
            assert_eq!(legacy.bus, NotificationBus::default());
            assert_eq!(legacy.app_name, "mailer");
            assert_eq!(legacy.replaces_id, 0);
            assert_eq!(legacy.icon, "mail-unread");
            assert_eq!(legacy.summary, "summary");
            assert_eq!(legacy.body, "you have mail");
            assert_eq!(legacy.actions, &vec!["default".to_string(), "Open".to_string()]);
            assert_eq!(legacy.hints, &vec![Hint::Category("email.arrived".to_string())]);
            assert_eq!(legacy.timeout, 3000);
        }
        SendRequest::Portal(_) => panic!("the legacy service takes a legacy request"),
    }
    assert_eq!(counter.allocate(), 1);
}

#[test]
fn encode_for_a_custom_bus_is_a_legacy_request() {
    let notification = sample();
    let mut counter = PortalIdCounter::new();
    let bus = NotificationBus::custom("test/bus").unwrap();
    let request = encode(&notification, 31, bus.clone(), &mut counter, Some(vec![1]));
    match &request {
        SendRequest::Legacy(legacy) => {
            assert_eq!(legacy.bus, bus);
            assert_eq!(legacy.replaces_id, 31);
        }
        SendRequest::Portal(_) => panic!("a custom bus takes a legacy request"),
    }
}

#[test]
fn encode_for_the_portal_builds_the_four_keys() {
    let mut notification = sample();
    notification.hints.push(Hint::Urgency(Urgency::Critical));
    let mut counter = PortalIdCounter::new();
    let request = encode(&notification, 0, NotificationBus::portal(), &mut counter, None);
    let portal = portal_request(request);
    assert_eq!(portal.bus, NotificationBus::portal());
    assert_eq!(
        portal.payload,
        vec![
            PortalEntry { key: "title", value: PortalValue::Text("summary") },
            PortalEntry { key: "body", value: PortalValue::Text("you have mail") },
            PortalEntry { key: "priority", value: PortalValue::Text("urgent") },
            PortalEntry { key: "icon", value: PortalValue::Icon(PortalIcon::Themed("mail-unread")) },
        ]
    );
}

#[test]
fn encode_for_the_portal_sends_the_image_where_it_was_read() {
    let mut notification = Notification::new("summary");
    notification.hints.push(Hint::ImagePath("/tmp/a.png".to_string()));
    let mut counter = PortalIdCounter::new();
    let request = encode(&notification, 0, NotificationBus::portal(), &mut counter, Some(vec![9, 8, 7]));
    let portal = portal_request(request);
    assert_eq!(portal.payload.len(), 4);
    assert_eq!(portal.payload[2], PortalEntry { key: "priority", value: PortalValue::Text("normal") });
    assert_eq!(
        portal.payload[3],
        PortalEntry { key: "icon", value: PortalValue::Icon(PortalIcon::Bytes(vec![9, 8, 7])) }
    );
}

#[test]
fn encode_for_the_portal_falls_back_to_the_empty_themed_icon() {
    let mut notification = Notification::new("summary");
    notification.hints.push(Hint::ImagePath("/no/such/file.png".to_string()));
    let mut counter = PortalIdCounter::new();
    let request = encode(&notification, 0, NotificationBus::portal(), &mut counter, None);
    let portal = portal_request(request);
    assert_eq!(
        portal.payload[3],
        PortalEntry { key: "icon", value: PortalValue::Icon(PortalIcon::Themed("")) }
    );
}

#[test]
fn encode_for_the_portal_allocates_rising_identifiers() {
    let notification = sample();
    let mut counter = PortalIdCounter::new();
    let mut earlier: Vec<u32> = Vec::new();
    for expected in 1..=20u32 {
        let request = encode(&notification, 0, NotificationBus::portal(), &mut counter, None);
        let id = request.identifier(Ok(None)).unwrap();
        assert_eq!(id, expected);
        assert!(earlier.iter().all(|before| *before < id));
        let portal = portal_request(request);
        assert_eq!(portal.id, expected);
        assert_eq!(portal.key, expected.to_string());
        earlier.push(id);
    }
}

#[test]
fn encode_for_the_portal_keeps_a_given_identifier() {
    let notification = sample();
    let mut counter = PortalIdCounter::new();
    let request = encode(&notification, 1234, NotificationBus::portal(), &mut counter, None);
    let portal = portal_request(request);
    assert_eq!(portal.id, 1234);
    assert_eq!(portal.key, "1234");
    assert_eq!(counter.allocate(), 1);
}

#[test]
fn endpoint_of_a_legacy_request_is_notify() {
    let notification = sample();
    let mut counter = PortalIdCounter::new();
    let request = encode(&notification, 0, NotificationBus::default(), &mut counter, None);
    let method = request.endpoint();
    assert_eq!(method.bus, NotificationBus::default());
    assert_eq!(method.path, "/org/freedesktop/Notifications");
    assert_eq!(method.interface, "org.freedesktop.Notifications");
    assert_eq!(method.member, "Notify");
}

#[test]
fn endpoint_of_a_portal_request_is_add_notification() {
    let notification = sample();
    let mut counter = PortalIdCounter::new();
    let request = encode(&notification, 0, NotificationBus::portal(), &mut counter, None);
    let method = request.endpoint();
    assert_eq!(method.bus, NotificationBus::portal());
    assert_eq!(method.path, "/org/freedesktop/portal/desktop");
    assert_eq!(method.interface, "org.freedesktop.portal.Notification");
    assert_eq!(method.member, "AddNotification");
}

#[test]
fn identifier_of_a_legacy_request_is_the_one_echoed() {
    let notification = sample();
    let mut counter = PortalIdCounter::new();
    let request = encode(&notification, 5, NotificationBus::default(), &mut counter, None);
    assert_eq!(request.identifier(Ok(Some(9))), Ok(9));
    assert_eq!(request.identifier(Ok(Some(5))), Ok(5));
    assert_eq!(request.identifier(Ok(Some(0))), Ok(0));
}

#[test]
fn identifier_of_a_legacy_request_needs_a_reply_value() {
    let notification = sample();
    let mut counter = PortalIdCounter::new();
    let request = encode(&notification, 5, NotificationBus::default(), &mut counter, None);
    assert_eq!(request.identifier(Ok(None)), Err(SendError::MissingIdentifier));
}

#[test]
fn identifier_of_a_portal_request_is_the_one_sent() {
    let notification = sample();
    let mut counter = PortalIdCounter::new();
    let request = encode(&notification, 77, NotificationBus::portal(), &mut counter, None);
    assert_eq!(request.identifier(Ok(None)), Ok(77));
    assert_eq!(request.identifier(Ok(Some(3))), Ok(77));
}

#[test]
fn identifier_hands_a_transport_failure_on() {
    let notification = sample();
    let mut counter = PortalIdCounter::new();
    let legacy = encode(&notification, 5, NotificationBus::default(), &mut counter, None);
    assert_eq!(
        legacy.identifier(Err("no bus".to_string())),
        Err(SendError::Transport("no bus".to_string()))
    );
    let portal = encode(&notification, 5, NotificationBus::portal(), &mut counter, None);
    assert_eq!(
        portal.identifier(Err("refused".to_string())),
        Err(SendError::Transport("refused".to_string()))
    );
}
