//! The two wire forms of a notification, and the choice between them.

use vstd::prelude::*;
use vstd::string::*;
use crate::bus::NotificationBus;
use crate::ident::{decimal, decimal_string, portal_identifier, PortalIdCounter};
use crate::endpoint::Endpoint;
use crate::names::{ADD_NOTIFICATION, NOTIFICATION_DEFAULT_BUS, NOTIFICATION_PORTAL_BUS, NOTIFY};
use crate::notification::{
    first_image_path, first_urgency, lemma_first_urgency_at, lemma_first_urgency_none, Hint,
    Notification, Urgency,
};

verus! {

/// The portal's word for an urgency.
pub open spec fn priority_name(urgency: Urgency) -> Seq<char> {
    match urgency {
        Urgency::Low => "low"@,
        Urgency::Normal => "normal"@,
        Urgency::Critical => "urgent"@,
    }
}

/// The priority that the portal is given for a notification with these hints:
/// that of the first urgency hint, and `normal` where there is none.
pub open spec fn portal_priority(hints: Seq<Hint>) -> Seq<char> {
    match first_urgency(hints) {
        Some(urgency) => priority_name(urgency),
        None => "normal"@,
    }
}

/// A notification asks for an image file: it names no icon and has an image
/// path hint.
pub open spec fn wants_image(notification: &Notification) -> bool {
    notification.icon@.len() == 0 && first_image_path(notification.hints@) is Some
}

/// The icon of a portal notification.
#[derive(Debug, PartialEq, Eq)]
pub enum PortalIcon<'a> {
    /// A themed icon, by name.
    Themed(&'a str),
    /// The bytes of an image file.
    Bytes(Vec<u8>),
}

/// What a `PortalIcon` holds.
pub enum PortalIconView {
    Themed(Seq<char>),
    Bytes(Seq<u8>),
}

impl View for PortalIcon<'_> {
    type V = PortalIconView;

    open spec fn view(&self) -> PortalIconView {
        match self {
            PortalIcon::Themed(name) => PortalIconView::Themed(name@),
            PortalIcon::Bytes(data) => PortalIconView::Bytes(data@),
        }
    }
}

/// A value in the payload of a portal notification.
#[derive(Debug, PartialEq, Eq)]
pub enum PortalValue<'a> {
    Text(&'a str),
    Icon(PortalIcon<'a>),
}

/// What a `PortalValue` holds.
pub enum PortalValueView {
    Text(Seq<char>),
    Icon(PortalIconView),
}

impl View for PortalValue<'_> {
    type V = PortalValueView;

    open spec fn view(&self) -> PortalValueView {
        match self {
            PortalValue::Text(text) => PortalValueView::Text(text@),
            PortalValue::Icon(icon) => PortalValueView::Icon(icon@),
        }
    }
}

/// One key of the payload of a portal notification, with its value.
#[derive(Debug, PartialEq, Eq)]
pub struct PortalEntry<'a> {
    pub key: &'static str,
    pub value: PortalValue<'a>,
}

impl View for PortalEntry<'_> {
    type V = (Seq<char>, PortalValueView);

    open spec fn view(&self) -> (Seq<char>, PortalValueView) {
        (self.key@, self.value@)
    }
}

/// The icon that the portal is given: the bytes of the image file where the
/// notification asks for one and the file could be read, else the themed icon
/// that the notification names.
pub open spec fn portal_icon(notification: &Notification, image: Option<Vec<u8>>) -> PortalIconView {
    if wants_image(notification) && image is Some {
        PortalIconView::Bytes(image->0@)
    } else {
        PortalIconView::Themed(notification.icon@)
    }
}

/// The payload of the portal request for `notification`: the four keys
/// `title`, `body`, `priority` and `icon`, in this order.
pub open spec fn portal_payload(notification: &Notification, image: Option<Vec<u8>>) -> Seq<
    (Seq<char>, PortalValueView),
> {
    seq![
        ("title"@, PortalValueView::Text(notification.summary@)),
        ("body"@, PortalValueView::Text(notification.body@)),
        ("priority"@, PortalValueView::Text(portal_priority(notification.hints@))),
        ("icon"@, PortalValueView::Icon(portal_icon(notification, image))),
    ]
}

/// A call of `Notify` on the legacy interface.
#[derive(Debug, PartialEq, Eq)]
pub struct LegacyRequest<'a> {
    /// The service that is called.
    pub bus: NotificationBus,
    pub app_name: &'a str,
    /// The notification to replace, or `0` for a new one.
    pub replaces_id: u32,
    pub icon: &'a str,
    pub summary: &'a str,
    pub body: &'a str,
    pub actions: &'a Vec<String>,
    pub hints: &'a Vec<Hint>,
    pub timeout: i32,
}

impl LegacyRequest<'_> {
    /// The request hands `notification` on as it is, under `id`, to `bus`.
    pub open spec fn carries(&self, notification: &Notification, id: u32, bus: Seq<char>) -> bool {
        &&& self.bus@ == bus
        &&& self.app_name@ == notification.appname@
        &&& self.replaces_id == id
        &&& self.icon@ == notification.icon@
        &&& self.summary@ == notification.summary@
        &&& self.body@ == notification.body@
        &&& self.actions@ == notification.actions@
        &&& self.hints@ == notification.hints@
        &&& self.timeout == notification.timeout
    }
}

/// A call of `AddNotification` on the portal interface.
#[derive(Debug, PartialEq, Eq)]
pub struct PortalRequest<'a> {
    /// The service that is called.
    pub bus: NotificationBus,
    /// The identifier of the notification.
    pub id: u32,
    /// The identifier in decimal: the name under which the portal files the
    /// notification.
    pub key: String,
    /// The notification as keys and values.
    pub payload: Vec<PortalEntry<'a>>,
}

impl PortalRequest<'_> {
    /// The payload, each entry by what it holds.
    pub open spec fn payload_view(&self) -> Seq<(Seq<char>, PortalValueView)> {
        self.payload@.map_values(|entry: PortalEntry| entry@)
    }

    /// The request describes `notification` under `id` to `bus`, with `image`
    /// as what came of reading its image file.
    pub open spec fn carries(
        &self,
        notification: &Notification,
        id: u32,
        bus: Seq<char>,
        image: Option<Vec<u8>>,
    ) -> bool {
        &&& self.bus@ == bus
        &&& self.id == id
        &&& self.key@ == decimal(id as nat)
        &&& self.payload_view() == portal_payload(notification, image)
    }
}

/// A notification on its way to a service, in the form that the service takes.
#[derive(Debug, PartialEq, Eq)]
pub enum SendRequest<'a> {
    Legacy(LegacyRequest<'a>),
    Portal(PortalRequest<'a>),
}

/// Why a notification was not sent, or its identifier not learned.
#[derive(Debug, PartialEq, Eq)]
pub enum SendError {
    /// The bus could not be reached or refused the call; the text is the
    /// transport's.
    Transport(String),
    /// The legacy service answered without an identifier.
    MissingIdentifier,
}

/// The portal's word for the urgency of `notification`.
pub fn priority(notification: &Notification) -> (name: &'static str)
    ensures
        name@ == portal_priority(notification.hints@),
{
    match notification.urgency() {
        Some(Urgency::Low) => "low",
        Some(Urgency::Normal) => "normal",
        Some(Urgency::Critical) => "urgent",
        None => "normal",
    }
}

/// The file to read for the icon of `notification`, where it asks for one.
pub fn image_file(notification: &Notification) -> (path: Option<&str>)
    ensures
        path is Some <==> wants_image(notification),
        path matches Some(p) ==> Some(p@) == first_image_path(notification.hints@),
{
    if notification.icon.as_str().is_empty() {
        notification.image_path()
    } else {
        None
    }
}

/// The icon of the portal request for `notification`. `image` is what came
/// of reading its image file: `None` where there was nothing to read or the
/// file could not be read.
pub fn icon<'a>(notification: &'a Notification, image: Option<Vec<u8>>) -> (icon: PortalIcon<'a>)
    ensures
        icon@ == portal_icon(notification, image),
{
    let themed = PortalIcon::Themed(notification.icon.as_str());
    match image_file(notification) {
        Some(_) => match image {
            Some(data) => PortalIcon::Bytes(data),
            None => themed,
        },
        None => themed,
    }
}

/// Puts `notification` into the form that `bus` takes. The portal gets a
/// payload under the identifier in decimal, where the identifier is `id` or,
/// for `id` 0, the next of `counter`, which unless the counter has started
/// over is greater than every one that it handed out before. Any other bus
/// gets the notification as it is, under `id`. Only the name of `bus`
/// decides.
pub fn encode<'a>(
    notification: &'a Notification,
    id: u32,
    bus: NotificationBus,
    counter: &mut PortalIdCounter,
    image: Option<Vec<u8>>,
) -> (request: SendRequest<'a>)
    ensures
        bus@ == NOTIFICATION_PORTAL_BUS@ ==> {
            &&& request matches SendRequest::Portal(portal)
            &&& portal.carries(
                notification,
                if id == 0 { old(counter)@ } else { id },
                bus@,
                image,
            )
        },
        bus@ == NOTIFICATION_PORTAL_BUS@ && id == 0 ==> final(counter).follows(old(counter)),
        bus@ == NOTIFICATION_PORTAL_BUS@ && id == 0 && !old(counter).wrapped() ==> forall|i: int|
            0 <= i < old(counter).issued().len() ==> old(counter).issued()[i] < old(counter)@,
        bus@ != NOTIFICATION_PORTAL_BUS@ ==> {
            &&& request matches SendRequest::Legacy(legacy)
            &&& legacy.carries(notification, id, bus@)
        },
        bus@ != NOTIFICATION_PORTAL_BUS@ || id != 0 ==> *final(counter) == *old(counter),
{
    if bus.is_portal() {
        let id = portal_identifier(id, counter);
        let mut payload: Vec<PortalEntry<'a>> = Vec::new();
        payload.push(PortalEntry { key: "title", value: PortalValue::Text(notification.summary.as_str()) });
        payload.push(PortalEntry { key: "body", value: PortalValue::Text(notification.body.as_str()) });
        payload.push(PortalEntry { key: "priority", value: PortalValue::Text(priority(notification)) });
        payload.push(PortalEntry { key: "icon", value: PortalValue::Icon(icon(notification, image)) });
        let request = PortalRequest { bus, id, key: decimal_string(id), payload };
        assert(request.payload_view() =~= portal_payload(notification, image));
        SendRequest::Portal(request)
    } else {
        SendRequest::Legacy(
            LegacyRequest {
                bus,
                app_name: notification.appname.as_str(),
                replaces_id: id,
                icon: notification.icon.as_str(),
                summary: notification.summary.as_str(),
                body: notification.body.as_str(),
                actions: &notification.actions,
                hints: &notification.hints,
                timeout: notification.timeout,
            },
        )
    }
}

impl<'a> SendRequest<'a> {
    /// Where the request goes: to `Notify` of the legacy interface, or to
    /// `AddNotification` of the portal, at the service that it was made for.
    pub fn endpoint(&self) -> (method: Endpoint)
        ensures
            match self {
                SendRequest::Legacy(legacy) => method.is_legacy(legacy.bus@, NOTIFY@),
                SendRequest::Portal(portal) => method.is_portal(portal.bus@, ADD_NOTIFICATION@),
            },
    {
        match self {
            SendRequest::Legacy(legacy) => Endpoint::legacy(legacy.bus.clone(), NOTIFY),
            SendRequest::Portal(portal) => Endpoint::portal(portal.bus.clone(), ADD_NOTIFICATION),
        }
    }

    /// The identifier of the notification once the request was made, as a
    /// function of what came back: see `identifier`.
    pub open spec fn identifier_spec(&self, outcome: Result<Option<u32>, String>) -> Result<
        u32,
        SendError,
    > {
        match outcome {
            Err(failure) => Err(SendError::Transport(failure)),
            Ok(reply) => match self {
                SendRequest::Portal(portal) => Ok(portal.id),
                SendRequest::Legacy(_) => match reply {
                    Some(id) => Ok(id),
                    None => Err(SendError::MissingIdentifier),
                },
            },
        }
    }

    /// The identifier of the notification once the request was made.
    /// `outcome` is the transport's failure, or else the number that the
    /// reply held, if it held one. A failure is handed on. The legacy service
    /// names the notification in its reply, whatever identifier was sent; the
    /// portal's reply says nothing, and the identifier sent stands.
    pub fn identifier(&self, outcome: Result<Option<u32>, String>) -> (id: Result<u32, SendError>)
        ensures
            id == self.identifier_spec(outcome),
    {
        match outcome {
            Err(failure) => Err(SendError::Transport(failure)),
            Ok(reply) => match self {
                SendRequest::Portal(portal) => Ok(portal.id),
                SendRequest::Legacy(_) => match reply {
                    Some(id) => Ok(id),
                    None => Err(SendError::MissingIdentifier),
                },
            },
        }
    }
}

/// The service to send to when the caller forces none. `version` is what the
/// portal's version property held, or `None` where it could not be read: the
/// portal where it answered with a version above 0, else the legacy service.
pub fn select_bus(version: Option<u32>) -> (bus: NotificationBus)
    ensures
        bus@ == if version matches Some(v) && v > 0 {
            NOTIFICATION_PORTAL_BUS@
        } else {
            NOTIFICATION_DEFAULT_BUS@
        },
        !(version matches Some(v) && v > 0) ==> bus@ != NOTIFICATION_PORTAL_BUS@,
{
    proof {
        lemma_service_names_differ();
    }
    match version {
        Some(v) if v > 0 => NotificationBus::portal(),
        _ => NotificationBus::default(),
    }
}

/// The priority is always one of the portal's three words.
pub proof fn lemma_priority_is_total(hints: Seq<Hint>)
    ensures
        portal_priority(hints) == "low"@ || portal_priority(hints) == "normal"@ || portal_priority(
            hints,
        ) == "urgent"@,
{
}

/// A notification without an urgency hint goes out with priority `normal`.
pub proof fn lemma_priority_defaults_to_normal(hints: Seq<Hint>)
    requires
        forall|j: int| 0 <= j < hints.len() ==> !(#[trigger] hints[j] is Urgency),
    ensures
        portal_priority(hints) == "normal"@,
{
    lemma_first_urgency_none(hints);
}

/// A notification goes out with the priority of its first urgency hint:
/// `low` for low, `normal` for normal and `urgent` for critical.
pub proof fn lemma_priority_follows_urgency(hints: Seq<Hint>, at: int)
    requires
        0 <= at < hints.len(),
        hints[at] is Urgency,
        forall|j: int| 0 <= j < at ==> !(#[trigger] hints[j] is Urgency),
    ensures
        hints[at] == Hint::Urgency(Urgency::Low) ==> portal_priority(hints) == "low"@,
        hints[at] == Hint::Urgency(Urgency::Normal) ==> portal_priority(hints) == "normal"@,
        hints[at] == Hint::Urgency(Urgency::Critical) ==> portal_priority(hints) == "urgent"@,
{
    lemma_first_urgency_at(hints, at);
}

/// Without the bytes of an image, whether there was no file to read or the
/// file could not be read, the icon is the themed one that the notification
/// names: for a notification without icon, the themed icon of the empty name.
pub proof fn lemma_icon_falls_back_to_theme(notification: &Notification)
    ensures
        portal_icon(notification, None) == PortalIconView::Themed(notification.icon@),
        notification.icon@.len() == 0 ==> portal_icon(notification, None) == PortalIconView::Themed(
            Seq::<char>::empty(),
        ),
{
    assert(notification.icon@.len() == 0 ==> notification.icon@ =~= Seq::<char>::empty());
}

/// The identifier of a portal notification is the one that went out with
/// it, whatever the reply holds.
pub proof fn lemma_portal_identifier_stands(request: SendRequest, reply: Option<u32>)
    requires
        request is Portal,
    ensures
        request.identifier_spec(Ok(reply)) == Ok::<u32, SendError>(request->Portal_0.id),
{
}

/// The two services have different names.
pub proof fn lemma_service_names_differ()
    ensures
        NOTIFICATION_DEFAULT_BUS@ != NOTIFICATION_PORTAL_BUS@,
{
    reveal_strlit("org.freedesktop.Notifications");
    reveal_strlit("org.freedesktop.portal.Desktop");
    assert(NOTIFICATION_DEFAULT_BUS@.len() == 29);
    assert(NOTIFICATION_PORTAL_BUS@.len() == 30);
}

} // verus!
