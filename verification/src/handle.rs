//! The handle to a notification that was sent.

use vstd::prelude::*;
use crate::bus::NotificationBus;
use crate::ident::PortalIdCounter;
use crate::endpoint::Endpoint;
use crate::names::{CLOSE_NOTIFICATION, NOTIFICATION_DEFAULT_BUS, NOTIFICATION_PORTAL_BUS};
use crate::notification::Notification;
use crate::request::{encode, select_bus, SendError, SendRequest};
use crate::signal::{ListenerState, SignalListener};

verus! {

/// A call of `CloseNotification` on the legacy interface.
#[derive(Debug, PartialEq, Eq)]
pub struct CloseRequest {
    /// The service that is called.
    pub bus: NotificationBus,
    /// The notification to close.
    pub id: u32,
}

impl CloseRequest {
    /// Where the request goes: to `CloseNotification` of the legacy
    /// interface, at the service that took the notification.
    pub fn endpoint(&self) -> (method: Endpoint)
        ensures
            method.is_legacy(self.bus@, CLOSE_NOTIFICATION@),
    {
        Endpoint::legacy(self.bus.clone(), CLOSE_NOTIFICATION)
    }
}

/// The identifier of a handle after an update: the one that sending again
/// gave, and the one it had where sending failed.
pub open spec fn updated_id(current: u32, sent: Result<u32, SendError>) -> u32 {
    match sent {
        Ok(id) => id,
        Err(_) => current,
    }
}

/// A notification that was sent: its identifier, and the notification as it
/// went out, with the service that took it.
#[derive(Debug)]
pub struct ZbusNotificationHandle {
    id: u32,
    notification: Notification,
}

/// What a `ZbusNotificationHandle` holds.
pub struct HandleView {
    pub id: u32,
    pub notification: Notification,
}

impl View for ZbusNotificationHandle {
    type V = HandleView;

    closed spec fn view(&self) -> HandleView {
        HandleView { id: self.id, notification: self.notification }
    }
}

impl ZbusNotificationHandle {
    /// The handle to `notification`, sent under `id`.
    pub fn new(id: u32, notification: Notification) -> (handle: Self)
        ensures
            handle@.id == id,
            handle@.notification == notification,
    {
        ZbusNotificationHandle { id, notification }
    }

    /// The handle to a notification that `bus` took under `id`: it keeps a
    /// copy of `notification` with `bus` as its service.
    pub fn sent(notification: &Notification, bus: NotificationBus, id: u32) -> (handle: Self)
        ensures
            handle@.id == id,
            handle@.notification.bus@ == bus@,
            handle@.notification.same_content(notification),
    {
        ZbusNotificationHandle { id, notification: notification.at_bus(bus) }
    }

    /// The identifier of the notification.
    pub fn id(&self) -> (id: u32)
        ensures
            id == self@.id,
    {
        self.id
    }

    /// The notification as it went out.
    pub fn notification(&self) -> (notification: &Notification)
        ensures
            *notification == self@.notification,
    {
        &self.notification
    }

    /// Gives the handle up for the call that closes its notification: it
    /// goes to the service that took the notification, with its identifier.
    pub fn close_fallible(self) -> (request: CloseRequest)
        ensures
            request.bus@ == self@.notification.bus@,
            request.id == self@.id,
    {
        CloseRequest { bus: self.notification.bus, id: self.id }
    }

    /// The request that sends the notification again under its identifier.
    /// `version` is what a fresh read of the portal's version gave; it alone
    /// picks the service.
    pub fn resend<'a>(
        &'a self,
        version: Option<u32>,
        counter: &mut PortalIdCounter,
        image: Option<Vec<u8>>,
    ) -> (request: SendRequest<'a>)
        ensures
            version matches Some(v) && v > 0 ==> {
                &&& request matches SendRequest::Portal(portal)
                &&& portal.carries(
                    &self@.notification,
                    if self@.id == 0 { old(counter)@ } else { self@.id },
                    NOTIFICATION_PORTAL_BUS@,
                    image,
                )
                &&& self@.id == 0 ==> final(counter).follows(old(counter))
                &&& self@.id != 0 ==> *final(counter) == *old(counter)
            },
            version matches Some(v) && v > 0 && self@.id == 0 && !old(counter).wrapped()
                ==> forall|i: int|
                0 <= i < old(counter).issued().len() ==> old(counter).issued()[i] < old(counter)@,
            !(version matches Some(v) && v > 0) ==> {
                &&& request matches SendRequest::Legacy(legacy)
                &&& legacy.carries(&self@.notification, self@.id, NOTIFICATION_DEFAULT_BUS@)
                &&& *final(counter) == *old(counter)
            },
    {
        encode(&self.notification, self.id, select_bus(version), counter, image)
    }

    /// Takes what came of sending the notification again: the identifier
    /// that the service gave replaces the old one, and a failure leaves the
    /// handle as it was and is handed on.
    pub fn update_fallible(&mut self, sent: Result<u32, SendError>) -> (done: Result<(), SendError>)
        ensures
            final(self)@.notification == old(self)@.notification,
            final(self)@.id == updated_id(old(self)@.id, sent),
            done == match sent {
                Ok(_) => Ok::<(), SendError>(()),
                Err(failure) => Err::<(), SendError>(failure),
            },
    {
        match sent {
            Ok(id) => {
                self.id = id;
                Ok(())
            },
            Err(failure) => Err(failure),
        }
    }

    /// Gives the handle up for a listener that waits for what becomes of its
    /// notification.
    pub fn wait_for_action(self) -> (listener: SignalListener)
        ensures
            listener@.target == self@.id,
            listener@.state == ListenerState::Subscribed,
    {
        SignalListener::new(self.id)
    }
}

/// Whatever identifier went out with a legacy request, the handle has the
/// one that the service answered with.
pub proof fn lemma_legacy_reply_names_the_notification(
    request: SendRequest,
    supplied: u32,
    echoed: u32,
)
    requires
        request matches SendRequest::Legacy(legacy) && legacy.replaces_id == supplied,
    ensures
        updated_id(supplied, request.identifier_spec(Ok(Some(echoed)))) == echoed,
{
}

} // verus!
