//! Waiting for what becomes of a notification: the signals that the service
//! sends, and the listener that picks out the one for its notification.

use vstd::prelude::*;
use vstd::std_specs::convert::FromSpecImpl;
use crate::names::{ACTION_INVOKED, NOTIFICATION_CLOSED, NOTIFICATION_INTERFACE};

verus! {

/// Why a notification went away.
#[derive(Clone, Copy, Debug, PartialEq, Eq, Structural)]
pub enum CloseReason {
    /// Its time ran out.
    Expired,
    /// The user dismissed it.
    DismissedByUser,
    /// A call of `CloseNotification` closed it.
    CloseNotificationCall,
    /// A reason that the protocol does not name, with its code.
    Unknown(u32),
}

/// The reason that a close code stands for.
pub open spec fn close_reason(code: u32) -> CloseReason {
    if code == 1 {
        CloseReason::Expired
    } else if code == 2 {
        CloseReason::DismissedByUser
    } else if code == 3 {
        CloseReason::CloseNotificationCall
    } else {
        CloseReason::Unknown(code)
    }
}

impl From<u32> for CloseReason {
    fn from(code: u32) -> (reason: CloseReason) {
        match code {
            1 => CloseReason::Expired,
            2 => CloseReason::DismissedByUser,
            3 => CloseReason::CloseNotificationCall,
            other => CloseReason::Unknown(other),
        }
    }
}

impl FromSpecImpl<u32> for CloseReason {
    open spec fn obeys_from_spec() -> bool {
        true
    }

    open spec fn from_spec(code: u32) -> CloseReason {
        close_reason(code)
    }
}

/// What became of a notification.
#[derive(Debug, PartialEq, Eq)]
pub enum ActionResponse<'a> {
    /// The user invoked the action of this name.
    Custom(&'a str),
    /// The notification went away.
    Closed(CloseReason),
}

/// What an `ActionResponse` holds.
pub enum ActionResponseView {
    Custom(Seq<char>),
    Closed(CloseReason),
}

impl View for ActionResponse<'_> {
    type V = ActionResponseView;

    open spec fn view(&self) -> ActionResponseView {
        match self {
            ActionResponse::Custom(action) => ActionResponseView::Custom(action@),
            ActionResponse::Closed(reason) => ActionResponseView::Closed(*reason),
        }
    }
}

impl ActionResponse<'_> {
    /// The reason, where the response is that the notification went away.
    pub fn close_reason(&self) -> (reason: Option<CloseReason>)
        ensures
            reason == match self {
                ActionResponse::Closed(r) => Some(*r),
                ActionResponse::Custom(_) => None,
            },
    {
        match self {
            ActionResponse::Closed(r) => Some(*r),
            ActionResponse::Custom(_) => None,
        }
    }
}

/// The kind of a message on the bus.
#[derive(Clone, Copy, Debug, PartialEq, Eq, Structural)]
pub enum MessageKind {
    MethodCall,
    MethodReturn,
    Error,
    Signal,
}

/// The body of a message, by the shape that it decodes to.
#[derive(Debug, PartialEq, Eq)]
pub enum Payload {
    /// A number and a text: the shape of `ActionInvoked`.
    NumberAndText(u32, String),
    /// Two numbers: the shape of `NotificationClosed`.
    TwoNumbers(u32, u32),
    /// Any other body.
    Other,
}

/// A message from the bus, as far as a listener reads it.
#[derive(Debug, PartialEq, Eq)]
pub struct BusMessage {
    pub kind: MessageKind,
    /// The member that the header names, if it names one.
    pub member: Option<String>,
    pub payload: Payload,
}

/// What the message stream gave when it was asked for the next message.
#[derive(Debug, PartialEq, Eq)]
pub enum StreamEvent {
    Message(BusMessage),
    /// No message: the stream ended or failed.
    Ended,
}

/// The subscription to the signals of one member of an interface.
#[derive(Debug, PartialEq, Eq)]
pub struct MatchRule {
    pub interface: &'static str,
    pub member: &'static str,
}

/// `rules` are the two subscriptions that a listener needs: to
/// `ActionInvoked` and to `NotificationClosed` of the notification interface,
/// in this order.
pub open spec fn subscribes_to_both_signals(rules: Seq<MatchRule>) -> bool {
    &&& rules.len() == 2
    &&& rules[0].interface@ == NOTIFICATION_INTERFACE@
    &&& rules[0].member@ == ACTION_INVOKED@
    &&& rules[1].interface@ == NOTIFICATION_INTERFACE@
    &&& rules[1].member@ == NOTIFICATION_CLOSED@
}

/// The two subscriptions that a listener needs.
pub fn match_rules() -> (rules: Vec<MatchRule>)
    ensures
        subscribes_to_both_signals(rules@),
{
    let mut rules: Vec<MatchRule> = Vec::new();
    rules.push(MatchRule { interface: NOTIFICATION_INTERFACE, member: ACTION_INVOKED });
    rules.push(MatchRule { interface: NOTIFICATION_INTERFACE, member: NOTIFICATION_CLOSED });
    rules
}

/// What `message` says of the notification `target`: the action invoked on
/// it or the reason it closed for, and nothing where the message is no
/// signal, names another member, has a body of another shape, or speaks of
/// another notification.
pub open spec fn response_to(message: &BusMessage, target: u32) -> Option<ActionResponseView> {
    if message.kind != MessageKind::Signal {
        None
    } else if message.member matches Some(member) && member@ == ACTION_INVOKED@ {
        match message.payload {
            Payload::NumberAndText(id, action) if id == target => Some(
                ActionResponseView::Custom(action@),
            ),
            _ => None,
        }
    } else if message.member matches Some(member) && member@ == NOTIFICATION_CLOSED@ {
        match message.payload {
            Payload::TwoNumbers(id, code) if id == target => Some(
                ActionResponseView::Closed(close_reason(code)),
            ),
            _ => None,
        }
    } else {
        None
    }
}

/// An optional response by what it holds.
pub open spec fn response_view(response: Option<ActionResponse>) -> Option<ActionResponseView> {
    match response {
        Some(r) => Some(r@),
        None => None,
    }
}

/// Reads `message` for the notification `target`.
pub fn respond<'a>(message: &'a BusMessage, target: u32) -> (response: Option<ActionResponse<'a>>)
    ensures
        response_view(response) == response_to(message, target),
{
    match message.kind {
        MessageKind::Signal => {},
        _ => {
            return None;
        },
    }
    let member = match &message.member {
        Some(member) => member,
        None => {
            return None;
        },
    };
    if *member == String::from_str(ACTION_INVOKED) {
        match &message.payload {
            Payload::NumberAndText(id, action) => {
                if *id == target {
                    Some(ActionResponse::Custom(action.as_str()))
                } else {
                    None
                }
            },
            _ => None,
        }
    } else if *member == String::from_str(NOTIFICATION_CLOSED) {
        match &message.payload {
            Payload::TwoNumbers(id, code) => {
                if *id == target {
                    Some(ActionResponse::Closed(CloseReason::from(*code)))
                } else {
                    None
                }
            },
            _ => None,
        }
    } else {
        None
    }
}

/// Where a listener stands.
#[derive(Clone, Copy, Debug, PartialEq, Eq, Structural)]
pub enum ListenerState {
    /// Made, with its subscriptions still to be registered.
    Subscribed,
    /// Reading the message stream.
    Listening,
    /// Finished: it has its response, or the stream has ended.
    Done,
}

/// What a listener in `state` for the notification `target` does with
/// `event`: the state it goes to, and the response to hand to the handler.
/// Only a listening listener reads; it is done with the first message that
/// speaks of its notification, and with the end of the stream.
pub open spec fn step(state: ListenerState, target: u32, event: &StreamEvent) -> (
    ListenerState,
    Option<ActionResponseView>,
) {
    match state {
        ListenerState::Listening => match event {
            StreamEvent::Ended => (ListenerState::Done, None),
            StreamEvent::Message(message) => match response_to(message, target) {
                Some(response) => (ListenerState::Done, Some(response)),
                None => (ListenerState::Listening, None),
            },
        },
        _ => (state, None),
    }
}

/// A listener for the signals about one notification.
#[derive(Debug, PartialEq, Eq)]
pub struct SignalListener {
    target: u32,
    state: ListenerState,
}

/// What a `SignalListener` holds.
pub struct SignalListenerView {
    pub target: u32,
    pub state: ListenerState,
}

impl View for SignalListener {
    type V = SignalListenerView;

    closed spec fn view(&self) -> SignalListenerView {
        SignalListenerView { target: self.target, state: self.state }
    }
}

impl SignalListener {
    /// A listener for the notification `target`, not yet subscribed.
    pub fn new(target: u32) -> (listener: Self)
        ensures
            listener@.target == target,
            listener@.state == ListenerState::Subscribed,
    {
        SignalListener { target, state: ListenerState::Subscribed }
    }

    /// The notification that the listener waits for.
    pub fn target(&self) -> (target: u32)
        ensures
            target == self@.target,
    {
        self.target
    }

    /// Where the listener stands.
    pub fn state(&self) -> (state: ListenerState)
        ensures
            state == self@.state,
    {
        self.state
    }

    /// The listener has finished.
    pub fn is_done(&self) -> (done: bool)
        ensures
            done == (self@.state == ListenerState::Done),
    {
        match self.state {
            ListenerState::Done => true,
            _ => false,
        }
    }

    /// Starts a new listener: it gives the subscriptions to register and goes
    /// on to listen. A listener that was started before gives none and stays
    /// as it is.
    pub fn start(&mut self) -> (rules: Vec<MatchRule>)
        ensures
            final(self)@.target == old(self)@.target,
            old(self)@.state == ListenerState::Subscribed ==> {
                &&& final(self)@.state == ListenerState::Listening
                &&& subscribes_to_both_signals(rules@)
            },
            old(self)@.state != ListenerState::Subscribed ==> {
                &&& final(self)@.state == old(self)@.state
                &&& rules@.len() == 0
            },
    {
        match self.state {
            ListenerState::Subscribed => {
                self.state = ListenerState::Listening;
                match_rules()
            },
            _ => Vec::new(),
        }
    }

    /// Takes the next event of the stream. The response, where there is one,
    /// is for the handler; a listener gives at most one.
    pub fn on_event<'a>(&mut self, event: &'a StreamEvent) -> (response: Option<ActionResponse<'a>>)
        ensures
            final(self)@.target == old(self)@.target,
            final(self)@.state == step(old(self)@.state, old(self)@.target, event).0,
            response_view(response) == step(old(self)@.state, old(self)@.target, event).1,
    {
        match self.state {
            ListenerState::Listening => {},
            _ => {
                return None;
            },
        }
        match event {
            StreamEvent::Ended => {
                self.state = ListenerState::Done;
                None
            },
            StreamEvent::Message(message) => {
                let response = respond(message, self.target);
                if response.is_some() {
                    self.state = ListenerState::Done;
                }
                response
            },
        }
    }
}

/// What a listener for `target` makes of a stream that gives `events`: its
/// response, and the number of events that it takes. It stops with the first
/// message that speaks of its notification, or with the end of the stream.
pub open spec fn heard(events: Seq<StreamEvent>, target: u32) -> (Option<ActionResponseView>, nat)
    decreases events.len(),
{
    if events.len() == 0 {
        (None, 0)
    } else {
        let (state, response) = step(ListenerState::Listening, target, &events[0]);
        if state == ListenerState::Done {
            (response, 1)
        } else {
            let rest = heard(events.drop_first(), target);
            (rest.0, rest.1 + 1)
        }
    }
}

/// Listens for the notification `id` on a stream that gives `events`, and
/// returns the response for the handler, where there is one, with the number
/// of events taken from the stream.
pub fn wait_for_action_signal<'a>(events: &'a Vec<StreamEvent>, id: u32) -> (outcome: (
    Option<ActionResponse<'a>>,
    usize,
))
    ensures
        response_view(outcome.0) == heard(events@, id).0,
        outcome.1 == heard(events@, id).1,
{
    let mut listener = SignalListener::new(id);
    let _ = listener.start();
    let mut taken: usize = 0;
    assert(events@.skip(0) == events@);
    while taken < events.len()
        invariant
            taken <= events.len(),
            listener@.target == id,
            listener@.state == ListenerState::Listening,
            heard(events@, id).0 == heard(events@.skip(taken as int), id).0,
            heard(events@, id).1 == heard(events@.skip(taken as int), id).1 + taken,
        decreases events.len() - taken,
    {
        assert(events@.skip(taken as int).drop_first() == events@.skip(taken as int + 1));
        let response = listener.on_event(&events[taken]);
        taken += 1;
        if listener.is_done() {
            return (response, taken);
        }
    }
    (None, taken)
}

/// The event is a message that speaks of the notification `target`.
pub open spec fn speaks_of(event: &StreamEvent, target: u32) -> bool {
    event matches StreamEvent::Message(message) && response_to(message, target) is Some
}

/// The event is the end of the stream.
pub open spec fn ends(event: &StreamEvent) -> bool {
    event is Ended
}

/// The first message that speaks of the listener's notification decides: the
/// listener gives its response, once, and takes no event behind it.
pub proof fn lemma_first_match_wins(events: Seq<StreamEvent>, target: u32, at: int)
    requires
        0 <= at < events.len(),
        speaks_of(&events[at], target),
        forall|j: int|
            0 <= j < at ==> !speaks_of(#[trigger] &events[j], target) && !ends(&events[j]),
    ensures
        heard(events, target).0 == response_to(&events[at]->Message_0, target),
        heard(events, target).1 == at + 1,
    decreases at,
{
    if at > 0 {
        let rest = events.drop_first();
        assert forall|j: int| 0 <= j < at - 1 implies !speaks_of(#[trigger] &rest[j], target)
            && !ends(&rest[j]) by {
            assert(rest[j] == events[j + 1]);
        }
        lemma_first_match_wins(rest, target, at - 1);
    }
}

/// A stream without a message that speaks of the listener's notification
/// leaves the handler uncalled, whether it ends or not.
pub proof fn lemma_no_match_no_response(events: Seq<StreamEvent>, target: u32)
    requires
        forall|j: int| 0 <= j < events.len() ==> !speaks_of(#[trigger] &events[j], target),
    ensures
        heard(events, target).0 is None,
        heard(events, target).1 <= events.len(),
    decreases events.len(),
{
    if events.len() > 0 {
        let rest = events.drop_first();
        assert forall|j: int| 0 <= j < rest.len() implies !speaks_of(#[trigger] &rest[j], target) by {
            assert(rest[j] == events[j + 1]);
        }
        lemma_no_match_no_response(rest, target);
    }
}

/// A listener stops at the end of the stream: where the stream ends before
/// any message speaks of the notification, the handler stays uncalled and
/// the listener takes nothing behind the end.
pub proof fn lemma_end_of_stream_stops(events: Seq<StreamEvent>, target: u32, at: int)
    requires
        0 <= at < events.len(),
        ends(&events[at]),
        forall|j: int|
            0 <= j < at ==> !speaks_of(#[trigger] &events[j], target) && !ends(&events[j]),
    ensures
        heard(events, target).0 is None,
        heard(events, target).1 == at + 1,
    decreases at,
{
    if at > 0 {
        let rest = events.drop_first();
        assert forall|j: int| 0 <= j < at - 1 implies !speaks_of(#[trigger] &rest[j], target)
            && !ends(&rest[j]) by {
            assert(rest[j] == events[j + 1]);
        }
        lemma_end_of_stream_stops(rest, target, at - 1);
    }
}

/// A listener that is done stays done and gives no further response.
pub proof fn lemma_done_is_final(target: u32, event: &StreamEvent)
    ensures
        step(ListenerState::Done, target, event) == (ListenerState::Done, None::<ActionResponseView>),
{
}

} // verus!
