//! The notification as the caller describes it.

use vstd::prelude::*;
use crate::bus::NotificationBus;

verus! {

/// How pressing a notification is.
#[derive(Clone, Copy, Debug, PartialEq, Eq, Structural)]
pub enum Urgency {
    Low,
    Normal,
    Critical,
}

/// A named piece of metadata that goes along with a notification.
#[derive(Debug, PartialEq, Eq)]
pub enum Hint {
    /// Show the actions as icons.
    ActionIcons(bool),
    /// The kind of notification, such as `email.arrived`.
    Category(String),
    /// The desktop entry of the sending program.
    DesktopEntry(String),
    /// A file that holds the image to show.
    ImagePath(String),
    /// Keep the notification after an action was invoked.
    Resident(bool),
    /// A sound file to play.
    SoundFile(String),
    /// A themed sound to play.
    SoundName(String),
    /// Play no sound.
    SuppressSound(bool),
    /// Leave the notification out of the server's history.
    Transient(bool),
    /// Where on the screen the notification points, horizontally.
    X(i32),
    /// Where on the screen the notification points, vertically.
    Y(i32),
    /// How pressing the notification is.
    Urgency(Urgency),
    /// A hint of the caller's own, with a text value.
    Custom(String, String),
    /// A hint of the caller's own, with a number.
    CustomInt(String, i32),
}

/// The number that stands for an urgency on the wire.
pub open spec fn urgency_level(urgency: Urgency) -> u8 {
    match urgency {
        Urgency::Low => 0,
        Urgency::Normal => 1,
        Urgency::Critical => 2,
    }
}

impl Urgency {
    /// The number that stands for the urgency on the wire.
    pub fn level(self) -> (level: u8)
        ensures
            level == urgency_level(self),
    {
        match self {
            Urgency::Low => 0,
            Urgency::Normal => 1,
            Urgency::Critical => 2,
        }
    }
}

/// The value of a hint, in the type that it has on the wire.
#[derive(Debug, PartialEq, Eq)]
pub enum HintValue<'a> {
    Bool(bool),
    Text(&'a str),
    Int(i32),
    Byte(u8),
}

/// What a `HintValue` holds.
pub enum HintValueView {
    Bool(bool),
    Text(Seq<char>),
    Int(i32),
    Byte(u8),
}

impl View for HintValue<'_> {
    type V = HintValueView;

    open spec fn view(&self) -> HintValueView {
        match self {
            HintValue::Bool(on) => HintValueView::Bool(*on),
            HintValue::Text(text) => HintValueView::Text(text@),
            HintValue::Int(number) => HintValueView::Int(*number),
            HintValue::Byte(number) => HintValueView::Byte(*number),
        }
    }
}

impl Hint {
    /// The name under which the hint goes into the hint mapping: the name
    /// that the protocol gives it, or the caller's own.
    pub open spec fn wire_key(&self) -> Seq<char> {
        match self {
            Hint::ActionIcons(_) => "action-icons"@,
            Hint::Category(_) => "category"@,
            Hint::DesktopEntry(_) => "desktop-entry"@,
            Hint::ImagePath(_) => "image-path"@,
            Hint::Resident(_) => "resident"@,
            Hint::SoundFile(_) => "sound-file"@,
            Hint::SoundName(_) => "sound-name"@,
            Hint::SuppressSound(_) => "suppress-sound"@,
            Hint::Transient(_) => "transient"@,
            Hint::X(_) => "x"@,
            Hint::Y(_) => "y"@,
            Hint::Urgency(_) => "urgency"@,
            Hint::Custom(name, _) => name@,
            Hint::CustomInt(name, _) => name@,
        }
    }

    /// The value with which the hint goes into the hint mapping.
    pub open spec fn wire_value(&self) -> HintValueView {
        match self {
            Hint::ActionIcons(on) => HintValueView::Bool(*on),
            Hint::Category(name) => HintValueView::Text(name@),
            Hint::DesktopEntry(name) => HintValueView::Text(name@),
            Hint::ImagePath(path) => HintValueView::Text(path@),
            Hint::Resident(on) => HintValueView::Bool(*on),
            Hint::SoundFile(path) => HintValueView::Text(path@),
            Hint::SoundName(name) => HintValueView::Text(name@),
            Hint::SuppressSound(on) => HintValueView::Bool(*on),
            Hint::Transient(on) => HintValueView::Bool(*on),
            Hint::X(x) => HintValueView::Int(*x),
            Hint::Y(y) => HintValueView::Int(*y),
            Hint::Urgency(urgency) => HintValueView::Byte(urgency_level(*urgency)),
            Hint::Custom(_, value) => HintValueView::Text(value@),
            Hint::CustomInt(_, value) => HintValueView::Int(*value),
        }
    }

    /// The name under which the hint goes into the hint mapping.
    pub fn key(&self) -> (key: &str)
        ensures
            key@ == self.wire_key(),
    {
        match self {
            Hint::ActionIcons(_) => "action-icons",
            Hint::Category(_) => "category",
            Hint::DesktopEntry(_) => "desktop-entry",
            Hint::ImagePath(_) => "image-path",
            Hint::Resident(_) => "resident",
            Hint::SoundFile(_) => "sound-file",
            Hint::SoundName(_) => "sound-name",
            Hint::SuppressSound(_) => "suppress-sound",
            Hint::Transient(_) => "transient",
            Hint::X(_) => "x",
            Hint::Y(_) => "y",
            Hint::Urgency(_) => "urgency",
            Hint::Custom(name, _) => name.as_str(),
            Hint::CustomInt(name, _) => name.as_str(),
        }
    }

    /// The value with which the hint goes into the hint mapping.
    pub fn value(&self) -> (value: HintValue<'_>)
        ensures
            value@ == self.wire_value(),
    {
        match self {
            Hint::ActionIcons(on) => HintValue::Bool(*on),
            Hint::Category(name) => HintValue::Text(name.as_str()),
            Hint::DesktopEntry(name) => HintValue::Text(name.as_str()),
            Hint::ImagePath(path) => HintValue::Text(path.as_str()),
            Hint::Resident(on) => HintValue::Bool(*on),
            Hint::SoundFile(path) => HintValue::Text(path.as_str()),
            Hint::SoundName(name) => HintValue::Text(name.as_str()),
            Hint::SuppressSound(on) => HintValue::Bool(*on),
            Hint::Transient(on) => HintValue::Bool(*on),
            Hint::X(x) => HintValue::Int(*x),
            Hint::Y(y) => HintValue::Int(*y),
            Hint::Urgency(urgency) => HintValue::Byte(urgency.level()),
            Hint::Custom(_, value) => HintValue::Text(value.as_str()),
            Hint::CustomInt(_, value) => HintValue::Int(*value),
        }
    }
}

impl Clone for Hint {
    fn clone(&self) -> (copy: Self)
        ensures
            copy == *self,
    {
        match self {
            Hint::ActionIcons(on) => Hint::ActionIcons(*on),
            Hint::Category(name) => Hint::Category(name.clone()),
            Hint::DesktopEntry(name) => Hint::DesktopEntry(name.clone()),
            Hint::ImagePath(path) => Hint::ImagePath(path.clone()),
            Hint::Resident(on) => Hint::Resident(*on),
            Hint::SoundFile(path) => Hint::SoundFile(path.clone()),
            Hint::SoundName(name) => Hint::SoundName(name.clone()),
            Hint::SuppressSound(on) => Hint::SuppressSound(*on),
            Hint::Transient(on) => Hint::Transient(*on),
            Hint::X(x) => Hint::X(*x),
            Hint::Y(y) => Hint::Y(*y),
            Hint::Urgency(urgency) => Hint::Urgency(*urgency),
            Hint::Custom(name, value) => Hint::Custom(name.clone(), value.clone()),
            Hint::CustomInt(name, value) => Hint::CustomInt(name.clone(), *value),
        }
    }
}

/// A notification to show.
#[derive(Debug, PartialEq, Eq)]
pub struct Notification {
    /// Name of the sending program.
    pub appname: String,
    /// The single line that sums the notification up.
    pub summary: String,
    /// The text below the summary.
    pub body: String,
    /// Name of a themed icon, or empty.
    pub icon: String,
    /// The hints, in the order in which they were given.
    pub hints: Vec<Hint>,
    /// Identifiers and labels of the actions, in turn.
    pub actions: Vec<String>,
    /// Milliseconds until the server drops the notification; `-1` leaves it
    /// to the server and `0` keeps the notification.
    pub timeout: i32,
    /// The identifier to replace, where one is known.
    pub id: Option<u32>,
    /// The service that the notification goes to when the caller forces one.
    pub bus: NotificationBus,
}

/// The urgency that the first urgency hint of `hints` carries.
pub open spec fn first_urgency(hints: Seq<Hint>) -> Option<Urgency>
    decreases hints.len(),
{
    if hints.len() == 0 {
        None
    } else if let Hint::Urgency(urgency) = hints[0] {
        Some(urgency)
    } else {
        first_urgency(hints.drop_first())
    }
}

/// The path that the first image path hint of `hints` carries.
pub open spec fn first_image_path(hints: Seq<Hint>) -> Option<Seq<char>>
    decreases hints.len(),
{
    if hints.len() == 0 {
        None
    } else if let Hint::ImagePath(path) = hints[0] {
        Some(path@)
    } else {
        first_image_path(hints.drop_first())
    }
}

impl Notification {
    /// The two notifications say the same, whatever service each goes to.
    pub open spec fn same_content(&self, other: &Notification) -> bool {
        &&& self.appname@ == other.appname@
        &&& self.summary@ == other.summary@
        &&& self.body@ == other.body@
        &&& self.icon@ == other.icon@
        &&& self.hints@ == other.hints@
        &&& self.actions@ == other.actions@
        &&& self.timeout == other.timeout
        &&& self.id == other.id
    }

    /// The two notifications say the same and go to the same service.
    pub open spec fn same_as(&self, other: &Notification) -> bool {
        self.same_content(other) && self.bus@ == other.bus@
    }

    /// A copy of the notification that goes to `bus` and is the same
    /// otherwise.
    pub fn at_bus(&self, bus: NotificationBus) -> (copy: Self)
        ensures
            copy.bus@ == bus@,
            copy.same_content(self),
    {
        Notification {
            appname: self.appname.clone(),
            summary: self.summary.clone(),
            body: self.body.clone(),
            icon: self.icon.clone(),
            hints: self.hints.clone(),
            actions: self.actions.clone(),
            timeout: self.timeout,
            id: self.id,
            bus,
        }
    }

    /// A notification with the given summary and nothing else: no body, icon,
    /// hint or action, the timeout left to the server, no identifier, and the
    /// legacy service as its bus.
    pub fn new(summary: &str) -> (notification: Self)
        ensures
            notification.summary@ == summary@,
            notification.appname@ == Seq::<char>::empty(),
            notification.body@ == Seq::<char>::empty(),
            notification.icon@ == Seq::<char>::empty(),
            notification.hints@ == Seq::<Hint>::empty(),
            notification.actions@ == Seq::<String>::empty(),
            notification.timeout == -1,
            notification.id is None,
            notification.bus@ == crate::names::NOTIFICATION_DEFAULT_BUS@,
    {
        Notification {
            appname: String::new(),
            summary: summary.to_owned(),
            body: String::new(),
            icon: String::new(),
            hints: Vec::new(),
            actions: Vec::new(),
            timeout: -1,
            id: None,
            bus: NotificationBus::default(),
        }
    }

    /// The identifier to send with: the one to replace, or `0` to have one
    /// allocated.
    pub fn requested_id(&self) -> (id: u32)
        ensures
            id == match self.id {
                Some(known) => known,
                None => 0,
            },
    {
        match self.id {
            Some(known) => known,
            None => 0,
        }
    }

    /// The urgency of the first urgency hint, if there is one.
    pub fn urgency(&self) -> (found: Option<Urgency>)
        ensures
            found == first_urgency(self.hints@),
    {
        let mut i: usize = 0;
        assert(self.hints@.skip(0) == self.hints@);
        while i < self.hints.len()
            invariant
                i <= self.hints.len(),
                first_urgency(self.hints@) == first_urgency(self.hints@.skip(i as int)),
            decreases self.hints.len() - i,
        {
            assert(self.hints@.skip(i as int).drop_first() == self.hints@.skip(i as int + 1));
            if let Hint::Urgency(urgency) = &self.hints[i] {
                return Some(*urgency);
            }
            i += 1;
        }
        None
    }

    /// The path of the first image path hint, if there is one.
    pub fn image_path(&self) -> (found: Option<&str>)
        ensures
            found is Some <==> first_image_path(self.hints@) is Some,
            found matches Some(path) ==> Some(path@) == first_image_path(self.hints@),
    {
        let mut i: usize = 0;
        assert(self.hints@.skip(0) == self.hints@);
        while i < self.hints.len()
            invariant
                i <= self.hints.len(),
                first_image_path(self.hints@) == first_image_path(self.hints@.skip(i as int)),
            decreases self.hints.len() - i,
        {
            assert(self.hints@.skip(i as int).drop_first() == self.hints@.skip(i as int + 1));
            if let Hint::ImagePath(path) = &self.hints[i] {
                return Some(path.as_str());
            }
            i += 1;
        }
        None
    }
}

/// The first urgency hint is the one before which no urgency hint stands.
pub proof fn lemma_first_urgency_at(hints: Seq<Hint>, at: int)
    requires
        0 <= at < hints.len(),
        hints[at] is Urgency,
        forall|j: int| 0 <= j < at ==> !(#[trigger] hints[j] is Urgency),
    ensures
        first_urgency(hints) == Some(hints[at]->Urgency_0),
    decreases at,
{
    if at > 0 {
        let rest = hints.drop_first();
        assert forall|j: int| 0 <= j < at - 1 implies !(#[trigger] rest[j] is Urgency) by {
            assert(rest[j] == hints[j + 1]);
        }
        lemma_first_urgency_at(rest, at - 1);
    }
}

/// Hints without an urgency hint have no first one.
pub proof fn lemma_first_urgency_none(hints: Seq<Hint>)
    requires
        forall|j: int| 0 <= j < hints.len() ==> !(#[trigger] hints[j] is Urgency),
    ensures
        first_urgency(hints) is None,
    decreases hints.len(),
{
    if hints.len() > 0 {
        let rest = hints.drop_first();
        assert forall|j: int| 0 <= j < rest.len() implies !(#[trigger] rest[j] is Urgency) by {
            assert(rest[j] == hints[j + 1]);
        }
        lemma_first_urgency_none(rest);
    }
}

impl Clone for Notification {
    fn clone(&self) -> (copy: Self)
        ensures
            copy.same_as(self),
    {
        self.at_bus(self.bus.clone())
    }
}

} // verus!
