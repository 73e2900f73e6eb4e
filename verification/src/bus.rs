//! Well-known bus addresses of the notification services.

use vstd::prelude::*;
use vstd::string::*;
use crate::names::{NOTIFICATION_DEFAULT_BUS, NOTIFICATION_NAMESPACE, NOTIFICATION_PORTAL_BUS};

verus! {

/// `s` without its first character when that character is `/`, else `s`.
pub open spec fn strip_leading_slash(s: Seq<char>) -> Seq<char> {
    if s.len() > 0 && s[0] == '/' {
        s.subrange(1, s.len() as int)
    } else {
        s
    }
}

/// `s` with every `/` turned into `.`.
pub open spec fn dotted(s: Seq<char>) -> Seq<char> {
    s.map_values(|c: char| if c == '/' { '.' } else { c })
}

/// The bus name that a custom path stands for: the path, less one leading
/// `/`, placed below `de.hoodie.Notification`, with `.` between the segments.
pub open spec fn namespaced(path: Seq<char>) -> Seq<char> {
    "de.hoodie.Notification"@ + seq!['.'] + dotted(strip_leading_slash(path))
}

/// A character that may stand inside an element of a bus name.
pub open spec fn is_element_char(c: char) -> bool {
    ||| 'a' <= c <= 'z'
    ||| 'A' <= c <= 'Z'
    ||| '0' <= c <= '9'
    ||| c == '_'
    ||| c == '-'
}

/// Position `i` of `s` is the first of an element: the very first position
/// or the one behind a `.`.
pub open spec fn opens_element(s: Seq<char>, i: int) -> bool {
    i == 0 || s[i - 1] == '.'
}

/// The character at position `i` may stand there in a well-known name: a `.`
/// never opens an element, a digit neither, and everything else is a letter,
/// a digit, `_` or `-`.
pub open spec fn allowed_at(s: Seq<char>, i: int) -> bool {
    if s[i] == '.' {
        !opens_element(s, i)
    } else {
        is_element_char(s[i]) && !('0' <= s[i] <= '9' && opens_element(s, i))
    }
}

/// The names that the bus library takes as well-known bus names: 3 to 255
/// characters, at least one `.`, and every character allowed where it stands.
pub open spec fn is_well_known_name(s: Seq<char>) -> bool {
    &&& 3 <= s.len() <= 255
    &&& exists|i: int| 0 <= i < s.len() && #[trigger] s[i] == '.'
    &&& forall|i: int| 0 <= i < s.len() ==> #[trigger] allowed_at(s, i)
}

/// Hands `name` to `zbus::names::WellKnownName::try_from` and gives the name
/// back where zbus takes it. The contract restates the checks that zbus
/// makes: it counts the length in bytes, which for a name that passes the
/// character checks is the number of characters, since all of them are ASCII.
#[verifier::external_body]
fn checked_well_known_name(name: String) -> (checked: Option<String>)
    ensures
        checked is Some <==> is_well_known_name(name@),
        checked matches Some(n) ==> n@ == name@,
{
    match zbus::names::WellKnownName::try_from(name) {
        Ok(checked) => Some(checked.as_str().to_owned()),
        Err(_) => None,
    }
}

/// Drops a single leading `/` from `s`, if there is one.
pub fn skip_first_slash(s: &str) -> (rest: &str)
    ensures
        rest@ == strip_leading_slash(s@),
{
    if !s.is_empty() && s.get_char(0) == '/' {
        s.substring_char(1, s.unicode_len())
    } else {
        s
    }
}

/// Copies `s`, writing `.` for every `/`.
pub fn replace_slashes(s: &str) -> (out: String)
    ensures
        out@ == dotted(s@),
{
    let mut out = String::new();
    for c in it: s.chars()
        invariant
            it.seq() == s@,
            out@ == dotted(s@.take(it.index())),
    {
        assert(s@.take(it.index() + 1) == s@.take(it.index()).push(c));
        if c == '/' {
            out.push('.');
        } else {
            out.push(c);
        }
    }
    out
}

/// The well-known name of a notification service. Every value holds a name
/// that the bus takes as a well-known name.
#[derive(Debug, PartialEq, Eq)]
pub struct NotificationBus {
    name: String,
}

impl View for NotificationBus {
    type V = Seq<char>;

    closed spec fn view(&self) -> Seq<char> {
        self.name@
    }
}

impl NotificationBus {
    #[verifier::type_invariant]
    closed spec fn valid(&self) -> bool {
        is_well_known_name(self.name@)
    }

    /// The bus name for `custom_path`: the path is joined below the namespace
    /// path, the leading `/` goes, and the remaining ones become `.`.
    pub fn namespaced_custom(custom_path: &str) -> (name: String)
        ensures
            name@ == namespaced(custom_path@),
    {
        let mut joined = String::from_str(NOTIFICATION_NAMESPACE);
        joined.push('/');
        joined.append(skip_first_slash(custom_path));
        let name = replace_slashes(skip_first_slash(joined.as_str()));
        proof {
            reveal_strlit("/de/hoodie/Notification");
            reveal_strlit("de.hoodie.Notification");
            assert(name@ =~= namespaced(custom_path@));
        }
        name
    }

    /// The name as a string slice.
    pub fn as_str(&self) -> (name: &str)
        ensures
            name@ == self@,
            is_well_known_name(name@),
    {
        proof {
            use_type_invariant(self);
        }
        self.name.as_str()
    }

    /// The bus named by `custom_path` below the library's namespace, where
    /// that is a well-known name.
    pub fn custom(custom_path: &str) -> (bus: Option<Self>)
        ensures
            bus is Some <==> is_well_known_name(namespaced(custom_path@)),
            bus matches Some(b) ==> b@ == namespaced(custom_path@),
    {
        match checked_well_known_name(Self::namespaced_custom(custom_path)) {
            Some(name) => Some(NotificationBus { name }),
            None => None,
        }
    }

    /// The bus is that of the desktop portal.
    pub fn is_portal(&self) -> (portal: bool)
        ensures
            portal == (self@ == NOTIFICATION_PORTAL_BUS@),
    {
        self.name == String::from_str(NOTIFICATION_PORTAL_BUS)
    }

    /// Gives up the bus for its name.
    pub fn into_name(self) -> (name: String)
        ensures
            name@ == self@,
            is_well_known_name(name@),
    {
        proof {
            use_type_invariant(&self);
        }
        self.name
    }

    /// The bus of the desktop portal.
    pub fn portal() -> (bus: Self)
        ensures
            bus@ == NOTIFICATION_PORTAL_BUS@,
    {
        proof {
            lemma_portal_bus_is_well_known();
        }
        NotificationBus { name: String::from_str(NOTIFICATION_PORTAL_BUS) }
    }
}

impl Default for NotificationBus {
    /// The bus of the legacy notification service.
    fn default() -> (bus: Self)
        ensures
            bus@ == NOTIFICATION_DEFAULT_BUS@,
    {
        proof {
            lemma_default_bus_is_well_known();
        }
        NotificationBus { name: String::from_str(NOTIFICATION_DEFAULT_BUS) }
    }
}

impl Clone for NotificationBus {
    fn clone(&self) -> (bus: Self)
        ensures
            bus@ == self@,
    {
        proof {
            use_type_invariant(self);
        }
        NotificationBus { name: self.name.clone() }
    }
}

/// One leading `/` on a custom path changes nothing: the path names the same
/// bus with it and without it.
pub proof fn lemma_leading_slash_is_ignored(path: Seq<char>)
    requires
        path.len() == 0 || path[0] != '/',
    ensures
        namespaced(seq!['/'] + path) == namespaced(path),
{
    assert(strip_leading_slash(seq!['/'] + path) =~= path);
}

/// The name of the legacy service is a well-known name.
pub proof fn lemma_default_bus_is_well_known()
    ensures
        is_well_known_name(NOTIFICATION_DEFAULT_BUS@),
{
    reveal_strlit("org.freedesktop.Notifications");
    let s = NOTIFICATION_DEFAULT_BUS@;
    assert(s[3] == '.');
    assert forall|i: int| 0 <= i < s.len() implies #[trigger] allowed_at(s, i) by {}
}

/// The name of the portal is a well-known name.
pub proof fn lemma_portal_bus_is_well_known()
    ensures
        is_well_known_name(NOTIFICATION_PORTAL_BUS@),
{
    reveal_strlit("org.freedesktop.portal.Desktop");
    let s = NOTIFICATION_PORTAL_BUS@;
    assert(s[3] == '.');
    assert forall|i: int| 0 <= i < s.len() implies #[trigger] allowed_at(s, i) by {}
}

} // verus!
