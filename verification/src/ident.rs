//! Notification identifiers: the counter that names portal notifications, and
//! the decimal form under which the portal files them.

use vstd::prelude::*;
use vstd::string::*;

verus! {

/// The decimal digit for `d`, where `d` is below ten.
pub open spec fn digit_char(d: nat) -> char {
    ('0' as nat + d) as char
}

/// `n` in decimal, without sign or leading zeros.
pub open spec fn decimal(n: nat) -> Seq<char>
    decreases n,
{
    if n < 10 {
        seq![digit_char(n)]
    } else {
        decimal(n / 10).push(digit_char(n % 10))
    }
}

/// Appends `n` in decimal to `out`.
fn push_decimal(out: &mut String, n: u32)
    ensures
        final(out)@ == old(out)@ + decimal(n as nat),
    decreases n,
{
    if n >= 10 {
        push_decimal(out, n / 10);
    }
    let digit: u8 = (n % 10) as u8;
    out.push(('0' as u8 + digit) as char);
}

/// `n` in decimal.
pub fn decimal_string(n: u32) -> (text: String)
    ensures
        text@ == decimal(n as nat),
{
    let mut text = String::new();
    push_decimal(&mut text, n);
    text
}

/// The source of the identifiers that this process gives to portal
/// notifications. It starts at 1, hands out each number once, in rising order,
/// and starts over at 0 after `u32::MAX`. Until it has handed out `u32::MAX`,
/// every identifier that it has handed out is below the one that comes next.
pub struct PortalIdCounter {
    next: u32,
    issued: Ghost<Seq<u32>>,
}

impl View for PortalIdCounter {
    type V = u32;

    /// The identifier that the next allocation hands out.
    closed spec fn view(&self) -> u32 {
        self.next
    }
}

impl PortalIdCounter {
    /// The identifiers handed out so far, oldest first.
    pub closed spec fn issued(&self) -> Seq<u32> {
        self.issued@
    }

    /// The counter has handed out `u32::MAX` and started over.
    pub open spec fn wrapped(&self) -> bool {
        self.issued().contains(u32::MAX)
    }

    /// Until the counter has started over, every identifier that it has
    /// handed out is below the one that comes next.
    #[verifier::type_invariant]
    pub closed spec fn rises_until_wrapped(&self) -> bool {
        !self.wrapped() ==> forall|i: int| 0 <= i < self.issued@.len() ==> self.issued@[i] < self.next
    }

    /// The counter stands where `before` stands after one more allocation:
    /// it has handed out the identifier that `before` had next, and has the
    /// one after it next, which after `u32::MAX` is 0.
    pub open spec fn follows(&self, before: &Self) -> bool {
        &&& self@ == if before@ == u32::MAX { 0 } else { before@ + 1 }
        &&& self.issued() == before.issued().push(before@)
    }

    /// The counter of a process that has sent nothing yet.
    pub fn new() -> (counter: Self)
        ensures
            counter@ == 1,
            counter.issued() == Seq::<u32>::empty(),
    {
        PortalIdCounter { next: 1, issued: Ghost(Seq::empty()) }
    }

    /// A counter that hands out `next` first.
    pub fn starting_at(next: u32) -> (counter: Self)
        ensures
            counter@ == next,
            counter.issued() == Seq::<u32>::empty(),
    {
        PortalIdCounter { next, issued: Ghost(Seq::empty()) }
    }

    /// Hands out the next identifier and steps the counter. Unless the counter
    /// has started over, the identifier is greater than every one before it.
    pub fn allocate(&mut self) -> (id: u32)
        ensures
            id == old(self)@,
            final(self).follows(old(self)),
            !old(self).wrapped() ==> forall|i: int|
                0 <= i < old(self).issued().len() ==> old(self).issued()[i] < id,
    {
        proof {
            use_type_invariant(&*self);
        }
        let id = self.next;
        let ghost issued = self.issued@.push(id);
        proof {
            if !issued.contains(u32::MAX) {
                assert forall|i: int| 0 <= i < self.issued@.len() implies self.issued@[i]
                    != u32::MAX by {
                    assert(issued[i] == self.issued@[i]);
                }
                assert(issued.last() == id);
            }
        }
        *self = PortalIdCounter { next: id.wrapping_add(1), issued: Ghost(issued) };
        id
    }
}

/// The identifier under which a portal notification goes out: `id` where the
/// caller has one, else a fresh one from `counter`, which unless the counter
/// has started over is greater than every one that it handed out before.
pub fn portal_identifier(id: u32, counter: &mut PortalIdCounter) -> (chosen: u32)
    ensures
        id != 0 ==> chosen == id && *final(counter) == *old(counter),
        id == 0 ==> chosen == old(counter)@ && final(counter).follows(old(counter)),
        id == 0 && !old(counter).wrapped() ==> forall|i: int|
            0 <= i < old(counter).issued().len() ==> old(counter).issued()[i] < chosen,
{
    if id == 0 {
        counter.allocate()
    } else {
        id
    }
}

} // verus!
