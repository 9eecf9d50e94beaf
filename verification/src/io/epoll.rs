//! The values that an epoll instance holds, and the events it reports.
use core::marker::PhantomData;
use vstd::prelude::*;

verus! {

/// A reference to a `T`.
pub struct Ref<'a, T> {
    t: T,
    _phantom: PhantomData<&'a T>,
}

impl<'a, T> Ref<'a, T> {
    /// The referred-to value.
    pub closed spec fn value(&self) -> T {
        self.t
    }

    /// A reference to `t`.
    pub fn new(t: T) -> (r: Self)
        ensures
            r.value() == t,
    {
        Self { t, _phantom: PhantomData }
    }

    /// The referred-to value, giving up the reference.
    pub fn consume(self) -> (t: T)
        ensures
            t == self.value(),
    {
        self.t
    }

}

impl<'a, T> core::ops::Deref for Ref<'a, T> {
    type Target = T;

    fn deref(&self) -> (t: &T)
        ensures
            *t == self.value(),
    {
        &self.t
    }
}

/// A record of an event that occurred: its `EPOLL*` flags, and the value
/// its target was registered with.
#[derive(Clone, Copy, Debug, PartialEq, Eq, Structural)]
pub struct Event {
    /// The `EPOLL*` flags of the event.
    pub event_flags: u32,
    /// The value the target was registered with.
    pub encoded: u64,
}

/// The largest number of events an `EventVec` can have room for: their
/// bytes must fit in `isize`.
pub open spec fn max_events() -> int {
    isize::MAX / 16
}

/// A buffer of the events that an epoll wait reports.
pub struct EventVec {
    events: Vec<Event>,
}

/// `Vec::capacity`: the number of elements the vector can hold without
/// reallocating, which is never less than its length.
#[verifier::external_body]
fn vec_capacity(v: &Vec<Event>) -> (r: usize)
    ensures
        r >= v@.len(),
{
    v.capacity()
}

/// `Vec::reserve_exact`: make room for `additional` more elements; the
/// elements stay as they are. It panics only when the room needed is more
/// than `isize::MAX` bytes.
#[verifier::external_body]
fn vec_reserve_exact(v: &mut Vec<Event>, additional: usize)
    requires
        old(v)@.len() + additional <= max_events(),
    ensures
        final(v)@ == old(v)@,
{
    v.reserve_exact(additional)
}

/// `Vec::shrink_to_fit`: give up spare room; the elements stay as they
/// are.
#[verifier::external_body]
fn vec_shrink_to_fit(v: &mut Vec<Event>)
    ensures
        final(v)@ == old(v)@,
{
    v.shrink_to_fit()
}

impl EventVec {
    /// The events in the buffer.
    pub closed spec fn view_events(&self) -> Seq<Event> {
        self.events@
    }

    /// An empty buffer with room for `capacity` events.
    pub fn with_capacity(capacity: usize) -> (v: Self)
        ensures
            v.view_events() == Seq::<Event>::empty(),
    {
        Self { events: Vec::with_capacity(capacity) }
    }

    /// The number of events the buffer has room for, never less than the
    /// number it holds.
    pub fn capacity(&self) -> (r: usize)
        ensures
            r >= self.view_events().len(),
    {
        vec_capacity(&self.events)
    }

    /// Make room for at least `additional` more events; the events stay.
    /// Room for more than `isize::MAX` bytes is refused with a panic.
    pub fn reserve(&mut self, additional: usize)
        requires
            old(self).view_events().len() + additional <= max_events(),
        ensures
            final(self).view_events() == old(self).view_events(),
    {
        self.events.reserve(additional);
    }

    /// Make room for exactly `additional` more events; the events stay.
    pub fn reserve_exact(&mut self, additional: usize)
        requires
            old(self).view_events().len() + additional <= max_events(),
        ensures
            final(self).view_events() == old(self).view_events(),
    {
        vec_reserve_exact(&mut self.events, additional);
    }

    /// Remove all the events.
    pub fn clear(&mut self)
        ensures
            final(self).view_events() == Seq::<Event>::empty(),
    {
        self.events.clear();
    }

    /// Give up spare room; the events stay.
    pub fn shrink_to_fit(&mut self)
        ensures
            final(self).view_events() == old(self).view_events(),
    {
        vec_shrink_to_fit(&mut self.events);
    }

    /// The number of events in the buffer.
    pub fn len(&self) -> (r: usize)
        ensures
            r == self.view_events().len(),
    {
        self.events.len()
    }

    /// Event `i` of the buffer.
    pub fn get(&self, i: usize) -> (e: Event)
        requires
            i < self.view_events().len(),
        ensures
            e == self.view_events()[i as int],
    {
        self.events[i]
    }

    /// Record an event that a wait reported, after those already held.
    pub fn push(&mut self, event: Event)
        ensures
            final(self).view_events() == old(self).view_events().push(event),
    {
        self.events.push(event);
    }
}

} // verus!
