//! The payload slot and the operations on it.

use vstd::prelude::*;

verus! {

/// What an optional boxed value holds, without the box.
pub open spec fn unbox<T>(o: Option<Box<T>>) -> Option<T> {
    match o {
        Some(b) => Some(*b),
        None => None,
    }
}

/// The payload slot of a host object: empty, or the exclusive owner of one
/// heap-allocated value.
pub struct Slot<T> {
    payload: Option<Box<T>>,
}

impl<T> View for Slot<T> {
    type V = Option<T>;

    closed spec fn view(&self) -> Option<T> {
        unbox(self.payload)
    }
}

/// What a slot holds right after it is made from `data`.
pub open spec fn slot_after_wrap<T>(data: Option<T>) -> Option<T> {
    data
}

/// Makes the slot of a new host object. It owns `data` when one is given and
/// is empty otherwise.
pub fn wrap<T>(data: Option<Box<T>>) -> (object: Slot<T>)
    ensures
        object@ == slot_after_wrap(unbox(data)),
{
    Slot { payload: data }
}

/// What a removal hands to the caller from a slot that holds `s`: all of it.
pub open spec fn removed_payload<T>(s: Option<T>) -> Option<T> {
    s
}

/// What a slot that held `s` holds after a removal: nothing.
pub open spec fn slot_after_remove<T>(s: Option<T>) -> Option<T> {
    None
}

/// What an empty slot holds after `v` is installed in it.
pub open spec fn slot_after_set<T>(s: Option<T>, v: T) -> Option<T>
    recommends
        s is None,
{
    Some(v)
}

/// Whether the free callback, run on a slot that holds `s`, reclaims a value.
pub open spec fn free_reclaims<T>(s: Option<T>) -> bool {
    s is Some
}

impl<T> Slot<T> {
    /// Whether the slot holds no payload.
    pub fn is_empty(&self) -> (r: bool)
        ensures
            r == (self@ is None),
    {
        self.payload.is_none()
    }
}

/// Takes the payload out of the slot and hands it to the caller, leaving the
/// slot empty. An empty slot gives `None` and stays empty.
pub fn remove<T>(object: &mut Slot<T>) -> (r: Option<Box<T>>)
    ensures
        unbox(r) == removed_payload(old(object)@),
        final(object)@ == slot_after_remove(old(object)@),
{
    object.payload.take()
}

/// Takes the payload out of a slot that holds one, leaving the slot empty.
pub fn get<T>(object: &mut Slot<T>) -> (r: Box<T>)
    requires
        old(object)@ is Some,
    ensures
        Some(*r) == removed_payload(old(object)@),
        final(object)@ == slot_after_remove(old(object)@),
{
    object.payload.take().unwrap()
}

/// Installs `data` in an empty slot, which then owns it.
pub fn set<T>(object: &mut Slot<T>, data: Box<T>)
    requires
        old(object)@ is None,
    ensures
        final(object)@ == slot_after_set(old(object)@, *data),
{
    object.payload = Some(data);
}

/// The host's free callback on a collected object: consumes the slot and drops
/// its payload, if there is one. Returns whether a payload was reclaimed.
pub fn free<T>(object: Slot<T>) -> (r: bool)
    ensures
        r == free_reclaims(object@),
{
    match object.payload {
        Some(_payload) => true,
        None => false,
    }
}

} // verus!
