//! Typed, ownership-checked payload slots for objects of a managed host runtime.
//!
//! A host object built through this library carries one [`slot::Slot`]: either empty,
//! or the sole owner of one heap-allocated value. The operations here move that
//! value in and out of the slot, and the free callback reclaims what is left in
//! it when the host collects the object. Their contracts state the ownership
//! discipline: a payload is handed to exactly one owner, and reclaimed once.

pub mod laws;
pub mod slot;
