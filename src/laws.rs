//! Laws of the payload slot, stated over the operations' models and proved.

use vstd::prelude::*;

use crate::slot::{
    free_reclaims, removed_payload, slot_after_remove, slot_after_set, slot_after_wrap,
};

verus! {

/// What a slot that holds `s` holds after `n` removals in a row.
pub open spec fn slot_after_removals<T>(s: Option<T>, n: nat) -> Option<T>
    decreases n,
{
    if n == 0 {
        s
    } else {
        slot_after_remove(slot_after_removals(s, (n - 1) as nat))
    }
}

/// A value wrapped into a new slot comes back out, equal, on the first removal.
pub proof fn lemma_round_trip<T>(v: T)
    ensures
        removed_payload(slot_after_wrap(Some(v))) == Some(v),
{
}

/// Once a removal has run, every further removal, however many there are, finds
/// the slot empty and hands out nothing.
pub proof fn lemma_empty_after_remove<T>(s: Option<T>, n: nat)
    requires
        n >= 1,
    ensures
        slot_after_removals(s, n) is None,
        removed_payload(slot_after_removals(s, n)) is None,
    decreases n,
{
    if n > 1 {
        lemma_empty_after_remove(s, (n - 1) as nat);
    }
}

/// A removal leaves the slot empty, so a value may be installed; a removal
/// after that hands back exactly the installed value.
pub proof fn lemma_set_then_remove<T>(s: Option<T>, v2: T)
    ensures
        slot_after_remove(s) is None,
        removed_payload(slot_after_set(slot_after_remove(s), v2)) == Some(v2),
{
}

/// A slot made without a payload hands out nothing on its first removal.
pub proof fn lemma_wrap_with_none<T>()
    ensures
        removed_payload(slot_after_wrap(None::<T>)) is None,
{
}

/// How many payloads an optional value stands for: one or none.
pub open spec fn payload_count<T>(o: Option<T>) -> int {
    if o is Some {
        1
    } else {
        0
    }
}

/// After a removal has handed the payload to the caller, the free callback
/// reclaims nothing: over a removal followed by collection, a payload reaches
/// exactly one owner that destroys it, and one that held none reaches none.
pub proof fn lemma_no_double_free<T>(s: Option<T>)
    ensures
        !free_reclaims(slot_after_remove(s)),
        payload_count(removed_payload(s)) + (if free_reclaims(slot_after_remove(s)) {
            1int
        } else {
            0int
        }) == payload_count(s),
{
}

} // verus!
