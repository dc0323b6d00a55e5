//! What holds of references whatever the addresses, anchors and stamps are.
//!
//! A process is known here by the address of its anchor. An item of the segment lies at
//! the same place from the anchor in every process of one build, so its address in a
//! process is `address_at(anchor, place)`.

use crate::anchor::address_at;
use crate::anchor::offset_from;
use crate::codec::DecodeError;
use crate::codec::Record;
use crate::identity::Stamp;
use crate::vtable::Vtable;
use std::cmp::Ordering;
use vstd::prelude::*;
use vstd::std_specs::cmp::PartialEqSpec;
use vstd::std_specs::cmp::PartialOrdSpec;

verus! {

/// Resolving a reference in the process that took it gives back the address it was taken
/// from.
pub proof fn lemma_local_round_trip<T: ?Sized>(address: usize, anchor: usize)
    ensures
        Vtable::<T>::captured(address, anchor).resolved(anchor) == address,
{
    Vtable::<T>::lemma_view_of_at(offset_from(address, anchor));
}

/// A reference that is taken in one process, sent under that process's stamp and read by
/// a process with the same stamp resolves there to the address of the same item, however
/// far apart the two anchors lie.
pub proof fn lemma_cross_process_identity<T: ?Sized>(
    place: usize,
    sender: usize,
    receiver: usize,
    stamp: Stamp,
)
    ensures
        ({
            let taken = Vtable::<T>::captured(address_at(sender, place), sender);
            &&& Vtable::<T>::opened(taken.sealed(stamp), stamp) == Ok::<Vtable<T>, DecodeError>(
                taken,
            )
            &&& taken.resolved(receiver) == address_at(receiver, place)
        }),
{
    let taken = Vtable::<T>::captured(address_at(sender, place), sender);
    Vtable::<T>::lemma_view_of_at(place);
}

/// A record of another build is refused as such, whatever its fingerprint and offset are.
pub proof fn lemma_other_build_refused<T: ?Sized>(record: Record, local: Stamp)
    requires
        record.build != local.build,
    ensures
        Vtable::<T>::opened(record, local) == Err::<Vtable<T>, DecodeError>(
            DecodeError::CrossBinaryMismatch { found: record.build, expected: local.build },
        ),
{
}

/// A record of this build that carries the fingerprint of another type is refused as
/// such, whatever its offset is.
pub proof fn lemma_other_type_refused<T: ?Sized>(record: Record, local: Stamp)
    requires
        record.build == local.build,
        record.fingerprint != local.fingerprint,
    ensures
        Vtable::<T>::opened(record, local) == Err::<Vtable<T>, DecodeError>(
            DecodeError::TypeMismatch { found: record.fingerprint, expected: local.fingerprint },
        ),
{
}

/// References that two processes take to one item are equal, though the item's addresses
/// and the anchors differ between the processes.
pub proof fn lemma_same_item_same_reference<T: ?Sized>(place: usize, here: usize, there: usize)
    ensures
        Vtable::<T>::captured(address_at(here, place), here) == Vtable::<T>::captured(
            address_at(there, place),
            there,
        ),
        Vtable::<T>::captured(address_at(here, place), here).eq_spec(
            &Vtable::<T>::captured(address_at(there, place), there),
        ),
        Vtable::<T>::captured(address_at(here, place), here)@ == place,
{
    Vtable::<T>::lemma_view_of_at(place);
}

/// Two references are equal exactly if their offsets are.
pub proof fn lemma_equal_by_offset<T: ?Sized>(a: Vtable<T>, b: Vtable<T>)
    ensures
        a.eq_spec(&b) <==> a@ == b@,
        a == b <==> a@ == b@,
{
    Vtable::<T>::lemma_at_of_view(a);
    Vtable::<T>::lemma_at_of_view(b);
}

/// References are ordered as their offsets are, and `partial_cmp` never fails to order
/// two of them.
pub proof fn lemma_order_by_offset<T: ?Sized>(a: Vtable<T>, b: Vtable<T>)
    ensures
        a.partial_cmp_spec(&b) == Some(a.ordering(b)),
        a.ordering(b) == Ordering::Less <==> a@ < b@,
        a.ordering(b) == Ordering::Equal <==> a@ == b@,
        a.ordering(b) == Ordering::Greater <==> a@ > b@,
        a.ordering(b) == Ordering::Equal <==> a.eq_spec(&b),
{
}

/// The order of references is a total order: every reference equals itself, two
/// references that are turned round compare the other way, and the order is transitive.
pub proof fn lemma_order_is_total<T: ?Sized>(a: Vtable<T>, b: Vtable<T>, c: Vtable<T>)
    ensures
        a.ordering(a) == Ordering::Equal,
        a.ordering(b) == Ordering::Less <==> b.ordering(a) == Ordering::Greater,
        a.ordering(b) == Ordering::Equal <==> b.ordering(a) == Ordering::Equal,
        a.ordering(b) == Ordering::Less && b.ordering(c) == Ordering::Less ==> a.ordering(c)
            == Ordering::Less,
        a.ordering(b) == Ordering::Equal ==> a.ordering(c) == b.ordering(c),
{
}

/// A record that a process reads under the stamp it was made under yields the reference
/// that it was made from.
pub proof fn lemma_decode_encode<T: ?Sized>(v: Vtable<T>, stamp: Stamp)
    ensures
        Vtable::<T>::opened(v.sealed(stamp), stamp) == Ok::<Vtable<T>, DecodeError>(v),
{
    Vtable::<T>::lemma_at_of_view(v);
}

} // verus!
