//! Arithmetic relative to a segment anchor.
//!
//! An anchor is one address inside a segment of static memory, fixed for the lifetime of a
//! process. An item of that segment is named by its offset from the anchor, which is the
//! same in every process started from one image, wherever the loader put the segment.
//! Offsets wrap around the address space: an item below the anchor has a large offset.

use vstd::prelude::*;

verus! {

/// The number of addresses: one more than the largest `usize`.
pub open spec fn address_space() -> int {
    usize::MAX + 1
}

/// The offset at which `address` lies from `anchor`, wrapping around the address space.
pub open spec fn offset_from(address: usize, anchor: usize) -> usize {
    if address >= anchor {
        (address - anchor) as usize
    } else {
        (address - anchor + address_space()) as usize
    }
}

/// The address that lies `offset` from `anchor`, wrapping around the address space.
pub open spec fn address_at(anchor: usize, offset: usize) -> usize {
    if anchor + offset <= usize::MAX {
        (anchor + offset) as usize
    } else {
        (anchor + offset - address_space()) as usize
    }
}

/// Computes the offset of `address` from `anchor`.
pub fn offset(address: usize, anchor: usize) -> (r: usize)
    ensures
        r == offset_from(address, anchor),
{
    address.wrapping_sub(anchor)
}

/// Computes the address that lies `offset` from `anchor`.
pub fn resolve(anchor: usize, offset: usize) -> (r: usize)
    ensures
        r == address_at(anchor, offset),
{
    anchor.wrapping_add(offset)
}

/// Offsets are differences modulo the size of the address space.
pub proof fn lemma_offset_is_modular(address: usize, anchor: usize)
    ensures
        offset_from(address, anchor) == (address - anchor) % address_space(),
{
    let m = address_space();
    if address >= anchor {
        vstd::arithmetic::div_mod::lemma_small_mod((address - anchor) as nat, m as nat);
    } else {
        vstd::arithmetic::div_mod::lemma_small_mod((address - anchor + m) as nat, m as nat);
        vstd::arithmetic::div_mod::lemma_mod_add_multiples_vanish(address - anchor, m);
    }
}

/// Addresses are sums modulo the size of the address space.
pub proof fn lemma_address_is_modular(anchor: usize, offset: usize)
    ensures
        address_at(anchor, offset) == (anchor + offset) % address_space(),
{
    let m = address_space();
    if anchor + offset <= usize::MAX {
        vstd::arithmetic::div_mod::lemma_small_mod((anchor + offset) as nat, m as nat);
    } else {
        vstd::arithmetic::div_mod::lemma_small_mod((anchor + offset - m) as nat, m as nat);
        vstd::arithmetic::div_mod::lemma_mod_sub_multiples_vanish(anchor + offset, m);
    }
}

/// Resolving the offset of an address against the anchor it was taken from gives the
/// address back.
pub proof fn lemma_resolve_offset(address: usize, anchor: usize)
    ensures
        address_at(anchor, offset_from(address, anchor)) == address,
{
}

/// The offset of a resolved address from the anchor it was resolved against is the offset
/// that was resolved.
pub proof fn lemma_offset_resolve(anchor: usize, offset: usize)
    ensures
        offset_from(address_at(anchor, offset), anchor) == offset,
{
}

/// Two anchors that lie `shift` apart see one item at addresses that lie `shift` apart:
/// resolving one offset against a moved anchor moves the address by as much.
pub proof fn lemma_resolve_moved(anchor: usize, moved: usize, offset: usize)
    ensures
        offset_from(address_at(moved, offset), address_at(anchor, offset)) == offset_from(
            moved,
            anchor,
        ),
{
}

} // verus!
