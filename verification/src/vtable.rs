//! References to vtables that stay valid between processes of one build.

use crate::anchor::address_at;
use crate::anchor::offset_from;
use crate::anchor::offset;
use crate::anchor::resolve;
use crate::codec::DecodeError;
use crate::codec::Record;
use crate::identity::Stamp;
use crate::text::decimal;
use crate::text::push_decimal;
use std::cmp::Ordering;
use std::hash::Hash;
use std::hash::Hasher;
use std::marker::PhantomData;
use vstd::prelude::*;
use vstd::std_specs::cmp::PartialEqSpecImpl;
use vstd::std_specs::cmp::PartialOrdSpecImpl;

verus! {

/// A reference to a vtable of `T`, held as its offset from the anchor of the segment that
/// holds the vtables.
///
/// The value is the offset and nothing else: `T` only keeps offsets that were taken for
/// one type from being resolved as another, and selects the fingerprint that a record
/// carries.
pub struct Vtable<T: ?Sized> {
    offset: usize,
    marker: PhantomData<T>,
}

impl<T: ?Sized> View for Vtable<T> {
    type V = usize;

    /// The offset from the anchor.
    closed spec fn view(&self) -> usize {
        self.offset
    }
}

impl<T: ?Sized> Vtable<T> {
    /// The reference that lies `offset` from the anchor.
    pub closed spec fn at(offset: usize) -> Self {
        Vtable { offset, marker: PhantomData }
    }

    /// The reference to the vtable at `address`, as seen from `anchor`.
    pub open spec fn captured(address: usize, anchor: usize) -> Self {
        Self::at(offset_from(address, anchor))
    }

    /// The address that the reference stands for in a process whose anchor is `anchor`.
    pub open spec fn resolved(self, anchor: usize) -> usize {
        address_at(anchor, self@)
    }

    /// The record that stands for the reference under `stamp`.
    pub open spec fn sealed(self, stamp: Stamp) -> Record {
        Record::sealed(self@, stamp)
    }

    /// What a receiver whose own stamp is `local` makes of `record`.
    pub open spec fn opened(record: Record, local: Stamp) -> Result<Self, DecodeError> {
        match record.verdict(local) {
            Ok(offset) => Ok(Self::at(offset)),
            Err(e) => Err(e),
        }
    }

    /// How the reference stands to `other`: as their offsets do.
    pub open spec fn ordering(self, other: Self) -> Ordering {
        if self@ < other@ {
            Ordering::Less
        } else if self@ == other@ {
            Ordering::Equal
        } else {
            Ordering::Greater
        }
    }

    /// How the reference is shown, where `name` is what `T` is called.
    pub open spec fn debug_text(self, name: Seq<char>) -> Seq<char> {
        "Vtable { "@ + name + ": "@ + decimal(self@ as nat) + " }"@
    }

    /// The reference at an offset has that offset.
    pub proof fn lemma_view_of_at(offset: usize)
        ensures
            Self::at(offset)@ == offset,
    {
    }

    /// A reference is the one at its offset: nothing else tells two references apart.
    pub proof fn lemma_at_of_view(v: Self)
        ensures
            Self::at(v@) == v,
    {
    }

    /// Wraps a raw offset.
    pub fn new(p: usize) -> (r: Self)
        ensures
            r == Self::at(p),
            r@ == p,
    {
        Vtable { offset: p, marker: PhantomData }
    }

    /// Takes the reference to the vtable at `address`, in a process where the vtable
    /// segment's anchor lies at `anchor`.
    ///
    /// The address must lie in the segment of the anchor, and must be that of a vtable of
    /// `T`. Nothing here can check either.
    pub fn from(address: usize, anchor: usize) -> (r: Self)
        ensures
            r == Self::captured(address, anchor),
            r@ == offset_from(address, anchor),
    {
        Self::new(offset(address, anchor))
    }

    /// Gives the address that the reference stands for in a process where the vtable
    /// segment's anchor lies at `anchor`.
    pub fn to(&self, anchor: usize) -> (r: usize)
        ensures
            r == self.resolved(anchor),
    {
        resolve(anchor, self.offset)
    }

    /// Compares two references by their offsets.
    pub fn cmp(&self, other: &Self) -> (r: Ordering)
        ensures
            r == self.ordering(*other),
    {
        if self.offset < other.offset {
            Ordering::Less
        } else if self.offset == other.offset {
            Ordering::Equal
        } else {
            Ordering::Greater
        }
    }

    /// Shows the reference as `Vtable { name: offset }`, where `name` is what `T` is called.
    pub fn debug_string(&self, name: &str) -> (s: String)
        ensures
            s@ == self.debug_text(name@),
    {
        let mut s = String::from_str("Vtable { ");
        s.append(name);
        s.append(": ");
        push_decimal(&mut s, self.offset as u64);
        s.append(" }");
        assert(s@ =~= self.debug_text(name@));
        s
    }

    /// Makes the record that stands for the reference under `stamp`.
    pub fn encode_with(&self, stamp: &Stamp) -> (r: Record)
        ensures
            r == self.sealed(*stamp),
    {
        Record::seal(self.offset, stamp)
    }

    /// Reads a reference from `record`, as a receiver whose own stamp is `local`.
    ///
    /// A record of another build is refused whatever else it holds, a record of this build
    /// for another type is refused too, and every other record yields the reference at its
    /// offset.
    pub fn decode_with(record: &Record, local: &Stamp) -> (r: Result<Self, DecodeError>)
        ensures
            r == Self::opened(*record, *local),
            record.build != local.build ==> r == Err::<Self, DecodeError>(
                DecodeError::CrossBinaryMismatch { found: record.build, expected: local.build },
            ),
            record.build == local.build && record.fingerprint != local.fingerprint ==> r == Err::<
                Self,
                DecodeError,
            >(
                DecodeError::TypeMismatch {
                    found: record.fingerprint,
                    expected: local.fingerprint,
                },
            ),
            record.stamp() == *local ==> r == Ok::<Self, DecodeError>(Self::at(record.offset)),
            r matches Ok(v) ==> v@ == record.offset,
    {
        match record.validate(local) {
            Ok(offset) => Ok(Self::new(offset)),
            Err(e) => Err(e),
        }
    }
}

impl<T: ?Sized + 'static> Vtable<T> {
    /// Makes the record that stands for the reference, under this process's stamp for `T`.
    pub fn encode(&self) -> (r: Record)
        ensures
            r.offset == self@,
            exists|stamp: Stamp| r == self.sealed(stamp),
    {
        let stamp = Stamp::local::<T>();
        let r = self.encode_with(&stamp);
        assert(r == self.sealed(stamp));
        r
    }

    /// Reads a reference from `record`, checking it against this process's stamp for `T`.
    ///
    /// A reference comes back only with the record's offset, and each error names what
    /// the record held and what this process holds in its place.
    pub fn decode(record: &Record) -> (r: Result<Self, DecodeError>)
        ensures
            exists|local: Stamp| r == Self::opened(*record, local),
            r matches Ok(v) ==> v@ == record.offset,
            r matches Err(DecodeError::CrossBinaryMismatch { found, expected }) ==> found
                == record.build && expected != found,
            r matches Err(DecodeError::TypeMismatch { found, expected }) ==> found
                == record.fingerprint && expected != found,
    {
        let local = Stamp::local::<T>();
        let r = Self::decode_with(record, &local);
        assert(r == Self::opened(*record, local));
        r
    }
}

impl<T: ?Sized> Clone for Vtable<T> {
    fn clone(&self) -> (r: Self)
        ensures
            r == *self,
    {
        Vtable { offset: self.offset, marker: PhantomData }
    }
}

impl<T: ?Sized> Copy for Vtable<T> {

}

impl<T: ?Sized> PartialEq for Vtable<T> {
    fn eq(&self, other: &Self) -> (r: bool) {
        self.offset == other.offset
    }
}

impl<T: ?Sized> PartialEqSpecImpl for Vtable<T> {
    open spec fn obeys_eq_spec() -> bool {
        true
    }

    open spec fn eq_spec(&self, other: &Self) -> bool {
        self@ == other@
    }
}

impl<T: ?Sized> Eq for Vtable<T> {

}

impl<T: ?Sized> PartialOrd for Vtable<T> {
    fn partial_cmp(&self, other: &Self) -> (r: Option<Ordering>) {
        Some(self.cmp(other))
    }
}

impl<T: ?Sized> PartialOrdSpecImpl for Vtable<T> {
    open spec fn obeys_partial_cmp_spec() -> bool {
        true
    }

    open spec fn partial_cmp_spec(&self, other: &Self) -> Option<Ordering> {
        Some(self.ordering(*other))
    }
}

/// `Hash::hash` of a `usize` feeds the number to `state`. Nothing is claimed of what is
/// written.
pub assume_specification<H: Hasher>[ <usize as Hash>::hash::<H> ](n: &usize, state: &mut H)
;

impl<T: ?Sized> Hash for Vtable<T> {
    fn hash<H: Hasher>(&self, state: &mut H) {
        self.offset.hash(state)
    }
}

} // verus!
