//! The identity stamp: which build a record comes from, and which type it refers to.

use std::any::TypeId;
use std::collections::hash_map::DefaultHasher;
use std::hash::Hash;
use std::hash::Hasher;
use vstd::prelude::*;

verus! {

/// The identifier of a build: the same in every process started from one image, and
/// different between images.
#[derive(Clone, Copy, Debug, PartialEq, Eq, Structural)]
pub struct BuildId(pub u128);

/// What is attached to every record: the build it was made by and the fingerprint of the
/// type it refers to.
#[derive(Clone, Copy, Debug, PartialEq, Eq, Structural)]
pub struct Stamp {
    pub build: BuildId,
    pub fingerprint: u64,
}

/// `build_id::get` returns the identifier of the running image as a `Uuid`, and
/// `Uuid::as_u128` packs its sixteen bytes, first byte highest. The identifier depends on
/// the image, so nothing is claimed of its value.
#[verifier::external_body]
fn local_build() -> BuildId {
    BuildId(build_id::get().as_u128())
}

/// An identifier of a type, unique among the types of one build.
#[verifier::external_type_specification]
#[verifier::external_body]
pub struct ExTypeId(TypeId);

/// `TypeId::of` returns the identifier of `T`. The identifier is the compiler's: nothing
/// is claimed of its value.
pub assume_specification<T: ?Sized + 'static>[ TypeId::of::<T> ]() -> (id: TypeId)
;

/// `Hash::hash` of a `TypeId` feeds the identifier to `state`. Nothing is claimed of what
/// is written.
pub assume_specification<H: Hasher>[ <TypeId as Hash>::hash::<H> ](id: &TypeId, state: &mut H)
;

/// The fingerprint of `T`: a number that tells the types of one build apart.
pub fn type_id<T: ?Sized + 'static>() -> (id: u64) {
    let type_id = TypeId::of::<T>();
    let mut hasher = DefaultHasher::new();
    type_id.hash(&mut hasher);
    hasher.finish()
}

impl Stamp {
    /// The stamp of this process for type `T`.
    pub fn local<T: ?Sized + 'static>() -> (r: Self) {
        Stamp { build: local_build(), fingerprint: type_id::<T>() }
    }
}

} // verus!
