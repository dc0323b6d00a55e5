//! The wire record and the checks that a received record must pass.
//!
//! A record holds three fields, in this order: the build that wrote it, the fingerprint of
//! the type it refers to, and the offset. How the fields are laid out in bytes is left to
//! the caller's encoding.

use crate::identity::BuildId;
use crate::identity::Stamp;
use vstd::prelude::*;

verus! {

/// What is sent in place of a reference.
#[derive(Clone, Copy, Debug, PartialEq, Eq, Structural)]
pub struct Record {
    pub build: BuildId,
    pub fingerprint: u64,
    pub offset: usize,
}

/// Why a record was refused.
#[allow(inconsistent_fields)]
#[derive(Clone, Copy, Debug, PartialEq, Eq, Structural)]
pub enum DecodeError {
    /// The record was written by another build, in which its offset means something else.
    CrossBinaryMismatch { found: BuildId, expected: BuildId },
    /// The record was written by this build, for another type than the one asked for.
    TypeMismatch { found: u64, expected: u64 },
}

impl Record {
    /// The record of `offset` under `stamp`.
    pub open spec fn sealed(offset: usize, stamp: Stamp) -> Record {
        Record { build: stamp.build, fingerprint: stamp.fingerprint, offset }
    }

    /// The stamp that the record carries.
    pub open spec fn stamp(self) -> Stamp {
        Stamp { build: self.build, fingerprint: self.fingerprint }
    }

    /// What a receiver whose own stamp is `local` makes of the record: the build is
    /// compared first, since a fingerprint of another build says nothing; then the
    /// fingerprint; a record that passes both yields its offset as it stands.
    pub open spec fn verdict(self, local: Stamp) -> Result<usize, DecodeError> {
        if self.build != local.build {
            Err(DecodeError::CrossBinaryMismatch { found: self.build, expected: local.build })
        } else if self.fingerprint != local.fingerprint {
            Err(
                DecodeError::TypeMismatch {
                    found: self.fingerprint,
                    expected: local.fingerprint,
                },
            )
        } else {
            Ok(self.offset)
        }
    }

    /// Puts `offset` under `stamp`.
    pub fn seal(offset: usize, stamp: &Stamp) -> (r: Record)
        ensures
            r == Record::sealed(offset, *stamp),
            r.stamp() == *stamp,
            r.offset == offset,
    {
        Record { build: stamp.build, fingerprint: stamp.fingerprint, offset }
    }

    /// Checks the record against the receiver's own stamp and hands out its offset.
    ///
    /// A record of another build is refused whatever else it holds; a record of this build
    /// is refused exactly if its fingerprint differs.
    pub fn validate(&self, local: &Stamp) -> (r: Result<usize, DecodeError>)
        ensures
            r == self.verdict(*local),
            self.build != local.build ==> r == Err::<usize, DecodeError>(
                DecodeError::CrossBinaryMismatch { found: self.build, expected: local.build },
            ),
            self.build == local.build && self.fingerprint != local.fingerprint ==> r == Err::<
                usize,
                DecodeError,
            >(DecodeError::TypeMismatch { found: self.fingerprint, expected: local.fingerprint }),
            self.stamp() == *local ==> r == Ok::<usize, DecodeError>(self.offset),
    {
        if self.build.0 != local.build.0 {
            Err(DecodeError::CrossBinaryMismatch { found: self.build, expected: local.build })
        } else if self.fingerprint != local.fingerprint {
            Err(
                DecodeError::TypeMismatch {
                    found: self.fingerprint,
                    expected: local.fingerprint,
                },
            )
        } else {
            Ok(self.offset)
        }
    }
}

} // verus!
