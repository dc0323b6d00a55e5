//! References to static memory that can be sent to another process of the same build.
//!
//! An address in static memory differs between two processes of one image, since the
//! loader is free to place the image where it likes. What does not differ is how far an
//! item lies from another item of its segment. A [`Vtable`] therefore holds the offset of
//! a vtable from an anchor in the segment of the vtables, and gives the address back
//! against the anchor of whichever process asks.
//!
//! An offset means nothing in another build, and nothing for another type. A reference is
//! therefore sent as a [`Record`] that carries a [`Stamp`] beside the offset, and a
//! receiver takes a record only if the stamp is its own.

pub mod anchor;
pub mod codec;
pub mod identity;
pub mod laws;
pub mod text;
pub mod vtable;

pub use crate::codec::DecodeError;
pub use crate::codec::Record;
pub use crate::identity::type_id;
pub use crate::identity::BuildId;
pub use crate::identity::Stamp;
pub use crate::vtable::Vtable;
