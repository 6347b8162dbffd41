//! A single-producer, single-consumer ring of fixed-size slots that hands out
//! scoped, exclusive grants over one slot at a time.
//!
//! A [`SlotRing`] owns the slot store and its two cursors. Splitting it yields
//! the only [`SRProd`] and [`SRCons`] it will ever give out. Each handle issues
//! at most one grant at a time; a grant borrows its handle and the ring, and
//! releases the handle when it is finished or goes out of scope.
pub mod laws;
pub mod ring;

pub use ring::{Buffer, ConsRelease, GrantError, PGrant, ProdRelease, RGrant, SRCons, SRProd, SlotRing, SLOT_BYTES};
