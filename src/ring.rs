use vstd::prelude::*;

verus! {

/// Number of bytes in one slot.
pub const SLOT_BYTES: usize = 8;

/// One slot of the store.
pub type Buffer = [u8; 8];

/// Why a handle could not issue a grant.
#[derive(Debug, Clone, Copy, PartialEq, Eq, Structural)]
pub enum GrantError {
    /// The handle already has a grant outstanding.
    HandleBusy,
    /// No slot is available: the producer has claimed every slot, or the
    /// consumer has caught up with what was written.
    StoreUnavailable,
}

/// The slot store and its write and read cursors.
///
/// The producer claims slots in order through the write cursor, the consumer
/// claims written slots in the same order through the read cursor. Slots are
/// not recycled: once every slot has been written, writing stops.
pub struct SlotRing {
    store: Vec<Buffer>,
    writer: usize,
    reader: usize,
    split_done: bool,
}

/// The producer half of a split ring. It is meant for the ring it came from:
/// the ring keeps its cursors in bounds whichever handle is used on it.
pub struct SRProd {
    wip: bool,
}

/// The consumer half of a split ring, meant, like [`SRProd`], for the ring
/// it came from.
pub struct SRCons {
    rip: bool,
}

/// The issuing handle of a write grant, held until the grant ends; dropping
/// it releases the handle.
pub struct ProdRelease<'a> {
    /// The handle, until it has been released.
    pub handle: Option<&'a mut SRProd>,
}

/// Exclusive write access to one slot, issued by [`SRProd::start_write`].
///
/// While it lives it borrows the handle that issued it and the ring. When it
/// is finished with [`PGrant::consume`] or goes out of scope, the handle is
/// released.
pub struct PGrant<'a> {
    /// Releases the issuing handle when the grant ends.
    pub release: ProdRelease<'a>,
    /// The slot this grant covers.
    pub buf: &'a mut Buffer,
    /// Position of the slot in the store.
    pub index: usize,
}

/// The issuing handle of a read grant, held until the grant ends; dropping
/// it releases the handle.
pub struct ConsRelease<'a> {
    /// The handle, until it has been released.
    pub handle: Option<&'a mut SRCons>,
}

/// Read access to one written slot, issued by [`SRCons::start_read`].
pub struct RGrant<'a> {
    /// Releases the issuing handle when the grant ends.
    pub release: ConsRelease<'a>,
    /// The slot this grant covers.
    pub buf: &'a Buffer,
    /// Position of the slot in the store.
    pub index: usize,
}

impl SlotRing {
    /// The slots, in store order.
    pub closed spec fn contents(&self) -> Seq<Buffer> {
        self.store@
    }

    /// How many slots the producer has claimed.
    pub closed spec fn written(&self) -> nat {
        self.writer as nat
    }

    /// How many slots the consumer has claimed.
    pub closed spec fn read_count(&self) -> nat {
        self.reader as nat
    }

    /// Whether the handles have been handed out.
    pub closed spec fn is_split(&self) -> bool {
        self.split_done
    }

    /// Number of slots in the store.
    pub open spec fn capacity(&self) -> nat {
        self.contents().len()
    }

    /// The cursors stay within the store, and reading never passes writing.
    pub open spec fn wf(&self) -> bool {
        &&& self.read_count() <= self.written()
        &&& self.written() <= self.capacity()
    }

    /// `next` is this ring after one write grant over the slot at the write
    /// cursor, which was left holding `value`.
    pub open spec fn write_step(&self, next: SlotRing, value: Buffer) -> bool {
        &&& self.written() < self.capacity()
        &&& next.contents() == self.contents().update(self.written() as int, value)
        &&& next.written() == self.written() + 1
        &&& next.read_count() == self.read_count()
        &&& next.is_split() == self.is_split()
    }

    /// `next` is this ring after one read grant over the slot at the read
    /// cursor, which holds `value`.
    pub open spec fn read_step(&self, next: SlotRing, value: Buffer) -> bool {
        &&& self.read_count() < self.written()
        &&& value == self.contents()[self.read_count() as int]
        &&& next.contents() == self.contents()
        &&& next.written() == self.written()
        &&& next.read_count() == self.read_count() + 1
        &&& next.is_split() == self.is_split()
    }

    /// A ring over `store`, with both cursors at the start.
    pub fn new(store: Vec<Buffer>) -> (r: SlotRing)
        ensures
            r.wf(),
            r.contents() == store@,
            r.written() == 0,
            r.read_count() == 0,
            !r.is_split(),
    {
        SlotRing { store, writer: 0, reader: 0, split_done: false }
    }

    /// Hands out the producer and consumer handles. Only the first call on a
    /// ring succeeds, so a ring has at most one of each.
    pub fn split(&mut self) -> (r: Option<(SRProd, SRCons)>)
        ensures
            r is Some <==> !old(self).is_split(),
            r is Some ==> !r->Some_0.0.busy() && !r->Some_0.1.busy(),
            final(self).is_split(),
            final(self).contents() == old(self).contents(),
            final(self).written() == old(self).written(),
            final(self).read_count() == old(self).read_count(),
    {
        if self.split_done {
            return None;
        }
        self.split_done = true;
        Some((SRProd { wip: false }, SRCons { rip: false }))
    }

    /// The slots, in store order.
    pub fn slots(&self) -> (r: &Vec<Buffer>)
        ensures
            r@ == self.contents(),
    {
        &self.store
    }

    /// Gives the slot store back.
    pub fn into_store(self) -> (r: Vec<Buffer>)
        ensures
            r@ == self.contents(),
    {
        self.store
    }

    /// Number of slots in the store.
    pub fn slot_count(&self) -> (r: usize)
        ensures
            r == self.capacity(),
    {
        self.store.len()
    }

    /// How many slots the producer has claimed.
    pub fn write_cursor(&self) -> (r: usize)
        ensures
            r == self.written(),
    {
        self.writer
    }

    /// How many slots the consumer has claimed.
    pub fn read_cursor(&self) -> (r: usize)
        ensures
            r == self.read_count(),
    {
        self.reader
    }
}

impl SRProd {
    /// Whether a write grant from this handle is outstanding.
    pub closed spec fn busy(&self) -> bool {
        self.wip
    }

    /// Whether a write grant from this handle is outstanding.
    pub fn is_busy(&self) -> (r: bool)
        ensures
            r == self.busy(),
    {
        self.wip
    }

    /// Grants write access to the slot at the write cursor and advances the
    /// cursor. Fails with `HandleBusy` while a grant from this handle is
    /// outstanding, and with `StoreUnavailable` once every slot has been
    /// claimed; a failed call changes nothing.
    pub fn start_write<'a>(&'a mut self, ring: &'a mut SlotRing) -> (r: Result<PGrant<'a>, GrantError>)
        requires
            old(ring).wf(),
        ensures
            final(ring).wf(),
            r is Ok <==> !old(self).busy() && old(ring).written() < old(ring).capacity(),
            r == Err::<PGrant<'a>, GrantError>(GrantError::HandleBusy) <==> old(self).busy(),
            r == Err::<PGrant<'a>, GrantError>(GrantError::StoreUnavailable) <==> !old(self).busy()
                && old(ring).written() >= old(ring).capacity(),
            r is Err ==> *final(ring) == *old(ring) && *final(self) == *old(self),
            r is Ok ==> {
                let g = r->Ok_0;
                &&& g.index == old(ring).written()
                &&& *g.buf == old(ring).contents()[g.index as int]
                &&& g.release.handle is Some
                &&& g.release.handle->Some_0.busy()
                &&& *final(self) == *final(g.release.handle->Some_0)
                &&& old(ring).write_step(*final(ring), *final(g.buf))
            },
    {
        if self.wip {
            return Err(GrantError::HandleBusy);
        }
        if ring.writer < ring.store.len() {
            let idx = ring.writer;
            ring.writer = idx + 1;
            self.wip = true;
            let buf = &mut ring.store[idx];
            return Ok(PGrant { release: ProdRelease { handle: Some(self) }, buf, index: idx });
        }
        Err(GrantError::StoreUnavailable)
    }
}

impl SRCons {
    /// Whether a read grant from this handle is outstanding.
    pub closed spec fn busy(&self) -> bool {
        self.rip
    }

    /// Whether a read grant from this handle is outstanding.
    pub fn is_busy(&self) -> (r: bool)
        ensures
            r == self.busy(),
    {
        self.rip
    }

    /// Grants read access to the slot at the read cursor and advances the
    /// cursor. Fails with `HandleBusy` while a grant from this handle is
    /// outstanding, and with `StoreUnavailable` while every written slot has
    /// been read; a failed call changes nothing.
    pub fn start_read<'a>(&'a mut self, ring: &'a mut SlotRing) -> (r: Result<RGrant<'a>, GrantError>)
        requires
            old(ring).wf(),
        ensures
            final(ring).wf(),
            r is Ok <==> !old(self).busy() && old(ring).read_count() < old(ring).written(),
            r == Err::<RGrant<'a>, GrantError>(GrantError::HandleBusy) <==> old(self).busy(),
            r == Err::<RGrant<'a>, GrantError>(GrantError::StoreUnavailable) <==> !old(self).busy()
                && old(ring).read_count() >= old(ring).written(),
            r is Err ==> *final(ring) == *old(ring) && *final(self) == *old(self),
            r is Ok ==> {
                let g = r->Ok_0;
                &&& g.index == old(ring).read_count()
                &&& g.release.handle is Some
                &&& g.release.handle->Some_0.busy()
                &&& *final(self) == *final(g.release.handle->Some_0)
                &&& old(ring).read_step(*final(ring), *g.buf)
            },
    {
        if self.rip {
            return Err(GrantError::HandleBusy);
        }
        if ring.reader < ring.writer {
            let idx = ring.reader;
            ring.reader = idx + 1;
            self.rip = true;
            let shared: &'a SlotRing = ring;
            let buf = &shared.store[idx];
            return Ok(RGrant { release: ConsRelease { handle: Some(self) }, buf, index: idx });
        }
        Err(GrantError::StoreUnavailable)
    }
}

impl<'a> PGrant<'a> {
    /// Finishes the grant and releases the handle that issued it.
    pub fn consume(self)
        ensures
            self.release.handle is Some ==> !final(self.release.handle->Some_0).busy(),
            *final(self.buf) == *old(self.buf),
    {
        let PGrant { release, buf: _slot, index: _ } = self;
        let mut release = release;
        if let Some(h) = release.handle.take() {
            h.wip = false;
        }
    }
}

impl<'a> RGrant<'a> {
    /// Finishes the grant and releases the handle that issued it.
    pub fn consume(self)
        ensures
            self.release.handle is Some ==> !final(self.release.handle->Some_0).busy(),
    {
        let RGrant { release, buf: _slot, index: _ } = self;
        let mut release = release;
        if let Some(h) = release.handle.take() {
            h.rip = false;
        }
    }
}

// The release on scope exit: the same release as `consume`, on the handle the
// guard still holds. Verus checks this contract on the body, but does not apply
// it where a grant goes out of scope, so a caller that needs the handle idle
// afterwards in a proof finishes the grant with `consume`.
impl<'a> Drop for ProdRelease<'a> {
    fn drop(&mut self)
        ensures
            final(self).handle is Some ==> !final(self).handle->Some_0.busy(),
        opens_invariants none
        no_unwind
    {
        if let Some(h) = &mut self.handle {
            h.wip = false;
        }
    }
}

impl<'a> Drop for ConsRelease<'a> {
    fn drop(&mut self)
        ensures
            final(self).handle is Some ==> !final(self).handle->Some_0.busy(),
        opens_invariants none
        no_unwind
    {
        if let Some(h) = &mut self.handle {
            h.rip = false;
        }
    }
}

} // verus!
