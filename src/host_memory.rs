//! The buffer bridge: host-owned memory blocks, addressed by opaque handles, and the
//! conversions between them and owned byte buffers.
//!
//! A handle records whether it has been released, so that a double release or a
//! release of a handle the host never gave out is a reported error rather than
//! undefined behaviour.
use vstd::prelude::*;

verus! {

/// An opaque handle to a block of host memory.
#[derive(Clone, Copy, Debug, PartialEq, Eq, Structural)]
pub struct Handle {
    pub id: usize,
}

/// Why a release was refused.
#[derive(Clone, Copy, Debug, PartialEq, Eq, Structural)]
pub enum ReleaseError {
    /// The handle was never handed out by this memory.
    UnknownHandle,
    /// The handle has already been released.
    AlreadyReleased,
}

/// The blocks of memory owned by the host. Block `i` is the one that handle `i`
/// addresses; a released block is kept as a tombstone so that its handle is never
/// reused.
pub struct HostMemory {
    blocks: Vec<Vec<u8>>,
    live: Vec<bool>,
}

/// The bytes of a sequence of `i8`, each reinterpreted as `u8`.
pub open spec fn i8_bytes(data: Seq<i8>) -> Seq<u8> {
    data.map_values(|x: i8| x as u8)
}

/// Whether `h` addresses a block of `m` that has not been released.
pub open spec fn is_live(m: Seq<Option<Seq<u8>>>, h: Handle) -> bool {
    h.id < m.len() && m[h.id as int] is Some
}

/// The bytes of the live block that `h` addresses in `m`.
pub open spec fn contents(m: Seq<Option<Seq<u8>>>, h: Handle) -> Seq<u8> {
    m[h.id as int]->Some_0
}

/// What copying `len` bytes out of the block of `h` gives: those bytes, then one
/// terminating zero byte.
pub open spec fn to_owned_spec(m: Seq<Option<Seq<u8>>>, h: Handle, len: nat) -> Seq<u8> {
    contents(m, h).subrange(0, len as int).push(0u8)
}

/// The memory after a new block holding `bytes` was allocated in `m`; its handle is
/// `m.len()`.
pub open spec fn alloc_spec(m: Seq<Option<Seq<u8>>>, bytes: Seq<u8>) -> Seq<Option<Seq<u8>>> {
    m.push(Some(bytes))
}

/// The memory after the block of `h` was released in `m`.
pub open spec fn release_spec(m: Seq<Option<Seq<u8>>>, h: Handle) -> Seq<Option<Seq<u8>>> {
    m.update(h.id as int, None)
}

/// Handing bytes to the host, then copying them back out of the new block `h` with
/// the same length, gives the same bytes, followed by the one terminating zero byte that the copy adds.
pub proof fn lemma_round_trip(m: Seq<Option<Seq<u8>>>, data: Seq<i8>, h: Handle)
    requires
        h.id == m.len(),
    ensures
        to_owned_spec(alloc_spec(m, i8_bytes(data)), h, data.len()) == i8_bytes(data).push(0u8),
        to_owned_spec(alloc_spec(m, i8_bytes(data)), h, data.len()).subrange(0, data.len() as int)
            == i8_bytes(data),
{
    let after = alloc_spec(m, i8_bytes(data));
    assert(contents(after, h) == i8_bytes(data));
    assert(i8_bytes(data).subrange(0, data.len() as int) =~= i8_bytes(data));
    assert(to_owned_spec(after, h, data.len()).subrange(0, data.len() as int) =~= i8_bytes(data));
}

impl View for HostMemory {
    type V = Seq<Option<Seq<u8>>>;

    closed spec fn view(&self) -> Seq<Option<Seq<u8>>> {
        Seq::new(
            self.blocks@.len(),
            |i: int|
                if self.live@[i] {
                    Some(self.blocks@[i]@)
                } else {
                    None
                },
        )
    }
}

impl HostMemory {
    /// The two tables have one entry per handle handed out.
    pub closed spec fn wf(&self) -> bool {
        self.blocks@.len() == self.live@.len()
    }

    /// A memory in which no block has been allocated.
    pub fn new() -> (r: HostMemory)
        ensures
            r.wf(),
            r@ == Seq::<Option<Seq<u8>>>::empty(),
    {
        let r = HostMemory { blocks: Vec::new(), live: Vec::new() };
        assert(r@ =~= Seq::<Option<Seq<u8>>>::empty());
        r
    }

    /// Allocates a block holding a copy of `bytes` and hands out its handle.
    pub fn allocate(&mut self, bytes: &[u8]) -> (h: Handle)
        requires
            old(self).wf(),
            old(self)@.len() < usize::MAX,
        ensures
            final(self).wf(),
            h.id == old(self)@.len(),
            final(self)@ == alloc_spec(old(self)@, bytes@),
    {
        let id = self.blocks.len();
        let mut block: Vec<u8> = Vec::new();
        let mut i: usize = 0;
        while i < bytes.len()
            invariant
                i <= bytes@.len(),
                block@ == bytes@.subrange(0, i as int),
            decreases bytes@.len() - i,
        {
            block.push(bytes[i]);
            i = i + 1;
        }
        assert(block@ =~= bytes@);
        self.blocks.push(block);
        self.live.push(true);
        assert(self@ =~= alloc_spec(old(self)@, bytes@));
        Handle { id }
    }
}

/// Copies `len` bytes out of the block of `h` into a new owned buffer and appends
/// one zero byte, for consumers that read the buffer as a C string.
///
/// The block is left as it is: releasing it is the caller's part.
pub fn hglobal_to_vec_u8(mem: &HostMemory, h: Handle, len: usize) -> (r: Vec<u8>)
    requires
        mem.wf(),
        is_live(mem@, h),
        len <= contents(mem@, h).len(),
    ensures
        r@ == to_owned_spec(mem@, h, len as nat),
{
    let block = &mem.blocks[h.id];
    assert(block@ == contents(mem@, h));
    let mut r: Vec<u8> = Vec::new();
    let mut i: usize = 0;
    while i < len
        invariant
            i <= len,
            len <= block@.len(),
            r@ == block@.subrange(0, i as int),
        decreases len - i,
    {
        r.push(block[i]);
        i = i + 1;
    }
    assert(r@ =~= block@.subrange(0, len as int));
    r.push(0);
    r
}

/// Allocates a block holding the bytes of `data`, writes its length through
/// `h_len`, and hands out its handle. No terminating byte is added.
pub fn slice_i8_to_hglobal(mem: &mut HostMemory, h_len: &mut usize, data: &[i8]) -> (h: Handle)
    requires
        old(mem).wf(),
        old(mem)@.len() < usize::MAX,
    ensures
        final(mem).wf(),
        h.id == old(mem)@.len(),
        final(mem)@ == alloc_spec(old(mem)@, i8_bytes(data@)),
        *final(h_len) == data@.len(),
{
    let mut bytes: Vec<u8> = Vec::new();
    let mut i: usize = 0;
    while i < data.len()
        invariant
            i <= data@.len(),
            bytes@ == i8_bytes(data@.subrange(0, i as int)),
        decreases data@.len() - i,
    {
        bytes.push(data[i] as u8);
        i = i + 1;
        assert(i8_bytes(data@.subrange(0, i as int)) =~= i8_bytes(data@.subrange(0, i - 1)).push(
            data@[i - 1] as u8,
        ));
    }
    assert(data@.subrange(0, data@.len() as int) =~= data@);
    let h = mem.allocate(bytes.as_slice());
    *h_len = data.len();
    h
}

/// Releases the block of `h`. A handle that was never handed out, or that was
/// already released, is refused and the memory is left unchanged.
pub fn global_free(mem: &mut HostMemory, h: Handle) -> (r: Result<(), ReleaseError>)
    requires
        old(mem).wf(),
    ensures
        final(mem).wf(),
        h.id >= old(mem)@.len() ==> r == Err::<(), ReleaseError>(ReleaseError::UnknownHandle)
            && final(mem)@ == old(mem)@,
        h.id < old(mem)@.len() && !is_live(old(mem)@, h) ==> r == Err::<(), ReleaseError>(
            ReleaseError::AlreadyReleased,
        ) && final(mem)@ == old(mem)@,
        is_live(old(mem)@, h) ==> r is Ok && final(mem)@ == release_spec(old(mem)@, h),
{
    if h.id >= mem.live.len() {
        return Err(ReleaseError::UnknownHandle);
    }
    if !mem.live[h.id] {
        return Err(ReleaseError::AlreadyReleased);
    }
    mem.live.set(h.id, false);
    mem.blocks.set(h.id, Vec::new());
    assert(mem@ =~= release_spec(old(mem)@, h));
    Ok(())
}

} // verus!
