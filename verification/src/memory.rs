//! Memory services: page and pool allocation, the scoped pool buffer, and
//! the size-discovery protocol that retrieves the memory map.
//!
//! Pages are allocated under a strategy — anywhere, below a ceiling, or at
//! an exact address — and a memory-type tag; pool memory by bytes.  Every
//! call that returns a variable-length array follows the same two phases:
//! probe for the required size, allocate a pool buffer, call again.  For
//! the memory map the probe's own allocation can grow the map, so a fixed
//! margin is added to the reported size and a second shortfall is
//! surfaced to the caller with the newly reported size rather than
//! retried.  [`PoolLedger`] models the firmware's pool state, which the
//! allocation laws and the tests speak of.

use vstd::prelude::*;

use crate::fatal::{Fatal, Op};
use crate::status::{is_error_code, Status, BUFFER_TOO_SMALL, INVALID_PARAMETER};
use crate::table::{planned, StandardBootServices};

verus! {

/// Raw allocation strategy: any address.
pub const ALLOCATE_ANY_PAGES: u32 = 0;

/// Raw allocation strategy: at or below the given ceiling.
pub const ALLOCATE_MAX_ADDRESS: u32 = 1;

/// Raw allocation strategy: at exactly the given address.
pub const ALLOCATE_ADDRESS: u32 = 2;

/// Memory-type tag: loader data.
pub const LOADER_DATA: u32 = 2;

/// Memory-type tag: boot-services data; what this layer's own buffers use.
pub const BOOT_SERVICES_DATA: u32 = 4;

/// Memory-type tag: reclaimable firmware tables.
pub const ACPI_RECLAIM_MEMORY: u32 = 9;

/// Memory-type tag: firmware-reserved non-volatile storage.
pub const ACPI_MEMORY_NVS: u32 = 10;

/// Memory-type tag: memory-mapped device registers.
pub const MEMORY_MAPPED_IO: u32 = 11;

/// Where a page allocation may be placed.
#[derive(Clone, Copy, PartialEq, Eq, Structural, Debug)]
pub enum AllocType {
    /// Any address suits.
    AnyPage,
    /// At or below the given address.
    MaxAddress(u64),
    /// At exactly the given address.
    Address(u64),
}

impl AllocType {
    /// The raw strategy value the allocate-pages entry takes.
    pub open spec fn raw_spec(self) -> u32 {
        match self {
            AllocType::AnyPage => ALLOCATE_ANY_PAGES,
            AllocType::MaxAddress(_) => ALLOCATE_MAX_ADDRESS,
            AllocType::Address(_) => ALLOCATE_ADDRESS,
        }
    }

    /// The address the strategy seeds the in/out address argument with:
    /// the ceiling or exact address where one is given, zero otherwise.
    pub open spec fn seed_address_spec(self) -> u64 {
        match self {
            AllocType::AnyPage => 0,
            AllocType::MaxAddress(a) => a,
            AllocType::Address(a) => a,
        }
    }

    /// The raw strategy value the allocate-pages entry takes.
    pub fn raw(&self) -> (r: u32)
        ensures
            r == self.raw_spec(),
    {
        match self {
            AllocType::AnyPage => ALLOCATE_ANY_PAGES,
            AllocType::MaxAddress(_) => ALLOCATE_MAX_ADDRESS,
            AllocType::Address(_) => ALLOCATE_ADDRESS,
        }
    }

    /// The address the strategy seeds the in/out address argument with.
    pub fn seed_address(&self) -> (r: u64)
        ensures
            r == self.seed_address_spec(),
    {
        match self {
            AllocType::AnyPage => 0,
            AllocType::MaxAddress(a) => *a,
            AllocType::Address(a) => *a,
        }
    }
}

/// A memory-type tag, as the raw value the firmware takes.
#[derive(Clone, Copy, PartialEq, Eq, Structural, Debug)]
pub struct MemoryType {
    pub raw: u32,
}

impl MemoryType {
    /// A memory type from its raw value.
    pub fn of(raw: u32) -> (t: MemoryType)
        ensures
            t.raw == raw,
    {
        MemoryType { raw }
    }

    /// The tag this layer's own pool buffers are allocated under.
    pub fn boot_services_data() -> (t: MemoryType)
        ensures
            t.raw == BOOT_SERVICES_DATA,
    {
        MemoryType { raw: BOOT_SERVICES_DATA }
    }

    /// The memory-mapped-device tag.
    pub fn memory_mapped_io() -> (t: MemoryType)
        ensures
            t.raw == MEMORY_MAPPED_IO,
    {
        MemoryType { raw: MEMORY_MAPPED_IO }
    }

    /// The firmware-reserved non-volatile tag.
    pub fn acpi_memory_nvs() -> (t: MemoryType)
        ensures
            t.raw == ACPI_MEMORY_NVS,
    {
        MemoryType { raw: ACPI_MEMORY_NVS }
    }
}

/// The raw arguments of an allocate-pages call.
#[derive(Clone, Copy, PartialEq, Eq, Structural, Debug)]
pub struct AllocatePagesCall {
    /// The address of the table entry to call.
    pub entry: u64,
    /// The raw allocation strategy.
    pub alloc_type: u32,
    /// The raw memory-type tag.
    pub memory_type: u32,
    /// How many pages to allocate.
    pub nb_pages: usize,
    /// The value the in/out address argument starts with: the strategy's
    /// ceiling or exact address, or zero.  On success the firmware leaves
    /// the resulting address here.
    pub memory_address: u64,
}

/// The raw arguments of a free-pages call.
#[derive(Clone, Copy, PartialEq, Eq, Structural, Debug)]
pub struct FreePagesCall {
    /// The address of the table entry to call.
    pub entry: u64,
    /// The first page's address.
    pub address: u64,
    /// How many pages to free.
    pub nb_pages: usize,
}

/// The raw arguments of an allocate-pool call.
#[derive(Clone, Copy, PartialEq, Eq, Structural, Debug)]
pub struct AllocatePoolCall {
    /// The address of the table entry to call.
    pub entry: u64,
    /// The raw memory-type tag.
    pub pool_type: u32,
    /// How many bytes to allocate.
    pub size: usize,
}

/// The raw arguments of a free-pool call.
#[derive(Clone, Copy, PartialEq, Eq, Structural, Debug)]
pub struct FreePoolCall {
    /// The address of the table entry to call.
    pub entry: u64,
    /// The buffer to return to the pool.
    pub buffer: usize,
}

/// The raw arguments of a get-memory-map call.  The probe phase passes a
/// zero size and no buffer; the retry passes the allocated buffer.
#[derive(Clone, Copy, PartialEq, Eq, Structural, Debug)]
pub struct GetMemoryMapCall {
    /// The address of the table entry to call.
    pub entry: u64,
}

impl StandardBootServices {
    /// Plan an allocate-pages call: the strategy seeds the in/out address
    /// argument with its ceiling or exact address.
    pub fn allocate_pages_call(
        &self,
        alloc_type: AllocType,
        memory_type: MemoryType,
        nb_pages: usize,
    ) -> (r: Result<AllocatePagesCall, Fatal>)
        ensures
            planned(
                *self,
                Op::AllocatePages,
                r,
                (AllocatePagesCall {
                    entry: self.table_spec().entry_spec(Op::AllocatePages),
                    alloc_type: alloc_type.raw_spec(),
                    memory_type: memory_type.raw,
                    nb_pages,
                    memory_address: alloc_type.seed_address_spec(),
                }),
            ),
    {
        let entry = self.require_entry(Op::AllocatePages)?;
        Ok(
            AllocatePagesCall {
                entry,
                alloc_type: alloc_type.raw(),
                memory_type: memory_type.raw,
                nb_pages,
                memory_address: alloc_type.seed_address(),
            },
        )
    }

    /// Plan a free-pages call.
    pub fn free_pages_call(&self, address: u64, nb_pages: usize) -> (r: Result<
        FreePagesCall,
        Fatal,
    >)
        ensures
            planned(
                *self,
                Op::FreePages,
                r,
                (FreePagesCall {
                    entry: self.table_spec().entry_spec(Op::FreePages),
                    address,
                    nb_pages,
                }),
            ),
    {
        let entry = self.require_entry(Op::FreePages)?;
        Ok(FreePagesCall { entry, address, nb_pages })
    }

    /// Plan an allocate-pool call.
    pub fn allocate_pool_call(&self, pool_type: MemoryType, size: usize) -> (r: Result<
        AllocatePoolCall,
        Fatal,
    >)
        ensures
            planned(
                *self,
                Op::AllocatePool,
                r,
                (AllocatePoolCall {
                    entry: self.table_spec().entry_spec(Op::AllocatePool),
                    pool_type: pool_type.raw,
                    size,
                }),
            ),
    {
        let entry = self.require_entry(Op::AllocatePool)?;
        Ok(AllocatePoolCall { entry, pool_type: pool_type.raw, size })
    }

    /// Plan a free-pool call.
    pub fn free_pool_call(&self, buffer: usize) -> (r: Result<FreePoolCall, Fatal>)
        ensures
            planned(
                *self,
                Op::FreePool,
                r,
                (FreePoolCall { entry: self.table_spec().entry_spec(Op::FreePool), buffer }),
            ),
    {
        let entry = self.require_entry(Op::FreePool)?;
        Ok(FreePoolCall { entry, buffer })
    }

    /// Plan a get-memory-map call; the same entry serves the probe and
    /// the retry.
    pub fn get_memory_map_call(&self) -> (r: Result<GetMemoryMapCall, Fatal>)
        ensures
            planned(
                *self,
                Op::GetMemoryMap,
                r,
                (GetMemoryMapCall { entry: self.table_spec().entry_spec(Op::GetMemoryMap) }),
            ),
    {
        let entry = self.require_entry(Op::GetMemoryMap)?;
        Ok(GetMemoryMapCall { entry })
    }
}

// --- The scoped pool buffer ---

/// Ownership of one pool allocation: its address and byte length.  The
/// buffer is released by [`PoolBuffer::release`], which consumes it, so
/// the free-pool call is planned exactly once and no use can follow.
#[derive(PartialEq, Eq, Structural, Debug)]
pub struct PoolBuffer {
    /// The allocation's address; a pool allocation is never at address
    /// zero.
    pub addr: usize,
    /// The allocation's length in bytes.
    pub len: usize,
}

impl PoolBuffer {
    /// Take ownership of an allocation the firmware handed back.
    pub fn new(addr: usize, len: usize) -> (b: PoolBuffer)
        requires
            addr != 0,
        ensures
            b.addr == addr,
            b.len == len,
    {
        PoolBuffer { addr, len }
    }

    /// How many elements of the given size the buffer holds, if its
    /// length divides into them exactly; reinterpreting it as a typed
    /// slice is sound only then.
    pub fn typed_len(&self, elem_size: usize) -> (r: Option<usize>)
        ensures
            elem_size != 0 && self.len % elem_size == 0 ==> r == Some(self.len / elem_size),
            elem_size == 0 || self.len % elem_size != 0 ==> r is None,
    {
        if elem_size != 0 && self.len % elem_size == 0 {
            Some(self.len / elem_size)
        } else {
            None
        }
    }

    /// Release the buffer: plan the free-pool call that returns it to the
    /// firmware.  The buffer is moved in, so it is released exactly once
    /// and cannot be used afterwards.
    pub fn release(self, bs: &StandardBootServices) -> (r: Result<FreePoolCall, Fatal>)
        ensures
            planned(
                *bs,
                Op::FreePool,
                r,
                (FreePoolCall {
                    entry: bs.table_spec().entry_spec(Op::FreePool),
                    buffer: self.addr,
                }),
            ),
    {
        bs.free_pool_call(self.addr)
    }
}

// --- The pool model ---

/// What a successful pool allocation does to the set of live addresses:
/// the fresh address joins it.
pub open spec fn pool_alloc_spec(live: Set<usize>, addr: usize) -> Set<usize> {
    live.insert(addr)
}

/// What a free does to the set of live addresses, and whether it
/// succeeds: a live, nonzero address leaves the set; a null or unknown
/// address fails and the set stands unchanged.
pub open spec fn pool_free_spec(live: Set<usize>, addr: usize) -> (Set<usize>, bool) {
    if addr != 0 && live.contains(addr) {
        (live.remove(addr), true)
    } else {
        (live, false)
    }
}

/// Allocating and then freeing the same address succeeds and returns the
/// pool to its prior state, for every pool state and every fresh address.
pub proof fn lemma_pool_alloc_then_free(live: Set<usize>, addr: usize)
    requires
        addr != 0,
        !live.contains(addr),
    ensures
        pool_free_spec(pool_alloc_spec(live, addr), addr).1,
        pool_free_spec(pool_alloc_spec(live, addr), addr).0 =~= live,
{
}

/// Freeing the null address fails and has no effect on the pool, for
/// every pool state.
pub proof fn lemma_pool_free_null(live: Set<usize>)
    ensures
        !pool_free_spec(live, 0).1,
        pool_free_spec(live, 0).0 == live,
{
}

/// A ledger of the firmware's pool: which addresses are live, and the
/// next fresh one.  It carries the allocation laws into executable form
/// for the tests.
pub struct PoolLedger {
    /// Addresses currently allocated, each nonzero, below `next_addr`,
    /// and listed once.
    pub live: Vec<usize>,
    /// The next address to hand out; never zero.
    pub next_addr: usize,
}

impl PoolLedger {
    /// The addresses currently allocated.
    pub open spec fn live_set(self) -> Set<usize> {
        self.live@.to_set()
    }

    /// The ledger's invariant: live addresses are nonzero, below the next
    /// fresh address, and pairwise distinct.
    pub open spec fn wf(self) -> bool {
        &&& self.next_addr != 0
        &&& forall|i: int|
            0 <= i < self.live@.len() ==> 0 < #[trigger] self.live@[i] < self.next_addr
        &&& forall|i: int, j: int|
            0 <= i < j < self.live@.len() ==> self.live@[i] != self.live@[j]
    }

    /// An empty pool.
    pub fn new() -> (l: PoolLedger)
        ensures
            l.wf(),
            l.live_set() =~= Set::<usize>::empty(),
    {
        PoolLedger { live: Vec::new(), next_addr: 8 }
    }

    /// The index at which an address is listed, if it is live.
    fn position(&self, addr: usize) -> (r: Option<usize>)
        ensures
            match r {
                Some(i) => i < self.live@.len() && self.live@[i as int] == addr,
                None => !self.live@.contains(addr),
            },
    {
        let mut i: usize = 0;
        while i < self.live.len()
            invariant
                i <= self.live@.len(),
                forall|j: int| 0 <= j < i ==> self.live@[j] != addr,
            decreases self.live@.len() - i,
        {
            if self.live[i] == addr {
                return Some(i);
            }
            i += 1;
        }
        None
    }

    /// Allocate: hand out a fresh, nonzero address and record it live.
    pub fn allocate(&mut self, size: usize) -> (addr: usize)
        requires
            old(self).wf(),
            old(self).next_addr + size + 1 <= usize::MAX,
        ensures
            final(self).wf(),
            addr != 0,
            !old(self).live_set().contains(addr),
            final(self).live_set() =~= pool_alloc_spec(old(self).live_set(), addr),
    {
        let addr = self.next_addr;
        self.next_addr = self.next_addr + size + 1;
        self.live.push(addr);
        proof {
            assert(final(self).live@ == old(self).live@.push(addr));
            assert(!old(self).live@.contains(addr));
            old(self).live@.lemma_push_to_set_commute(addr);
        }
        addr
    }

    /// Free: a live, nonzero address leaves the ledger and the call
    /// succeeds; the null address, or one not live, fails with the
    /// invalid-parameter status and the ledger stands unchanged.
    pub fn free(&mut self, addr: usize) -> (r: Result<(), Status>)
        requires
            old(self).wf(),
        ensures
            final(self).wf(),
            r is Ok <==> pool_free_spec(old(self).live_set(), addr).1,
            final(self).live_set() =~= pool_free_spec(old(self).live_set(), addr).0,
            r is Err ==> r == Err::<(), Status>(Status { code: INVALID_PARAMETER })
                && final(self).live@ == old(self).live@,
    {
        if addr == 0 {
            return Err(Status { code: INVALID_PARAMETER });
        }
        match self.position(addr) {
            None => Err(Status { code: INVALID_PARAMETER }),
            Some(i) => {
                self.live.remove(i);
                proof {
                    let prior = old(self).live@;
                    assert(final(self).live@ == prior.remove(i as int));
                    let after = final(self).live@;
                    let removed = old(self).live_set().remove(addr);
                    assert forall|x: usize| after.to_set().contains(x) implies removed.contains(
                        x,
                    ) by {
                        let k = choose|k: int| 0 <= k < after.len() && after[k] == x;
                        if k < i {
                            assert(prior[k] == x);
                        } else {
                            assert(prior[k + 1] == x);
                        }
                        assert(x != addr);
                    }
                    assert forall|x: usize| removed.contains(x) implies after.to_set().contains(
                        x,
                    ) by {
                        let k = choose|k: int| 0 <= k < prior.len() && prior[k] == x;
                        if k < i {
                            assert(after[k] == x);
                        } else {
                            assert(k != i);
                            assert(after[k - 1] == x);
                        }
                    }
                }
                Ok(())
            },
        }
    }
}

// --- The size-discovery protocol for the memory map ---

/// The margin added to the probe's reported size: the pool allocation the
/// protocol makes next can itself grow the map, so the buffer is padded
/// by this fixed amount.  A second shortfall is surfaced, not retried.
pub const MEMORY_MAP_PROBE_MARGIN: usize = 0x400;

/// Decide the buffer size to allocate after the zero-size probe: the
/// reported required size, padded by the margin when the probe reported
/// the expected shortfall.
pub fn memory_map_buffer_size(probe_status: Status, reported_size: usize) -> (r: usize)
    requires
        reported_size + MEMORY_MAP_PROBE_MARGIN <= usize::MAX,
    ensures
        probe_status.code == BUFFER_TOO_SMALL ==> r == reported_size + MEMORY_MAP_PROBE_MARGIN,
        probe_status.code != BUFFER_TOO_SMALL ==> r == reported_size,
{
    if probe_status.code == BUFFER_TOO_SMALL {
        reported_size + MEMORY_MAP_PROBE_MARGIN
    } else {
        reported_size
    }
}

/// The memory map's metadata: the record count and size, the freshness
/// key the privileged hand-off call demands — valid only against the
/// memory state that produced it — and the record format version.
#[derive(Clone, Copy, PartialEq, Eq, Structural, Debug)]
pub struct MemoryMapMeta {
    /// How many descriptor records the buffer holds.
    pub descriptor_count: usize,
    /// The freshness token for the privileged hand-off call.
    pub map_key: usize,
    /// The size of one descriptor record.
    pub descriptor_size: usize,
    /// The descriptor format version.
    pub descriptor_version: u32,
}

/// Read the retry phase of the memory-map protocol back.  A second
/// shortfall is surfaced with the newly reported size, bounding the
/// protocol to one retry; any other error is propagated with no size; on
/// success the descriptor count is what the written size holds.
pub fn memory_map_result(
    status: Status,
    memory_map_size: usize,
    map_key: usize,
    descriptor_size: usize,
    descriptor_version: u32,
) -> (r: Result<MemoryMapMeta, (Status, usize)>)
    ensures
        status.code == BUFFER_TOO_SMALL ==> r == Err::<MemoryMapMeta, (Status, usize)>(
            (status, memory_map_size),
        ),
        is_error_code(status.code) && status.code != BUFFER_TOO_SMALL ==> r == Err::<
            MemoryMapMeta,
            (Status, usize),
        >((status, 0)),
        !is_error_code(status.code) ==> r == Ok::<MemoryMapMeta, (Status, usize)>(
            (MemoryMapMeta {
                descriptor_count: if descriptor_size == 0 {
                    0
                } else {
                    (memory_map_size / descriptor_size) as usize
                },
                map_key,
                descriptor_size,
                descriptor_version,
            }),
        ),
{
    proof {
        crate::status::lemma_code_partition();
    }
    if status.code == BUFFER_TOO_SMALL {
        return Err((status, memory_map_size));
    }
    if status.is_error() {
        return Err((status, 0));
    }
    let descriptor_count: usize = if descriptor_size == 0 {
        0
    } else {
        memory_map_size / descriptor_size
    };
    Ok(MemoryMapMeta { descriptor_count, map_key, descriptor_size, descriptor_version })
}

/// The retrieved memory map: the scoped buffer of descriptor records and
/// its metadata.  Well-formed when the records it claims fit the buffer.
#[derive(PartialEq, Eq, Structural, Debug)]
pub struct MemoryMap {
    /// The pool buffer holding the descriptor records.
    pub descriptors: PoolBuffer,
    /// The map's metadata.
    pub meta: MemoryMapMeta,
}

impl MemoryMap {
    /// The records the map claims lie within its buffer.
    pub open spec fn wf(self) -> bool {
        self.meta.descriptor_count * self.meta.descriptor_size <= self.descriptors.len
    }

    /// Assemble the map from the retry's metadata and the buffer the
    /// firmware filled.  The firmware wrote no more than the buffer
    /// holds, which makes the claimed records fit.
    pub fn assemble(meta: MemoryMapMeta, written_size: usize, descriptors: PoolBuffer) -> (m:
        MemoryMap)
        requires
            written_size <= descriptors.len,
            meta.descriptor_count == if meta.descriptor_size == 0 {
                0usize
            } else {
                (written_size / meta.descriptor_size) as usize
            },
        ensures
            m.wf(),
            m.meta == meta,
            m.descriptors == descriptors,
    {
        proof {
            if meta.descriptor_size != 0 {
                let w = written_size as int;
                let d = meta.descriptor_size as int;
                vstd::arithmetic::div_mod::lemma_fundamental_div_mod(w, d);
                vstd::arithmetic::div_mod::lemma_mod_division_less_than_divisor(w, d);
                assert(w == d * (w / d) + (w % d));
                assert(meta.descriptor_count * meta.descriptor_size == d * (w / d))
                    by (nonlinear_arith)
                    requires
                        d != 0,
                        meta.descriptor_count == w / d,
                        meta.descriptor_size == d,
                ;
            }
        }
        MemoryMap { descriptors, meta }
    }
}

/// The size-discovery bound: when a probe reported a required size, the
/// buffer allocated was at least that size plus the margin, and the retry
/// succeeded writing `written_size` into it, the records the result
/// claims occupy no more than the written size, which lies within the
/// buffer — count times record size never exceeds the buffer.
pub proof fn lemma_size_discovery_fits(
    required: usize,
    buffer_len: usize,
    written_size: usize,
    descriptor_size: usize,
)
    requires
        buffer_len >= required,
        written_size <= buffer_len,
        descriptor_size != 0,
    ensures
        (written_size / descriptor_size) * descriptor_size <= written_size,
        (written_size / descriptor_size) * descriptor_size <= buffer_len,
{
    let w = written_size as int;
    let d = descriptor_size as int;
    vstd::arithmetic::div_mod::lemma_fundamental_div_mod(w, d);
    vstd::arithmetic::div_mod::lemma_mod_division_less_than_divisor(w, d);
    assert(w == d * (w / d) + (w % d));
    assert((written_size / descriptor_size) * descriptor_size == d * (w / d))
        by (nonlinear_arith)
        requires
            d != 0,
            written_size == w,
            descriptor_size == d,
    ;
}

} // verus!
