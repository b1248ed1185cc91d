//! Execution stacks: the pinned builder that maps one frame per covered page,
//! the heap builder for ephemeral kernel-only stacks, and the reverse
//! bump-writer used to lay down a stack's initial contents.

use crate::paging::AddressSpace;
use crate::paging::FrameSource;
use crate::paging::PageView;
use crate::paging::PAGE_SIZE;
use crate::paging::PTE_NO_EXECUTE;
use crate::paging::PTE_PRESENT;
use crate::paging::PTE_USER_ACCESSIBLE;
use crate::paging::PTE_WRITABLE;
use crate::paging::lemma_page_of_monotone;
use crate::paging::lemma_page_of_properties;
use crate::paging::lemma_page_offset;
use crate::paging::page_of;
use crate::paging::range_writable;
use crate::paging::spec_byte_at;
use crate::paging::spec_mapped_at;
use crate::paging::spec_page_of;
use vstd::prelude::*;

verus! {

broadcast use vstd::layout::layout_of_primitives;

/// Whether the stack pointer moves toward lower addresses as the stack
/// fills. This is a property of the target architecture, resolved once here
/// and consumed uniformly by every stack computation.
pub const STACK_GROWS_DOWNWARD: bool = true;

/// Minimum alignment of a heap-backed stack's allocation.
pub const HEAP_STACK_ALIGN: u64 = 256;

/// Why building a stack failed.
#[derive(Clone, Copy, Debug, PartialEq, Eq, Structural)]
pub enum StackError {
    /// The requested size is zero or not a multiple of the page size.
    SizeNotSupported,
    /// The frame source ran out of physical frames.
    FrameAllocationFailed,
    /// A page of the requested range already had a translation.
    PageAlreadyMapped,
}

/// Which strategy backs a stack region: per-page mappings installed in an
/// address space, or one heap allocation carried inside the region itself.
pub enum StackBacking {
    Pinned,
    Heap(Vec<u8>),
}

/// One allocated execution stack: the lowest usable byte address, the byte
/// length, and the backing strategy that produced it.
pub struct Stack {
    stack_start: u64,
    stack_size: usize,
    backing: StackBacking,
}

impl Stack {
    /// Virtual address of the lowest byte of the usable region.
    pub closed spec fn spec_start(&self) -> u64 {
        self.stack_start
    }

    /// Byte length of the usable region.
    pub closed spec fn spec_size(&self) -> usize {
        self.stack_size
    }

    /// Whether the region is backed by a heap allocation rather than by
    /// per-page mappings.
    pub closed spec fn is_heap_backed(&self) -> bool {
        self.backing is Heap
    }

    /// The bytes of a heap-backed region; empty for a pinned region, whose
    /// bytes live in the address space it was mapped into.
    pub closed spec fn heap_bytes(&self) -> Seq<u8> {
        match self.backing {
            StackBacking::Heap(b) => b@,
            StackBacking::Pinned => Seq::empty(),
        }
    }

    /// The region fits in the address space, and a heap-backed region holds
    /// exactly its own bytes.
    pub open spec fn wf(&self) -> bool {
        &&& self.spec_start() + self.spec_size() <= u64::MAX
        &&& self.is_heap_backed() ==> self.heap_bytes().len() == self.spec_size()
    }

    /// The address first used as the initial stack pointer: one past the
    /// highest byte where the stack grows downward, the lowest byte where it
    /// grows upward.
    pub open spec fn spec_top(&self) -> u64 {
        if STACK_GROWS_DOWNWARD {
            (self.spec_start() + self.spec_size()) as u64
        } else {
            self.spec_start()
        }
    }

    /// Virtual address of the lowest byte of the usable region.
    pub fn start(&self) -> (r: u64)
        ensures
            r == self.spec_start(),
    {
        self.stack_start
    }

    /// Byte length of the usable region.
    pub fn size(&self) -> (r: usize)
        ensures
            r == self.spec_size(),
    {
        self.stack_size
    }

    /// The initial stack-pointer address for this region, derived from the
    /// architecture's growth direction.
    pub fn stack_top(&self) -> (r: u64)
        requires
            self.wf(),
        ensures
            r == self.spec_top(),
    {
        if STACK_GROWS_DOWNWARD {
            self.stack_start + (self.stack_size as u64)
        } else {
            self.stack_start
        }
    }

    /// Reads one byte of a heap-backed region. Pinned regions keep their
    /// bytes in the address space they were mapped into; read them there.
    pub fn read_byte(&self, a: u64) -> (r: Option<u8>)
        requires
            self.wf(),
        ensures
            match r {
                Some(b) => {
                    &&& self.is_heap_backed()
                    &&& self.spec_start() <= a < self.spec_start() + self.spec_size()
                    &&& b == self.heap_bytes()[a - self.spec_start()]
                },
                None => !(self.is_heap_backed() && self.spec_start() <= a < self.spec_start()
                    + self.spec_size()),
            },
    {
        let start = self.stack_start;
        let size = self.stack_size;
        match &self.backing {
            StackBacking::Heap(bytes) => {
                if a >= start && a - start < size as u64 {
                    Some(bytes[(a - start) as usize])
                } else {
                    None
                }
            },
            StackBacking::Pinned => None,
        }
    }

    /// Stores `v` little-endian at address `a` of a heap-backed region. The
    /// write takes effect, and the result reports it, only if the four bytes
    /// lie inside the region.
    pub fn write_u32(&mut self, a: u64, v: u32) -> (r: bool)
        requires
            old(self).wf(),
        ensures
            final(self).wf(),
            r == (old(self).is_heap_backed() && old(self).spec_start() <= a && a + 4 <= old(
                self,
            ).spec_start() + old(self).spec_size()),
            !r ==> *final(self) == *old(self),
            r ==> {
                let off = a - old(self).spec_start();
                &&& final(self).spec_start() == old(self).spec_start()
                &&& final(self).spec_size() == old(self).spec_size()
                &&& final(self).is_heap_backed()
                &&& final(self).heap_bytes().len() == old(self).heap_bytes().len()
                &&& final(self).heap_bytes().subrange(off, off + 4)
                    == vstd::bytes::spec_u32_to_le_bytes(v)
                &&& forall|j: int| 0 <= j < old(self).heap_bytes().len() && !(off <= j < off + 4)
                    ==> final(self).heap_bytes()[j] == old(self).heap_bytes()[j]
            },
    {
        let start = self.stack_start;
        let size = self.stack_size;
        match &mut self.backing {
            StackBacking::Heap(bytes) => {
                if a >= start && a - start <= (size as u64) && (size as u64) - (a - start) >= 4 {
                    let off = (a - start) as usize;
                    let le = vstd::bytes::u32_to_le_bytes(v);
                    bytes[off] = le[0];
                    bytes[off + 1] = le[1];
                    bytes[off + 2] = le[2];
                    bytes[off + 3] = le[3];
                    proof {
                        assert(self.heap_bytes().subrange(off as int, off + 4)
                            =~= vstd::bytes::spec_u32_to_le_bytes(v));
                    }
                    true
                } else {
                    false
                }
            },
            StackBacking::Pinned => false,
        }
    }

    /// Loads the little-endian value stored at address `a` of a heap-backed
    /// region, if the four bytes lie inside the region.
    pub fn read_u32(&self, a: u64) -> (r: Option<u32>)
        requires
            self.wf(),
        ensures
            match r {
                Some(x) => {
                    let off = a - self.spec_start();
                    &&& self.is_heap_backed()
                    &&& self.spec_start() <= a
                    &&& a + 4 <= self.spec_start() + self.spec_size()
                    &&& x == vstd::bytes::spec_u32_from_le_bytes(
                        self.heap_bytes().subrange(off, off + 4),
                    )
                },
                None => !(self.is_heap_backed() && self.spec_start() <= a && a + 4 <= self
                    .spec_start() + self.spec_size()),
            },
    {
        let start = self.stack_start;
        let size = self.stack_size;
        match &self.backing {
            StackBacking::Heap(bytes) => {
                if a >= start && a - start <= (size as u64) && (size as u64) - (a - start) >= 4 {
                    let off = (a - start) as usize;
                    let mut le: Vec<u8> = Vec::new();
                    le.push(bytes[off]);
                    le.push(bytes[off + 1]);
                    le.push(bytes[off + 2]);
                    le.push(bytes[off + 3]);
                    let x = vstd::bytes::u32_from_le_bytes(le.as_slice());
                    proof {
                        assert(le@ =~= self.heap_bytes().subrange(a - start, a - start + 4));
                    }
                    Some(x)
                } else {
                    None
                }
            },
            StackBacking::Pinned => None,
        }
    }
}

/// General dynamic allocator for ephemeral kernel-only stacks. Allocations
/// come out zero-filled at consecutive 256-byte-aligned addresses, and fail
/// once the configured byte budget is spent.
pub struct HeapSource {
    next: u64,
    remaining: u64,
}

/// The bytes an allocation of `size` actually consumes: `size` rounded up to
/// the allocator's alignment.
pub open spec fn heap_charge(size: usize) -> int {
    let a = HEAP_STACK_ALIGN as int;
    size + ((a - (size as int % a)) % a)
}

impl HeapSource {
    /// The address the next allocation would get.
    pub closed spec fn spec_next(&self) -> u64 {
        self.next
    }

    /// How many bytes this source can still hand out.
    pub closed spec fn spec_remaining(&self) -> u64 {
        self.remaining
    }

    /// The next address keeps the fixed alignment and the budget fits in the
    /// address space.
    pub open spec fn wf(&self) -> bool {
        &&& self.spec_next() % HEAP_STACK_ALIGN == 0
        &&& self.spec_next() + self.spec_remaining() <= u64::MAX
    }

    /// A source placing allocations from `base` up, with `budget` bytes to
    /// give out.
    pub fn new(base: u64, budget: u64) -> (r: Self)
        requires
            base % HEAP_STACK_ALIGN == 0,
            base + budget <= u64::MAX,
        ensures
            r.wf(),
            r.spec_next() == base,
            r.spec_remaining() == budget,
    {
        HeapSource { next: base, remaining: budget }
    }

    /// Hands out a zero-filled allocation of `size` bytes at an aligned
    /// address, or reports exhaustion. A zero-size request is refused.
    pub fn allocate_zeroed(&mut self, size: usize) -> (r: Option<(u64, Vec<u8>)>)
        requires
            old(self).wf(),
        ensures
            final(self).wf(),
            r is Some <==> 0 < size && heap_charge(size) <= old(self).spec_remaining(),
            r is None ==> *final(self) == *old(self),
            r matches Some((addr, bytes)) ==> {
                &&& addr == old(self).spec_next()
                &&& addr % HEAP_STACK_ALIGN == 0
                &&& bytes@.len() == size
                &&& forall|i: int| 0 <= i < size ==> bytes@[i] == 0
                &&& final(self).spec_next() == old(self).spec_next() + heap_charge(size)
                &&& final(self).spec_remaining() == old(self).spec_remaining() - heap_charge(size)
            },
    {
        if size == 0 {
            return None;
        }
        let pad = (HEAP_STACK_ALIGN - (size as u64 % HEAP_STACK_ALIGN)) % HEAP_STACK_ALIGN;
        if self.remaining < (size as u64) || self.remaining - (size as u64) < pad {
            return None;
        }
        let addr = self.next;
        let charge = size as u64 + pad;
        self.next = self.next + charge;
        self.remaining = self.remaining - charge;
        let mut bytes: Vec<u8> = Vec::new();
        let mut i: usize = 0;
        while i < size
            invariant
                i <= size,
                bytes@.len() == i,
                forall|j: int| 0 <= j < i ==> bytes@[j] == 0,
            decreases size - i,
        {
            bytes.push(0);
            i = i + 1;
        }
        Some((addr, bytes))
    }
}

impl Stack {
    /// Allocates an ephemeral kernel-only stack from the heap source,
    /// bypassing page-table manipulation: one zero-filled allocation with the
    /// fixed minimum alignment. Exhaustion of the heap is surfaced to the
    /// caller, for whom it is fatal.
    pub fn new_kernel(heap: &mut HeapSource, stack_size: usize) -> (r: Option<Stack>)
        requires
            old(heap).wf(),
        ensures
            final(heap).wf(),
            r is Some <==> 0 < stack_size && heap_charge(stack_size) <= old(
                heap,
            ).spec_remaining(),
            r is None ==> *final(heap) == *old(heap),
            r matches Some(stack) ==> {
                &&& stack.wf()
                &&& stack.is_heap_backed()
                &&& stack.spec_start() == old(heap).spec_next()
                &&& stack.spec_start() % HEAP_STACK_ALIGN == 0
                &&& stack.spec_size() == stack_size
                &&& forall|i: int| 0 <= i < stack_size ==> stack.heap_bytes()[i] == 0
            },
    {
        match heap.allocate_zeroed(stack_size) {
            Some((addr, bytes)) => Some(
                Stack { stack_start: addr, stack_size, backing: StackBacking::Heap(bytes) },
            ),
            None => None,
        }
    }
}

/// A reverse bump-writer over an already-built stack region: a single
/// position, measured as an address that only ever moves toward the region's
/// base. It allocates nothing and frees nothing; the caller pairs it with
/// the right region and stops before exhausting it.
pub struct StackHelper {
    top: u64,
}

impl StackHelper {
    /// The current write position.
    pub closed spec fn spec_top(&self) -> u64 {
        self.top
    }

    /// A writer positioned at `top`, normally a region's initial
    /// stack-pointer address.
    pub fn new(top: u64) -> (r: StackHelper)
        ensures
            r.spec_top() == top,
    {
        StackHelper { top }
    }

    /// The current write position.
    pub fn top(&self) -> (r: u64)
        ensures
            r == self.spec_top(),
    {
        self.top
    }

    /// Moves the position `by` bytes toward the base. The caller guarantees
    /// the move stays inside the region; nothing here checks it against any
    /// particular stack.
    pub fn skip_by(&mut self, by: u64)
        requires
            by <= old(self).spec_top(),
        ensures
            final(self).spec_top() == old(self).spec_top() - by,
    {
        self.top = self.top - by;
    }

    /// Claims room for one value of type `T` below the current position and
    /// yields the address of the claimed slot, which is the new position.
    /// The caller is responsible for the slot lying inside the region and
    /// for `T` being a plain data shape it may deposit there.
    pub fn offset<T>(&mut self) -> (r: u64)
        requires
            vstd::layout::size_of::<T>() <= old(self).spec_top(),
        ensures
            final(self).spec_top() == old(self).spec_top() - vstd::layout::size_of::<T>(),
            r == final(self).spec_top(),
    {
        let sz = core::mem::size_of::<T>() as u64;
        self.skip_by(sz);
        self.top
    }
}

/// Flags every page of a pinned stack carries, on top of the caller's
/// extras.
pub open spec fn effective_flags(flags: u64) -> u64 {
    PTE_PRESENT | PTE_NO_EXECUTE | PTE_WRITABLE | flags
}

/// A pinned stack request must be for a positive whole number of pages.
pub open spec fn size_supported(stack_size: usize) -> bool {
    stack_size > 0 && (stack_size as u64) % PAGE_SIZE == 0
}

/// Lowest byte of the requested pinned region: the requested address is the
/// region's top byte where the stack grows downward, and its bottom byte
/// where it grows upward.
pub open spec fn pinned_low(stack_address: u64, stack_size: usize) -> u64 {
    if STACK_GROWS_DOWNWARD {
        (stack_address - (stack_size - 1)) as u64
    } else {
        stack_address
    }
}

/// Highest byte of the requested pinned region.
pub open spec fn pinned_high(stack_address: u64, stack_size: usize) -> u64 {
    if STACK_GROWS_DOWNWARD {
        stack_address
    } else {
        (stack_address + (stack_size - 1)) as u64
    }
}

/// The machine limits under which the requested byte range exists at all.
pub open spec fn pinned_range_fits(stack_address: u64, stack_size: usize) -> bool {
    if STACK_GROWS_DOWNWARD {
        stack_size - 1 <= stack_address < u64::MAX
    } else {
        stack_address + stack_size <= u64::MAX
    }
}

/// `p` is one of the pages covering the requested region.
pub open spec fn covers(stack_address: u64, stack_size: usize, p: u64) -> bool {
    p % PAGE_SIZE == 0 && spec_page_of(pinned_low(stack_address, stack_size)) <= p <= spec_page_of(
        pinned_high(stack_address, stack_size),
    )
}

/// Position of page `p` in the ascending order in which the builder maps the
/// covered pages.
pub open spec fn page_index(stack_address: u64, stack_size: usize, p: u64) -> int {
    (p - spec_page_of(pinned_low(stack_address, stack_size))) / (PAGE_SIZE as int)
}

/// How many pages cover the requested region.
pub open spec fn pages_needed(stack_address: u64, stack_size: usize) -> int {
    page_index(stack_address, stack_size, spec_page_of(pinned_high(stack_address, stack_size))) + 1
}

/// Building stops at page `p`: either the frame source runs out just before
/// `p` is bound, or `p` already has a translation.
pub open spec fn build_fails_at(
    space: Map<u64, PageView>,
    budget: u64,
    stack_address: u64,
    stack_size: usize,
    p: u64,
) -> bool {
    page_index(stack_address, stack_size, p) >= budget || space.contains_key(p)
}

/// `p` is the first page, in mapping order, at which building stops.
pub open spec fn first_failure(
    space: Map<u64, PageView>,
    budget: u64,
    stack_address: u64,
    stack_size: usize,
    p: u64,
) -> bool {
    &&& covers(stack_address, stack_size, p)
    &&& build_fails_at(space, budget, stack_address, stack_size, p)
    &&& forall|q: u64| #![trigger covers(stack_address, stack_size, q)]
        covers(stack_address, stack_size, q) && q < p ==> !build_fails_at(
            space,
            budget,
            stack_address,
            stack_size,
            q,
        )
}

/// Page `p` carries exactly the mapping the pinned builder installs: bound,
/// flushed, to the frame the source handed out for `p`'s position.
pub open spec fn mapped_for_stack(
    space: Map<u64, PageView>,
    first_frame: u64,
    stack_address: u64,
    stack_size: usize,
    flags: u64,
    p: u64,
) -> bool {
    &&& space.contains_key(p)
    &&& space[p].frame == first_frame + page_index(stack_address, stack_size, p) * PAGE_SIZE
    &&& space[p].flags == effective_flags(flags)
    &&& !space[p].stale
}

/// Everything `Stack::new_pinned` promises about the address space, the
/// frame source and its result, over the values they had when it was called
/// (`ot0`, `next0`, `rem0`) and the values it leaves behind.
pub open spec fn pinned_build_post(
    ot0: Map<u64, PageView>,
    ot1: Map<u64, PageView>,
    next0: u64,
    rem0: u64,
    next1: u64,
    rem1: u64,
    stack_address: u64,
    stack_size: usize,
    flags: u64,
    r: Result<Stack, StackError>,
) -> bool {
    &&& !size_supported(stack_size) ==> {
        &&& r == Result::<Stack, StackError>::Err(StackError::SizeNotSupported)
        &&& ot1 == ot0
        &&& next1 == next0 && rem1 == rem0
    }
    &&& size_supported(stack_size) ==> {
        // Success exactly when the frames suffice and no covered page is
        // already translated.
        &&& (r is Ok <==> pages_needed(stack_address, stack_size) <= rem0 && (forall|p: u64|
            #![trigger covers(stack_address, stack_size, p)]
            covers(stack_address, stack_size, p) ==> !ot0.contains_key(p)))
        &&& (r matches Ok(stack) ==> {
            &&& stack.wf()
            &&& !stack.is_heap_backed()
            &&& stack.spec_start() == pinned_low(stack_address, stack_size)
            &&& stack.spec_size() == stack_size
            // Every covered page is mapped as requested, to pairwise
            // distinct frames by construction of the frame addresses.
            &&& forall|p: u64| #![trigger covers(stack_address, stack_size, p)]
                covers(stack_address, stack_size, p) ==> mapped_for_stack(
                    ot1,
                    next0,
                    stack_address,
                    stack_size,
                    flags,
                    p,
                )
            // The whole byte range is translated and reads zero.
            &&& forall|a: u64| #![trigger spec_byte_at(ot1, a)]
                pinned_low(stack_address, stack_size) <= a <= pinned_high(
                    stack_address,
                    stack_size,
                ) ==> spec_mapped_at(ot1, a) && spec_byte_at(ot1, a) == 0
            // No other page gained or lost anything.
            &&& (forall|p: u64| #![trigger ot1.contains_key(p)]
                ot1.contains_key(p) <==> ot0.contains_key(p) || covers(
                    stack_address,
                    stack_size,
                    p,
                ))
            &&& forall|p: u64| #![trigger ot0.contains_key(p)]
                ot0.contains_key(p) ==> ot1[p] == ot0[p]
            &&& rem1 == rem0 - pages_needed(stack_address, stack_size)
            &&& next1 == next0 + pages_needed(stack_address, stack_size) * PAGE_SIZE
        })
        &&& (r matches Err(e) ==> e != StackError::SizeNotSupported && forall|fp: u64|
            #![trigger first_failure(ot0, rem0, stack_address, stack_size, fp)]
            first_failure(ot0, rem0, stack_address, stack_size, fp) ==> {
                &&& e == (if page_index(stack_address, stack_size, fp) >= rem0 {
                    StackError::FrameAllocationFailed
                } else {
                    StackError::PageAlreadyMapped
                })
                // Pages bound before the failure stay bound: nothing is
                // rolled back, and the caller must not retry at the same
                // address without tearing the partial region down.
                &&& forall|p: u64| #![trigger covers(stack_address, stack_size, p)]
                    covers(stack_address, stack_size, p) && p < fp ==> mapped_for_stack(
                        ot1,
                        next0,
                        stack_address,
                        stack_size,
                        flags,
                        p,
                    )
                &&& (forall|p: u64| #![trigger ot1.contains_key(p)]
                    ot1.contains_key(p) <==> ot0.contains_key(p) || (covers(
                        stack_address,
                        stack_size,
                        p,
                    ) && p < fp))
                &&& forall|p: u64| #![trigger ot0.contains_key(p)]
                    ot0.contains_key(p) ==> ot1[p] == ot0[p]
                &&& (e == StackError::FrameAllocationFailed ==> rem1 == 0 && next1 == next0
                    + rem0 * PAGE_SIZE)
                &&& (e == StackError::PageAlreadyMapped ==> rem1 == rem0 - page_index(
                    stack_address,
                    stack_size,
                    fp,
                ) - 1 && next1 == next0 + (page_index(stack_address, stack_size, fp) + 1)
                    * PAGE_SIZE)
            })
    }
}

/// A page that is a whole number of pages above an aligned base is aligned,
/// and sits at that index.
proof fn lemma_page_at_index(sp: u64, i: int, p: u64)
    requires
        sp % PAGE_SIZE == 0,
        0 <= i,
        p == sp + i * PAGE_SIZE,
    ensures
        p % PAGE_SIZE == 0,
        (p - sp) / (PAGE_SIZE as int) == i,
{
    let d = PAGE_SIZE as int;
    vstd::arithmetic::div_mod::lemma_fundamental_div_mod(sp as int, d);
    vstd::arithmetic::div_mod::lemma_fundamental_div_mod_converse(
        p as int,
        d,
        sp as int / d + i,
        0,
    );
    vstd::arithmetic::div_mod::lemma_fundamental_div_mod_converse(p - sp, d, i, 0);
}

/// Every covered page is the base page plus a whole number of pages, and its
/// index lies below the page count.
proof fn lemma_covered_page_shape(stack_address: u64, stack_size: usize, q: u64)
    requires
        covers(stack_address, stack_size, q),
    ensures
        q == spec_page_of(pinned_low(stack_address, stack_size)) + page_index(
            stack_address,
            stack_size,
            q,
        ) * PAGE_SIZE,
        0 <= page_index(stack_address, stack_size, q) < pages_needed(stack_address, stack_size),
{
    let d = PAGE_SIZE as int;
    let sp = spec_page_of(pinned_low(stack_address, stack_size));
    let ep = spec_page_of(pinned_high(stack_address, stack_size));
    lemma_page_of_properties(pinned_low(stack_address, stack_size));
    lemma_page_of_properties(pinned_high(stack_address, stack_size));
    vstd::arithmetic::div_mod::lemma_sub_mod_noop(q as int, sp as int, d);
    vstd::arithmetic::div_mod::lemma_fundamental_div_mod(q - sp, d);
    vstd::arithmetic::div_mod::lemma_div_pos_is_pos(q - sp, d);
    vstd::arithmetic::div_mod::lemma_div_is_ordered(q - sp, ep - sp, d);
    vstd::arithmetic::div_mod::lemma_sub_mod_noop(ep as int, sp as int, d);
    vstd::arithmetic::div_mod::lemma_fundamental_div_mod(ep - sp, d);
}

/// Covered pages are ordered exactly as their indices are.
proof fn lemma_covered_page_order(stack_address: u64, stack_size: usize, q1: u64, q2: u64)
    requires
        covers(stack_address, stack_size, q1),
        covers(stack_address, stack_size, q2),
    ensures
        q1 < q2 <==> page_index(stack_address, stack_size, q1) < page_index(
            stack_address,
            stack_size,
            q2,
        ),
        q1 == q2 <==> page_index(stack_address, stack_size, q1) == page_index(
            stack_address,
            stack_size,
            q2,
        ),
{
    lemma_covered_page_shape(stack_address, stack_size, q1);
    lemma_covered_page_shape(stack_address, stack_size, q2);
    let i1 = page_index(stack_address, stack_size, q1);
    let i2 = page_index(stack_address, stack_size, q2);
    let d = PAGE_SIZE as int;
    assert(i1 < i2 ==> i1 * d < i2 * d) by (nonlinear_arith)
        requires
            d > 0,
    ;
    assert(i2 < i1 ==> i2 * d < i1 * d) by (nonlinear_arith)
        requires
            d > 0,
    ;
}

/// On a downward-growing architecture the top of a region is its start plus
/// its size; on an upward-growing one it is the start itself.
pub proof fn lemma_top_growth_direction(stack: Stack)
    requires
        stack.wf(),
    ensures
        STACK_GROWS_DOWNWARD ==> stack.spec_top() == stack.spec_start() + stack.spec_size(),
        !STACK_GROWS_DOWNWARD ==> stack.spec_top() == stack.spec_start(),
{
}

impl Stack {
    /// Allocates a new stack at the provided stack address and the provided
    /// stack size, binding every covered page, in ascending order, to a
    /// freshly acquired physical frame and flushing each translation before
    /// the next page is touched, then zero-filling the whole byte range in
    /// one pass. A request whose size is zero or not page-aligned is
    /// rejected. On failure partway through, pages already bound stay bound:
    /// the caller must tear the partial region down before retrying.
    #[verifier::loop_isolation(false)]
    #[verifier::rlimit(60)]
    pub fn new_pinned(
        offset_table: &mut AddressSpace,
        frames: &mut FrameSource,
        stack_address: u64,
        stack_size: usize,
        flags: u64,
    ) -> (r: Result<Stack, StackError>)
        requires
            old(offset_table).wf(),
            old(frames).wf(),
            size_supported(stack_size) ==> pinned_range_fits(stack_address, stack_size),
        ensures
            final(offset_table).wf(),
            final(frames).wf(),
            pinned_build_post(
                old(offset_table)@,
                final(offset_table)@,
                old(frames).spec_next(),
                old(frames).spec_remaining(),
                final(frames).spec_next(),
                final(frames).spec_remaining(),
                stack_address,
                stack_size,
                flags,
                r,
            ),
    {
        if stack_size == 0 || (stack_size as u64) % PAGE_SIZE != 0 {
            return Err(StackError::SizeNotSupported);
        }
        let size64 = stack_size as u64;
        let (start_addr, end_addr) = if STACK_GROWS_DOWNWARD {
            (stack_address - (size64 - 1), stack_address)
        } else {
            (stack_address, stack_address + (size64 - 1))
        };
        let start_page = page_of(start_addr);
        let end_page = page_of(end_addr);
        proof {
            assert(start_addr == pinned_low(stack_address, stack_size));
            assert(end_addr == pinned_high(stack_address, stack_size));
            assert(end_addr == start_addr + size64 - 1);
            lemma_page_of_properties(start_addr);
            lemma_page_of_properties(end_addr);
            lemma_page_of_monotone(start_addr, end_addr);
            vstd::arithmetic::div_mod::lemma_sub_mod_noop(
                end_page as int,
                start_page as int,
                PAGE_SIZE as int,
            );
            vstd::arithmetic::div_mod::lemma_fundamental_div_mod(
                end_page - start_page,
                PAGE_SIZE as int,
            );
            vstd::arithmetic::div_mod::lemma_div_pos_is_pos(
                end_page - start_page,
                PAGE_SIZE as int,
            );
        }
        let n: u64 = (end_page - start_page) / PAGE_SIZE + 1;
        proof {
            assert(n == pages_needed(stack_address, stack_size));
        }
        let ghost ot0 = offset_table@;
        let ghost rem0 = frames.spec_remaining();
        let ghost next0 = frames.spec_next();
        let eff = PTE_PRESENT | PTE_NO_EXECUTE | PTE_WRITABLE | flags;
        let mut i: u64 = 0;
        while i < n
            invariant
                offset_table.wf(),
                frames.wf(),
                i <= n,
                frames.spec_remaining() == rem0 - i,
                frames.spec_next() == next0 + i * PAGE_SIZE,
                forall|q: u64| #![trigger covers(stack_address, stack_size, q)]
                    covers(stack_address, stack_size, q) && page_index(
                        stack_address,
                        stack_size,
                        q,
                    ) < i ==> !build_fails_at(ot0, rem0, stack_address, stack_size, q)
                        && mapped_for_stack(
                        offset_table@,
                        next0,
                        stack_address,
                        stack_size,
                        flags,
                        q,
                    ),
                forall|p: u64| #![trigger offset_table@.contains_key(p)]
                    offset_table@.contains_key(p) <==> ot0.contains_key(p) || (covers(
                        stack_address,
                        stack_size,
                        p,
                    ) && page_index(stack_address, stack_size, p) < i),
                forall|p: u64| #![trigger ot0.contains_key(p)]
                    ot0.contains_key(p) ==> offset_table@[p] == ot0[p],
            decreases n - i,
        {
            proof {
                assert(i * PAGE_SIZE + PAGE_SIZE <= (n - 1) * PAGE_SIZE + PAGE_SIZE)
                    by (nonlinear_arith)
                    requires
                        i <= n - 1,
                ;
                assert((n - 1) * PAGE_SIZE == end_page - start_page);
            }
            let page = start_page + i * PAGE_SIZE;
            proof {
                lemma_page_at_index(start_page, i as int, page);
                assert(covers(stack_address, stack_size, page));
                assert(page_index(stack_address, stack_size, page) == i);
            }
            let frame = match frames.allocate_frame() {
                Some(f) => f,
                None => {
                    proof {
                        assert(build_fails_at(ot0, rem0, stack_address, stack_size, page));
                        assert(first_failure(ot0, rem0, stack_address, stack_size, page)) by {
                            assert forall|q: u64|
                                covers(stack_address, stack_size, q) && q < page implies
                                !build_fails_at(ot0, rem0, stack_address, stack_size, q) by {
                                lemma_covered_page_order(stack_address, stack_size, q, page);
                            }
                        }
                        assert forall|fp: u64|
                            first_failure(
                                ot0,
                                rem0,
                                stack_address,
                                stack_size,
                                fp,
                            ) implies fp == page by {
                            lemma_covered_page_order(stack_address, stack_size, fp, page);
                            if fp < page {
                                assert(!build_fails_at(ot0, rem0, stack_address, stack_size, fp));
                            }
                            if page < fp {
                                assert(!build_fails_at(ot0, rem0, stack_address, stack_size, page));
                            }
                        }
                        assert(pages_needed(stack_address, stack_size) > rem0) by {
                            lemma_covered_page_shape(stack_address, stack_size, page);
                        }
                    }
                    return Err(StackError::FrameAllocationFailed);
                },
            };
            let tok = match offset_table.map_to(page, frame, eff) {
                Ok(t) => t,
                Err(_) => {
                    proof {
                        assert(ot0.contains_key(page));
                        assert(build_fails_at(ot0, rem0, stack_address, stack_size, page));
                        assert(first_failure(ot0, rem0, stack_address, stack_size, page)) by {
                            assert forall|q: u64|
                                covers(stack_address, stack_size, q) && q < page implies
                                !build_fails_at(ot0, rem0, stack_address, stack_size, q) by {
                                lemma_covered_page_order(stack_address, stack_size, q, page);
                            }
                        }
                        assert forall|fp: u64|
                            first_failure(
                                ot0,
                                rem0,
                                stack_address,
                                stack_size,
                                fp,
                            ) implies fp == page by {
                            lemma_covered_page_order(stack_address, stack_size, fp, page);
                            if fp < page {
                                assert(!build_fails_at(ot0, rem0, stack_address, stack_size, fp));
                            }
                            if page < fp {
                                assert(!build_fails_at(ot0, rem0, stack_address, stack_size, page));
                            }
                        }
                        assert(page_index(stack_address, stack_size, page) < rem0);
                        assert forall|q: u64|
                            covers(stack_address, stack_size, q) && q < page implies
                            mapped_for_stack(
                                offset_table@,
                                next0,
                                stack_address,
                                stack_size,
                                flags,
                                q,
                            ) by {
                            lemma_covered_page_order(stack_address, stack_size, q, page);
                        }
                        assert forall|p: u64| #![trigger offset_table@.contains_key(p)]
                            offset_table@.contains_key(p) <==> ot0.contains_key(p) || (covers(
                                stack_address,
                                stack_size,
                                p,
                            ) && p < page) by {
                            if covers(stack_address, stack_size, p) {
                                lemma_covered_page_order(stack_address, stack_size, p, page);
                            }
                        }
                    }
                    return Err(StackError::PageAlreadyMapped);
                },
            };
            tok.flush(offset_table);
            proof {
                assert(!ot0.contains_key(page));
                assert(!build_fails_at(ot0, rem0, stack_address, stack_size, page));
                assert(mapped_for_stack(
                    offset_table@,
                    next0,
                    stack_address,
                    stack_size,
                    flags,
                    page,
                ));
                assert forall|q: u64|
                    covers(stack_address, stack_size, q) && page_index(
                        stack_address,
                        stack_size,
                        q,
                    ) < i + 1 implies !build_fails_at(ot0, rem0, stack_address, stack_size, q)
                    && mapped_for_stack(
                    offset_table@,
                    next0,
                    stack_address,
                    stack_size,
                    flags,
                    q,
                ) by {
                    lemma_covered_page_order(stack_address, stack_size, q, page);
                }
                assert forall|p: u64| #![trigger offset_table@.contains_key(p)]
                    offset_table@.contains_key(p) <==> ot0.contains_key(p) || (covers(
                        stack_address,
                        stack_size,
                        p,
                    ) && page_index(stack_address, stack_size, p) < i + 1) by {
                    if covers(stack_address, stack_size, p) {
                        lemma_covered_page_order(stack_address, stack_size, p, page);
                    }
                }
            }
            i = i + 1;
        }
        proof {
            assert forall|q: u64|
                covers(stack_address, stack_size, q) implies !build_fails_at(
                ot0,
                rem0,
                stack_address,
                stack_size,
                q,
            ) && mapped_for_stack(offset_table@, next0, stack_address, stack_size, flags, q) by {
                lemma_covered_page_shape(stack_address, stack_size, q);
            }
            assert(pages_needed(stack_address, stack_size) <= rem0) by {
                lemma_covered_page_shape(stack_address, stack_size, end_page);
                assert(covers(stack_address, stack_size, end_page));
            }
            assert(range_writable(offset_table@, start_addr, size64)) by {
                assert forall|a: u64| start_addr <= a < start_addr + size64 implies spec_mapped_at(
                    offset_table@,
                    a,
                ) && offset_table@[spec_page_of(a)].flags & PTE_WRITABLE != 0 by {
                    lemma_page_of_properties(a);
                    lemma_page_of_monotone(start_addr, a);
                    lemma_page_of_monotone(a, end_addr);
                    assert(covers(stack_address, stack_size, spec_page_of(a)));
                    let f = flags;
                    assert((PTE_PRESENT | PTE_NO_EXECUTE | PTE_WRITABLE | f) & PTE_WRITABLE
                        != 0) by (bit_vector);
                }
            }
        }
        let ghost pre_zero = offset_table@;
        offset_table.zero_range(start_addr, size64);
        proof {
            assert forall|q: u64| covers(stack_address, stack_size, q) implies mapped_for_stack(
                offset_table@,
                next0,
                stack_address,
                stack_size,
                flags,
                q,
            ) by {
                assert(pre_zero.contains_key(q));
                assert(offset_table@[q].frame == pre_zero[q].frame);
            }
            assert forall|a: u64|
                pinned_low(stack_address, stack_size) <= a <= pinned_high(
                    stack_address,
                    stack_size,
                ) implies spec_mapped_at(offset_table@, a) && spec_byte_at(offset_table@, a)
                == 0 by {
                lemma_page_of_properties(a);
                lemma_page_of_monotone(start_addr, a);
                lemma_page_of_monotone(a, end_addr);
                assert(covers(stack_address, stack_size, spec_page_of(a)));
                assert(pre_zero.contains_key(spec_page_of(a)));
            }
            assert forall|p: u64| #![trigger offset_table@.contains_key(p)]
                offset_table@.contains_key(p) <==> ot0.contains_key(p) || covers(
                    stack_address,
                    stack_size,
                    p,
                ) by {
                if covers(stack_address, stack_size, p) {
                    lemma_covered_page_shape(stack_address, stack_size, p);
                }
                assert(pre_zero.contains_key(p) == offset_table@.contains_key(p));
            }
            assert forall|p: u64| #![trigger ot0.contains_key(p)]
                ot0.contains_key(p) implies offset_table@[p] == ot0[p] by {
                assert(!covers(stack_address, stack_size, p));
                assert(pre_zero[p] == ot0[p]);
                assert(offset_table@[p].frame == pre_zero[p].frame && offset_table@[p].flags
                    == pre_zero[p].flags && offset_table@[p].stale == pre_zero[p].stale);
                assert forall|j: int| 0 <= j < PAGE_SIZE implies offset_table@[p].bytes[j]
                    == pre_zero[p].bytes[j] by {
                    lemma_page_offset(p, j);
                    let b = (p + j) as u64;
                    if start_addr <= b < start_addr + size64 {
                        lemma_page_of_monotone(start_addr, b);
                        lemma_page_of_monotone(b, end_addr);
                        assert(covers(stack_address, stack_size, p));
                        assert(false);
                    }
                }
                assert(offset_table@[p].bytes =~= pre_zero[p].bytes);
            }
        }
        Ok(Stack { stack_start: start_addr, stack_size, backing: StackBacking::Pinned })
    }

    /// Allocates a user stack at the provided stack address and the provided
    /// stack size: a pinned stack whose pages additionally carry the
    /// user-accessible flag.
    pub fn new_user_pinned(
        offset_table: &mut AddressSpace,
        frames: &mut FrameSource,
        stack_address: u64,
        stack_size: usize,
    ) -> (r: Result<Stack, StackError>)
        requires
            old(offset_table).wf(),
            old(frames).wf(),
            size_supported(stack_size) ==> pinned_range_fits(stack_address, stack_size),
        ensures
            final(offset_table).wf(),
            final(frames).wf(),
            pinned_build_post(
                old(offset_table)@,
                final(offset_table)@,
                old(frames).spec_next(),
                old(frames).spec_remaining(),
                final(frames).spec_next(),
                final(frames).spec_remaining(),
                stack_address,
                stack_size,
                PTE_USER_ACCESSIBLE,
                r,
            ),
    {
        Self::new_pinned(offset_table, frames, stack_address, stack_size, PTE_USER_ACCESSIBLE)
    }
}

/// Reservations never escape the region: taking `k` slots of eight bytes
/// each from the top stays between the region's start and its top whenever
/// the slots consume no more than the region's size.
pub proof fn lemma_reservations_stay_in_bounds(stack: Stack, k: nat)
    requires
        stack.wf(),
        8 * k <= stack.spec_size(),
    ensures
        stack.spec_start() <= stack.spec_top() - 8 * k <= stack.spec_top(),
{
}

/// No two pages of one pinned build share a backing frame: distinct covered
/// pages carrying the builder's mappings are backed by distinct frames.
pub proof fn lemma_pinned_frames_distinct(
    space: Map<u64, PageView>,
    first_frame: u64,
    stack_address: u64,
    stack_size: usize,
    flags: u64,
    p1: u64,
    p2: u64,
)
    requires
        covers(stack_address, stack_size, p1),
        covers(stack_address, stack_size, p2),
        p1 != p2,
        mapped_for_stack(space, first_frame, stack_address, stack_size, flags, p1),
        mapped_for_stack(space, first_frame, stack_address, stack_size, flags, p2),
    ensures
        space[p1].frame != space[p2].frame,
{
    lemma_covered_page_order(stack_address, stack_size, p1, p2);
    let d = PAGE_SIZE as int;
    let i1 = page_index(stack_address, stack_size, p1);
    let i2 = page_index(stack_address, stack_size, p2);
    assert(i1 != i2);
    assert(i1 * d != i2 * d) by (nonlinear_arith)
        requires
            i1 != i2,
            d > 0,
    ;
}

/// A value deposited little-endian into four bytes is the value read back
/// from those four bytes.
pub proof fn lemma_u32_roundtrip(bytes: Seq<u8>, off: int, v: u32)
    requires
        0 <= off,
        off + 4 <= bytes.len(),
        bytes.subrange(off, off + 4) == vstd::bytes::spec_u32_to_le_bytes(v),
    ensures
        vstd::bytes::spec_u32_from_le_bytes(bytes.subrange(off, off + 4)) == v,
{
    vstd::bytes::lemma_auto_spec_u32_to_from_le_bytes();
    assert(vstd::bytes::spec_u32_to_le_bytes(v).len() == 4);
    assert(vstd::bytes::spec_u32_from_le_bytes(vstd::bytes::spec_u32_to_le_bytes(v)) == v);
}

} // verus!
