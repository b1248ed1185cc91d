//! Virtual-memory model: physical frame source, page-table flags and the
//! address-space mapper that binds virtual pages to physical frames.

use std::collections::HashMap;
use vstd::prelude::*;

verus! {

broadcast use vstd::std_specs::hash::group_hash_axioms;

/// Size in bytes of one page of virtual address space, and of one physical
/// frame.
pub const PAGE_SIZE: u64 = 4096;

/// Page-table entry flag: the page is present.
pub const PTE_PRESENT: u64 = 1;

/// Page-table entry flag: the page is writable.
pub const PTE_WRITABLE: u64 = 2;

/// Page-table entry flag: user-mode code may access the page.
pub const PTE_USER_ACCESSIBLE: u64 = 4;

/// Page-table entry flag: the page may not be executed.
pub const PTE_NO_EXECUTE: u64 = 1u64 << 63;

/// The page containing the byte at address `a`: `a` rounded down to a
/// multiple of the page size.
pub open spec fn spec_page_of(a: u64) -> u64 {
    (a - (a % PAGE_SIZE)) as u64
}

/// Rounds an address down to the base of its page.
pub fn page_of(a: u64) -> (r: u64)
    ensures
        r == spec_page_of(a),
{
    proof {
        lemma_page_of_properties(a);
    }
    a - (a % PAGE_SIZE)
}

/// Supplies single physical frames on demand; allocation fails once the
/// configured budget is exhausted. Frames are handed out at consecutive
/// page-aligned addresses, so every frame it ever returns is distinct.
pub struct FrameSource {
    next: u64,
    remaining: u64,
}

impl FrameSource {
    /// The base address of the next frame this source would hand out.
    pub closed spec fn spec_next(&self) -> u64 {
        self.next
    }

    /// How many more frames this source can still hand out.
    pub closed spec fn spec_remaining(&self) -> u64 {
        self.remaining
    }

    /// The source can satisfy `remaining` more allocations without the frame
    /// addresses leaving the address space.
    pub open spec fn wf(&self) -> bool {
        &&& self.spec_next() % PAGE_SIZE == 0
        &&& self.spec_next() + self.spec_remaining() * PAGE_SIZE <= u64::MAX
    }

    /// A source whose first frame starts at `first` and which can satisfy
    /// `budget` allocations before reporting exhaustion.
    pub fn new(first: u64, budget: u64) -> (r: Self)
        requires
            first % PAGE_SIZE == 0,
            first + budget * PAGE_SIZE <= u64::MAX,
        ensures
            r.wf(),
            r.spec_next() == first,
            r.spec_remaining() == budget,
    {
        FrameSource { next: first, remaining: budget }
    }

    /// Hands out one frame, or reports exhaustion. On success the returned
    /// address is the base of a page-aligned frame never handed out before.
    pub fn allocate_frame(&mut self) -> (r: Option<u64>)
        requires
            old(self).wf(),
        ensures
            final(self).wf(),
            old(self).spec_remaining() == 0 ==> {
                &&& r is None
                &&& *final(self) == *old(self)
            },
            old(self).spec_remaining() > 0 ==> {
                &&& r == Some(old(self).spec_next())
                &&& final(self).spec_next() == old(self).spec_next() + PAGE_SIZE
                &&& final(self).spec_remaining() == old(self).spec_remaining() - 1
            },
    {
        if self.remaining == 0 {
            None
        } else {
            let frame = self.next;
            let ghost n0 = self.next;
            let ghost r0 = self.remaining;
            proof {
                assert(n0 + PAGE_SIZE + (r0 - 1) * PAGE_SIZE <= u64::MAX) by (nonlinear_arith)
                    requires
                        n0 + r0 * PAGE_SIZE <= u64::MAX,
                        r0 >= 1;
            }
            self.next = self.next + PAGE_SIZE;
            self.remaining = self.remaining - 1;
            Some(frame)
        }
    }
}

/// What one page-table entry records, as seen in specifications: the backing
/// frame, the access flags, whether a stale translation may still be cached,
/// and the contents of the backing frame.
pub ghost struct PageView {
    pub frame: u64,
    pub flags: u64,
    pub stale: bool,
    pub bytes: Seq<u8>,
}

/// One page-table entry together with the contents of its backing frame.
pub(crate) struct PageMapping {
    pub(crate) frame: u64,
    pub(crate) flags: u64,
    pub(crate) stale: bool,
    pub(crate) bytes: Vec<u8>,
}

impl PageMapping {
    pub(crate) open spec fn view(&self) -> PageView {
        PageView { frame: self.frame, flags: self.flags, stale: self.stale, bytes: self.bytes@ }
    }
}

/// Failure reported by the address-space mapper.
#[derive(Clone, Copy, Debug, PartialEq, Eq, Structural)]
pub enum MapError {
    /// The target page already has a translation.
    PageAlreadyMapped,
}

/// A pending translation invalidation: the proof that a freshly written
/// mapping has not yet been made visible. It must be flushed before the
/// mapping counts as established.
#[must_use]
pub struct TlbFlush {
    page: u64,
}

impl TlbFlush {
    /// The page whose translation this token invalidates.
    pub closed spec fn spec_page(&self) -> u64 {
        self.page
    }

    /// Invalidates any cached translation for the page, so later accesses
    /// observe the newly written mapping.
    pub fn flush(self, space: &mut AddressSpace)
        requires
            old(space).wf(),
            old(space)@.contains_key(self.spec_page()),
        ensures
            final(space).wf(),
            final(space)@ =~= old(space)@.insert(
                self.spec_page(),
                PageView { stale: false, ..old(space)@[self.spec_page()] },
            ),
    {
        space.clear_stale(self.page);
    }
}

/// The set of pages an address space translates, each bound to a physical
/// frame under a flag set. The contents of each mapped frame are part of the
/// model, so zero-filling and stack writes can be reasoned about end to end.
pub struct AddressSpace {
    table: HashMap<u64, PageMapping>,
}

impl View for AddressSpace {
    type V = Map<u64, PageView>;

    closed spec fn view(&self) -> Map<u64, PageView> {
        Map::new(
            |p: u64| self.table@.contains_key(p),
            |p: u64| self.table@[p]@,
        )
    }
}

/// The page containing the byte at address `a` is mapped.
pub open spec fn spec_mapped_at(s: Map<u64, PageView>, a: u64) -> bool {
    s.contains_key(spec_page_of(a))
}

/// The byte visible at virtual address `a`.
pub open spec fn spec_byte_at(s: Map<u64, PageView>, a: u64) -> u8 {
    s[spec_page_of(a)].bytes[(a % PAGE_SIZE) as int]
}

/// Both maps translate the same pages, with the same frames, flags and
/// staleness; only frame contents may differ.
pub open spec fn same_translation(a: Map<u64, PageView>, b: Map<u64, PageView>) -> bool {
    &&& a.dom() =~= b.dom()
    &&& forall|p: u64| a.contains_key(p) ==> {
        &&& (#[trigger] b[p]).frame == a[p].frame
        &&& b[p].flags == a[p].flags
        &&& b[p].stale == a[p].stale
        &&& b[p].bytes.len() == a[p].bytes.len()
    }
}

/// Every mapped byte outside `[start, start + len)` reads the same in `b`
/// as in `a`.
pub open spec fn bytes_unchanged_outside(
    a: Map<u64, PageView>,
    b: Map<u64, PageView>,
    start: u64,
    len: u64,
) -> bool {
    forall|p: u64, i: int|
        a.contains_key(p) && 0 <= i < PAGE_SIZE && !(start <= p + i < start + len)
            ==> (#[trigger] b[p].bytes[i]) == a[p].bytes[i]
}

impl AddressSpace {
    /// The view mirrors the underlying table entry by entry.
    proof fn lemma_view(&self)
        ensures
            forall|p: u64| self@.contains_key(p) <==> self.table@.contains_key(p),
            forall|p: u64| self.table@.contains_key(p)
                ==> (#[trigger] self@[p]) == self.table@[p]@,
    {
    }

    /// Every translated page is page-aligned and backed by one whole frame.
    pub open spec fn wf(&self) -> bool {
        forall|p: u64| #![trigger self@.contains_key(p)] #![trigger self@[p]]
            self@.contains_key(p) ==> p % PAGE_SIZE == 0 && self@[p].bytes.len() == PAGE_SIZE
    }

    /// An address space with no translations.
    pub fn new() -> (r: Self)
        ensures
            r.wf(),
            r@ =~= Map::<u64, PageView>::empty(),
    {
        AddressSpace { table: HashMap::new() }
    }

    fn clear_stale(&mut self, page: u64)
        requires
            old(self).wf(),
            old(self)@.contains_key(page),
        ensures
            final(self).wf(),
            final(self)@ =~= old(self)@.insert(
                page,
                PageView { stale: false, ..old(self)@[page] },
            ),
    {
        proof {
            old(self).lemma_view();
        }
        match self.table.remove(&page) {
            Some(entry) => {
                let updated = PageMapping { stale: false, ..entry };
                self.table.insert(page, updated);
                proof {
                    self.lemma_view();
                    assert(self@ =~= old(self)@.insert(
                        page,
                        PageView { stale: false, ..old(self)@[page] },
                    ));
                }
            },
            None => {
                proof {
                    assert(false);
                }
            },
        }
    }

    /// Binds `page` to `frame` under `flags`, as the page-table mapper does.
    /// The new translation starts out stale (a flush must follow), and the
    /// frame's previous contents are carried over unspecified: nothing is
    /// promised about the bytes until they are overwritten.
    pub fn map_to(&mut self, page: u64, frame: u64, flags: u64) -> (r: Result<TlbFlush, MapError>)
        requires
            old(self).wf(),
            page % PAGE_SIZE == 0,
        ensures
            final(self).wf(),
            r is Ok <==> !old(self)@.contains_key(page),
            r matches Ok(tok) ==> {
                &&& tok.spec_page() == page
                &&& final(self)@.dom() =~= old(self)@.dom().insert(page)
                &&& forall|p: u64| old(self)@.contains_key(p) && p != page
                    ==> final(self)@[p] == old(self)@[p]
                &&& final(self)@[page].frame == frame
                &&& final(self)@[page].flags == flags
                &&& final(self)@[page].stale == true
                &&& final(self)@[page].bytes.len() == PAGE_SIZE
            },
            r is Err ==> *final(self) == *old(self) && r == Result::<TlbFlush, MapError>::Err(
                MapError::PageAlreadyMapped,
            ),
    {
        proof {
            old(self).lemma_view();
        }
        if self.table.contains_key(&page) {
            return Err(MapError::PageAlreadyMapped);
        }
        let mut bytes: Vec<u8> = Vec::new();
        let mut i: usize = 0;
        while i < 4096
            invariant
                bytes@.len() == i,
                i <= 4096,
            decreases 4096 - i,
        {
            // The model stands in for physical memory: a frame handed to the
            // mapper still holds whatever was in it before, so the fill value
            // is deliberately left out of the contract.
            bytes.push(0xA5);
            i = i + 1;
        }
        let entry = PageMapping { frame, flags, stale: true, bytes };
        self.table.insert(page, entry);
        proof {
            self.lemma_view();
            assert(self@.dom() =~= old(self)@.dom().insert(page));
        }
        Ok(TlbFlush { page })
    }

    /// Whether `page` currently has a translation.
    pub fn is_mapped(&self, page: u64) -> (r: bool)
        ensures
            r == self@.contains_key(page),
    {
        proof {
            self.lemma_view();
        }
        self.table.contains_key(&page)
    }

    /// The frame, flag set and staleness recorded for `page`, if any.
    pub fn translation_of(&self, page: u64) -> (r: Option<(u64, u64, bool)>)
        ensures
            match r {
                Some(t) => self@.contains_key(page) && t.0 == self@[page].frame && t.1
                    == self@[page].flags && t.2 == self@[page].stale,
                None => !self@.contains_key(page),
            },
    {
        proof {
            self.lemma_view();
        }
        match self.table.get(&page) {
            Some(e) => Some((e.frame, e.flags, e.stale)),
            None => None,
        }
    }

    /// Reads the byte visible at virtual address `a`, or reports that the
    /// address has no translation.
    pub fn read_byte(&self, a: u64) -> (r: Option<u8>)
        requires
            self.wf(),
        ensures
            match r {
                Some(b) => spec_mapped_at(self@, a) && b == spec_byte_at(self@, a),
                None => !spec_mapped_at(self@, a),
            },
    {
        let page = page_of(a);
        proof {
            lemma_page_of_properties(a);
            self.lemma_view();
        }
        match self.table.get(&page) {
            Some(e) => {
                proof {
                    assert(self@[page].bytes.len() == PAGE_SIZE);
                }
                Some(e.bytes[(a % PAGE_SIZE) as usize])
            },
            None => None,
        }
    }

    /// Writes one byte at virtual address `a`. The write takes effect only
    /// if the address is translated and its page is writable; the result
    /// reports whether it did.
    pub fn write_byte(&mut self, a: u64, v: u8) -> (r: bool)
        requires
            old(self).wf(),
        ensures
            final(self).wf(),
            r == (spec_mapped_at(old(self)@, a) && old(self)@[spec_page_of(a)].flags
                & PTE_WRITABLE != 0),
            !r ==> *final(self) == *old(self),
            r ==> {
                &&& same_translation(old(self)@, final(self)@)
                &&& spec_byte_at(final(self)@, a) == v
                &&& forall|p: u64, i: int|
                    old(self)@.contains_key(p) && 0 <= i < PAGE_SIZE && !(p == spec_page_of(a)
                        && i == a % PAGE_SIZE) ==> (#[trigger] final(self)@[p].bytes[i])
                        == old(self)@[p].bytes[i]
            },
    {
        let page = page_of(a);
        proof {
            lemma_page_of_properties(a);
            old(self).lemma_view();
        }
        let writable = match self.table.get(&page) {
            Some(e) => e.flags & PTE_WRITABLE != 0,
            None => false,
        };
        proof {
            assert(writable == (spec_mapped_at(old(self)@, a) && old(self)@[spec_page_of(a)].flags
                & PTE_WRITABLE != 0));
        }
        if !writable {
            return false;
        }
        match self.table.remove(&page) {
            Some(entry) => {
                let mut bytes = entry.bytes;
                let idx = (a % PAGE_SIZE) as usize;
                proof {
                    assert(entry@ == old(self)@[page]);
                    assert(bytes@.len() == PAGE_SIZE);
                }
                bytes[idx] = v;
                let updated = PageMapping {
                    frame: entry.frame,
                    flags: entry.flags,
                    stale: entry.stale,
                    bytes,
                };
                self.table.insert(page, updated);
                proof {
                    self.lemma_view();
                    assert(self@.dom() =~= old(self)@.dom());
                    assert(forall|p: u64| old(self)@.contains_key(p) && p != page
                        ==> (#[trigger] self@[p]) == old(self)@[p]);
                    assert(self@[page].bytes =~= old(self)@[page].bytes.update(idx as int, v));
                }
                true
            },
            None => {
                proof {
                    assert(false);
                }
                false
            },
        }
    }
}

/// Every page covering `[start, start + len)` is mapped and writable in `s`.
pub open spec fn range_writable(s: Map<u64, PageView>, start: u64, len: u64) -> bool {
    forall|a: u64| #![trigger spec_page_of(a)]
        start <= a < start + len ==> spec_mapped_at(s, a) && s[spec_page_of(a)].flags
            & PTE_WRITABLE != 0
}

impl AddressSpace {
    /// Writes zeroes over every byte of `[start, start + len)`, in one pass.
    /// The range must already be translated and writable; no mapping, flag or
    /// staleness changes, and no byte outside the range changes.
    pub fn zero_range(&mut self, start: u64, len: u64)
        requires
            old(self).wf(),
            start + len <= u64::MAX,
            range_writable(old(self)@, start, len),
        ensures
            final(self).wf(),
            same_translation(old(self)@, final(self)@),
            forall|a: u64| start <= a < start + len ==> spec_byte_at(final(self)@, a) == 0,
            bytes_unchanged_outside(old(self)@, final(self)@, start, len),
    {
        let ghost s0 = self@;
        let mut i: u64 = 0;
        while i < len
            invariant
                self.wf(),
                start + len <= u64::MAX,
                i <= len,
                range_writable(s0, start, len),
                same_translation(s0, self@),
                forall|a: u64| start <= a < start + i ==> spec_byte_at(self@, a) == 0,
                bytes_unchanged_outside(s0, self@, start, i),
            decreases len - i,
        {
            let ghost prev = self@;
            let a = start + i;
            proof {
                lemma_page_of_properties(a);
                assert(spec_mapped_at(s0, a) && s0[spec_page_of(a)].flags & PTE_WRITABLE != 0);
                assert(prev.contains_key(spec_page_of(a)));
                assert(prev[spec_page_of(a)].flags == s0[spec_page_of(a)].flags);
            }
            let ok = self.write_byte(a, 0);
            proof {
                assert(ok);
                assert(same_translation(s0, self@));
                let wp = spec_page_of(a);
                let wi = (a % PAGE_SIZE) as int;
                assert(wp + wi == a);
                assert forall|b: u64| start <= b < start + i + 1 implies spec_byte_at(
                    self@,
                    b,
                ) == 0 by {
                    lemma_page_of_properties(b);
                    if b != a {
                        assert(spec_mapped_at(s0, b) && s0[spec_page_of(b)].flags & PTE_WRITABLE
                            != 0);
                        assert(prev.contains_key(spec_page_of(b)));
                        assert(spec_page_of(b) + b % PAGE_SIZE == b);
                        assert(!(spec_page_of(b) == wp && b % PAGE_SIZE == wi));
                        assert(spec_byte_at(self@, b) == spec_byte_at(prev, b));
                    }
                }
                assert forall|p: u64, j: int|
                    s0.contains_key(p) && 0 <= j < PAGE_SIZE && !(start <= p + j < start + i
                        + 1) implies (#[trigger] self@[p].bytes[j]) == s0[p].bytes[j] by {
                    assert(p % PAGE_SIZE == 0);
                    if p == wp && j == wi {
                        assert(p + j == a);
                        assert(false);
                    } else {
                        assert(self@[p].bytes[j] == prev[p].bytes[j]);
                    }
                }
            }
            i = i + 1;
        }
    }
}

/// The base of a page neither exceeds any address in the page nor falls more
/// than a page below it.
pub proof fn lemma_page_of_properties(a: u64)
    ensures
        spec_page_of(a) % PAGE_SIZE == 0,
        spec_page_of(a) <= a < spec_page_of(a) + PAGE_SIZE,
        0 <= a % PAGE_SIZE < PAGE_SIZE,
{
    let p = PAGE_SIZE as int;
    vstd::arithmetic::div_mod::lemma_mod_bound(a as int, p);
    vstd::arithmetic::div_mod::lemma_fundamental_div_mod(a as int, p);
    vstd::arithmetic::div_mod::lemma_mod_multiples_basic(a as int / p, p);
}

/// An offset into an aligned page lands in that page: the base and the
/// offset of `p + i` are `p` and `i` again.
pub proof fn lemma_page_offset(p: u64, i: int)
    requires
        p % PAGE_SIZE == 0,
        0 <= i < PAGE_SIZE,
        p + i <= u64::MAX,
    ensures
        spec_page_of((p + i) as u64) == p,
        (p + i) % (PAGE_SIZE as int) == i,
{
    let d = PAGE_SIZE as int;
    vstd::arithmetic::div_mod::lemma_fundamental_div_mod(p as int, d);
    vstd::arithmetic::div_mod::lemma_fundamental_div_mod_converse(p + i, d, p as int / d, i);
    vstd::arithmetic::div_mod::lemma_mod_bound(p as int, d);
}

/// Page bases never cross: a lower address lies in a page that starts no
/// higher.
pub proof fn lemma_page_of_monotone(a: u64, b: u64)
    requires
        a <= b,
    ensures
        spec_page_of(a) <= spec_page_of(b),
{
    let d = PAGE_SIZE as int;
    vstd::arithmetic::div_mod::lemma_fundamental_div_mod(a as int, d);
    vstd::arithmetic::div_mod::lemma_fundamental_div_mod(b as int, d);
    vstd::arithmetic::div_mod::lemma_mod_bound(a as int, d);
    vstd::arithmetic::div_mod::lemma_mod_bound(b as int, d);
    vstd::arithmetic::div_mod::lemma_div_is_ordered(a as int, b as int, d);
    vstd::arithmetic::mul::lemma_mul_inequality(a as int / d, b as int / d, d);
}

} // verus!
