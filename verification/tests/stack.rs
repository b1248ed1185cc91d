use aero::paging::page_of;
use aero::paging::AddressSpace;
use aero::paging::FrameSource;
use aero::paging::PAGE_SIZE;
use aero::paging::PTE_NO_EXECUTE;
use aero::paging::PTE_PRESENT;
use aero::paging::PTE_USER_ACCESSIBLE;
use aero::paging::PTE_WRITABLE;
use aero::stack::HeapSource;
use aero::stack::Stack;
use aero::stack::StackError;
use aero::stack::StackHelper;

#[test]
fn pinned_rejects_zero_size() {
    let mut space = AddressSpace::new();
    let mut frames = FrameSource::new(0x10_0000, 16);
    let r = Stack::new_pinned(&mut space, &mut frames, 0x7fff_f000, 0, 0);
    assert!(matches!(r, Err(StackError::SizeNotSupported)));
    assert!(!space.is_mapped(0x7fff_f000));
}

#[test]
fn pinned_rejects_unaligned_size() {
    let mut space = AddressSpace::new();
    let mut frames = FrameSource::new(0x10_0000, 16);
    let r = Stack::new_pinned(&mut space, &mut frames, 0x7fff_f000, 100, 0);
    assert!(matches!(r, Err(StackError::SizeNotSupported)));
}

#[test]
fn pinned_accepts_one_page() {
    let mut space = AddressSpace::new();
    let mut frames = FrameSource::new(0x20_0000, 8);
    // The requested address is the top byte: one page ending at 0x8000_0fff.
    let stack = Stack::new_pinned(&mut space, &mut frames, 0x8000_0fff, 4096, 0).unwrap();
    assert_eq!(stack.start(), 0x8000_0000);
    assert_eq!(stack.size(), 4096);
    // Growth direction: the top is start + size on this architecture.
    assert_eq!(stack.stack_top(), 0x8000_1000);
    let (frame, flags, stale) = space.translation_of(0x8000_0000).unwrap();
    assert_eq!(frame, 0x20_0000);
    assert_eq!(flags, PTE_PRESENT | PTE_NO_EXECUTE | PTE_WRITABLE);
    assert!(!stale);
    // Zero-fill: every byte of the region reads zero right after the build.
    for a in 0x8000_0000u64..0x8000_1000 {
        assert_eq!(space.read_byte(a), Some(0));
    }
}

#[test]
fn pinned_build_covers_straddling_pages_with_distinct_frames() {
    let mut space = AddressSpace::new();
    let mut frames = FrameSource::new(0x30_0000, 8);
    // An unaligned top address: one page of bytes straddles two pages.
    let stack = Stack::new_pinned(&mut space, &mut frames, 0x9000_07ff, 4096, 0).unwrap();
    assert_eq!(stack.start(), 0x9000_07ff - 4095);
    assert_eq!(page_of(stack.start()), 0x8fff_f000);
    let (f0, _, _) = space.translation_of(0x8fff_f000).unwrap();
    let (f1, _, _) = space.translation_of(0x9000_0000).unwrap();
    assert_eq!(f0, 0x30_0000);
    assert_eq!(f1, 0x30_0000 + PAGE_SIZE);
    assert_ne!(f0, f1);
    for a in stack.start()..stack.start() + 4096 {
        assert_eq!(space.read_byte(a), Some(0));
    }
}

#[test]
fn user_stack_frame_exhaustion_leaves_partial_mapping() {
    let mut space = AddressSpace::new();
    // The source satisfies the first frame and fails on the second.
    let mut frames = FrameSource::new(0x40_0000, 1);
    let r = Stack::new_user_pinned(&mut space, &mut frames, 0x7fff_ffff, 3 * 4096);
    assert!(matches!(r, Err(StackError::FrameAllocationFailed)));
    // The documented behavior: the page bound before the failure stays bound.
    let (frame, flags, stale) = space.translation_of(0x7fff_d000).unwrap();
    assert_eq!(frame, 0x40_0000);
    assert_eq!(
        flags,
        PTE_PRESENT | PTE_NO_EXECUTE | PTE_WRITABLE | PTE_USER_ACCESSIBLE
    );
    assert!(!stale);
    assert!(!space.is_mapped(0x7fff_e000));
    assert!(!space.is_mapped(0x7fff_f000));
}

#[test]
fn pinned_build_reports_already_mapped_page() {
    let mut space = AddressSpace::new();
    let mut frames = FrameSource::new(0x50_0000, 8);
    let tok = space.map_to(0x7fff_e000, 0x1_0000, PTE_PRESENT).unwrap();
    tok.flush(&mut space);
    let r = Stack::new_pinned(&mut space, &mut frames, 0x7fff_ffff, 3 * 4096, 0);
    assert!(matches!(r, Err(StackError::PageAlreadyMapped)));
    // The first page was bound before the conflict was found.
    assert!(space.is_mapped(0x7fff_d000));
    // The pre-existing mapping is untouched.
    let (frame, _, _) = space.translation_of(0x7fff_e000).unwrap();
    assert_eq!(frame, 0x1_0000);
}

#[test]
fn mapper_rejects_remap_and_write_respects_flags() {
    let mut space = AddressSpace::new();
    let tok = space.map_to(0x1000, 0x8000, PTE_PRESENT).unwrap();
    tok.flush(&mut space);
    assert!(space.map_to(0x1000, 0x9000, PTE_PRESENT).is_err());
    // The page is mapped but not writable: a write must be refused.
    assert!(!space.write_byte(0x1000, 1));
    assert_eq!(space.read_byte(0x2000), None);
}

#[test]
fn address_space_write_read_roundtrip() {
    let mut space = AddressSpace::new();
    let mut frames = FrameSource::new(0x60_0000, 4);
    let _stack = Stack::new_pinned(&mut space, &mut frames, 0xa000_0fff, 4096, 0).unwrap();
    assert!(space.write_byte(0xa000_0123, 0x5a));
    assert_eq!(space.read_byte(0xa000_0123), Some(0x5a));
    assert_eq!(space.read_byte(0xa000_0124), Some(0));
}

#[test]
fn kernel_stack_cursor_scenario() {
    let mut heap = HeapSource::new(0x1000_0000, 1 << 20);
    let mut stack = Stack::new_kernel(&mut heap, 16384).unwrap();
    assert_eq!(stack.stack_top() - stack.start(), 16384);
    // Zero-fill holds for heap-backed builds too.
    assert_eq!(stack.read_byte(stack.start()), Some(0));
    assert_eq!(stack.read_byte(stack.start() + 16383), Some(0));
    assert_eq!(stack.read_byte(stack.start() + 16384), None);
    let top = stack.stack_top();
    let mut cursor = StackHelper::new(top);
    let mut slots = Vec::new();
    for k in 0..10u64 {
        let slot = cursor.offset::<u32>();
        // Each slot is distinct, four bytes below the previous one, aligned.
        assert_eq!(slot, top - 4 * (k + 1));
        assert_eq!(slot % 4, 0);
        assert!(stack.write_u32(slot, 0xc0de_0000 + k as u32));
        slots.push(slot);
    }
    // Ten u32 reservations consume exactly forty bytes from the top.
    assert_eq!(top - cursor.top(), 40);
    for (k, slot) in slots.iter().enumerate() {
        assert_eq!(stack.read_u32(*slot), Some(0xc0de_0000 + k as u32));
    }
}

#[test]
fn cursor_u64_reservations_fill_whole_region() {
    let mut heap = HeapSource::new(0x2000_0000, 1 << 20);
    let stack = Stack::new_kernel(&mut heap, 4096).unwrap();
    let mut cursor = StackHelper::new(stack.stack_top());
    for _ in 0..(4096 / 8) {
        let slot = cursor.offset::<u64>();
        assert!(slot >= stack.start());
        assert!(slot <= stack.stack_top());
    }
    assert_eq!(cursor.top(), stack.start());
}

#[test]
fn cursor_skip_by_moves_toward_base() {
    let mut cursor = StackHelper::new(1000);
    cursor.skip_by(100);
    assert_eq!(cursor.top(), 900);
    cursor.skip_by(900);
    assert_eq!(cursor.top(), 0);
}

#[test]
fn heap_source_alignment_and_exhaustion() {
    let mut heap = HeapSource::new(0x3000_0000, 8192);
    let a = Stack::new_kernel(&mut heap, 100).unwrap();
    assert_eq!(a.start() % 256, 0);
    let b = Stack::new_kernel(&mut heap, 100).unwrap();
    assert_eq!(b.start(), a.start() + 256);
    assert!(Stack::new_kernel(&mut heap, 8192).is_none());
    assert!(Stack::new_kernel(&mut heap, 0).is_none());
}

#[test]
fn heap_stack_write_is_bounds_checked() {
    let mut heap = HeapSource::new(0x4000_0000, 1 << 16);
    let mut stack = Stack::new_kernel(&mut heap, 4096).unwrap();
    let top = stack.stack_top();
    // Four bytes ending exactly at the top fit; past the top they do not.
    assert!(stack.write_u32(top - 4, 7));
    assert!(!stack.write_u32(top - 3, 7));
    assert!(!stack.write_u32(top, 7));
    assert_eq!(stack.read_u32(top - 4), Some(7));
    assert_eq!(stack.read_u32(top - 3), None);
}
