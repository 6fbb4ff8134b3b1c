use libghostty_vt::error::Error;
use libghostty_vt::memory::{
    adapter_alloc, adapter_free, adapter_remap, adapter_resize, global_alloc, global_free,
    global_remap, global_resize, Allocator, Layout, NewReply, Object, Ref,
};
use libghostty_vt::sgr::Parser;

#[test]
fn null_objects_are_out_of_memory() {
    assert_eq!(Object::new(0).unwrap_err(), Error::OutOfMemory);
    assert_eq!(Object::new(0x40).unwrap().as_raw(), 0x40);
    assert_eq!(Ref::new(0).unwrap_err(), Error::OutOfMemory);
    assert_eq!(Ref::new(0x48).unwrap().as_raw(), 0x48);
}

#[test]
fn new_objects_come_with_a_code() {
    let made = NewReply { code: 0, raw: 0x1000 }.into_object();
    assert_eq!(made.unwrap().as_raw(), 0x1000);
    let none = NewReply { code: 0, raw: 0 }.into_object();
    assert_eq!(none.unwrap_err(), Error::OutOfMemory);
    let failed = NewReply { code: -2, raw: 0x1000 }.into_object();
    assert_eq!(failed.unwrap_err(), Error::InvalidValue);
}

#[test]
fn constructors_hand_over_the_allocator() {
    let plain = Parser::new(|alloc| {
        assert_eq!(alloc, 0);
        NewReply { code: 0, raw: 8 }
    });
    assert_eq!(plain.unwrap().as_raw(), 8);
    let custom = Parser::new_with_alloc(&Allocator::from_raw(0x77), |alloc| {
        assert_eq!(alloc, 0x77);
        NewReply { code: -1, raw: 0 }
    });
    assert_eq!(custom.unwrap_err(), Error::OutOfMemory);
}

#[test]
fn layouts_have_the_size_and_the_alignment() {
    assert_eq!(Layout::from_request(24, 3), Some(Layout { size: 24, align: 8 }));
    assert_eq!(Layout::from_request(0, 0), Some(Layout { size: 0, align: 1 }));
    assert_eq!(
        Layout::from_request(1, 12),
        Some(Layout { size: 1, align: 4096 })
    );
}

#[test]
fn layouts_agree_with_the_standard_library() {
    let max = isize::MAX as usize;
    let lens = [0, 1, 7, 8, 4096, max - 4096, max - 8, max - 7, max - 1, max, max + 1, usize::MAX];
    for len in lens {
        for alignment in 0..usize::BITS as u8 {
            let ours = Layout::from_request(len, alignment);
            let theirs = std::alloc::Layout::from_size_align(len, 1 << alignment).ok();
            assert_eq!(ours.is_some(), theirs.is_some(), "{len} {alignment}");
            if let (Some(ours), Some(theirs)) = (ours, theirs) {
                assert_eq!(ours.size, theirs.size());
                assert_eq!(ours.align, theirs.align());
            }
        }
    }
}

#[test]
fn a_shorter_block_has_a_layout_too() {
    let len = isize::MAX as usize - 7;
    assert!(Layout::from_request(len, 3).is_some());
    assert!(Layout::from_request(len - 1, 3).is_some());
    assert!(Layout::from_request(len + 1, 3).is_none());
}

#[test]
fn the_global_allocator_is_asked_with_a_layout() {
    let mem = global_alloc(16, 4, |layout| {
        assert_eq!(layout, Layout { size: 16, align: 16 });
        0x5000
    });
    assert_eq!(mem, 0x5000);
    assert_eq!(global_alloc(usize::MAX, 0, |_| 1), 0);
    assert!(global_free(0x5000, 16, 4, |mem, layout| {
        assert_eq!((mem, layout), (0x5000, Layout { size: 16, align: 16 }));
    }));
    assert!(!global_free(0x5000, usize::MAX, 4, |_, _| panic!("no layout")));
    assert!(!global_resize(0x5000, 16, 4, 32));
    let moved = global_remap(0x5000, 16, 4, 32, |mem, layout, new_len| {
        assert_eq!((mem, layout.size, new_len), (0x5000, 16, 32));
        0x6000
    });
    assert_eq!(moved, 0x6000);
    assert_eq!(global_remap(0x5000, usize::MAX, 4, 32, |_, _, _| 1), 0);
}

#[test]
fn an_adapted_allocator_needs_a_context_and_a_layout() {
    let answer = adapter_alloc(9, 8, 0, |ctx, layout| {
        assert_eq!((ctx, layout.size), (9, 8));
        Some(0x10)
    });
    assert_eq!(answer, 0x10);
    assert_eq!(adapter_alloc(9, 8, 0, |_, _| None), 0);
    assert_eq!(adapter_alloc(0, 8, 0, |_, _| Some(1)), 0);
    assert_eq!(adapter_alloc(9, usize::MAX, 0, |_, _| Some(1)), 0);
    assert!(adapter_free(9, 0x10, 8, 0, |_, mem, _| assert_eq!(mem, 0x10)));
    assert!(!adapter_free(9, 0, 8, 0, |_, _, _| panic!("null block")));
    assert!(!adapter_free(0, 0x10, 8, 0, |_, _, _| panic!("no allocator")));
    assert!(!adapter_free(9, 0x10, usize::MAX, 0, |_, _, _| panic!("no layout")));
    assert!(!adapter_resize(0x10, 8, 0, 16));
}

#[test]
fn remapping_shrinks_below_the_old_length_and_else_grows() {
    let shrunk = adapter_remap(9, 0x10, 8, 0, 4, |_, _, shrink, old, new| {
        assert!(shrink);
        assert_eq!((old.size, new.size), (8, 4));
        Some(0x20)
    });
    assert_eq!(shrunk, 0x20);
    let same = adapter_remap(9, 0x10, 8, 0, 8, |_, _, shrink, _, _| {
        assert!(!shrink);
        Some(0x30)
    });
    assert_eq!(same, 0x30);
    assert_eq!(adapter_remap(9, 0x10, 8, 0, 16, |_, _, _, _, _| None), 0);
    assert_eq!(adapter_remap(0, 0x10, 8, 0, 16, |_, _, _, _, _| Some(1)), 0);
    assert_eq!(adapter_remap(9, 0, 8, 0, 16, |_, _, _, _, _| Some(1)), 0);
    assert_eq!(adapter_remap(9, 0x10, usize::MAX, 0, 1, |_, _, _, _, _| Some(1)), 0);
    assert_eq!(adapter_remap(9, 0x10, 8, 0, usize::MAX, |_, _, _, _, _| Some(1)), 0);
}
