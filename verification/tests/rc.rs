use pointers::rc::{Rc, ReleaseResult};

#[test]
fn rc_new_starts_at_one() {
    let (block, h0) = Rc::new(String::from("blob"));
    assert_eq!(block.strong_count(), 1);
    assert_eq!(block.value().as_str(), "blob");
    match block.release(h0) {
        ReleaseResult::Freed(v) => assert_eq!(v, "blob"),
        ReleaseResult::Retained(_) => panic!("last release must free the block"),
    }
}

#[test]
fn rc_clone_increments_count() {
    let (mut block, h0) = Rc::new(7u32);
    let h1 = block.clone_handle();
    assert_eq!(block.strong_count(), 2);
    let h2 = block.clone_handle();
    assert_eq!(block.strong_count(), 3);
    // Put the block back in a balanced state before the test ends.
    let block = match block.release(h1) {
        ReleaseResult::Retained(b) => b,
        ReleaseResult::Freed(_) => panic!("handles remain, the block must survive"),
    };
    let block = match block.release(h2) {
        ReleaseResult::Retained(b) => b,
        ReleaseResult::Freed(_) => panic!("handles remain, the block must survive"),
    };
    assert!(matches!(block.release(h0), ReleaseResult::Freed(7)));
}

#[test]
fn rc_three_handles_freed_only_by_last() {
    // Create p0, clone to get p1, clone p0 again to get p2: three handles to
    // one block. Drop p1, then p0, then p2: nothing is freed until p2 goes.
    let (mut block, p0) = Rc::new(42i32);
    let p1 = block.clone_handle();
    let p2 = block.clone_handle();
    assert_eq!(block.strong_count(), 3);

    let block = match block.release(p1) {
        ReleaseResult::Retained(b) => b,
        ReleaseResult::Freed(_) => panic!("freed too early"),
    };
    assert_eq!(block.strong_count(), 2);
    assert_eq!(*block.value(), 42);

    let block = match block.release(p0) {
        ReleaseResult::Retained(b) => b,
        ReleaseResult::Freed(_) => panic!("freed too early"),
    };
    assert_eq!(block.strong_count(), 1);
    assert_eq!(*block.value(), 42);

    match block.release(p2) {
        ReleaseResult::Freed(v) => assert_eq!(v, 42),
        ReleaseResult::Retained(_) => panic!("the last release must free"),
    }
}

#[test]
fn rc_value_is_shared_not_copied() {
    let (mut block, h0) = Rc::new(vec![1u8, 2, 3]);
    let h1 = block.clone_handle();
    // Both handles observe the same stored value.
    assert_eq!(block.value().as_slice(), &[1, 2, 3]);
    let block = match block.release(h1) {
        ReleaseResult::Retained(b) => b,
        ReleaseResult::Freed(_) => panic!("a handle remains, the block must survive"),
    };
    assert!(matches!(block.release(h0), ReleaseResult::Freed(_)));
}
