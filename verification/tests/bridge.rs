use avbridge::buffer::{Buffer, BufferableAvBuffer};
use avbridge::NativeBuffers;

#[test]
fn fresh_transfer_release_fires_exactly_once() {
    let mut bufs = NativeBuffers::new();
    let buffer = Buffer::new(&mut bufs, vec![1u8, 2, 3]);
    let h = buffer.handle;
    // One reference, held by the bridge; nothing released yet.
    assert_eq!(bufs.refcount(h), Some(1));
    assert_eq!(bufs.releases(h), Some(0));
    assert_eq!(bufs.data(h).as_slice(), &[1u8, 2, 3]);
    // Dropping the only holder fires the release, exactly once, and the
    // memory is gone.
    buffer.release(&mut bufs);
    assert_eq!(bufs.refcount(h), Some(0));
    assert_eq!(bufs.releases(h), Some(1));
    assert!(bufs.data(h).is_empty());
}

#[test]
fn release_only_after_count_reaches_zero() {
    let mut bufs = NativeBuffers::new();
    let buffer = Buffer::new(&mut bufs, vec![5u8; 4]);
    let h = buffer.handle;
    let second = buffer.clone_ref(&mut bufs);
    assert_eq!(bufs.refcount(h), Some(2));
    buffer.release(&mut bufs);
    // A holder remains: no release yet.
    assert_eq!(bufs.refcount(h), Some(1));
    assert_eq!(bufs.releases(h), Some(0));
    second.release(&mut bufs);
    assert_eq!(bufs.refcount(h), Some(0));
    assert_eq!(bufs.releases(h), Some(1));
}

#[test]
fn alias_bridging_increments_by_one_and_drop_restores() {
    let mut bufs = NativeBuffers::new();
    let original = Buffer::new(&mut bufs, vec![1u8; 8]);
    let h = original.handle;
    assert_eq!(bufs.refcount(h), Some(1));
    // Aliasing takes one more reference.
    let alias = BufferableAvBuffer::new(&mut bufs, h);
    assert_eq!(bufs.refcount(h), Some(2));
    // Bridging the alias hands that reference over without another increment.
    let bridged = Buffer::new(&mut bufs, alias);
    assert_eq!(bridged.handle, h);
    assert_eq!(bufs.refcount(h), Some(2));
    // Dropping the bridged handle decrements it back by one.
    bridged.release(&mut bufs);
    assert_eq!(bufs.refcount(h), Some(1));
    assert_eq!(bufs.releases(h), Some(0));
    original.release(&mut bufs);
    assert_eq!(bufs.releases(h), Some(1));
}

#[test]
fn into_handle_moves_ownership_without_decrement() {
    let mut bufs = NativeBuffers::new();
    let buffer = Buffer::new(&mut bufs, vec![0u8; 2]);
    let h = buffer.into_handle();
    // The reference moved out: still alive, nothing released.
    assert_eq!(bufs.refcount(h), Some(1));
    assert_eq!(bufs.releases(h), Some(0));
}

#[test]
fn refcount_of_unknown_handle_is_none() {
    let bufs = NativeBuffers::new();
    assert_eq!(bufs.refcount(0), None);
    assert_eq!(bufs.releases(3), None);
    assert_eq!(bufs.count(), 0);
}
