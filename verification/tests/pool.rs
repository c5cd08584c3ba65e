use v4l::error::Error;
use v4l::pool::BufferDescriptor;
use v4l::pool::BufferPool;
use v4l::pool::BufferState;
use v4l::pool::MapReply;

fn mapped(n: usize) -> Vec<MapReply> {
    let mut replies = Vec::new();
    for i in 0..n {
        replies.push(MapReply::Mapped { memory_offset: i * 4096, length: 4096 });
    }
    replies
}

#[test]
fn the_pool_takes_the_granted_count() {
    let pool = BufferPool::with_buffers(4, 2, mapped(2)).unwrap();
    assert_eq!(pool.len(), 2);
    assert_eq!(pool.indices(), vec![0, 1]);
    assert_eq!(pool.state(0), Some(BufferState::Idle));
    assert_eq!(pool.state(1), Some(BufferState::Idle));
    assert_eq!(pool.state(2), None);
    assert_eq!(
        pool.descriptor(0),
        Some(BufferDescriptor { index: 0, memory_offset: 0, length: 4096 })
    );
    assert_eq!(
        pool.descriptor(1),
        Some(BufferDescriptor { index: 1, memory_offset: 4096, length: 4096 })
    );
    assert_eq!(pool.descriptor(2), None);
}

#[test]
fn the_pool_is_never_empty_nor_larger_than_asked_for() {
    for requested in 1u32..=8 {
        for granted in 0u32..=requested {
            match BufferPool::with_buffers(requested, granted, mapped(granted as usize)) {
                Ok(pool) => {
                    assert!(pool.len() > 0);
                    assert!(pool.len() <= requested as usize);
                    assert_eq!(pool.len(), granted as usize);
                }
                Err(rollback) => {
                    assert_eq!(granted, 0);
                    assert_eq!(rollback.error, Error::ResourceError);
                    assert_eq!(rollback.unmap, Vec::<u32>::new());
                }
            }
        }
    }
}

#[test]
fn a_driver_that_grants_more_is_followed_too() {
    let pool = BufferPool::with_buffers(2, 4, mapped(4)).unwrap();
    assert_eq!(pool.len(), 4);
    assert_eq!(pool.indices(), vec![0, 1, 2, 3]);
}

#[test]
fn nothing_granted_is_a_resource_error() {
    let rollback = BufferPool::with_buffers(4, 0, Vec::new()).unwrap_err();
    assert_eq!(rollback.error, Error::ResourceError);
    assert!(rollback.unmap.is_empty());
    let rollback = BufferPool::with_buffers(0, 0, Vec::new()).unwrap_err();
    assert_eq!(rollback.error, Error::ResourceError);
}

#[test]
fn a_failed_mapping_rolls_back_what_was_mapped() {
    let mut replies = mapped(2);
    replies.push(MapReply::Failed);
    let rollback = BufferPool::with_buffers(4, 4, replies).unwrap_err();
    assert_eq!(rollback.error, Error::ResourceError);
    assert_eq!(rollback.unmap, vec![0, 1]);

    let rollback = BufferPool::with_buffers(3, 3, vec![MapReply::Failed]).unwrap_err();
    assert_eq!(rollback.error, Error::ResourceError);
    assert!(rollback.unmap.is_empty());

    let replies = vec![
        MapReply::Mapped { memory_offset: 0, length: 10 },
        MapReply::Failed,
        MapReply::Mapped { memory_offset: 20, length: 10 },
    ];
    let rollback = BufferPool::with_buffers(3, 3, replies).unwrap_err();
    assert_eq!(rollback.unmap, vec![0, 2]);
}

#[test]
fn every_granted_slot_must_be_mapped() {
    let rollback = BufferPool::with_buffers(4, 3, mapped(2)).unwrap_err();
    assert_eq!(rollback.error, Error::ResourceError);
    assert_eq!(rollback.unmap, vec![0, 1]);
    let rollback = BufferPool::with_buffers(4, 2, mapped(3)).unwrap_err();
    assert_eq!(rollback.error, Error::ResourceError);
    assert_eq!(rollback.unmap, vec![0, 1, 2]);
}
