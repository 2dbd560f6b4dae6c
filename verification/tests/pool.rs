use async_fuse::aligned_bytes::AlignedBytes;
use async_fuse::dispatch::Lifecycle;
use async_fuse::init::InitFailure;
use async_fuse::pool::BufferPool;
use async_fuse::protocol::{FuseInitIn, Operation, Request};
use async_fuse::run::opening;
use async_fuse::session::Session;
use async_fuse::target::{Os, MAX_BACKGROUND, PAGE_SIZE};

fn session() -> Session {
    Session::new(b"/mnt".to_vec(), 3)
}

#[test]
fn buffer_sizes_leave_room_for_headers() {
    assert_eq!(Os::Linux.max_write_size(), 128 * 1024);
    assert_eq!(Os::MacOs.max_write_size(), 16 * 1024 * 1024);
    assert_eq!(Os::Linux.buffer_size(), 131_584);
    assert_eq!(Os::MacOs.buffer_size(), 16_777_728);
}

#[test]
fn aligned_bytes_are_zero_and_aligned() {
    for len in [0usize, 1, 100, 131_584] {
        let buffer = AlignedBytes::new_zeroed(len, PAGE_SIZE);
        assert_eq!(buffer.as_slice().len(), len);
        assert!(buffer.as_slice().iter().all(|b| *b == 0));
        assert_eq!(buffer.as_slice().as_ptr().align_offset(PAGE_SIZE), 0);
    }
}

#[test]
fn buffer_is_placed_at_the_next_aligned_address() {
    let cases = [
        (0usize, 8usize, [0u8, 1, 2]),
        (1, 8, [7, 8, 9]),
        (8, 8, [0, 1, 2]),
        (4093, 8, [3, 4, 5]),
        (17, 16, [15, 16, 17]),
        (usize::MAX, 4, [1, 2, 3]),
        (12_345, 1, [0, 1, 2]),
    ];
    for (address, align, bytes) in cases {
        let storage: Vec<u8> = (0u8..).take(3 + align).collect();
        let buffer = AlignedBytes::placed(storage, 3, align, address);
        assert_eq!(buffer.as_slice(), &bytes);
    }
}

#[test]
fn buffers_stay_aligned_through_the_pool() {
    let mut pool = BufferPool::filled(Os::Linux);
    for _ in 0..2 * MAX_BACKGROUND {
        let (idx, mut buffer) = pool.take();
        buffer.as_mut_slice()[0] = 1;
        assert_eq!(buffer.as_slice().as_ptr().align_offset(PAGE_SIZE), 0);
        pool.put_back(idx, buffer);
    }
}

#[test]
fn aligned_bytes_keep_what_is_written() {
    let mut buffer = AlignedBytes::new_zeroed(5, 8);
    buffer.as_mut_slice().copy_from_slice(&[1, 2, 3, 4, 5]);
    assert_eq!(buffer.as_slice(), &[1, 2, 3, 4, 5]);
    assert_eq!(buffer.prefix(0), Some(&[][..]));
    assert_eq!(buffer.prefix(2), Some(&[1, 2][..]));
    assert_eq!(buffer.prefix(5), Some(&[1, 2, 3, 4, 5][..]));
    assert_eq!(buffer.prefix(6), None);
}

#[test]
fn filled_pool_hands_out_numbers_in_order() {
    let mut pool = BufferPool::filled(Os::Linux);
    for n in 0..MAX_BACKGROUND {
        let (idx, buffer) = pool.take();
        assert_eq!(idx, n);
        assert_eq!(buffer.as_slice().len(), Os::Linux.buffer_size());
        assert!(buffer.as_slice().iter().all(|b| *b == 0));
    }
}

#[test]
fn buffer_put_back_comes_last() {
    let mut pool = BufferPool::filled(Os::Linux);
    let (first, mut buffer) = pool.take();
    buffer.as_mut_slice()[7] = 9;
    pool.put_back(first, buffer);
    for n in 1..MAX_BACKGROUND {
        assert_eq!(pool.take().0, n);
    }
    let (again, buffer) = pool.take();
    assert_eq!(again, 0);
    assert_eq!(buffer.as_slice()[7], 9);
}

#[test]
fn pool_ends_carry_the_idle_buffers() {
    let (sender, receiver) = BufferPool::filled(Os::Linux).into_ends();
    assert_eq!(receiver.len(), usize::from(MAX_BACKGROUND));
    assert_eq!(receiver.capacity(), Some(usize::from(MAX_BACKGROUND)));
    let entry = receiver.recv().unwrap();
    assert_eq!(entry.0, 0);
    sender.send(entry).unwrap();
    assert_eq!(receiver.recv().unwrap().0, 1);
}

#[test]
fn setup_takes_the_first_buffer_and_puts_it_back() {
    let mut setup = session().setup_buffer_pool(Os::Linux);
    assert_eq!(setup.buffer_idx, 0);
    assert_eq!(setup.fuse_fd, 3);
    assert!(setup.first_message(false).is_none());
    setup.buffer.as_mut_slice()[0] = 56;
    let whole = setup.first_message(true).unwrap();
    assert_eq!(whole.len(), Os::Linux.buffer_size());
    assert_eq!(whole[0], 56);
    let live = Lifecycle { initialized: true, destroyed: false };
    let ready = setup.finish(Some(Ok(())), &live).ok().unwrap();
    assert!(ready.initialized);
    let (_, receiver) = ready.pool.into_ends();
    let order: Vec<u16> = receiver.try_iter().map(|entry| entry.0).collect();
    assert_eq!(order, vec![1, 2, 3, 4, 5, 6, 7, 8, 9, 0]);
}

#[test]
fn setup_without_a_handshake_still_fills_the_pool() {
    let setup = session().setup_buffer_pool(Os::Linux);
    let ready = setup.finish(None, &Lifecycle::new()).ok().unwrap();
    assert!(!ready.initialized);
    let (_, receiver) = ready.pool.into_ends();
    assert_eq!(receiver.len(), usize::from(MAX_BACKGROUND));
}

#[test]
fn setup_fails_with_the_handshake() {
    for failure in [
        InitFailure::AbiTooLow,
        InitFailure::FileSystemInit,
        InitFailure::ReplyNotSent,
    ] {
        let setup = session().setup_buffer_pool(Os::Linux);
        assert_eq!(setup.finish(Some(Err(failure)), &Lifecycle::new()).err(), Some(failure));
    }
}

#[test]
fn only_an_init_request_opens_the_connection() {
    let arg = FuseInitIn { major: 7, minor: 31, max_readahead: 4096, flags: 1 };
    let init = Request { unique: 2, nodeid: 0, operation: Operation::Init { arg } };
    assert_eq!(opening(&Some(init)), Some((arg, 2)));
    let other = Request { unique: 2, nodeid: 0, operation: Operation::StatFs };
    assert_eq!(opening(&Some(other)), None);
    assert_eq!(opening(&None), None);
}
