use scoped_pool::Pool;
use shared_mutex::raw::RawSharedMutex;
use std::sync::atomic::{AtomicUsize, Ordering};
use std::sync::{Barrier, Condvar};

#[test]
fn test_simple_multithreaded() {
    let pool = Pool::new(8);
    let mutex = RawSharedMutex::new();
    let value = AtomicUsize::new(0);
    let n = 100;

    pool.scoped(|scope| {
        for _ in 0..n {
            scope.execute(|| {
                mutex.read();
                let before = value.load(Ordering::SeqCst);
                mutex.unlock_read();

                mutex.write();
                let seen = value.load(Ordering::SeqCst);
                value.store(seen + 1, Ordering::SeqCst);
                mutex.unlock_write();

                mutex.read();
                let after = value.load(Ordering::SeqCst);
                mutex.unlock_read();

                assert!(before < after, "Time travel! {:?} >= {:?}", before, after);
            })
        }
    });

    assert_eq!(value.load(Ordering::SeqCst), 100);
    pool.shutdown();
}

#[test]
fn test_simple_single_thread() {
    let mutex = RawSharedMutex::new();
    let value = AtomicUsize::new(0);
    let n = 100;

    for _ in 0..n {
        mutex.read();
        let before = value.load(Ordering::SeqCst);
        mutex.unlock_read();

        mutex.write();
        value.store(value.load(Ordering::SeqCst) + 1, Ordering::SeqCst);
        mutex.unlock_write();

        mutex.read();
        let after = value.load(Ordering::SeqCst);
        mutex.unlock_read();

        assert!(before < after, "Time travel! {:?} >= {:?}", before, after);
    }

    assert_eq!(value.load(Ordering::SeqCst), 100);
}

#[test]
fn test_locking_multithreaded() {
    // Readers read a value many times under one read ticket and expect it
    // not to change; writers bump it many times under the write ticket and
    // expect nobody else to bump it meanwhile.
    let mutex = RawSharedMutex::new();
    let value = AtomicUsize::new(0);

    let threads = 50;
    let actors = threads * 20;
    let actions_per_actor = 100;
    let start_barrier = Barrier::new(threads);
    let pool = Pool::new(threads);

    pool.scoped(|scope| {
        for _ in 0..actors {
            // Reader
            scope.execute(|| {
                start_barrier.wait();

                mutex.read();
                let first_seen = value.load(Ordering::SeqCst);

                for _ in 0..actions_per_actor {
                    assert_eq!(first_seen, value.load(Ordering::SeqCst));
                }
                mutex.unlock_read();
            });

            // Writer
            scope.execute(|| {
                start_barrier.wait();

                mutex.write();
                let mut previous = value.load(Ordering::SeqCst);

                for _ in 0..actions_per_actor {
                    let next = value.fetch_add(1, Ordering::SeqCst);

                    // fetch_add returns the old value
                    assert_eq!(previous, next);

                    // next time we will expect the old value + 1
                    previous = next + 1;
                }
                mutex.unlock_write();
            });
        }
    });

    assert_eq!(value.load(Ordering::SeqCst), actors * actions_per_actor);
    pool.shutdown();
}

#[test]
fn test_simple_waiting() {
    let pool = Pool::new(20);
    let mutex = RawSharedMutex::new();
    let cond = Condvar::new();
    let visits = AtomicUsize::new(0);

    pool.scoped(|scope| {
        mutex.write();

        scope.execute(|| {
            mutex.write();
            visits.fetch_add(1, Ordering::SeqCst);
            mutex.unlock_write();
            cond.notify_one();
        });

        // Write -> Read
        mutex.wait_from_write_to_read(&cond);

        scope.execute(|| {
            mutex.write();
            visits.fetch_add(1, Ordering::SeqCst);
            mutex.unlock_write();
            cond.notify_one();
        });

        // Read -> Read
        mutex.wait_from_read_to_read(&cond);

        scope.execute(|| {
            mutex.write();
            visits.fetch_add(1, Ordering::SeqCst);
            mutex.unlock_write();
            cond.notify_one();
        });

        // Read -> Write
        mutex.wait_from_read_to_write(&cond);
        assert!(!mutex.try_read());

        scope.execute(|| {
            mutex.write();
            visits.fetch_add(1, Ordering::SeqCst);
            mutex.unlock_write();
            cond.notify_one();
        });

        // Write -> Write
        mutex.wait_from_write_to_write(&cond);
        assert!(!mutex.try_write());
        mutex.unlock_write();
    });

    assert_eq!(visits.load(Ordering::SeqCst), 4);
    assert!(mutex.try_write());
    pool.shutdown();
}

#[test]
fn test_try_locking() {
    let mutex = RawSharedMutex::new();
    assert!(mutex.try_read());
    mutex.unlock_read();
    assert!(mutex.try_write());
    mutex.unlock_write();
    assert!(mutex.try_read());
    mutex.unlock_read();
    assert!(mutex.try_write());
    mutex.unlock_write();
}

#[test]
fn try_write_fails_while_a_reader_is_held() {
    let pool = Pool::new(2);
    let mutex = RawSharedMutex::new();
    let failures = AtomicUsize::new(0);

    mutex.read();
    pool.scoped(|scope| {
        scope.execute(|| {
            if !mutex.try_write() {
                failures.fetch_add(1, Ordering::SeqCst);
            }
        });
    });
    assert_eq!(failures.load(Ordering::SeqCst), 1);
    mutex.unlock_read();

    pool.scoped(|scope| {
        scope.execute(|| {
            assert!(mutex.try_write());
            mutex.unlock_write();
        });
    });
    assert!(mutex.try_read());
    pool.shutdown();
}

#[test]
fn a_new_lock_begins_idle() {
    // No writer is announced: a reader gets in at once.
    let read_first = RawSharedMutex::new();
    assert!(read_first.try_read());
    read_first.unlock_read();

    // No reader is counted either: a writer gets in at once.
    let write_first = RawSharedMutex::new();
    assert!(write_first.try_write());
    write_first.unlock_write();
}

#[test]
fn readers_share_and_writers_exclude() {
    let mutex = RawSharedMutex::new();
    assert!(mutex.try_read());
    assert!(mutex.try_read());
    mutex.read();
    assert!(!mutex.try_write());
    mutex.unlock_read();
    mutex.unlock_read();
    assert!(!mutex.try_write());
    mutex.unlock_read();
    assert!(mutex.try_write());
    assert!(!mutex.try_read());
    assert!(!mutex.try_write());
    mutex.unlock_write();
    mutex.write();
    assert!(!mutex.try_read());
    mutex.unlock_write();
    assert!(mutex.try_read());
}

#[test]
fn unlock_read_without_a_reader_changes_nothing() {
    let mutex = RawSharedMutex::new();
    mutex.unlock_read();
    assert!(mutex.try_write());
    mutex.unlock_read();
    assert!(!mutex.try_read());
    mutex.unlock_write();
    assert!(mutex.try_read());
}

#[test]
fn a_reader_sleeps_until_the_writer_leaves() {
    let pool = Pool::new(4);
    let mutex = RawSharedMutex::new();
    let value = AtomicUsize::new(0);
    let seen = AtomicUsize::new(usize::MAX);
    let arrived = Barrier::new(2);

    pool.scoped(|scope| {
        mutex.write();
        scope.execute(|| {
            arrived.wait();
            mutex.read();
            seen.store(value.load(Ordering::SeqCst), Ordering::SeqCst);
            mutex.unlock_read();
        });
        arrived.wait();
        for _ in 0..200_000 {
            std::hint::spin_loop();
        }
        assert_eq!(seen.load(Ordering::SeqCst), usize::MAX);
        value.store(1, Ordering::SeqCst);
        mutex.unlock_write();
    });

    assert_eq!(seen.load(Ordering::SeqCst), 1);
    pool.shutdown();
}

#[test]
fn a_writer_sleeps_until_the_readers_leave() {
    let pool = Pool::new(4);
    let mutex = RawSharedMutex::new();
    let value = AtomicUsize::new(0);
    let seen = AtomicUsize::new(usize::MAX);
    let arrived = Barrier::new(2);

    pool.scoped(|scope| {
        mutex.read();
        mutex.read();
        scope.execute(|| {
            arrived.wait();
            mutex.write();
            seen.store(value.load(Ordering::SeqCst), Ordering::SeqCst);
            mutex.unlock_write();
        });
        arrived.wait();
        for _ in 0..200_000 {
            std::hint::spin_loop();
        }
        mutex.unlock_read();
        for _ in 0..200_000 {
            std::hint::spin_loop();
        }
        assert_eq!(seen.load(Ordering::SeqCst), usize::MAX);
        value.store(1, Ordering::SeqCst);
        mutex.unlock_read();
    });

    assert_eq!(seen.load(Ordering::SeqCst), 1);
    pool.shutdown();
}

#[test]
fn an_announced_writer_keeps_new_readers_out() {
    let pool = Pool::new(4);
    let mutex = RawSharedMutex::new();
    let entered = AtomicUsize::new(0);

    pool.scoped(|scope| {
        mutex.read();
        scope.execute(|| {
            mutex.write();
            entered.store(1, Ordering::SeqCst);
            mutex.unlock_write();
        });

        // Until the writer has announced itself, readers still get in.
        let mut announced = false;
        for _ in 0..50_000_000u64 {
            if mutex.try_read() {
                mutex.unlock_read();
                std::hint::spin_loop();
            } else {
                announced = true;
                break;
            }
        }
        assert!(announced);

        // From then on none does, although the writer is not in yet.
        for _ in 0..1000 {
            assert!(!mutex.try_read());
        }
        assert_eq!(entered.load(Ordering::SeqCst), 0);
        mutex.unlock_read();
    });

    assert_eq!(entered.load(Ordering::SeqCst), 1);
    assert!(mutex.try_read());
    pool.shutdown();
}

#[test]
fn identity_is_not_equality_of_state() {
    let a = RawSharedMutex::new();
    let b = RawSharedMutex::new();
    assert!(a.is(&a));
    assert!(b.is(&b));
    assert!(!a.is(&b));
    assert!(!b.is(&a));
}
