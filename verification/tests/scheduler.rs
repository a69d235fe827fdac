//! End-to-end scheduler scenarios: seeded workloads run to quiescence.

use std::sync::atomic::{AtomicU64, Ordering};

use workqueue::queue::{WorkFn, WorkQueue, WorkUnit, WorkerProxy};

struct SquareFn;

impl WorkFn<AtomicU64, u32> for SquareFn {
    fn call(&self, data: u32, proxy: &mut WorkerProxy<AtomicU64, u32, Self>) {
        let v = (data as u64) * (data as u64);
        proxy.user_data().fetch_add(v, Ordering::SeqCst);
    }
}

struct FanOutFn;

impl WorkFn<AtomicU64, u32> for FanOutFn {
    fn call(&self, depth: u32, proxy: &mut WorkerProxy<AtomicU64, u32, Self>) {
        if depth == 0 {
            proxy.user_data().fetch_add(1, Ordering::SeqCst);
        } else {
            proxy.push(WorkUnit { fun: FanOutFn, data: depth - 1 });
            proxy.push(WorkUnit { fun: FanOutFn, data: depth - 1 });
        }
    }
}

enum MixedFn {
    Square,
    FanOut,
}

impl WorkFn<(AtomicU64, AtomicU64), u32> for MixedFn {
    fn call(&self, data: u32, proxy: &mut WorkerProxy<(AtomicU64, AtomicU64), u32, Self>) {
        match self {
            MixedFn::Square => {
                let v = (data as u64) * (data as u64);
                proxy.user_data().0.fetch_add(v, Ordering::SeqCst);
            }
            MixedFn::FanOut => {
                if data == 0 {
                    proxy.user_data().1.fetch_add(1, Ordering::SeqCst);
                } else {
                    proxy.push(WorkUnit { fun: MixedFn::FanOut, data: data - 1 });
                    proxy.push(WorkUnit { fun: MixedFn::FanOut, data: data - 1 });
                }
            }
        }
    }
}

struct SpinOrNopFn;

impl WorkFn<AtomicU64, u64> for SpinOrNopFn {
    fn call(&self, data: u64, proxy: &mut WorkerProxy<AtomicU64, u64, Self>) {
        if data > 0 {
            // One unit is much heavier than the rest.
            let mut acc: u64 = 0;
            for i in 0..data {
                acc = acc.wrapping_add(i).rotate_left(7);
            }
            proxy.user_data().fetch_add((acc | 1) & 1, Ordering::SeqCst);
        } else {
            proxy.user_data().fetch_add(1, Ordering::SeqCst);
        }
    }
}

struct SentinelFn;

impl WorkFn<(u64, AtomicU64), u32> for SentinelFn {
    fn call(&self, _data: u32, proxy: &mut WorkerProxy<(u64, AtomicU64), u32, Self>) {
        let seen = proxy.user_data();
        if seen.0 == 0xC0FFEE {
            seen.1.fetch_add(1, Ordering::SeqCst);
        }
    }
}

#[test]
fn sum_of_squares() {
    let mut q: WorkQueue<AtomicU64, u32, SquareFn> = WorkQueue::new(4, AtomicU64::new(0));
    for i in 0..1000u32 {
        q.push(WorkUnit { fun: SquareFn, data: i });
    }
    let executed = q.run();
    assert_eq!(executed, 1000);
    assert_eq!(q.data.load(Ordering::SeqCst), 332_833_500);
    assert_eq!(q.queued_count(), 0);
    q.shutdown();
}

#[test]
fn binary_fan_out() {
    let mut q: WorkQueue<AtomicU64, u32, FanOutFn> = WorkQueue::new(4, AtomicU64::new(0));
    q.push(WorkUnit { fun: FanOutFn, data: 10 });
    let executed = q.run();
    // A full binary tree of depth 10 has 2^11 - 1 nodes, 1024 of them leaves.
    assert_eq!(executed, 2047);
    assert_eq!(q.data.load(Ordering::SeqCst), 1024);
    assert_eq!(q.queued_count(), 0);
    q.shutdown();
}

#[test]
fn single_worker_fan_out() {
    let mut q: WorkQueue<AtomicU64, u32, FanOutFn> = WorkQueue::new(1, AtomicU64::new(0));
    q.push(WorkUnit { fun: FanOutFn, data: 10 });
    let executed = q.run();
    assert_eq!(executed, 2047);
    assert_eq!(q.data.load(Ordering::SeqCst), 1024);
    q.shutdown();
}

#[test]
fn imbalanced_seeds() {
    let mut q: WorkQueue<AtomicU64, u64, SpinOrNopFn> = WorkQueue::new(4, AtomicU64::new(0));
    q.push(WorkUnit { fun: SpinOrNopFn, data: 100_000 });
    for _ in 0..63 {
        q.push(WorkUnit { fun: SpinOrNopFn, data: 0 });
    }
    let executed = q.run();
    assert_eq!(executed, 64);
    assert_eq!(q.data.load(Ordering::SeqCst), 64);
    assert_eq!(q.queued_count(), 0);
}

#[test]
fn reuse_across_runs() {
    let data = (AtomicU64::new(0), AtomicU64::new(0));
    let mut q: WorkQueue<(AtomicU64, AtomicU64), u32, MixedFn> = WorkQueue::new(4, data);
    for i in 0..1000u32 {
        q.push(WorkUnit { fun: MixedFn::Square, data: i });
    }
    let first = q.run();
    assert_eq!(first, 1000);
    assert_eq!(q.data.0.load(Ordering::SeqCst), 332_833_500);
    assert_eq!(q.queued_count(), 0);
    q.push(WorkUnit { fun: MixedFn::FanOut, data: 10 });
    let second = q.run();
    assert_eq!(second, 2047);
    assert_eq!(q.data.1.load(Ordering::SeqCst), 1024);
    assert_eq!(q.queued_count(), 0);
    q.shutdown();
}

#[test]
fn empty_run_returns_immediately() {
    let mut q: WorkQueue<AtomicU64, u32, SquareFn> = WorkQueue::new(3, AtomicU64::new(0));
    let executed = q.run();
    assert_eq!(executed, 0);
    assert_eq!(q.queued_count(), 0);
    assert_eq!(q.data.load(Ordering::SeqCst), 0);
}

#[test]
fn user_data_reaches_every_unit() {
    let mut q: WorkQueue<(u64, AtomicU64), u32, SentinelFn> =
        WorkQueue::new(2, (0xC0FFEE, AtomicU64::new(0)));
    for i in 0..50u32 {
        q.push(WorkUnit { fun: SentinelFn, data: i });
    }
    let executed = q.run();
    assert_eq!(executed, 50);
    assert_eq!(q.data.1.load(Ordering::SeqCst), 50);
}

#[test]
fn shutdown_is_idempotent() {
    let mut q: WorkQueue<AtomicU64, u32, SquareFn> = WorkQueue::new(2, AtomicU64::new(0));
    q.push(WorkUnit { fun: SquareFn, data: 3 });
    let executed = q.run();
    assert_eq!(executed, 1);
    q.shutdown();
    assert!(q.is_shut_down());
    q.shutdown();
    assert!(q.is_shut_down());
}
