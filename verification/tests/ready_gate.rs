//! Tests of the one-shot readiness latch, including concurrent waiters.

use std::sync::Arc;
use std::time::Duration;

use lost_metrics::AppReadyState;

#[test]
fn fresh_latch_releases_nobody() {
    let gate = AppReadyState::new();
    assert!(!gate.wait_for_ready());
}

#[test]
fn wait_after_mark_ready_returns_immediately() {
    let mut gate = AppReadyState::new();
    gate.mark_ready();
    assert!(gate.wait_for_ready());
}

#[test]
fn mark_ready_is_idempotent_and_sticky() {
    let mut gate = AppReadyState::new();
    gate.mark_ready();
    gate.mark_ready();
    assert!(gate.wait_for_ready());
    assert!(gate.wait_for_ready());
}

#[test]
fn concurrent_waiters_all_release_on_one_mark() {
    let runtime = tokio::runtime::Builder::new_multi_thread()
        .worker_threads(4)
        .enable_time()
        .build()
        .unwrap();
    runtime.block_on(async {
        let gate = Arc::new(tokio::sync::Mutex::new(AppReadyState::new()));
        let mut waiters = Vec::new();
        for _ in 0..3 {
            let gate = gate.clone();
            waiters.push(tokio::spawn(async move {
                loop {
                    if gate.lock().await.wait_for_ready() {
                        return true;
                    }
                    tokio::time::sleep(Duration::from_millis(1)).await;
                }
            }));
        }
        tokio::time::sleep(Duration::from_millis(20)).await;
        for waiter in &waiters {
            assert!(!waiter.is_finished());
        }
        gate.lock().await.mark_ready();
        for waiter in waiters {
            let released = tokio::time::timeout(Duration::from_secs(5), waiter)
                .await
                .expect("waiter was not released")
                .unwrap();
            assert!(released);
        }
    });
}
