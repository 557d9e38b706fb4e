use std::time::Duration;

use aarambh_net::signal::ShutdownSignal;

fn runtime() -> tokio::runtime::Runtime {
    tokio::runtime::Builder::new_current_thread().enable_all().build().unwrap()
}

async fn fires_soon(signal: &ShutdownSignal) -> bool {
    tokio::time::timeout(Duration::from_millis(100), signal.notifier().notified()).await.is_ok()
}

#[test]
fn a_new_signal_has_not_fired() {
    runtime().block_on(async {
        let signal = ShutdownSignal::new();
        assert!(!fires_soon(&signal).await);
    });
}

#[test]
fn shared_handles_have_one_notifier() {
    let signal = ShutdownSignal::new();
    let other = signal.share();
    assert!(std::ptr::eq(signal.notifier(), other.notifier()));
    let unrelated = ShutdownSignal::new();
    assert!(!std::ptr::eq(signal.notifier(), unrelated.notifier()));
}

#[test]
fn a_trigger_reaches_a_shared_handle() {
    runtime().block_on(async {
        let signal = ShutdownSignal::new();
        let other = signal.share();
        signal.trigger();
        assert!(fires_soon(&other).await);
    });
}

#[test]
fn a_trigger_with_nobody_waiting_is_kept_once() {
    runtime().block_on(async {
        let signal = ShutdownSignal::new();
        signal.trigger();
        signal.trigger();
        signal.trigger();
        assert!(fires_soon(&signal).await);
        assert!(!fires_soon(&signal).await);
    });
}

#[test]
fn one_trigger_wakes_one_of_two_waiters() {
    runtime().block_on(async {
        let signal = ShutdownSignal::new();
        let wait = |handle: ShutdownSignal| async move { handle.notifier().notified().await };
        let first = tokio::spawn(wait(signal.share()));
        let second = tokio::spawn(wait(signal.share()));
        for _ in 0..8 {
            tokio::task::yield_now().await;
        }
        signal.trigger();
        for _ in 0..8 {
            tokio::task::yield_now().await;
        }
        assert!(first.is_finished());
        assert!(!second.is_finished());
        signal.trigger();
        for _ in 0..8 {
            tokio::task::yield_now().await;
        }
        assert!(second.is_finished());
    });
}
