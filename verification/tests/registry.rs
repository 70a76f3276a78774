use std::future::Future;
use std::pin::Pin;
use std::sync::atomic::{AtomicBool, AtomicUsize, Ordering};
use std::sync::Arc;
use std::task::{Context, Poll};
use std::time::Duration;
use stream_relay::connection::SseConnection;
use stream_relay::registry::{decide_start, SseProxyState, StartDecision};

fn runtime() -> tokio::runtime::Runtime {
    tokio::runtime::Builder::new_current_thread().enable_time().build().unwrap()
}

/// A task body that never ends by itself and notes when it is dropped.
struct Never {
    dropped: Arc<AtomicBool>,
}

impl Future for Never {
    type Output = ();

    fn poll(self: Pin<&mut Self>, _cx: &mut Context<'_>) -> Poll<()> {
        Poll::Pending
    }
}

impl Drop for Never {
    fn drop(&mut self) {
        self.dropped.store(true, Ordering::SeqCst);
    }
}

#[test]
fn decide_start_covers_every_case() {
    assert_eq!(decide_start(false, false), StartDecision::Fresh);
    assert_eq!(decide_start(false, true), StartDecision::Fresh);
    assert_eq!(decide_start(true, true), StartDecision::AlreadyActive);
    assert_eq!(decide_start(true, false), StartDecision::Replace);
}

#[test]
fn start_of_a_running_session_spawns_no_second_task() {
    let rt = runtime();
    let _guard = rt.enter();
    let spawned = Arc::new(AtomicUsize::new(0));
    let mut registry = SseProxyState::new();
    for _ in 0..2 {
        let count = spawned.clone();
        registry.start("tab".to_string(), move |_flag| {
            count.fetch_add(1, Ordering::SeqCst);
            tokio::spawn(std::future::pending::<()>())
        });
    }
    assert_eq!(spawned.load(Ordering::SeqCst), 1);
    assert_eq!(registry.len(), 1);
    assert!(registry.contains("tab"));
    registry.stop_all();
}

#[test]
fn start_tells_whether_it_spawned() {
    let rt = runtime();
    let _guard = rt.enter();
    let mut registry = SseProxyState::new();
    assert!(registry.start("a".to_string(), |_f| tokio::spawn(std::future::pending::<()>())));
    assert!(!registry.start("a".to_string(), |_f| tokio::spawn(std::future::pending::<()>())));
    assert!(registry.start("b".to_string(), |_f| tokio::spawn(std::future::pending::<()>())));
    assert_eq!(registry.len(), 2);
    registry.stop_all();
}

#[test]
fn the_new_connection_has_its_flag_set() {
    let rt = runtime();
    let _guard = rt.enter();
    let seen = Arc::new(AtomicBool::new(false));
    let seen_in = seen.clone();
    let mut registry = SseProxyState::new();
    registry.start("tab".to_string(), move |flag| {
        seen_in.store(flag.load(Ordering::SeqCst), Ordering::SeqCst);
        tokio::spawn(std::future::pending::<()>())
    });
    assert!(seen.load(Ordering::SeqCst));
    registry.stop_all();
}

#[test]
fn a_session_whose_task_has_ended_is_replaced() {
    let rt = runtime();
    let _guard = rt.enter();
    let mut registry = SseProxyState::new();
    let kept: Arc<std::sync::Mutex<Option<Arc<AtomicBool>>>> = Arc::new(std::sync::Mutex::new(None));
    let keep = kept.clone();
    assert!(registry.start("tab".to_string(), move |flag| {
        *keep.lock().unwrap() = Some(flag);
        tokio::spawn(async {})
    }));
    // The task clears the flag when its stream ends.
    kept.lock().unwrap().as_ref().unwrap().store(false, Ordering::SeqCst);
    assert!(registry.start("tab".to_string(), |_f| tokio::spawn(std::future::pending::<()>())));
    assert_eq!(registry.len(), 1);
    registry.stop_all();
}

#[test]
fn stop_removes_the_session_and_clears_its_flag() {
    let rt = runtime();
    let _guard = rt.enter();
    let mut registry = SseProxyState::new();
    let kept: Arc<std::sync::Mutex<Option<Arc<AtomicBool>>>> = Arc::new(std::sync::Mutex::new(None));
    let keep = kept.clone();
    registry.start("tab".to_string(), move |flag| {
        *keep.lock().unwrap() = Some(flag);
        tokio::spawn(std::future::pending::<()>())
    });
    registry.start("other".to_string(), |_f| tokio::spawn(std::future::pending::<()>()));
    assert!(registry.stop("tab"));
    assert!(!registry.contains("tab"));
    assert!(registry.contains("other"));
    assert_eq!(registry.len(), 1);
    assert!(!kept.lock().unwrap().as_ref().unwrap().load(Ordering::SeqCst));
    assert!(!registry.stop("tab"));
    assert!(!registry.stop("never"));
    assert_eq!(registry.len(), 1);
    registry.stop_all();
}

#[test]
fn stop_all_empties_the_registry_and_ends_a_task_that_never_would() {
    let rt = runtime();
    let dropped: Vec<Arc<AtomicBool>> = (0..3).map(|_| Arc::new(AtomicBool::new(false))).collect();
    let mut registry = SseProxyState::new();
    {
        let _guard = rt.enter();
        for (i, d) in dropped.iter().enumerate() {
            let d = d.clone();
            registry.start(format!("tab-{}", i), move |_f| tokio::spawn(Never { dropped: d }));
        }
    }
    assert_eq!(registry.len(), 3);
    assert_eq!(registry.stop_all(), 3);
    assert_eq!(registry.len(), 0);
    assert!(!registry.contains("tab-0"));
    rt.block_on(async {
        tokio::time::sleep(Duration::from_millis(50)).await;
    });
    for d in &dropped {
        assert!(d.load(Ordering::SeqCst));
    }
    assert_eq!(registry.stop_all(), 0);
}

#[test]
fn a_new_registry_is_empty() {
    let registry = SseProxyState::new();
    assert_eq!(registry.len(), 0);
    assert!(!registry.contains("__default__"));
}

#[test]
fn a_connection_stops_in_two_phases() {
    let rt = runtime();
    let dropped = Arc::new(AtomicBool::new(false));
    let mut connection = SseConnection::new();
    assert!(!connection.is_running());
    assert!(!connection.is_attached());
    connection.mark_running();
    assert!(connection.is_running());
    let flag = connection.flag();
    assert!(flag.load(Ordering::SeqCst));
    let handle = rt.spawn(Never { dropped: dropped.clone() });
    connection.attach(handle);
    assert!(connection.is_attached());
    connection.stop();
    assert!(!connection.is_running());
    assert!(!flag.load(Ordering::SeqCst));
    assert!(!connection.is_attached());
    rt.block_on(async {
        tokio::time::sleep(Duration::from_millis(50)).await;
    });
    assert!(dropped.load(Ordering::SeqCst));
    connection.stop();
    assert!(!connection.is_attached());
}

#[test]
fn start_with_follows_the_flag_as_given() {
    let rt = runtime();
    let _guard = rt.enter();
    let mut registry = SseProxyState::default();
    // Not registered: a task is spawned whatever the flag is said to be.
    assert!(registry.start_with("a".to_string(), true, |_f| tokio::spawn(std::future::pending::<()>())));
    // Registered and running: nothing happens.
    assert!(!registry.start_with("a".to_string(), true, |_f| tokio::spawn(std::future::pending::<()>())));
    assert_eq!(registry.len(), 1);
    // Registered and no longer running: replaced.
    assert!(registry.start_with("a".to_string(), false, |_f| tokio::spawn(std::future::pending::<()>())));
    assert_eq!(registry.len(), 1);
    assert!(registry.start_with("b".to_string(), false, |_f| tokio::spawn(std::future::pending::<()>())));
    assert_eq!(registry.len(), 2);
    assert_eq!(registry.stop_all(), 2);
}

#[test]
fn a_replaced_connection_is_stopped_in_full() {
    let rt = runtime();
    let dropped = Arc::new(AtomicBool::new(false));
    let kept: Arc<std::sync::Mutex<Option<Arc<AtomicBool>>>> = Arc::new(std::sync::Mutex::new(None));
    let mut registry = SseProxyState::new();
    {
        let _guard = rt.enter();
        let keep = kept.clone();
        let d = dropped.clone();
        registry.start("tab".to_string(), move |flag| {
            *keep.lock().unwrap() = Some(flag);
            tokio::spawn(Never { dropped: d })
        });
        assert!(registry.start_with("tab".to_string(), false, |_f| {
            tokio::spawn(std::future::pending::<()>())
        }));
    }
    assert!(!kept.lock().unwrap().as_ref().unwrap().load(Ordering::SeqCst));
    rt.block_on(async {
        tokio::time::sleep(Duration::from_millis(50)).await;
    });
    assert!(dropped.load(Ordering::SeqCst));
    assert_eq!(registry.len(), 1);
    registry.stop_all();
}

#[test]
fn flag_hands_out_the_connections_own_flag() {
    let rt = runtime();
    let mut connection = SseConnection::new();
    let first = connection.flag();
    let second = connection.flag();
    assert!(Arc::ptr_eq(&first, &second));
    first.store(true, Ordering::SeqCst);
    assert!(connection.is_running());
    assert!(second.load(Ordering::SeqCst));
    connection.attach(rt.spawn(std::future::pending::<()>()));
    assert!(Arc::ptr_eq(&connection.flag(), &first));
    connection.stop();
    assert!(Arc::ptr_eq(&connection.flag(), &first));
    assert!(!first.load(Ordering::SeqCst));
    let other = SseConnection::new();
    assert!(!Arc::ptr_eq(&other.flag(), &first));
}

type Kept = Arc<std::sync::Mutex<Option<Arc<AtomicBool>>>>;

fn kept() -> Kept {
    Arc::new(std::sync::Mutex::new(None))
}

fn flag_of(kept: &Kept) -> Arc<AtomicBool> {
    kept.lock().unwrap().as_ref().unwrap().clone()
}

fn start_never(
    rt: &tokio::runtime::Runtime,
    registry: &mut SseProxyState,
    id: &str,
    keep: &Kept,
    dropped: &Arc<AtomicBool>,
) -> bool {
    let _guard = rt.enter();
    let keep = keep.clone();
    let dropped = dropped.clone();
    registry.start(id.to_string(), move |flag| {
        *keep.lock().unwrap() = Some(flag);
        tokio::spawn(Never { dropped })
    })
}

fn settle(rt: &tokio::runtime::Runtime) {
    rt.block_on(async {
        tokio::time::sleep(Duration::from_millis(50)).await;
    });
}

#[test]
fn stop_leaves_the_other_sessions_as_they_are() {
    let rt = runtime();
    let mut registry = SseProxyState::new();
    let (flag_a, flag_b, flag_c) = (kept(), kept(), kept());
    let gone: Vec<Arc<AtomicBool>> = (0..3).map(|_| Arc::new(AtomicBool::new(false))).collect();
    assert!(start_never(&rt, &mut registry, "a", &flag_a, &gone[0]));
    assert!(start_never(&rt, &mut registry, "b", &flag_b, &gone[1]));
    assert!(start_never(&rt, &mut registry, "c", &flag_c, &gone[2]));
    assert!(registry.stop("b"));
    settle(&rt);
    assert!(!flag_of(&flag_b).load(Ordering::SeqCst));
    assert!(gone[1].load(Ordering::SeqCst));
    for (flag, dropped) in [(&flag_a, &gone[0]), (&flag_c, &gone[2])] {
        assert!(flag_of(flag).load(Ordering::SeqCst));
        assert!(!dropped.load(Ordering::SeqCst));
    }
    assert!(registry.contains("a") && registry.contains("c") && !registry.contains("b"));
    assert_eq!(registry.len(), 2);
    registry.stop_all();
}

#[test]
fn stop_of_a_session_that_is_not_registered_changes_nothing() {
    let rt = runtime();
    let mut registry = SseProxyState::new();
    let flag = kept();
    let gone = Arc::new(AtomicBool::new(false));
    start_never(&rt, &mut registry, "a", &flag, &gone);
    assert!(!registry.stop("other"));
    settle(&rt);
    assert!(flag_of(&flag).load(Ordering::SeqCst));
    assert!(!gone.load(Ordering::SeqCst));
    assert_eq!(registry.len(), 1);
    assert!(registry.contains("a"));
    registry.stop_all();
}

#[test]
fn start_of_a_running_session_leaves_its_connection_alone() {
    let rt = runtime();
    let mut registry = SseProxyState::new();
    let flag = kept();
    let gone = Arc::new(AtomicBool::new(false));
    assert!(start_never(&rt, &mut registry, "a", &flag, &gone));
    let first = flag_of(&flag);
    let again = kept();
    let never = Arc::new(AtomicBool::new(false));
    assert!(!start_never(&rt, &mut registry, "a", &again, &never));
    settle(&rt);
    assert!(again.lock().unwrap().is_none());
    assert!(first.load(Ordering::SeqCst));
    assert!(!gone.load(Ordering::SeqCst));
    assert_eq!(registry.len(), 1);
    // The connection that is registered is still the first one.
    assert!(registry.stop("a"));
    settle(&rt);
    assert!(!first.load(Ordering::SeqCst));
    assert!(gone.load(Ordering::SeqCst));
}

#[test]
fn start_leaves_the_other_sessions_as_they_are() {
    let rt = runtime();
    let mut registry = SseProxyState::new();
    let (flag_a, flag_b) = (kept(), kept());
    let gone: Vec<Arc<AtomicBool>> = (0..3).map(|_| Arc::new(AtomicBool::new(false))).collect();
    start_never(&rt, &mut registry, "a", &flag_a, &gone[0]);
    start_never(&rt, &mut registry, "b", &flag_b, &gone[1]);
    // The task of b has ended and cleared its flag: the next start replaces it.
    let stale = flag_of(&flag_b);
    stale.store(false, Ordering::SeqCst);
    assert!(start_never(&rt, &mut registry, "b", &flag_b, &gone[2]));
    settle(&rt);
    assert!(gone[1].load(Ordering::SeqCst));
    assert!(!gone[2].load(Ordering::SeqCst));
    assert!(flag_of(&flag_a).load(Ordering::SeqCst));
    assert!(!gone[0].load(Ordering::SeqCst));
    assert_eq!(registry.len(), 2);
    registry.stop_all();
}

#[test]
fn the_task_shares_the_flag_of_the_connection_that_is_registered() {
    let rt = runtime();
    let mut registry = SseProxyState::new();
    let flag = kept();
    let gone: Vec<Arc<AtomicBool>> = (0..2).map(|_| Arc::new(AtomicBool::new(false))).collect();
    start_never(&rt, &mut registry, "a", &flag, &gone[0]);
    let first = flag_of(&flag);
    first.store(false, Ordering::SeqCst);
    assert!(start_never(&rt, &mut registry, "a", &flag, &gone[1]));
    let second = flag_of(&flag);
    assert!(!Arc::ptr_eq(&first, &second));
    assert!(second.load(Ordering::SeqCst));
    // Stopping the session clears the flag that the new task was given and
    // aborts the task whose handle was stored.
    assert!(registry.stop("a"));
    settle(&rt);
    assert!(!second.load(Ordering::SeqCst));
    assert!(gone[1].load(Ordering::SeqCst));
    assert_eq!(registry.len(), 0);
}

#[test]
fn start_and_stop_of_a_new_session_give_the_registry_back() {
    let rt = runtime();
    let mut registry = SseProxyState::new();
    let flag = kept();
    let gone = Arc::new(AtomicBool::new(false));
    start_never(&rt, &mut registry, "kept", &flag, &gone);
    let (new_flag, new_gone) = (kept(), Arc::new(AtomicBool::new(false)));
    assert!(start_never(&rt, &mut registry, "new", &new_flag, &new_gone));
    assert!(registry.stop("new"));
    settle(&rt);
    assert!(new_gone.load(Ordering::SeqCst));
    assert!(!flag_of(&new_flag).load(Ordering::SeqCst));
    assert!(flag_of(&flag).load(Ordering::SeqCst));
    assert!(!gone.load(Ordering::SeqCst));
    assert_eq!(registry.len(), 1);
    assert!(registry.contains("kept"));
    registry.stop_all();
}
