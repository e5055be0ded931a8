use std::cell::Cell;
use std::sync::atomic::AtomicU64;
use std::sync::{Arc, Mutex};

use jvmram_bridge::state::AppState;
use jvmram_bridge::supervisor::Phase;

#[test]
fn new_state_is_empty() {
    let state: AppState<String, u32> = AppState::new();
    assert!(!state.has_client());
    assert_eq!(state.phase(), Phase::NotStarted);
}

#[test]
fn first_request_creates_the_client() {
    let mut state: AppState<String, u32> = AppState::new();
    let (client, unused) = state.get_client(|| Ok::<String, String>("channel".to_string()));
    assert_eq!(client, Ok(&"channel".to_string()));
    assert!(unused.is_none());
    assert!(state.has_client());
}

#[test]
fn later_requests_share_the_first_client() {
    let mut state: AppState<String, u32> = AppState::new();
    let created = Cell::new(0u32);
    let make = |name: &str| {
        created.set(created.get() + 1);
        Ok::<String, String>(name.to_string())
    };
    assert_eq!(state.get_client(|| make("first")).0, Ok(&"first".to_string()));
    assert_eq!(state.get_client(|| make("second")).0, Ok(&"first".to_string()));
    assert_eq!(state.get_client(|| make("third")).0, Ok(&"first".to_string()));
    assert_eq!(created.get(), 1);
}

#[test]
fn held_client_hands_the_creation_back_unused() {
    let mut state: AppState<String, u32> = AppState::new();
    let (_, first) = state.get_client(|| Ok::<String, String>("first".to_string()));
    assert!(first.is_none());
    let (client, unused) = state.get_client(|| Ok::<String, String>("second".to_string()));
    assert_eq!(client, Ok(&"first".to_string()));
    let unused = unused.expect("the creation is handed back while a client is held");
    assert_eq!(unused(), Ok("second".to_string()));
}

#[test]
fn many_callers_see_one_initialization() {
    let mut state: AppState<u64, u32> = AppState::new();
    let created = Cell::new(0u64);
    for caller in 0..1000u64 {
        let (client, unused) = state.get_client(|| {
            created.set(created.get() + 1);
            Ok::<u64, String>(7000 + caller)
        });
        assert_eq!(client, Ok(&7000));
        assert_eq!(unused.is_some(), caller > 0);
    }
    assert_eq!(created.get(), 1);
}

#[test]
fn failed_creation_leaves_the_slot_empty() {
    let mut state: AppState<String, u32> = AppState::new();
    let (failed, unused) = state.get_client(|| Err::<String, String>("invalid URI".to_string()));
    assert_eq!(failed, Err("invalid URI".to_string()));
    assert!(unused.is_none());
    assert!(!state.has_client());
    let (retried, unused) = state.get_client(|| Ok::<String, String>("channel".to_string()));
    assert_eq!(retried, Ok(&"channel".to_string()));
    assert!(unused.is_none());
    let (kept, unused) = state.get_client(|| Err::<String, String>("never asked".to_string()));
    assert_eq!(kept, Ok(&"channel".to_string()));
    assert!(unused.is_some());
}

#[test]
fn client_does_not_touch_the_backend() {
    let mut state: AppState<String, u32> = AppState::new();
    assert_eq!(state.backend_started(10), Ok(()));
    let _ = state.get_client(|| Ok::<String, String>("channel".to_string()));
    assert_eq!(state.phase(), Phase::Running);
    assert_eq!(state.kill_backend(), Some(10));
    assert!(state.has_client());
}

#[test]
fn backend_is_recorded_once() {
    let mut state: AppState<String, u32> = AppState::new();
    assert_eq!(state.backend_started(10), Ok(()));
    assert_eq!(state.backend_started(11), Err(11));
    assert_eq!(state.phase(), Phase::Running);
    assert_eq!(state.kill_backend(), Some(10));
}

#[test]
fn kill_backend_twice_obtains_the_process_once() {
    let mut state: AppState<String, u32> = AppState::new();
    assert_eq!(state.backend_started(4242), Ok(()));
    assert_eq!(state.kill_backend(), Some(4242));
    assert_eq!(state.phase(), Phase::Terminating);
    assert_eq!(state.kill_backend(), None);
    assert_eq!(state.phase(), Phase::Terminating);
    state.backend_reaped();
    assert_eq!(state.phase(), Phase::Terminated);
    assert_eq!(state.kill_backend(), None);
    assert_eq!(state.phase(), Phase::Terminated);
}

#[test]
fn kill_backend_without_a_backend_does_nothing() {
    let mut state: AppState<String, u32> = AppState::new();
    assert_eq!(state.kill_backend(), None);
    assert_eq!(state.phase(), Phase::NotStarted);
}

#[test]
fn many_shutdown_triggers_signal_once() {
    let mut state: AppState<String, u32> = AppState::new();
    assert_eq!(state.backend_started(1), Ok(()));
    let mut sequences = 0;
    for _ in 0..100 {
        if state.kill_backend().is_some() {
            sequences += 1;
        }
    }
    assert_eq!(sequences, 1);
}

#[test]
fn concurrent_first_callers_see_one_initialization() {
    let runtime = tokio::runtime::Builder::new_multi_thread().worker_threads(4).build().unwrap();
    let state = Arc::new(Mutex::new(AppState::<u64, u32>::new()));
    let created = Arc::new(AtomicU64::new(0));
    let seen: Vec<u64> = runtime.block_on(async {
        let mut callers = Vec::new();
        for caller in 0..64u64 {
            let state = state.clone();
            let created = created.clone();
            callers.push(tokio::spawn(async move {
                let mut guard = state.lock().unwrap();
                let (client, _) = guard.get_client(|| {
                    created.fetch_add(1, std::sync::atomic::Ordering::SeqCst);
                    Ok::<u64, String>(9000 + caller)
                });
                *client.unwrap()
            }));
        }
        let mut seen = Vec::new();
        for caller in callers {
            seen.push(caller.await.unwrap());
        }
        seen
    });
    assert_eq!(created.load(std::sync::atomic::Ordering::SeqCst), 1);
    assert_eq!(seen.len(), 64);
    assert!(seen.iter().all(|client| *client == seen[0]));
}

#[test]
fn concurrent_shutdown_triggers_take_the_process_once() {
    let runtime = tokio::runtime::Builder::new_multi_thread().worker_threads(4).build().unwrap();
    let mut started = AppState::<u64, u32>::new();
    assert_eq!(started.backend_started(4242), Ok(()));
    let state = Arc::new(Mutex::new(started));
    let taken: Vec<Option<u32>> = runtime.block_on(async {
        let mut triggers = Vec::new();
        for _ in 0..64 {
            let state = state.clone();
            triggers.push(tokio::spawn(async move { state.lock().unwrap().kill_backend() }));
        }
        let mut taken = Vec::new();
        for trigger in triggers {
            taken.push(trigger.await.unwrap());
        }
        taken
    });
    assert_eq!(taken.iter().filter(|process| process.is_some()).count(), 1);
    assert!(taken.contains(&Some(4242)));
    assert_eq!(state.lock().unwrap().phase(), Phase::Terminating);
}
