use napi_ext::notify::NotifyFlag;
use napi_ext::runtime::{CycleState, LocalRuntime, SetupError, SpawnStep, WakerEvent};
use napi_ext::scheduler::{retain_pending, LocalScheduler};
use napi_ext::waker::{Notifier, NotifierAction};

fn is_done(e: &WakerEvent<u8>) -> bool {
    matches!(e, WakerEvent::Done)
}

fn is_next(e: &WakerEvent<u8>) -> bool {
    matches!(e, WakerEvent::Next)
}

#[test]
fn task_done_on_first_poll() {
    let mut rt: LocalRuntime<&str> = LocalRuntime::new();
    assert_eq!(rt.spawn("a"), SpawnStep::Install);
    assert_eq!(rt.cycle_state(), CycleState::Installing);
    let init = rt.install_result::<u8>(Ok(7));
    assert!(matches!(init, Ok(WakerEvent::Init(7))));
    assert_eq!(rt.cycle_state(), CycleState::Running);
    let tasks = rt.begin_pass();
    assert_eq!(tasks, vec!["a"]);
    let ev = rt.finish_pass::<u8>(tasks, &vec![true]);
    assert!(is_done(&ev));
    assert_eq!(rt.futures_count(), 0);
    assert_eq!(rt.cycle_state(), CycleState::Idle);
}

#[test]
fn pending_task_runs_after_wake() {
    let mut rt: LocalRuntime<&str> = LocalRuntime::new();
    let mut flag = NotifyFlag::new();
    assert_eq!(rt.spawn("b"), SpawnStep::Install);
    assert!(rt.install_result::<u8>(Ok(1)).is_ok());
    let tasks = rt.begin_pass();
    let ev = rt.finish_pass::<u8>(tasks, &vec![false]);
    assert!(is_next(&ev));
    assert_eq!(rt.futures_count(), 1);
    assert!(!flag.is_pending());
    flag.signal();
    assert!(flag.take());
    let tasks = rt.begin_pass();
    assert_eq!(tasks, vec!["b"]);
    let ev = rt.finish_pass::<u8>(tasks, &vec![true]);
    assert!(is_done(&ev));
    assert_eq!(rt.futures_count(), 0);
}

#[test]
fn two_submissions_one_init() {
    let mut rt: LocalRuntime<u32> = LocalRuntime::new();
    assert_eq!(rt.spawn(1), SpawnStep::Install);
    assert_eq!(rt.spawn(2), SpawnStep::Queued);
    assert!(matches!(rt.install_result::<u8>(Ok(3)), Ok(WakerEvent::Init(3))));
    assert_eq!(rt.spawn(3), SpawnStep::Queued);
    let tasks = rt.begin_pass();
    assert_eq!(tasks, vec![1, 2, 3]);
    let ev = rt.finish_pass::<u8>(tasks, &vec![true, true, true]);
    assert!(is_done(&ev));
}

#[test]
fn setup_failure_leaves_task_stalled() {
    let mut rt: LocalRuntime<u32> = LocalRuntime::new();
    assert_eq!(rt.spawn(1), SpawnStep::Install);
    let r = rt.install_result::<u8>(Err(SetupError::CallbackCreation));
    assert!(matches!(r, Err(SetupError::CallbackCreation)));
    assert_eq!(rt.cycle_state(), CycleState::Idle);
    assert_eq!(rt.futures_count(), 1);
    assert_eq!(rt.spawn(2), SpawnStep::Queued);
    assert_eq!(rt.futures_count(), 2);
    assert_eq!(rt.cycle_state(), CycleState::Idle);
}

#[test]
fn notifier_thread_failure_is_reported() {
    let mut rt: LocalRuntime<u32> = LocalRuntime::new();
    assert_eq!(rt.spawn(1), SpawnStep::Install);
    let r = rt.install_result::<u8>(Err(SetupError::NotifierThread));
    assert!(matches!(r, Err(SetupError::NotifierThread)));
}

#[test]
fn new_cycle_after_done() {
    let mut rt: LocalRuntime<u32> = LocalRuntime::new();
    assert_eq!(rt.spawn(1), SpawnStep::Install);
    assert!(rt.install_result::<u8>(Ok(0)).is_ok());
    let tasks = rt.begin_pass();
    assert!(is_done(&rt.finish_pass::<u8>(tasks, &vec![true])));
    assert_eq!(rt.spawn(2), SpawnStep::Install);
}

#[test]
fn submission_during_pass_does_not_reinstall() {
    let mut rt: LocalRuntime<u32> = LocalRuntime::new();
    assert_eq!(rt.spawn(1), SpawnStep::Install);
    assert!(rt.install_result::<u8>(Ok(0)).is_ok());
    let tasks = rt.begin_pass();
    assert_eq!(rt.spawn(9), SpawnStep::Queued);
    let ev = rt.finish_pass::<u8>(tasks, &vec![false]);
    assert!(is_next(&ev));
    assert_eq!(rt.begin_pass(), vec![1, 9]);
}

#[test]
fn done_pass_repeats_done() {
    let mut s: LocalScheduler<u32> = LocalScheduler::new();
    s.queue_future(4);
    let t = s.begin_pass();
    assert!(s.finish_pass(t, &vec![true]));
    let t = s.begin_pass();
    assert!(t.is_empty());
    assert!(s.finish_pass(t, &vec![]));
    assert_eq!(s.futures_count(), 0);
}

#[test]
fn pass_keeps_pending_in_order() {
    let mut s: LocalScheduler<u32> = LocalScheduler::new();
    for i in 0..5u32 {
        s.queue_future(i);
    }
    assert_eq!(s.futures_count(), 5);
    let t = s.begin_pass();
    assert_eq!(s.futures_count(), 0);
    s.queue_future(10);
    let done = s.finish_pass(t, &vec![true, false, true, false, false]);
    assert!(!done);
    assert_eq!(s.begin_pass(), vec![1, 3, 4, 10]);
}

#[test]
fn retain_pending_drops_ready() {
    assert_eq!(retain_pending(vec![1, 2, 3], &vec![false, true, false]), vec![1, 3]);
    assert_eq!(retain_pending(Vec::<u8>::new(), &vec![]), Vec::<u8>::new());
    assert_eq!(retain_pending(vec![5, 6], &vec![true, true]), Vec::<i32>::new());
}

#[test]
fn signals_coalesce() {
    let mut f = NotifyFlag::new();
    assert!(!f.take());
    for _ in 0..5 {
        f.signal();
    }
    assert!(f.take());
    assert!(!f.take());
    assert!(!f.take());
}

#[test]
fn signal_before_wait_is_seen() {
    let mut f = NotifyFlag::new();
    f.signal();
    assert!(f.is_pending());
    assert!(f.take());
    assert!(!f.is_pending());
}

#[test]
fn notifier_follows_events() {
    let mut n: Notifier<u8> = Notifier::new();
    assert!(!n.is_active());
    assert_eq!(n.on_event(WakerEvent::Next), NotifierAction::Exit);
    assert_eq!(n.on_event(WakerEvent::Init(4)), NotifierAction::WaitThenInvoke);
    assert!(n.is_active());
    assert_eq!(n.handle_ref(), Some(&4));
    assert_eq!(n.on_event(WakerEvent::Next), NotifierAction::WaitThenInvoke);
    assert_eq!(n.handle_ref(), Some(&4));
    assert_eq!(n.on_event(WakerEvent::Done), NotifierAction::Exit);
    assert!(!n.is_active());
    assert_eq!(n.handle_ref(), None);
}
