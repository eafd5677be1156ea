use async_channel::RecvError;
use futures::executor::block_on;
use wasm_thread::{
    handle_message, prepare_thread, scope_outcome, scope_wait, Builder, BuilderRequest, JoinError, ScopeCounter, ScopeOutcome, ScopeWait, ScopedJoinHandle, SpawnRoute,
    SpawnRouter, WorkerMessage,
};

#[test]
fn builder_base_configuration() {
    let b = Builder::new();
    assert_eq!(
        format!("{:?}", b),
        "Builder { name: None, stack_size: None, wasm_bindgen_shim_url: None }"
    );
    let d: Builder = Default::default();
    assert_eq!(format!("{:?}", d), format!("{:?}", Builder::new()));
}

#[test]
fn builder_settings() {
    let b = Builder::new()
        .name(String::from("reader"))
        .stack_size(65536)
        .wasm_bindgen_shim_url(String::from("pkg/app.js"));
    assert_eq!(
        format!("{:?}", b),
        "Builder { name: Some(\"reader\"), stack_size: Some(65536), wasm_bindgen_shim_url: Some(\"pkg/app.js\") }"
    );
    assert_eq!(
        b.into_worker_settings(),
        (Some(String::from("reader")), Some(String::from("pkg/app.js")))
    );
}

#[test]
fn builder_last_setting_wins() {
    let b = Builder::new().name(String::from("a")).stack_size(1).name(String::from("b")).stack_size(2);
    assert_eq!(
        format!("{:?}", b),
        "Builder { name: Some(\"b\"), stack_size: Some(2), wasm_bindgen_shim_url: None }"
    );
}

#[test]
fn builder_settings_commute() {
    let x = Builder::new().name(String::from("n")).wasm_bindgen_shim_url(String::from("u"));
    let y = Builder::new().wasm_bindgen_shim_url(String::from("u")).name(String::from("n"));
    assert_eq!(format!("{:?}", x), format!("{:?}", y));
}

#[test]
fn thread_join() {
    let (main, handle) = prepare_thread(|| 1234);
    main.run();
    let received = block_on(handle.receiving_end().recv());
    assert_eq!(handle.join(received).unwrap(), 1234);
}

#[test]
fn join_of_thread_that_never_ran() {
    let (main, handle) = prepare_thread(|| String::from("never"));
    drop(main);
    let received = block_on(handle.receiving_end().recv());
    assert_eq!(handle.join(received), Err(JoinError::Terminated));
}

#[test]
fn join_after_handle_dropped_is_harmless() {
    let (main, handle) = prepare_thread(|| vec![1, 2, 3]);
    drop(handle);
    main.run();
}

#[test]
fn join_handle_describe() {
    let (_main, handle) = prepare_thread(|| 0u8);
    assert_eq!(handle.describe(), "JoinHandle { .. }");
}

#[test]
fn join_maps_what_arrived() {
    let (_main, handle) = prepare_thread(|| 0u32);
    assert_eq!(handle.join(Ok(7)), Ok(7));
    let (_main, handle) = prepare_thread(|| 0u32);
    assert_eq!(handle.join(Err(RecvError)), Err(JoinError::Terminated));
}

#[test]
fn scoped_join_gives_value_or_error() {
    let (main, handle) = prepare_thread(|| 42);
    main.run();
    let scoped = ScopedJoinHandle::new(handle);
    let received = block_on(scoped.receiving_end().recv());
    assert_eq!(scoped.join(received).unwrap(), 42);

    let (main, handle) = prepare_thread(|| 42);
    drop(main);
    let scoped = ScopedJoinHandle::new(handle);
    let received = block_on(scoped.receiving_end().recv());
    let err = scoped.join(received).unwrap_err();
    assert_eq!(err.kind(), std::io::ErrorKind::Other);
    assert_eq!(err.to_string(), "");
}

#[test]
fn scoped_join_maps_what_arrived() {
    let (_main, handle) = prepare_thread(|| 0u8);
    assert_eq!(ScopedJoinHandle::new(handle).join(Ok(5)).unwrap(), 5);
    let (_main, handle) = prepare_thread(|| 0u8);
    let e = ScopedJoinHandle::new(handle).join(Err(RecvError)).unwrap_err();
    assert_eq!(e.kind(), std::io::ErrorKind::Other);
    assert_eq!(e.to_string(), "");
}

#[test]
fn first_spawner_is_main_thread() {
    let mut router = SpawnRouter::new();
    assert_eq!(router.main_thread(), None);
    assert_eq!(router.route(7), SpawnRoute::Direct);
    assert_eq!(router.main_thread(), Some(7));
    assert_eq!(router.route(8), SpawnRoute::ForwardToMain);
    assert_eq!(router.route(7), SpawnRoute::Direct);
    assert_eq!(router.route(9), SpawnRoute::ForwardToMain);
    assert_eq!(router.main_thread(), Some(7));
}

#[test]
fn thread_complete_releases_worker() {
    let mut worker = Some("worker-1");
    let r = handle_message::<u32, &str>(&mut worker, WorkerMessage::ThreadComplete);
    assert!(r.is_none());
    assert_eq!(worker, None);
}

#[test]
fn spawn_request_is_handed_back() {
    let mut worker = Some("worker-1");
    let msg = WorkerMessage::SpawnThread(BuilderRequest {
        builder: Builder::new().name(String::from("child")),
        context: 99u32,
    });
    let r = handle_message(&mut worker, msg).unwrap();
    assert_eq!(r.context, 99);
    assert_eq!(
        format!("{:?}", r.builder),
        "Builder { name: Some(\"child\"), stack_size: None, wasm_bindgen_shim_url: None }"
    );
    assert_eq!(worker, Some("worker-1"));
}

#[test]
fn scope_waits_for_running_threads() {
    assert!(matches!(scope_wait(2), ScopeWait::Sleep));
    assert!(matches!(scope_wait(1), ScopeWait::Sleep));
    assert!(matches!(scope_wait(0), ScopeWait::Finished));
}

#[test]
fn scope_outcomes() {
    assert!(matches!(scope_outcome::<u32, &str>(Ok(3), false), ScopeOutcome::Return(3)));
    assert!(matches!(scope_outcome::<u32, &str>(Ok(3), true), ScopeOutcome::ThreadPanicked));
    assert!(matches!(scope_outcome::<u32, &str>(Err("boom"), true), ScopeOutcome::ResumePanic("boom")));
    assert!(matches!(scope_outcome::<u32, &str>(Err("boom"), false), ScopeOutcome::ResumePanic("boom")));
}

#[test]
fn scope_counter_waits_for_every_started_thread() {
    let mut c = ScopeCounter::new();
    assert!(matches!(c.wait(), ScopeWait::Finished));
    assert!(c.thread_started());
    assert!(c.thread_started());
    assert!(matches!(c.wait(), ScopeWait::Sleep));
    c.thread_finished(false);
    assert!(matches!(c.wait(), ScopeWait::Sleep));
    c.thread_finished(false);
    assert!(matches!(c.wait(), ScopeWait::Finished));
    assert!(!c.a_thread_panicked());
}

#[test]
fn scope_counter_remembers_a_panic() {
    let mut c = ScopeCounter::new();
    assert!(c.thread_started());
    assert!(c.thread_started());
    c.thread_finished(true);
    assert!(c.a_thread_panicked());
    c.thread_finished(false);
    assert!(c.a_thread_panicked());
    assert!(matches!(c.wait(), ScopeWait::Finished));
    assert!(matches!(scope_outcome::<u8, ()>(Ok(1), c.a_thread_panicked()), ScopeOutcome::ThreadPanicked));
}

#[test]
fn spawn_route_for_later_threads() {
    let mut router = SpawnRouter::new();
    assert_eq!(router.route(3), SpawnRoute::Direct);
    for t in [4u64, 5, 6] {
        assert_eq!(router.route(t), SpawnRoute::ForwardToMain);
    }
    assert_eq!(router.route(3), SpawnRoute::Direct);
    assert_eq!(router.main_thread(), Some(3));
}
