use llama_runtime::cancel::CancelRegistry;
use llama_runtime::proxy::{release_run, StreamEvent, StreamRun, StreamStep};

#[test]
fn cancel_unknown_run_is_a_no_op() {
    let mut registry: CancelRegistry<u32> = CancelRegistry::new();
    assert_eq!(registry.cancel("nope"), None);
    registry.register("a".to_string(), 1);
    assert_eq!(registry.cancel("b"), None);
    assert!(registry.contains("a"));
}

#[test]
fn cancel_hands_back_the_sender_once() {
    let mut registry: CancelRegistry<u32> = CancelRegistry::new();
    assert_eq!(registry.register("run-1".to_string(), 7), None);
    assert_eq!(registry.register("run-2".to_string(), 8), None);
    assert_eq!(registry.cancel("run-1"), Some(7));
    assert!(!registry.contains("run-1"));
    assert_eq!(registry.cancel("run-1"), None);
    assert!(registry.contains("run-2"));
}

#[test]
fn registering_an_id_again_replaces_its_sender() {
    let mut registry: CancelRegistry<u32> = CancelRegistry::new();
    registry.register("r".to_string(), 1);
    assert_eq!(registry.register("r".to_string(), 2), Some(1));
    assert_eq!(registry.cancel("r"), Some(2));
    assert_eq!(registry.cancel("r"), None);
}

#[test]
fn cancelled_stream_returns_the_cancellation_error() {
    let mut registry: CancelRegistry<u32> = CancelRegistry::new();
    let (mut run, displaced) = StreamRun::begin(Some("gen".to_string()), false, 5, &mut registry);
    assert_eq!(displaced, None);
    match run.on_event(StreamEvent::Chunk(b"data: {\"content\":\"a\"}\n".to_vec()), &mut registry) {
        StreamStep::Tokens(t) => assert_eq!(t, vec!["a".to_string()]),
        _ => panic!("expected tokens"),
    }
    assert!(registry.contains("gen"));
    // The caller cancels: the sender comes out of the registry and fires.
    assert_eq!(registry.cancel("gen"), Some(5));
    match run.on_event(StreamEvent::Cancelled, &mut registry) {
        StreamStep::Finished(Err(e)) => assert_eq!(e, "Run cancelled or timed out."),
        _ => panic!("expected the cancellation error"),
    }
    assert!(!registry.contains("gen"));
    assert_eq!(registry.cancel("gen"), None);
}

#[test]
fn finished_stream_leaves_no_entry() {
    let mut registry: CancelRegistry<u32> = CancelRegistry::new();
    let (mut run, _) = StreamRun::begin(Some("c".to_string()), true, 1, &mut registry);
    run.on_event(StreamEvent::Chunk(b"data: {\"content\":\" Hi \"}\n".to_vec()), &mut registry);
    match run.on_event(StreamEvent::Ended, &mut registry) {
        StreamStep::Finished(Ok(t)) => assert_eq!(t, "Hi"),
        _ => panic!("expected text"),
    }
    assert!(!registry.contains("c"));
}

#[test]
fn generation_stream_keeps_whitespace_and_reports_stream_errors() {
    let mut registry: CancelRegistry<u32> = CancelRegistry::new();
    let (mut run, _) = StreamRun::begin(Some("g".to_string()), false, 1, &mut registry);
    run.on_event(StreamEvent::Chunk(b"data: {\"content\":\" Hi \"}\n".to_vec()), &mut registry);
    match run.on_event(StreamEvent::Failed("reset".to_string()), &mut registry) {
        StreamStep::Finished(Err(e)) => assert_eq!(e, "Stream error: reset"),
        _ => panic!("expected a stream error"),
    }
    assert!(!registry.contains("g"));

    let (mut run, _) = StreamRun::begin(None, false, 2, &mut registry);
    run.on_event(StreamEvent::Chunk(b"data: {\"content\":\" Hi \"}\n".to_vec()), &mut registry);
    match run.on_event(StreamEvent::Ended, &mut registry) {
        StreamStep::Finished(Ok(t)) => assert_eq!(t, " Hi "),
        _ => panic!("expected text"),
    }
}

#[test]
fn chat_stream_failure_falls_back_and_stays_cancellable() {
    let mut registry: CancelRegistry<u32> = CancelRegistry::new();
    let (mut run, _) = StreamRun::begin(Some("c".to_string()), true, 1, &mut registry);
    assert!(matches!(run.on_event(StreamEvent::Failed("x".to_string()), &mut registry), StreamStep::FallBack));
    assert!(registry.contains("c"));
    assert_eq!(run.finish(Ok("answer".to_string()), &mut registry), Ok("answer".to_string()));
    assert!(!registry.contains("c"));
}

#[test]
fn failed_stream_setup_falls_back_for_both_kinds_of_run() {
    let mut registry: CancelRegistry<u32> = CancelRegistry::new();
    for for_chat in [false, true] {
        let (mut run, _) = StreamRun::begin(Some("s".to_string()), for_chat, 1, &mut registry);
        assert!(registry.contains("s"));
        assert!(matches!(run.on_event(StreamEvent::SetupFailed, &mut registry), StreamStep::FallBack));
        assert!(registry.contains("s"));
        // A cancel during the fallback request still ends the run.
        assert_eq!(registry.cancel("s"), Some(1));
        match run.on_event(StreamEvent::Cancelled, &mut registry) {
            StreamStep::Finished(Err(e)) => assert_eq!(e, "Run cancelled or timed out."),
            _ => panic!("expected the cancellation error"),
        }
        assert!(!registry.contains("s"));
    }
}

#[test]
fn plain_run_leaves_the_registry_when_finished() {
    let mut registry: CancelRegistry<u32> = CancelRegistry::new();
    let (mut run, _) = StreamRun::begin(Some("p".to_string()), false, 9, &mut registry);
    assert_eq!(
        run.finish(Err("Server error 500: x".to_string()), &mut registry),
        Err("Server error 500: x".to_string())
    );
    assert!(!registry.contains("p"));
}

#[test]
fn release_of_a_finished_run() {
    let mut registry: CancelRegistry<u32> = CancelRegistry::new();
    registry.register("x".to_string(), 3);
    release_run(&mut registry, &Some("x".to_string()));
    assert!(!registry.contains("x"));
    release_run(&mut registry, &None);
    release_run(&mut registry, &Some("x".to_string()));
    assert!(!registry.contains("x"));
}
