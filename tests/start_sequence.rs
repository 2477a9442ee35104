use llama_runtime::start::{StartAction, StartEvent, StartSequence};
use llama_runtime::supervisor::{ChildLiveness, RuntimeState, StartPlan, StatusStep};

#[test]
fn blank_model_path_fails_at_once() {
    let (_, action) = StartSequence::begin("   ", None, 0, 180);
    assert!(matches!(action, StartAction::Fail(ref e) if e == "GGUF model path is required."));
}

#[test]
fn missing_model_file() {
    let (mut seq, action) = StartSequence::begin(" /m/x.gguf ", None, 0, 180);
    assert!(matches!(action, StartAction::CheckModelFile(ref p) if p == "/m/x.gguf"));
    let action = seq.step(StartEvent::ModelFile(false));
    assert!(matches!(action, StartAction::Fail(ref e) if e == "Model file not found: /m/x.gguf"));
}

#[test]
fn missing_server_executable() {
    let (mut seq, _) = StartSequence::begin("m.gguf", None, 0, 180);
    assert!(matches!(seq.step(StartEvent::ModelFile(true)), StartAction::ResolveServer));
    let action = seq.step(StartEvent::Server(Err("llama-server not found. Checked: x".to_string())));
    assert!(matches!(action, StartAction::Fail(ref e) if e == "llama-server not found. Checked: x"));
}

#[test]
fn server_already_running_is_attached() {
    let (mut seq, _) = StartSequence::begin("m.gguf", None, 0, 180);
    seq.step(StartEvent::ModelFile(true));
    assert!(matches!(seq.step(StartEvent::Server(Ok("/t/llama-server".to_string()))), StartAction::FindRunningServer));
    assert!(matches!(seq.step(StartEvent::RunningServer(Some(8081))), StartAction::Attach(8081)));
}

#[test]
fn no_free_port() {
    let (mut seq, _) = StartSequence::begin("m.gguf", None, 0, 180);
    seq.step(StartEvent::ModelFile(true));
    seq.step(StartEvent::Server(Ok("/t/llama-server".to_string())));
    assert!(matches!(seq.step(StartEvent::RunningServer(None)), StartAction::FindFreePort));
    let action = seq.step(StartEvent::FreePort(None));
    assert!(matches!(action, StartAction::Fail(ref e) if e == "No free port in 11435..11550."));
}

#[test]
fn explicit_port_skips_the_searches() {
    let (mut seq, _) = StartSequence::begin("m.gguf", Some(9000), 0, 180);
    seq.step(StartEvent::ModelFile(true));
    assert!(matches!(seq.step(StartEvent::Server(Ok("/t/s".to_string()))), StartAction::ProbePort(9000)));
    assert!(matches!(seq.step(StartEvent::PortHealth(true)), StartAction::Settle(9000, true)));
    assert!(matches!(seq.step(StartEvent::Settled(StartPlan::Attached(9000))), StartAction::Succeed(9000)));
}

#[test]
fn spawn_failure() {
    let (mut seq, _) = StartSequence::begin("m.gguf", Some(9000), 0, 180);
    seq.step(StartEvent::ModelFile(true));
    seq.step(StartEvent::Server(Ok("/t/s".to_string())));
    seq.step(StartEvent::PortHealth(false));
    seq.step(StartEvent::Settled(StartPlan::Spawn(9000)));
    let action = seq.step(StartEvent::Spawned(Err("permission denied".to_string())));
    assert!(matches!(action, StartAction::Fail(ref e) if e == "Failed to start llama-server: permission denied"));
}

#[test]
fn readiness_timeout_rolls_back_with_diagnostics() {
    let (mut seq, _) = StartSequence::begin("m.gguf", None, 0, 3);
    seq.step(StartEvent::ModelFile(true));
    seq.step(StartEvent::Server(Ok("/t/s".to_string())));
    seq.step(StartEvent::RunningServer(None));
    seq.step(StartEvent::FreePort(Some(11436)));
    seq.step(StartEvent::PortHealth(false));
    seq.step(StartEvent::Settled(StartPlan::Spawn(11436)));
    assert!(matches!(seq.step(StartEvent::Spawned(Ok(()))), StartAction::AwaitReady(11436, 3)));
    let action = seq.step(StartEvent::TimedOut(vec!["error: out of memory".to_string()]));
    match action {
        StartAction::RollBack(m) => assert_eq!(
            m,
            "llama-server did not become ready within 3 seconds. port=11436 model_path=m.gguf launch_args=[--model m.gguf --host 127.0.0.1 --port 11436]\n\nLast llama-server output:\nerror: out of memory"
        ),
        _ => panic!("expected a rollback"),
    }
}

#[test]
fn start_then_status_then_stop() {
    let mut state: RuntimeState<u32> = RuntimeState::new();
    let (mut seq, action) = StartSequence::begin("model.gguf", None, 0, 180);
    assert!(matches!(action, StartAction::CheckModelFile(ref p) if p == "model.gguf"));
    seq.step(StartEvent::ModelFile(true));
    seq.step(StartEvent::Server(Ok("/tools/runtime/llama/llama-server".to_string())));
    seq.step(StartEvent::RunningServer(None));
    let action = seq.step(StartEvent::FreePort(Some(11435)));
    assert!(matches!(action, StartAction::ProbePort(11435)));
    let action = seq.step(StartEvent::PortHealth(false));
    let event = match action {
        StartAction::Settle(port, healthy) => {
            let (plan, gone) = state.settle_port(port, healthy, None);
            assert_eq!(gone, None);
            StartEvent::Settled(plan)
        }
        _ => panic!("expected settling"),
    };
    let action = seq.step(event);
    match action {
        StartAction::Spawn(program, args, port) => {
            assert_eq!(program, "/tools/runtime/llama/llama-server");
            assert_eq!(args, vec!["--model", "model.gguf", "--host", "127.0.0.1", "--port", "11435"]);
            assert_eq!(state.install(port, 501), None);
        }
        _ => panic!("expected a spawn"),
    }
    assert!(matches!(seq.step(StartEvent::Spawned(Ok(()))), StartAction::AwaitReady(11435, 180)));
    assert!(matches!(seq.step(StartEvent::Ready), StartAction::Succeed(11435)));

    match state.status_check(Some(ChildLiveness::Running)) {
        (StatusStep::Done(s), None) => {
            assert!(s.running);
            assert_eq!(s.port, Some(11435));
        }
        _ => panic!("expected running"),
    }
    assert_eq!(state.stop(), Some(501));
    match state.status_check(None) {
        (StatusStep::Done(s), None) => {
            assert!(!s.running);
            assert_eq!(s.port, None);
        }
        _ => panic!("expected stopped"),
    }
}
