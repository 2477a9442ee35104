//! The sequence of a start request, one decision per observation: the model
//! file is checked, the server executable found, a port chosen (the one
//! asked for, a server already answering, or a free one), the port settled
//! against what is already running, the server spawned, and its readiness
//! awaited. Each step names the outside work to do next; the outcome of that
//! work comes back as the next event.

use vstd::prelude::*;
use crate::launch::{
    checked_model_path, model_not_found_error, no_free_port_error, readiness_timeout_error,
    readiness_timeout_message, server_args, server_args_spec, spawn_failed_error,
};
use crate::supervisor::StartPlan;
use crate::text::trimmed;

verus! {

/// Where a start request stands.
#[derive(PartialEq, Eq, Structural, Clone, Copy, Debug)]
pub enum StartPhase {
    CheckingModel,
    ResolvingServer,
    FindingRunningServer,
    FindingFreePort,
    ProbingPort,
    Settling,
    Spawning,
    AwaitingReady,
    Finished,
}

/// What the caller observed.
pub enum StartEvent {
    /// Whether the model path names a file.
    ModelFile(bool),
    /// The server executable, or why it was not found.
    Server(Result<String, String>),
    /// A port where a server already answers, if any.
    RunningServer(Option<u16>),
    /// A free port, if any.
    FreePort(Option<u16>),
    /// Whether the chosen port answered a health probe.
    PortHealth(bool),
    /// How the runtime state settled the chosen port.
    Settled(StartPlan),
    /// Whether the server process started, or why not.
    Spawned(Result<(), String>),
    /// The server became ready.
    Ready,
    /// The server did not become ready in time; its captured output.
    TimedOut(Vec<String>),
}

/// The outside work to do next.
pub enum StartAction {
    /// Check whether this path names a file.
    CheckModelFile(String),
    /// Resolve the tool root and the server executable under it.
    ResolveServer,
    /// Search the usual ports for a server that already answers.
    FindRunningServer,
    /// Search for a free port.
    FindFreePort,
    /// Record a server found answering at this port; the start is done.
    Attach(u16),
    /// Probe the health of this port.
    ProbePort(u16),
    /// Settle the port in the runtime state, given its health.
    Settle(u16, bool),
    /// Clear the captured output, spawn this program with these arguments,
    /// and install it as the process serving this port.
    Spawn(String, Vec<String>, u16),
    /// Wait for readiness of the server at this port, for at most this many
    /// seconds.
    AwaitReady(u16, u64),
    /// The start succeeded on this port.
    Succeed(u16),
    /// The start failed; nothing was spawned or the state is already clean.
    Fail(String),
    /// Stop the spawned process and clear the state, then fail with this.
    RollBack(String),
}

/// A start request in progress.
pub struct StartSequence {
    phase: StartPhase,
    model: String,
    port_override: Option<u16>,
    context_length: i32,
    timeout_seconds: u64,
    program: String,
    port: u16,
    args: Vec<String>,
}

impl StartSequence {
    pub closed spec fn phase(&self) -> StartPhase {
        self.phase
    }

    /// The trimmed model path.
    pub closed spec fn model(&self) -> Seq<char> {
        self.model@
    }

    pub closed spec fn port_override(&self) -> Option<u16> {
        self.port_override
    }

    pub closed spec fn context_length(&self) -> i32 {
        self.context_length
    }

    pub closed spec fn timeout_seconds(&self) -> u64 {
        self.timeout_seconds
    }

    /// The server executable, once found.
    pub closed spec fn program(&self) -> Seq<char> {
        self.program@
    }

    /// The port chosen, once one is.
    pub closed spec fn port(&self) -> u16 {
        self.port
    }

    /// The server's command line, once built.
    pub closed spec fn args(&self) -> Seq<Seq<char>> {
        self.args.deep_view()
    }

    /// Whether `event` answers the work this sequence asked for.
    pub open spec fn accepts(&self, event: StartEvent) -> bool {
        match self.phase() {
            StartPhase::CheckingModel => event is ModelFile,
            StartPhase::ResolvingServer => event is Server,
            StartPhase::FindingRunningServer => event is RunningServer,
            StartPhase::FindingFreePort => event is FreePort,
            StartPhase::ProbingPort => event is PortHealth,
            StartPhase::Settling => event is Settled,
            StartPhase::Spawning => event is Spawned,
            StartPhase::AwaitingReady => event is Ready || event is TimedOut,
            StartPhase::Finished => false,
        }
    }

    /// Starts the sequence for a model path as given, an optional port to
    /// use, a context length (used when positive) and a readiness budget in
    /// seconds. A blank path fails at once.
    pub fn begin(model_path: &str, port_override: Option<u16>, context_length: i32, timeout_seconds: u64) -> (r: (
        StartSequence,
        StartAction,
    ))
        ensures
            r.0.port_override() == port_override,
            r.0.context_length() == context_length,
            r.0.timeout_seconds() == timeout_seconds,
            trimmed(model_path@).len() == 0 ==> r.0.phase() == StartPhase::Finished && (r.1 matches StartAction::Fail(e)
                && e@ == "GGUF model path is required."@),
            trimmed(model_path@).len() > 0 ==> r.0.phase() == StartPhase::CheckingModel && r.0.model()
                == trimmed(model_path@) && (r.1 matches StartAction::CheckModelFile(p) && p@ == trimmed(
                model_path@,
            )),
    {
        let (phase, model, action) = match checked_model_path(model_path) {
            Ok(p) => {
                let a = StartAction::CheckModelFile(p.clone());
                (StartPhase::CheckingModel, p, a)
            },
            Err(e) => (StartPhase::Finished, String::new(), StartAction::Fail(e)),
        };
        (
            StartSequence {
                phase,
                model,
                port_override,
                context_length,
                timeout_seconds,
                program: String::new(),
                port: 0,
                args: Vec::new(),
            },
            action,
        )
    }

    /// Takes the outcome of the work last asked for and names the next.
    pub fn step(&mut self, event: StartEvent) -> (r: StartAction)
        requires
            old(self).accepts(event),
        ensures
            final(self).model() == old(self).model(),
            final(self).port_override() == old(self).port_override(),
            final(self).context_length() == old(self).context_length(),
            final(self).timeout_seconds() == old(self).timeout_seconds(),
            !(event is Server) ==> final(self).program() == old(self).program(),
            !(event is Server || event is FreePort) ==> final(self).port() == old(self).port(),
            !(event is Settled) ==> final(self).args() == old(self).args(),
            event == StartEvent::ModelFile(false) ==> final(self).phase() == StartPhase::Finished && (
            r matches StartAction::Fail(e) && e@ == "Model file not found: "@ + old(self).model()),
            event == StartEvent::ModelFile(true) ==> final(self).phase() == StartPhase::ResolvingServer
                && r is ResolveServer,
            event matches StartEvent::Server(Err(e)) ==> final(self).phase() == StartPhase::Finished && (
            r matches StartAction::Fail(m) && m@ == e@),
            event matches StartEvent::Server(Ok(program)) ==> final(self).program() == program@,
            event matches StartEvent::Server(Ok(_)) ==> match old(self).port_override() {
                Some(p) => final(self).phase() == StartPhase::ProbingPort && final(self).port() == p
                    && r == StartAction::ProbePort(p),
                None => final(self).phase() == StartPhase::FindingRunningServer && r is FindRunningServer,
            },
            event matches StartEvent::RunningServer(Some(p)) ==> final(self).phase()
                == StartPhase::Finished && r == StartAction::Attach(p),
            event == StartEvent::RunningServer(None) ==> final(self).phase() == StartPhase::FindingFreePort
                && r is FindFreePort,
            event == StartEvent::FreePort(None) ==> final(self).phase() == StartPhase::Finished && (
            r matches StartAction::Fail(e) && e@ == "No free port in 11435..11550."@),
            event matches StartEvent::FreePort(Some(p)) ==> final(self).phase() == StartPhase::ProbingPort
                && final(self).port() == p && r == StartAction::ProbePort(p),
            event matches StartEvent::PortHealth(h) ==> final(self).phase() == StartPhase::Settling
                && final(self).port() == old(self).port() && r == StartAction::Settle(old(self).port(), h),
            event matches StartEvent::Settled(StartPlan::Attached(p)) ==> final(self).phase()
                == StartPhase::Finished && r == StartAction::Succeed(p),
            event matches StartEvent::Settled(StartPlan::Reused(p)) ==> final(self).phase()
                == StartPhase::Finished && r == StartAction::Succeed(p),
            event matches StartEvent::Settled(StartPlan::Spawn(_)) ==> final(self).phase()
                == StartPhase::Spawning && final(self).port() == old(self).port() && final(self).args()
                == server_args_spec(old(self).model(), old(self).port(), old(self).context_length()) && (
            r matches StartAction::Spawn(program, args, port) && program@ == old(self).program()
                && args.deep_view() == final(self).args() && port == old(self).port()),
            event matches StartEvent::Spawned(Err(e)) ==> final(self).phase() == StartPhase::Finished && (
            r matches StartAction::Fail(m) && m@ == "Failed to start llama-server: "@ + e@),
            event matches StartEvent::Spawned(Ok(_)) ==> final(self).phase() == StartPhase::AwaitingReady
                && r == StartAction::AwaitReady(old(self).port(), old(self).timeout_seconds()),
            event is Ready ==> final(self).phase() == StartPhase::Finished && r == StartAction::Succeed(
                old(self).port(),
            ),
            event matches StartEvent::TimedOut(log) ==> final(self).phase() == StartPhase::Finished && (
            r matches StartAction::RollBack(m) && m@ == readiness_timeout_message(
                old(self).timeout_seconds(),
                old(self).port(),
                old(self).model(),
                old(self).args(),
                log.deep_view(),
            )),
    {
        match event {
            StartEvent::ModelFile(exists) => {
                if exists {
                    self.phase = StartPhase::ResolvingServer;
                    StartAction::ResolveServer
                } else {
                    self.phase = StartPhase::Finished;
                    StartAction::Fail(model_not_found_error(self.model.as_str()))
                }
            },
            StartEvent::Server(found) => match found {
                Err(e) => {
                    self.phase = StartPhase::Finished;
                    StartAction::Fail(e)
                },
                Ok(program) => {
                    self.program = program;
                    match self.port_override {
                        Some(p) => {
                            self.port = p;
                            self.phase = StartPhase::ProbingPort;
                            StartAction::ProbePort(p)
                        },
                        None => {
                            self.phase = StartPhase::FindingRunningServer;
                            StartAction::FindRunningServer
                        },
                    }
                },
            },
            StartEvent::RunningServer(found) => match found {
                Some(p) => {
                    self.phase = StartPhase::Finished;
                    StartAction::Attach(p)
                },
                None => {
                    self.phase = StartPhase::FindingFreePort;
                    StartAction::FindFreePort
                },
            },
            StartEvent::FreePort(found) => match found {
                Some(p) => {
                    self.port = p;
                    self.phase = StartPhase::ProbingPort;
                    StartAction::ProbePort(p)
                },
                None => {
                    self.phase = StartPhase::Finished;
                    StartAction::Fail(no_free_port_error())
                },
            },
            StartEvent::PortHealth(healthy) => {
                self.phase = StartPhase::Settling;
                StartAction::Settle(self.port, healthy)
            },
            StartEvent::Settled(plan) => match plan {
                StartPlan::Attached(p) | StartPlan::Reused(p) => {
                    self.phase = StartPhase::Finished;
                    StartAction::Succeed(p)
                },
                StartPlan::Spawn(_) => {
                    self.args = server_args(self.model.as_str(), self.port, self.context_length);
                    self.phase = StartPhase::Spawning;
                    let args = server_args(self.model.as_str(), self.port, self.context_length);
                    StartAction::Spawn(self.program.clone(), args, self.port)
                },
            },
            StartEvent::Spawned(outcome) => match outcome {
                Err(e) => {
                    self.phase = StartPhase::Finished;
                    StartAction::Fail(spawn_failed_error(e.as_str()))
                },
                Ok(()) => {
                    self.phase = StartPhase::AwaitingReady;
                    StartAction::AwaitReady(self.port, self.timeout_seconds)
                },
            },
            StartEvent::Ready => {
                self.phase = StartPhase::Finished;
                StartAction::Succeed(self.port)
            },
            StartEvent::TimedOut(log) => {
                self.phase = StartPhase::Finished;
                StartAction::RollBack(
                    readiness_timeout_error(
                        self.timeout_seconds,
                        self.port,
                        self.model.as_str(),
                        &self.args,
                        &log,
                    ),
                )
            },
        }
    }
}

} // verus!
