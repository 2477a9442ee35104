//! Bookkeeping of the one supervised server process, and the decisions
//! around starting, checking and stopping it.
//!
//! The process handle itself is an opaque `C`: spawning, killing and
//! waiting happen outside. Every transition that lets go of a handle
//! returns it, so the caller can terminate it: no handle is dropped here.

use vstd::prelude::*;

verus! {

/// What the supervisor holds: the port it serves on, and the process it
/// owns. A port without a process means a server that was attached to,
/// not started here.
pub struct RuntimeState<C> {
    pub port: Option<u16>,
    pub child: Option<C>,
}

/// What a non-blocking wait on the owned process said.
#[derive(PartialEq, Eq, Structural, Clone, Copy, Debug)]
pub enum ChildLiveness {
    Running,
    Exited,
    /// The wait itself failed.
    Unknown,
}

/// The port a started server listens on.
pub struct RuntimeStartResult {
    pub port: u16,
}

/// Whether a server is running, and on which port.
pub struct RuntimeStatusResult {
    pub running: bool,
    pub port: Option<u16>,
}

/// Whether the process owned on `port` is kept: the state records `port`,
/// owns a process, and that process has not exited.
pub open spec fn keeps_owned(
    recorded: Option<u16>,
    owns: bool,
    port: u16,
    liveness: Option<ChildLiveness>,
) -> bool {
    recorded == Some(port) && owns && liveness != Some(ChildLiveness::Exited)
}

/// How a start request for a given port is served.
#[derive(PartialEq, Eq, Structural, Clone, Copy, Debug)]
pub enum StartPlan {
    /// A server already answers there; nothing is spawned.
    Attached(u16),
    /// The process this state owns there still runs; nothing is spawned.
    Reused(u16),
    /// A new process must be spawned for that port.
    Spawn(u16),
}

/// The plan for a start on `port`, given the recorded port, whether a
/// process is owned, whether `port` answered a health probe, and what a
/// wait on the owned process said.
pub open spec fn start_plan(
    recorded: Option<u16>,
    owns: bool,
    port: u16,
    healthy: bool,
    liveness: Option<ChildLiveness>,
) -> StartPlan {
    if healthy {
        StartPlan::Attached(port)
    } else if keeps_owned(recorded, owns, port, liveness) {
        StartPlan::Reused(port)
    } else {
        StartPlan::Spawn(port)
    }
}

/// What a status check asks for next.
pub enum StatusStep {
    Done(RuntimeStatusResult),
    /// Probe the health of the server at this port and report it.
    Probe(u16),
}

impl<C> RuntimeState<C> {
    /// Nothing running.
    pub fn new() -> (r: Self)
        ensures
            r.port is None,
            r.child is None,
    {
        RuntimeState { port: None, child: None }
    }

    /// Records a server found already answering on `port`, which this
    /// state does not start, given what a wait on the owned process said
    /// (`None` when none is owned). A live process owned on that same port
    /// is kept; any other owned process (exited, or on another port) is
    /// handed back, and the state then owns nothing.
    pub fn attach(&mut self, port: u16, liveness: Option<ChildLiveness>) -> (displaced: Option<C>)
        requires
            liveness is Some <==> old(self).child is Some,
        ensures
            final(self).port == Some(port),
            keeps_owned(old(self).port, old(self).child is Some, port, liveness) ==> final(self).child
                == old(self).child && displaced is None,
            !keeps_owned(old(self).port, old(self).child is Some, port, liveness) ==> final(self).child
                is None && displaced == old(self).child,
    {
        if self.port == Some(port) && self.child.is_some() && liveness != Some(ChildLiveness::Exited) {
            return None;
        }
        self.port = Some(port);
        self.child.take()
    }

    /// Whether the process owned on `port` can serve again, given what a
    /// wait on it said (`liveness` is `None` when no process is owned).
    /// When the state holds `port` but its process has exited, or none is
    /// owned, the state is cleared and the old handle handed back.
    pub fn reuse_owned(&mut self, port: u16, liveness: Option<ChildLiveness>) -> (r: (
        bool,
        Option<C>,
    ))
        requires
            liveness is Some <==> old(self).child is Some,
        ensures
            r.0 == (old(self).port == Some(port) && old(self).child is Some && liveness != Some(
                ChildLiveness::Exited,
            )),
            r.0 ==> final(self).port == old(self).port && final(self).child == old(self).child
                && r.1 is None,
            !r.0 && old(self).port == Some(port) ==> final(self).port is None && final(self).child is None && r.1 == old(self).child,
            old(self).port != Some(port) ==> final(self).port == old(self).port && final(self).child == old(self).child && r.1 is None,
    {
        if self.port == Some(port) {
            if self.child.is_some() && liveness != Some(ChildLiveness::Exited) {
                return (true, None);
            }
            self.port = None;
            return (false, self.child.take());
        }
        (false, None)
    }

    /// Decides how a start on `port` is served, once `port` has been probed
    /// and the owned process, if any, waited on. The handle it lets go of,
    /// if any, is handed back for termination.
    pub fn settle_port(&mut self, port: u16, healthy: bool, liveness: Option<ChildLiveness>) -> (r: (
        StartPlan,
        Option<C>,
    ))
        requires
            liveness is Some <==> old(self).child is Some,
        ensures
            r.0 == start_plan(old(self).port, old(self).child is Some, port, healthy, liveness),
            r.0 == StartPlan::Attached(port) ==> final(self).port == Some(port),
            r.0 == StartPlan::Attached(port) && keeps_owned(old(self).port, old(self).child is Some, port, liveness)
                ==> final(self).child == old(self).child && r.1 is None,
            r.0 == StartPlan::Attached(port) && !keeps_owned(old(self).port, old(self).child is Some, port, liveness)
                ==> final(self).child is None && r.1 == old(self).child,
            r.0 == StartPlan::Reused(port) ==> final(self).port == old(self).port && final(self).child
                == old(self).child && r.1 is None,
            r.0 == StartPlan::Spawn(port) && old(self).port == Some(port) ==> final(self).port is None
                && final(self).child is None && r.1 == old(self).child,
            r.0 == StartPlan::Spawn(port) && old(self).port != Some(port) ==> final(self).port
                == old(self).port && final(self).child == old(self).child && r.1 is None,
    {
        if healthy {
            let displaced = self.attach(port, liveness);
            return (StartPlan::Attached(port), displaced);
        }
        let (reuse, gone) = self.reuse_owned(port, liveness);
        if reuse {
            (StartPlan::Reused(port), gone)
        } else {
            (StartPlan::Spawn(port), gone)
        }
    }

    /// Records a newly spawned process serving on `port`; the process it
    /// replaces is handed back for termination.
    pub fn install(&mut self, port: u16, child: C) -> (replaced: Option<C>)
        ensures
            final(self).port == Some(port),
            final(self).child == Some(child),
            replaced == old(self).child,
    {
        self.port = Some(port);
        let replaced = self.child.take();
        self.child = Some(child);
        replaced
    }

    /// Forgets the server: the port is cleared and the owned process, if
    /// any, handed back to be killed and waited on. Safe when nothing runs.
    pub fn stop(&mut self) -> (r: Option<C>)
        ensures
            final(self).port is None,
            final(self).child is None,
            r == old(self).child,
            old(self).port is None && old(self).child is None ==> r is None && final(self).port
                == old(self).port && final(self).child == old(self).child,
    {
        self.port = None;
        self.child.take()
    }

    /// First half of a status check, given what a wait on the owned process
    /// said (`None` when none is owned). A running process answers at once;
    /// an exited one clears the state; otherwise a recorded port is probed.
    pub fn status_check(&mut self, liveness: Option<ChildLiveness>) -> (r: (StatusStep, Option<C>))
        requires
            liveness is Some <==> old(self).child is Some,
        ensures
            liveness == Some(ChildLiveness::Running) ==> final(self).port == old(self).port
                && final(self).child == old(self).child && r.1 is None && (r.0 matches StatusStep::Done(d)
                && d.running && d.port == old(self).port),
            liveness == Some(ChildLiveness::Exited) ==> final(self).port is None && final(self).child is None && r.1 == old(self).child && (r.0 matches StatusStep::Done(d)
                && !d.running && d.port is None),
            liveness != Some(ChildLiveness::Running) && liveness != Some(ChildLiveness::Exited)
                ==> final(self).port == old(self).port && final(self).child == old(self).child
                && r.1 is None && (match old(self).port {
                Some(p) => r.0 == StatusStep::Probe(p),
                None => r.0 matches StatusStep::Done(d) && !d.running && d.port is None,
            }),
    {
        match liveness {
            Some(ChildLiveness::Running) => {
                return (StatusStep::Done(RuntimeStatusResult { running: true, port: self.port }), None);
            },
            Some(ChildLiveness::Exited) => {
                self.port = None;
                let gone = self.child.take();
                return (StatusStep::Done(RuntimeStatusResult { running: false, port: None }), gone);
            },
            _ => {},
        }
        match self.port {
            Some(p) => (StatusStep::Probe(p), None),
            None => (StatusStep::Done(RuntimeStatusResult { running: false, port: None }), None),
        }
    }

    /// Second half of a status check: the probe of `port` answered
    /// `healthy`. A server that no longer answers is forgotten.
    pub fn status_probed(&mut self, port: u16, healthy: bool) -> (r: RuntimeStatusResult)
        ensures
            healthy ==> r.running && r.port == Some(port) && final(self).port == old(self).port,
            !healthy ==> !r.running && r.port is None && final(self).port is None,
            final(self).child == old(self).child,
    {
        if healthy {
            RuntimeStatusResult { running: true, port: Some(port) }
        } else {
            self.port = None;
            RuntimeStatusResult { running: false, port: None }
        }
    }
}

/// Once a process owned here serves `port`, a later start on `port` spawns
/// nothing while that process runs or the port answers: it is served from
/// the port already held.
pub proof fn lemma_owned_port_is_not_spawned_again(
    port: u16,
    healthy: bool,
    liveness: Option<ChildLiveness>,
)
    requires
        healthy || liveness != Some(ChildLiveness::Exited),
    ensures
        start_plan(Some(port), true, port, healthy, liveness) != StartPlan::Spawn(port),
        start_plan(Some(port), true, port, healthy, liveness) == StartPlan::Attached(port)
            || start_plan(Some(port), true, port, healthy, liveness) == StartPlan::Reused(port),
{
}

} // verus!
