//! Port selection. Whether a port can be bound, or answers a health probe,
//! is learned outside; the search decides which port to try next and when
//! to stop, trying candidates in a fixed order and stopping at the first
//! that passes.

use vstd::prelude::*;

verus! {

/// The port tried first for a new server.
pub const DEFAULT_PORT: u16 = 11435;

/// The last port of the range scanned after the default one.
pub const SCAN_LAST_PORT: u16 = 11550;

/// The range where servers started by older setups may still listen.
pub const LEGACY_FIRST_PORT: u16 = 8080;

pub const LEGACY_LAST_PORT: u16 = 8099;

/// `first..=last` in ascending order.
pub open spec fn port_range(first: u16, last: u16) -> Seq<u16> {
    if first <= last {
        Seq::new((last - first + 1) as nat, |i: int| (first + i) as u16)
    } else {
        Seq::empty()
    }
}

/// The ports tried when choosing a port for a new server: the preferred
/// one, then the scan range.
pub open spec fn free_port_candidates(preferred: u16, first: u16, last: u16) -> Seq<u16> {
    seq![preferred] + port_range(first, last)
}

/// The ports probed for a server that is already running.
pub open spec fn running_server_candidates() -> Seq<u16> {
    seq![DEFAULT_PORT] + port_range((DEFAULT_PORT + 1) as u16, SCAN_LAST_PORT) + port_range(
        LEGACY_FIRST_PORT,
        LEGACY_LAST_PORT,
    )
}

/// What to do next in a search.
pub enum PortStep {
    /// Check this port and report the outcome.
    Probe(u16),
    /// This port passed its check.
    Found(u16),
    /// No candidate passed.
    Exhausted,
}

/// The step after the candidate at `position` of `candidates` was checked:
/// found when the check passed, else the next candidate or the end.
pub open spec fn step_after(candidates: Seq<u16>, position: int, passed: bool) -> PortStep {
    if passed {
        PortStep::Found(candidates[position])
    } else if position + 1 < candidates.len() {
        PortStep::Probe(candidates[position + 1])
    } else {
        PortStep::Exhausted
    }
}

/// A search over an ordered list of candidate ports.
pub struct PortSearch {
    candidates: Vec<u16>,
    position: usize,
}

fn push_range(out: &mut Vec<u16>, first: u16, last: u16)
    ensures
        final(out)@ == old(out)@ + port_range(first, last),
{
    if first > last {
        assert(old(out)@ + port_range(first, last) =~= old(out)@);
        return;
    }
    let ghost start = out@;
    let mut p: u16 = first;
    loop
        invariant
            first <= p <= last,
            start == old(out)@,
            out@ == start + port_range(first, last).subrange(0, p - first),
        decreases last - p,
    {
        out.push(p);
        assert(out@ =~= start + port_range(first, last).subrange(0, p - first + 1));
        if p == last {
            assert(port_range(first, last).subrange(0, p - first + 1) =~= port_range(first, last));
            return;
        }
        p = p + 1;
    }
}

impl PortSearch {
    /// The candidates, in the order they are tried.
    pub closed spec fn candidates(&self) -> Seq<u16> {
        self.candidates@
    }

    /// How many candidates have failed their check so far.
    pub closed spec fn position(&self) -> int {
        self.position as int
    }

    /// The step a search in this state asks for.
    pub open spec fn step_spec(&self) -> PortStep {
        if self.position() < self.candidates().len() {
            PortStep::Probe(self.candidates()[self.position()])
        } else {
            PortStep::Exhausted
        }
    }

    /// A search for a port to bind: `preferred`, then `first..=last`.
    pub fn for_free_port(preferred: u16, first: u16, last: u16) -> (r: Self)
        ensures
            r.candidates() == free_port_candidates(preferred, first, last),
            r.position() == 0,
    {
        let mut candidates: Vec<u16> = Vec::new();
        candidates.push(preferred);
        assert(candidates@ =~= seq![preferred]);
        push_range(&mut candidates, first, last);
        PortSearch { candidates, position: 0 }
    }

    /// A search for a server that already answers: the default port, the
    /// scan range after it, then the legacy range.
    pub fn for_running_server() -> (r: Self)
        ensures
            r.candidates() == running_server_candidates(),
            r.position() == 0,
    {
        let mut candidates: Vec<u16> = Vec::new();
        candidates.push(DEFAULT_PORT);
        assert(candidates@ =~= seq![DEFAULT_PORT]);
        push_range(&mut candidates, DEFAULT_PORT + 1, SCAN_LAST_PORT);
        push_range(&mut candidates, LEGACY_FIRST_PORT, LEGACY_LAST_PORT);
        PortSearch { candidates, position: 0 }
    }

    /// The step the search asks for now.
    pub fn step(&self) -> (r: PortStep)
        requires
            self.position() <= self.candidates().len(),
        ensures
            r == self.step_spec(),
    {
        if self.position < self.candidates.len() {
            PortStep::Probe(self.candidates[self.position])
        } else {
            PortStep::Exhausted
        }
    }

    /// Reports the outcome of checking the port that the last `Probe` named.
    /// A port is found only when its own check passed.
    pub fn report(&mut self, passed: bool) -> (r: PortStep)
        requires
            old(self).position() < old(self).candidates().len(),
        ensures
            final(self).candidates() == old(self).candidates(),
            r == step_after(old(self).candidates(), old(self).position(), passed),
            passed ==> r == PortStep::Found(old(self).candidates()[old(self).position()])
                && final(self).position() == old(self).position(),
            !passed ==> final(self).position() == old(self).position() + 1 && r
                == final(self).step_spec(),
    {
        let n = self.candidates.len();
        if passed {
            PortStep::Found(self.candidates[self.position])
        } else {
            self.position = self.position + 1;
            self.step()
        }
    }
}

proof fn lemma_candidate_in_range(preferred: u16, first: u16, last: u16, i: int)
    requires
        0 <= i < free_port_candidates(preferred, first, last).len(),
    ensures
        free_port_candidates(preferred, first, last)[i] == preferred || (first
            <= free_port_candidates(preferred, first, last)[i] && free_port_candidates(
            preferred,
            first,
            last,
        )[i] <= last),
{
    let range = port_range(first, last);
    let c = free_port_candidates(preferred, first, last);
    if i > 0 {
        assert(c[i] == range[i - 1]);
        assert(first <= last);
        assert(range[i - 1] == (first + (i - 1)) as u16);
    }
}

/// A free-port search finds a port only when that port's own check passed,
/// and the port is the preferred one or lies in the scan range; every port
/// it asks to check lies there too.
pub proof fn lemma_found_port_checked_and_in_range(
    preferred: u16,
    first: u16,
    last: u16,
    position: int,
    passed: bool,
)
    requires
        0 <= position < free_port_candidates(preferred, first, last).len(),
    ensures
        step_after(free_port_candidates(preferred, first, last), position, passed) matches PortStep::Found(p)
            ==> passed && (p == preferred || (first <= p && p <= last)),
        step_after(free_port_candidates(preferred, first, last), position, passed) matches PortStep::Probe(p)
            ==> p == preferred || (first <= p && p <= last),
{
    lemma_candidate_in_range(preferred, first, last, position);
    if position + 1 < free_port_candidates(preferred, first, last).len() {
        lemma_candidate_in_range(preferred, first, last, position + 1);
    }
}

} // verus!
