//! Bounded buffer of the most recent output lines of the server process.

use vstd::prelude::*;

verus! {

/// How many lines the buffer keeps.
pub const RUNTIME_LOG_MAX_LINES: usize = 200;

/// The last lines written by the server process, oldest first.
pub struct RuntimeLogState {
    buffered: Vec<String>,
}

impl RuntimeLogState {
    /// The buffered lines, oldest first.
    pub closed spec fn view(&self) -> Seq<Seq<char>> {
        self.buffered.deep_view()
    }

    /// The buffer never holds more than its capacity.
    pub open spec fn wf(&self) -> bool {
        self.view().len() <= RUNTIME_LOG_MAX_LINES
    }

    pub fn new() -> (r: Self)
        ensures
            r.wf(),
            r.view() == Seq::<Seq<char>>::empty(),
    {
        RuntimeLogState { buffered: Vec::new() }
    }

    /// Appends a line; once the buffer is full the oldest line makes room.
    pub fn push(&mut self, line: String)
        requires
            old(self).wf(),
        ensures
            final(self).wf(),
            final(self).view() == if old(self).view().len() >= RUNTIME_LOG_MAX_LINES {
                old(self).view().drop_first().push(line@)
            } else {
                old(self).view().push(line@)
            },
    {
        let ghost before = self.buffered.deep_view();
        if self.buffered.len() >= RUNTIME_LOG_MAX_LINES {
            self.buffered.remove(0);
            assert(self.buffered.deep_view() =~= before.drop_first());
        }
        let ghost mid = self.buffered.deep_view();
        self.buffered.push(line);
        assert(self.buffered.deep_view() =~= mid.push(line@));
    }

    /// Empties the buffer.
    pub fn clear(&mut self)
        ensures
            final(self).wf(),
            final(self).view() == Seq::<Seq<char>>::empty(),
    {
        self.buffered.clear();
        assert(self.buffered.deep_view() =~= Seq::<Seq<char>>::empty());
    }

    /// A copy of the buffered lines, oldest first.
    pub fn lines(&self) -> (r: Vec<String>)
        requires
            self.wf(),
        ensures
            r.deep_view() == self.view(),
            r.deep_view().len() <= RUNTIME_LOG_MAX_LINES,
    {
        let mut out: Vec<String> = Vec::new();
        let mut i: usize = 0;
        while i < self.buffered.len()
            invariant
                i <= self.buffered@.len(),
                out@.len() == i,
                out.deep_view() == self.buffered.deep_view().subrange(0, i as int),
            decreases self.buffered@.len() - i,
        {
            let line = self.buffered[i].clone();
            assert(line.deep_view() == self.buffered.deep_view()[i as int]);
            let ghost prev = out@;
            let ghost prev_deep = out.deep_view();
            out.push(line);
            assert(out@ == prev.push(line));
            assert forall|j: int| 0 <= j < i implies out.deep_view()[j] == prev_deep[j] by {
                assert(out@[j] == prev[j]);
            }
            assert(out.deep_view() =~= self.buffered.deep_view().subrange(0, i + 1));
            i = i + 1;
        }
        assert(self.buffered.deep_view().subrange(0, i as int) =~= self.buffered.deep_view());
        out
    }
}

impl Default for RuntimeLogState {
    fn default() -> (r: Self)
        ensures
            r.wf(),
            r.view() == Seq::<Seq<char>>::empty(),
    {
        RuntimeLogState::new()
    }
}

} // verus!
