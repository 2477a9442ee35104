//! Registry of in-flight runs that can be cancelled, keyed by run id.
//!
//! Each entry holds the sending half of a one-shot signal; the run waits on
//! the other half. The registry never fires a signal itself: removing an
//! entry hands its sender back to the caller, who fires or drops it.

use vstd::prelude::*;
use crate::text::same_text;

verus! {

/// The map that a list of entries describes, later entries winning.
pub open spec fn map_of<S>(e: Seq<(String, S)>) -> Map<Seq<char>, S>
    decreases e.len(),
{
    if e.len() == 0 {
        Map::empty()
    } else {
        map_of(e.drop_last()).insert(e.last().0@, e.last().1)
    }
}

pub open spec fn keys_unique<S>(e: Seq<(String, S)>) -> bool {
    forall|i: int, j: int| 0 <= i < j < e.len() ==> #[trigger] e[i].0@ != #[trigger] e[j].0@
}

proof fn lemma_map_of_dom<S>(e: Seq<(String, S)>, k: Seq<char>)
    ensures
        map_of(e).contains_key(k) <==> exists|i: int| 0 <= i < e.len() && #[trigger] e[i].0@ == k,
    decreases e.len(),
{
    if e.len() > 0 {
        lemma_map_of_dom(e.drop_last(), k);
        if map_of(e.drop_last()).contains_key(k) {
            let i = choose|i: int| 0 <= i < e.len() - 1 && #[trigger] e.drop_last()[i].0@ == k;
            assert(e[i].0@ == k);
        }
        if exists|i: int| 0 <= i < e.len() && #[trigger] e[i].0@ == k {
            let i = choose|i: int| 0 <= i < e.len() && #[trigger] e[i].0@ == k;
            if i < e.len() - 1 {
                assert(e.drop_last()[i].0@ == k);
            }
        }
    }
}

proof fn lemma_map_of_remove<S>(e: Seq<(String, S)>, i: int)
    requires
        keys_unique(e),
        0 <= i < e.len(),
    ensures
        map_of(e.remove(i)) == map_of(e).remove(e[i].0@),
        keys_unique(e.remove(i)),
    decreases e.len(),
{
    let k = e[i].0@;
    let dl = e.drop_last();
    assert(keys_unique(dl));
    if i == e.len() - 1 {
        assert(e.remove(i) =~= dl);
        if map_of(dl).contains_key(k) {
            lemma_map_of_dom(dl, k);
            let j = choose|j: int| 0 <= j < dl.len() && #[trigger] dl[j].0@ == k;
            assert(e[j].0@ == e[i].0@);
        }
        assert(map_of(e).remove(k) =~= map_of(dl));
    } else {
        lemma_map_of_remove(dl, i);
        assert(e.remove(i) =~= dl.remove(i).push(e.last()));
        assert(e.remove(i).drop_last() =~= dl.remove(i));
        assert(e[e.len() - 1].0@ != k);
        assert(map_of(e.remove(i)) =~= map_of(e).remove(k));
    }
    assert forall|a: int, b: int| 0 <= a < b < e.remove(i).len() implies #[trigger] e.remove(i)[a].0@
        != #[trigger] e.remove(i)[b].0@ by {
        let a2 = if a < i { a } else { a + 1 };
        let b2 = if b < i { b } else { b + 1 };
        assert(e.remove(i)[a] == e[a2]);
        assert(e.remove(i)[b] == e[b2]);
    }
}

proof fn lemma_map_of_get<S>(e: Seq<(String, S)>, i: int)
    requires
        keys_unique(e),
        0 <= i < e.len(),
    ensures
        map_of(e).contains_key(e[i].0@),
        map_of(e)[e[i].0@] == e[i].1,
    decreases e.len(),
{
    if i < e.len() - 1 {
        let dl = e.drop_last();
        assert(keys_unique(dl));
        assert(dl[i] == e[i]);
        lemma_map_of_get(dl, i);
        assert(e.last().0@ != e[i].0@);
    }
}

/// Maps each registered run id to the sender that cancels that run.
pub struct CancelRegistry<S> {
    entries: Vec<(String, S)>,
}

impl<S> CancelRegistry<S> {
    /// The live entries: run id to sender.
    pub closed spec fn view(&self) -> Map<Seq<char>, S> {
        map_of(self.entries@)
    }

    /// At most one entry per run id.
    pub closed spec fn wf(&self) -> bool {
        keys_unique(self.entries@)
    }

    pub fn new() -> (r: Self)
        ensures
            r.wf(),
            r.view() == Map::<Seq<char>, S>::empty(),
    {
        CancelRegistry { entries: Vec::new() }
    }

    fn position(&self, run_id: &str) -> (r: Option<usize>)
        requires
            self.wf(),
        ensures
            r matches Some(i) ==> i < self.entries@.len() && self.entries@[i as int].0@ == run_id@,
            r is None ==> !self.view().contains_key(run_id@),
    {
        let mut i: usize = 0;
        while i < self.entries.len()
            invariant
                i <= self.entries@.len(),
                forall|j: int| 0 <= j < i ==> #[trigger] self.entries@[j].0@ != run_id@,
            decreases self.entries@.len() - i,
        {
            if same_text(self.entries[i].0.as_str(), run_id) {
                return Some(i);
            }
            i = i + 1;
        }
        proof {
            lemma_map_of_dom(self.entries@, run_id@);
        }
        None
    }

    /// Whether a run with this id is registered.
    pub fn contains(&self, run_id: &str) -> (r: bool)
        requires
            self.wf(),
        ensures
            r == self.view().contains_key(run_id@),
    {
        match self.position(run_id) {
            Some(i) => {
                proof {
                    lemma_map_of_get(self.entries@, i as int);
                }
                true
            },
            None => false,
        }
    }

    /// Registers `sender` for `run_id`. A sender already held for that id is
    /// handed back, so that at most one entry per id is live.
    pub fn register(&mut self, run_id: String, sender: S) -> (r: Option<S>)
        requires
            old(self).wf(),
        ensures
            final(self).wf(),
            final(self).view() == old(self).view().insert(run_id@, sender),
            old(self).view().contains_key(run_id@) ==> r == Some(old(self).view()[run_id@]),
            !old(self).view().contains_key(run_id@) ==> r is None,
    {
        let ghost key = run_id@;
        let previous = match self.position(run_id.as_str()) {
            Some(i) => {
                proof {
                    lemma_map_of_get(self.entries@, i as int);
                    lemma_map_of_remove(self.entries@, i as int);
                }
                let (_, old_sender) = self.entries.remove(i);
                Some(old_sender)
            },
            None => None,
        };
        let ghost mid = self.entries@;
        proof {
            lemma_map_of_dom(mid, key);
        }
        self.entries.push((run_id, sender));
        assert(self.entries@.drop_last() =~= mid);
        assert forall|a: int, b: int| 0 <= a < b < self.entries@.len() implies #[trigger] self.entries@[a].0@
            != #[trigger] self.entries@[b].0@ by {
            if b == self.entries@.len() - 1 {
                assert(mid[a].0@ == self.entries@[a].0@);
            }
        }
        assert(self.view() =~= old(self).view().insert(key, sender));
        previous
    }

    /// Removes the entry of `run_id` and hands back its sender; `None`, with
    /// nothing changed, when no run with that id is registered.
    pub fn cancel(&mut self, run_id: &str) -> (r: Option<S>)
        requires
            old(self).wf(),
        ensures
            final(self).wf(),
            final(self).view() == old(self).view().remove(run_id@),
            old(self).view().contains_key(run_id@) ==> r == Some(old(self).view()[run_id@]),
            !old(self).view().contains_key(run_id@) ==> r is None && final(self).view() == old(
                self,
            ).view(),
    {
        match self.position(run_id) {
            Some(i) => {
                proof {
                    lemma_map_of_get(self.entries@, i as int);
                    lemma_map_of_remove(self.entries@, i as int);
                }
                let (_, sender) = self.entries.remove(i);
                Some(sender)
            },
            None => {
                assert(old(self).view().remove(run_id@) =~= old(self).view());
                None
            },
        }
    }
}

/// Cancelling is idempotent: once a run id has been cancelled it is no
/// longer registered, and cancelling it again finds nothing and changes
/// nothing.
pub proof fn lemma_cancel_twice<S>(live: Map<Seq<char>, S>, run_id: Seq<char>)
    ensures
        !live.remove(run_id).contains_key(run_id),
        live.remove(run_id).remove(run_id) == live.remove(run_id),
{
    assert(live.remove(run_id).remove(run_id) =~= live.remove(run_id));
}

} // verus!
