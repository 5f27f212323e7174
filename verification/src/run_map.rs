//! Things kept by run.
use crate::run_id::RunId;
use vstd::prelude::*;

verus! {

/// What is kept for one run.
#[derive(Debug)]
pub struct RunEntry<V> {
    pub run_id: RunId,
    pub value: V,
}

/// No run has two entries.
pub open spec fn runs_apart<V>(entries: Seq<RunEntry<V>>) -> bool {
    forall|i: int, j: int|
        #![trigger entries[i], entries[j]]
        0 <= i < entries.len() && 0 <= j < entries.len() && i != j ==> entries[i].run_id@
            != entries[j].run_id@
}

/// The values by run.
pub open spec fn values_of<V>(entries: Seq<RunEntry<V>>) -> Map<Seq<char>, V> {
    Map::new(
        |run: Seq<char>| exists|i: int| 0 <= i < entries.len() && #[trigger] entries[i].run_id@ == run,
        |run: Seq<char>|
            entries[choose|i: int|
                0 <= i < entries.len() && #[trigger] entries[i].run_id@ == run].value,
    )
}

/// An entry is the one of its run.
pub(crate) proof fn entry_is_the_value<V>(entries: Seq<RunEntry<V>>, i: int)
    requires
        runs_apart(entries),
        0 <= i < entries.len(),
    ensures
        values_of(entries).contains_key(entries[i].run_id@),
        values_of(entries)[entries[i].run_id@] == entries[i].value,
{
    let run = entries[i].run_id@;
    let k = choose|k: int| 0 <= k < entries.len() && #[trigger] entries[k].run_id@ == run;
    assert(entries[k].run_id@ == run);
    assert(k == i);
}

/// To drop an entry is to drop its run.
pub(crate) proof fn values_without_an_entry<V>(entries: Seq<RunEntry<V>>, i: int)
    requires
        runs_apart(entries),
        0 <= i < entries.len(),
    ensures
        runs_apart(entries.remove(i)),
        values_of(entries.remove(i)) == values_of(entries).remove(entries[i].run_id@),
{
    let fewer = entries.remove(i);
    assert(forall|k: int| 0 <= k < fewer.len() ==> fewer[k] == entries[if k < i {
        k
    } else {
        k + 1
    }]);
    let left = values_of(fewer);
    let right = values_of(entries).remove(entries[i].run_id@);
    assert forall|run: Seq<char>| left.contains_key(run) == right.contains_key(run) by {
        if left.contains_key(run) {
            let k = choose|k: int| 0 <= k < fewer.len() && #[trigger] fewer[k].run_id@ == run;
            let at = if k < i {
                k
            } else {
                k + 1
            };
            assert(entries[at].run_id@ == run);
            entry_is_the_value(entries, at);
        }
        if right.contains_key(run) {
            let k = choose|k: int| 0 <= k < entries.len() && #[trigger] entries[k].run_id@ == run;
            let at = if k < i {
                k
            } else {
                k - 1
            };
            assert(fewer[at].run_id@ == run);
        }
    }
    assert forall|run: Seq<char>| left.contains_key(run) implies left[run] == right[run] by {
        let k = choose|k: int| 0 <= k < fewer.len() && #[trigger] fewer[k].run_id@ == run;
        entry_is_the_value(fewer, k);
        entry_is_the_value(entries, if k < i {
            k
        } else {
            k + 1
        });
    }
    assert(left =~= right);
}

/// To add an entry is to add its run.
pub(crate) proof fn values_with_an_entry<V>(entries: Seq<RunEntry<V>>, entry: RunEntry<V>)
    requires
        runs_apart(entries.push(entry)),
    ensures
        values_of(entries.push(entry)) == values_of(entries).insert(entry.run_id@, entry.value),
{
    let more = entries.push(entry);
    let count = entries.len() as int;
    assert(more.remove(count) =~= entries);
    values_without_an_entry(more, count);
    entry_is_the_value(more, count);
    assert(values_of(more) =~= values_of(entries).insert(entry.run_id@, entry.value));
}

/// Values by run.
#[derive(Debug)]
pub struct RunMap<V> {
    entries: Vec<RunEntry<V>>,
}

impl<V> View for RunMap<V> {
    type V = Map<Seq<char>, V>;

    closed spec fn view(&self) -> Map<Seq<char>, V> {
        values_of(self.entries@)
    }
}

impl<V> Default for RunMap<V> {
    fn default() -> (map: Self)
        ensures
            map.well_formed(),
            map@ == Map::<Seq<char>, V>::empty(),
    {
        let map = RunMap { entries: Vec::new() };
        assert(map@ =~= Map::<Seq<char>, V>::empty());
        map
    }
}

impl<V> RunMap<V> {
    pub closed spec fn well_formed(&self) -> bool {
        runs_apart(self.entries@)
    }

    /// The place of a run among the entries, or their count.
    fn place(&self, run_id: &RunId) -> (place: usize)
        requires
            self.well_formed(),
        ensures
            place <= self.entries@.len(),
            place < self.entries@.len() ==> self.entries@[place as int].run_id@ == run_id@,
            self@.contains_key(run_id@) == (place < self.entries@.len()),
            self@.contains_key(run_id@) ==> self@[run_id@] == self.entries@[place as int].value,
    {
        let mut i: usize = 0;
        while i < self.entries.len()
            invariant
                self.well_formed(),
                i <= self.entries@.len(),
                forall|j: int| 0 <= j < i ==> (#[trigger] self.entries@[j]).run_id@ != run_id@,
            decreases self.entries@.len() - i,
        {
            if self.entries[i].run_id.same(run_id) {
                proof {
                    entry_is_the_value(self.entries@, i as int);
                }
                return i;
            }
            i = i + 1;
        }
        i
    }

    pub fn get(&self, run_id: &RunId) -> (value: Option<&V>)
        requires
            self.well_formed(),
        ensures
            value is Some == self@.contains_key(run_id@),
            value is Some ==> *value->0 == self@[run_id@],
    {
        let i = self.place(run_id);
        if i < self.entries.len() {
            Some(&self.entries[i].value)
        } else {
            None
        }
    }

    pub fn remove(&mut self, run_id: &RunId)
        requires
            old(self).well_formed(),
        ensures
            final(self).well_formed(),
            final(self)@ == old(self)@.remove(run_id@),
    {
        let i = self.place(run_id);
        let ghost before = self.entries@;
        if i < self.entries.len() {
            proof {
                values_without_an_entry(before, i as int);
            }
            let _ = self.entries.remove(i);
        } else {
            assert(self@ =~= self@.remove(run_id@));
        }
    }

    pub fn insert(&mut self, run_id: RunId, value: V)
        requires
            old(self).well_formed(),
        ensures
            final(self).well_formed(),
            final(self)@ == old(self)@.insert(run_id@, value),
    {
        let ghost before = self@;
        self.remove(&run_id);
        let ghost entries = self.entries@;
        let entry = RunEntry { run_id, value };
        self.entries.push(entry);
        proof {
            assert forall|i: int| 0 <= i < entries.len() implies (
            #[trigger] entries[i]).run_id@ != run_id@ by {
                entry_is_the_value(entries, i);
            }
            values_with_an_entry(entries, entry);
            assert(self@ =~= before.insert(run_id@, value));
        }
    }
}

} // verus!
