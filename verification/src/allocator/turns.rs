//! Turns: allocation, cancellation cleanup and handoffs of a run wait for one
//! another, those of different runs do not.
use crate::failure::CapsuleAllocationUnavailable;
use crate::run_id::{
    no_run_comes_before_itself, run_before, run_order_is_transitive, runs_are_totally_ordered,
    RunId,
};
use crate::run_map::{
    entry_is_the_value, runs_apart, values_of, values_with_an_entry, values_without_an_entry,
    RunEntry,
};
use vstd::prelude::*;
use vstd::set_lib::*;

verus! {

/// No run has two turns and no turn serves two runs.  A turn is known by the
/// number under which the host keeps it.
pub open spec fn distinct(entries: Seq<RunEntry<u64>>) -> bool {
    &&& runs_apart(entries)
    &&& forall|i: int, j: int|
        #![trigger entries[i], entries[j]]
        0 <= i < entries.len() && 0 <= j < entries.len() && i != j ==> entries[i].value
            != entries[j].value
}

/// The turns that someone still holds or waits for.
pub open spec fn surviving(turns: Map<Seq<char>, u64>, live: Seq<u64>) -> Map<Seq<char>, u64> {
    Map::new(
        |run: Seq<char>| turns.contains_key(run) && live.contains(turns[run]),
        |run: Seq<char>| turns[run],
    )
}

/// Some run has this turn.
pub open spec fn taken(turns: Map<Seq<char>, u64>, turn: u64) -> bool {
    exists|run: Seq<char>| turns.contains_key(run) && #[trigger] turns[run] == turn
}

/// Some entry has this turn.
spec fn numbered(entries: Seq<RunEntry<u64>>, turn: u64) -> bool {
    exists|i: int| 0 <= i < entries.len() && (#[trigger] entries[i]).value == turn
}

/// A turn to lock.
#[derive(Clone, Copy, Debug, PartialEq, Eq, Structural)]
pub enum Turn {
    /// The turn that others of the run hold or wait for.
    Existing(u64),
    /// A turn that nobody has yet: the host makes one under this number.
    Fresh(u64),
}

/// The number of a turn.
pub open spec fn turn_number(turn: Turn) -> u64 {
    match turn {
        Turn::Existing(number) => number,
        Turn::Fresh(number) => number,
    }
}

/// How a turn is given to a run: what nobody holds or waits for is forgotten,
/// the run gets its turn if it still has one, and else the least number that
/// is free.
pub open spec fn turn_given(
    before: Map<Seq<char>, u64>,
    run: Seq<char>,
    live: Seq<u64>,
    turn: Turn,
    after: Map<Seq<char>, u64>,
) -> bool {
    let kept = surviving(before, live);
    if kept.contains_key(run) {
        &&& turn == Turn::Existing(kept[run])
        &&& after == kept
    } else {
        &&& turn is Fresh
        &&& !taken(kept, turn->Fresh_0)
        &&& forall|lower: u64| lower < turn->Fresh_0 ==> taken(kept, lower)
        &&& after == kept.insert(run, turn->Fresh_0)
    }
}

/// In which order the turns of a handoff are locked.
#[derive(Clone, Copy, Debug, PartialEq, Eq, Structural)]
pub enum TurnOrder {
    SourceFirst,
    SuccessorFirst,
}

/// The turns of all runs that allocate, clean up or hand over.
#[derive(Debug)]
pub struct AllocationTurns {
    runs: Vec<RunEntry<u64>>,
}

impl View for AllocationTurns {
    type V = Map<Seq<char>, u64>;

    closed spec fn view(&self) -> Map<Seq<char>, u64> {
        values_of(self.runs@)
    }
}

impl Default for AllocationTurns {
    fn default() -> (turns: Self)
        ensures
            turns.well_formed(),
            turns@ == Map::<Seq<char>, u64>::empty(),
    {
        let turns = AllocationTurns { runs: Vec::new() };
        assert(turns@ =~= Map::<Seq<char>, u64>::empty());
        turns
    }
}

/// Different runs have different turns.
pub open spec fn turns_apart(turns: Map<Seq<char>, u64>) -> bool {
    forall|left: Seq<char>, right: Seq<char>|
        #![trigger turns[left], turns[right]]
        turns.contains_key(left) && turns.contains_key(right) && left != right ==> turns[left]
            != turns[right]
}

fn contains(numbers: &Vec<u64>, number: u64) -> (found: bool)
    ensures
        found == numbers@.contains(number),
{
    let mut i: usize = 0;
    while i < numbers.len()
        invariant
            i <= numbers@.len(),
            forall|j: int| 0 <= j < i ==> numbers@[j] != number,
        decreases numbers@.len() - i,
    {
        if numbers[i] == number {
            return true;
        }
        i = i + 1;
    }
    false
}

impl AllocationTurns {
    pub closed spec fn well_formed(&self) -> bool {
        distinct(self.runs@)
    }

    /// Drops the turns that nobody holds or waits for any more.
    fn retain(&mut self, live: &Vec<u64>)
        requires
            old(self).well_formed(),
        ensures
            final(self).well_formed(),
            final(self)@ == surviving(old(self)@, live@),
    {
        let ghost before = self@;
        let mut i: usize = 0;
        while i < self.runs.len()
            invariant
                distinct(self.runs@),
                i <= self.runs@.len(),
                surviving(values_of(self.runs@), live@) == surviving(before, live@),
                forall|j: int| 0 <= j < i ==> live@.contains((#[trigger] self.runs@[j]).value),
            decreases self.runs@.len() - i,
        {
            let ghost entries = self.runs@;
            if contains(live, self.runs[i].value) {
                i = i + 1;
            } else {
                proof {
                    values_without_an_entry(entries, i as int);
                    entry_is_the_value(entries, i as int);
                }
                let _ = self.runs.remove(i);
                assert(surviving(values_of(self.runs@), live@) =~= surviving(
                    values_of(entries),
                    live@,
                ));
            }
        }
        assert forall|run: Seq<char>| self@.contains_key(run) implies live@.contains(
            self@[run],
        ) by {
            let k = choose|k: int|
                0 <= k < self.runs@.len() && #[trigger] self.runs@[k].run_id@ == run;
            entry_is_the_value(self.runs@, k);
        }
        assert(self@ =~= surviving(self@, live@));
    }

    fn find(&self, run_id: &RunId) -> (turn: Option<u64>)
        requires
            self.well_formed(),
        ensures
            turn is Some == self@.contains_key(run_id@),
            turn is Some ==> turn->0 == self@[run_id@],
    {
        let mut i: usize = 0;
        while i < self.runs.len()
            invariant
                self.well_formed(),
                i <= self.runs@.len(),
                forall|j: int| 0 <= j < i ==> (#[trigger] self.runs@[j]).run_id@ != run_id@,
            decreases self.runs@.len() - i,
        {
            if self.runs[i].run_id.same(run_id) {
                proof {
                    entry_is_the_value(self.runs@, i as int);
                }
                return Some(self.runs[i].value);
            }
            i = i + 1;
        }
        None
    }

    fn is_taken(&self, turn: u64) -> (found: bool)
        requires
            self.well_formed(),
        ensures
            found == taken(self@, turn),
            found == numbered(self.runs@, turn),
    {
        let mut i: usize = 0;
        while i < self.runs.len()
            invariant
                self.well_formed(),
                i <= self.runs@.len(),
                forall|j: int| 0 <= j < i ==> (#[trigger] self.runs@[j]).value != turn,
            decreases self.runs@.len() - i,
        {
            if self.runs[i].value == turn {
                proof {
                    entry_is_the_value(self.runs@, i as int);
                }
                return true;
            }
            i = i + 1;
        }
        proof {
            if taken(self@, turn) {
                let run = choose|run: Seq<char>|
                    self@.contains_key(run) && #[trigger] self@[run] == turn;
                let k = choose|k: int|
                    0 <= k < self.runs@.len() && #[trigger] self.runs@[k].run_id@ == run;
                entry_is_the_value(self.runs@, k);
            }
        }
        false
    }

    /// The least number that no turn has.
    fn fresh(&self) -> (turn: u64)
        requires
            self.well_formed(),
        ensures
            !taken(self@, turn),
            forall|lower: u64| lower < turn ==> taken(self@, lower),
            forall|i: int| 0 <= i < self.runs@.len() ==> (#[trigger] self.runs@[i]).value != turn,
    {
        let mut turn: u64 = 0;
        while self.is_taken(turn)
            invariant
                self.well_formed(),
                turn <= self.runs.len(),
                forall|lower: u64| lower < turn ==> taken(self@, lower),
                forall|lower: u64| lower < turn ==> #[trigger] numbered(self.runs@, lower),
            decreases self.runs.len() - turn,
        {
            proof {
                numbers_need_room(self.runs@, turn + 1);
            }
            turn = turn + 1;
        }
        turn
    }

    /// The turn of a run, to be locked by the host.  `live` holds the numbers
    /// of the turns that someone still holds or waits for; the others go.
    pub fn lock(&mut self, run_id: &RunId, live: &Vec<u64>) -> (turn: Turn)
        requires
            old(self).well_formed(),
        ensures
            final(self).well_formed(),
            turn_given(old(self)@, run_id@, live@, turn, final(self)@),
    {
        self.retain(live);
        match self.find(run_id) {
            Some(turn) => Turn::Existing(turn),
            None => {
                let turn = self.fresh();
                let ghost entries = self.runs@;
                let entry = RunEntry { run_id: run_id.clone(), value: turn };
                self.runs.push(entry);
                proof {
                    assert forall|i: int| 0 <= i < entries.len() implies (
                    #[trigger] entries[i]).run_id@ != run_id@ by {
                        entry_is_the_value(entries, i);
                    }
                    assert(distinct(self.runs@));
                    values_with_an_entry(entries, entry);
                }
                Turn::Fresh(turn)
            },
        }
    }

    /// The order in which the turns of a handoff are locked.  It depends on the
    /// two runs alone, not on which of them hands over; a run hands nothing
    /// over to itself.
    pub fn lock_retained(&self, source: &RunId, successor: &RunId) -> (order: Result<
        TurnOrder,
        CapsuleAllocationUnavailable,
    >)
        ensures
            order == retained_order(source@, successor@),
    {
        if source.same(successor) {
            Err(CapsuleAllocationUnavailable::Runtime)
        } else if source.before(successor) {
            Ok(TurnOrder::SourceFirst)
        } else {
            Ok(TurnOrder::SuccessorFirst)
        }
    }
}

pub open spec fn retained_order(source: Seq<char>, successor: Seq<char>) -> Result<
    TurnOrder,
    CapsuleAllocationUnavailable,
> {
    if source == successor {
        Err(CapsuleAllocationUnavailable::Runtime)
    } else if run_before(source, successor) {
        Ok(TurnOrder::SourceFirst)
    } else {
        Ok(TurnOrder::SuccessorFirst)
    }
}

proof fn numbers_need_room(entries: Seq<RunEntry<u64>>, count: int)
    requires
        0 <= count,
        forall|lower: u64| lower < count ==> #[trigger] numbered(entries, lower),
        count <= u64::MAX + 1,
    ensures
        count <= entries.len(),
{
    let numbers = entries.map_values(|entry: RunEntry<u64>| entry.value as int);
    numbers.lemma_cardinality_of_set();
    lemma_int_range(0, count);
    assert forall|number: int| set_int_range(0, count).contains(number) implies
        numbers.to_set().contains(number) by {
        let lower = number as u64;
        assert(numbered(entries, lower));
        let i = choose|i: int| 0 <= i < entries.len() && (#[trigger] entries[i]).value == lower;
        assert(numbers[i] == number);
    }
    lemma_len_subset(set_int_range(0, count), numbers.to_set());
}

/// Runs never share a turn: if their turns differ, they still do after another
/// turn was given.
pub proof fn runs_never_share_a_turn(
    before: Map<Seq<char>, u64>,
    run: Seq<char>,
    live: Seq<u64>,
    turn: Turn,
    after: Map<Seq<char>, u64>,
)
    requires
        turns_apart(before),
        turn_given(before, run, live, turn, after),
    ensures
        turns_apart(after),
        after.contains_key(run),
        after[run] == turn_number(turn),
{
    let kept = surviving(before, live);
    assert forall|left: Seq<char>, right: Seq<char>|
        #![trigger after[left], after[right]]
        after.contains_key(left) && after.contains_key(right) && left != right implies after[left]
        != after[right] by {
        if left != run && right != run {
            assert(before[left] != before[right]);
        } else if !kept.contains_key(run) {
            let other = if left == run {
                right
            } else {
                left
            };
            assert(kept.contains_key(other) && kept[other] == after[other]);
            assert(taken(kept, after[other]));
        } else {
            assert(before[left] != before[right]);
        }
    }
}

/// The registry itself keeps the turns of its runs apart.
pub proof fn registered_turns_are_apart(turns: &AllocationTurns)
    requires
        turns.well_formed(),
    ensures
        turns_apart(turns@),
{
    let entries = turns.runs@;
    assert forall|left: Seq<char>, right: Seq<char>|
        #![trigger turns@[left], turns@[right]]
        turns@.contains_key(left) && turns@.contains_key(right) && left != right implies turns@[left]
        != turns@[right] by {
        let i = choose|i: int| 0 <= i < entries.len() && #[trigger] entries[i].run_id@ == left;
        let j = choose|j: int| 0 <= j < entries.len() && #[trigger] entries[j].run_id@ == right;
        entry_is_the_value(entries, i);
        entry_is_the_value(entries, j);
    }
}

/// As long as someone holds or waits for the turn of a run, that turn stays
/// registered for it: everyone else of the run gets the same turn, and no other
/// run gets it.
pub proof fn held_turns_are_shared_within_a_run_only(
    before: Map<Seq<char>, u64>,
    run: Seq<char>,
    other: Seq<char>,
    live: Seq<u64>,
    turn: Turn,
    after: Map<Seq<char>, u64>,
)
    requires
        turns_apart(before),
        before.contains_key(run),
        live.contains(before[run]),
        turn_given(before, other, live, turn, after),
    ensures
        after.contains_key(run),
        after[run] == before[run],
        turns_apart(after),
        other == run ==> turn == Turn::Existing(before[run]),
        other != run ==> turn_number(turn) != before[run],
{
    runs_never_share_a_turn(before, other, live, turn, after);
    let kept = surviving(before, live);
    assert(kept.contains_key(run));
    assert(after.contains_key(run) && after[run] == before[run]);
}

/// The run whose turn is locked first in a handoff.
pub open spec fn first_locked(source: Seq<char>, successor: Seq<char>) -> Seq<char> {
    match retained_order(source, successor) {
        Ok(TurnOrder::SourceFirst) => source,
        _ => successor,
    }
}

/// The run whose turn is locked second in a handoff.
pub open spec fn second_locked(source: Seq<char>, successor: Seq<char>) -> Seq<char> {
    match retained_order(source, successor) {
        Ok(TurnOrder::SourceFirst) => successor,
        _ => source,
    }
}

/// Two handoffs in opposite directions lock the same turn first.
pub proof fn opposing_handoffs_lock_alike(source: Seq<char>, successor: Seq<char>)
    requires
        source != successor,
    ensures
        first_locked(source, successor) == first_locked(successor, source),
        second_locked(source, successor) == second_locked(successor, source),
        run_before(first_locked(source, successor), second_locked(source, successor)),
{
    runs_are_totally_ordered(source, successor);
}

/// The second turn of a handoff is the first turn of the next one, where the
/// last is followed by the first.
pub open spec fn waits_for_the_next(handoffs: Seq<(Seq<char>, Seq<char>)>, i: int) -> bool {
    let next = if i + 1 < handoffs.len() {
        i + 1
    } else {
        0
    };
    second_locked(handoffs[i].0, handoffs[i].1) == first_locked(
        handoffs[next].0,
        handoffs[next].1,
    )
}

/// Handoffs, each holding its first turn and waiting for its second, never
/// wait for one another in a circle.
pub proof fn handoffs_never_wait_in_a_circle(handoffs: Seq<(Seq<char>, Seq<char>)>)
    requires
        handoffs.len() > 0,
        forall|i: int| 0 <= i < handoffs.len() ==> (#[trigger] handoffs[i]).0 != handoffs[i].1,
    ensures
        exists|i: int|
            0 <= i < handoffs.len() && !(#[trigger] waits_for_the_next(handoffs, i)),
{
    let last = handoffs.len() - 1;
    if forall|i: int| 0 <= i < handoffs.len() ==> #[trigger] waits_for_the_next(handoffs, i) {
        assert forall|i: int| 0 <= i < last implies second_locked(
            (#[trigger] handoffs[i]).0,
            handoffs[i].1,
        ) == first_locked(handoffs[i + 1].0, handoffs[i + 1].1) by {
            assert(waits_for_the_next(handoffs, i));
        }
        waiting_leads_upwards(handoffs, last);
        assert(waits_for_the_next(handoffs, last));
        no_run_comes_before_itself(first_locked(handoffs[0].0, handoffs[0].1));
    }
}

proof fn waiting_leads_upwards(handoffs: Seq<(Seq<char>, Seq<char>)>, k: int)
    requires
        0 <= k < handoffs.len(),
        forall|i: int| 0 <= i < handoffs.len() ==> (#[trigger] handoffs[i]).0 != handoffs[i].1,
        forall|i: int|
            0 <= i < k ==> second_locked((#[trigger] handoffs[i]).0, handoffs[i].1)
                == first_locked(handoffs[i + 1].0, handoffs[i + 1].1),
    ensures
        run_before(
            first_locked(handoffs[0].0, handoffs[0].1),
            second_locked(handoffs[k].0, handoffs[k].1),
        ),
    decreases k,
{
    opposing_handoffs_lock_alike(handoffs[k].0, handoffs[k].1);
    if k > 0 {
        waiting_leads_upwards(handoffs, k - 1);
        run_order_is_transitive(
            first_locked(handoffs[0].0, handoffs[0].1),
            second_locked(handoffs[k - 1].0, handoffs[k - 1].1),
            second_locked(handoffs[k].0, handoffs[k].1),
        );
    }
}

/// After a turn was given, the turns of the other runs are exactly those that
/// someone held or waited for, each with its number.  The run that asked has the
/// turn that it was given: its own if that was held, and else one that no other
/// run has.
pub proof fn turns_nobody_holds_are_forgotten(
    before: Map<Seq<char>, u64>,
    run: Seq<char>,
    live: Seq<u64>,
    turn: Turn,
    after: Map<Seq<char>, u64>,
    other: Seq<char>,
)
    requires
        turn_given(before, run, live, turn, after),
        other != run,
    ensures
        after.contains_key(other) == (before.contains_key(other) && live.contains(before[other])),
        after.contains_key(other) ==> after[other] == before[other],
        after.contains_key(run),
        before.contains_key(run) && live.contains(before[run]) ==> turn == Turn::Existing(
            before[run],
        ) && after[run] == before[run],
        !(before.contains_key(run) && live.contains(before[run])) ==> {
            &&& turn is Fresh
            &&& after[run] == turn->Fresh_0
            &&& after.contains_key(other) ==> after[other] != turn->Fresh_0
        },
{
    let kept = surviving(before, live);
    if !kept.contains_key(run) && after.contains_key(other) {
        assert(kept.contains_key(other) && kept[other] == after[other]);
        if after[other] == turn->Fresh_0 {
            assert(taken(kept, turn->Fresh_0));
        }
    }
}

/// A run hands nothing over to itself, which is a lost runtime; of two runs the
/// one that comes before the other is locked first, whichever hands over.
pub proof fn the_earlier_run_is_locked_first(source: Seq<char>, successor: Seq<char>)
    ensures
        source == successor ==> retained_order(source, successor) == Err::<
            TurnOrder,
            CapsuleAllocationUnavailable,
        >(CapsuleAllocationUnavailable::Runtime),
        source != successor && run_before(source, successor) ==> retained_order(source, successor)
            == Ok::<TurnOrder, CapsuleAllocationUnavailable>(TurnOrder::SourceFirst),
        source != successor && run_before(successor, source) ==> retained_order(source, successor)
            == Ok::<TurnOrder, CapsuleAllocationUnavailable>(TurnOrder::SuccessorFirst),
{
    runs_are_totally_ordered(source, successor);
}

} // verus!
