use zeroshot::allocator::recovery::{HostedRecoveryDocument, ProductionCapsuleAllocator};
use zeroshot::allocator::retained::{Handoff, HandoffEvent, HandoffRefusal, HandoffRun};
use zeroshot::allocator::turns::{AllocationTurns, Turn, TurnOrder};
use zeroshot::failure::CapsuleAllocationUnavailable;
use zeroshot::run_id::RunId;
use zeroshot::run_map::RunMap;

fn run(name: &str) -> RunId {
    RunId::new(name.to_owned())
}

fn allocator() -> ProductionCapsuleAllocator<u8> {
    ProductionCapsuleAllocator {
        storage_root: b"/var/lib/zeroshot".to_vec(),
        source_override: None,
        prepare_filesystem: 0,
        allocation_turns: AllocationTurns::default(),
    }
}

#[test]
fn runs_are_ordered_as_their_names_are() {
    let names = ["", "run", "run-1", "run-10", "run-2", "Run", "r\u{fc}n", "\u{1f600}", "z"];
    for left in names {
        assert_eq!(run(left).as_str(), left);
        for right in names {
            assert_eq!(run(left).before(&run(right)), left < right);
            assert_eq!(run(left).same(&run(right)), left == right);
        }
    }
    assert_eq!(run("run-1").clone(), run("run-1"));
}

#[test]
fn a_run_shares_its_turn_while_it_is_held() {
    let mut turns = AllocationTurns::default();
    assert_eq!(turns.lock(&run("a"), &vec![]), Turn::Fresh(0));
    assert_eq!(turns.lock(&run("a"), &vec![0]), Turn::Existing(0));
    assert_eq!(turns.lock(&run("b"), &vec![0]), Turn::Fresh(1));
    assert_eq!(turns.lock(&run("a"), &vec![0, 1]), Turn::Existing(0));
    assert_eq!(turns.lock(&run("b"), &vec![1, 0]), Turn::Existing(1));
}

#[test]
fn a_turn_that_nobody_holds_is_forgotten() {
    let mut turns = AllocationTurns::default();
    assert_eq!(turns.lock(&run("a"), &vec![]), Turn::Fresh(0));
    assert_eq!(turns.lock(&run("b"), &vec![0]), Turn::Fresh(1));
    // Only the turn of `b` is still held.
    assert_eq!(turns.lock(&run("c"), &vec![1]), Turn::Fresh(0));
    assert_eq!(turns.lock(&run("a"), &vec![0, 1]), Turn::Fresh(2));
    assert_eq!(turns.lock(&run("a"), &vec![]), Turn::Fresh(0));
}

#[test]
fn opposing_handoffs_lock_in_the_same_order() {
    let turns = AllocationTurns::default();
    assert_eq!(
        turns.lock_retained(&run("a"), &run("b")),
        Ok(TurnOrder::SourceFirst)
    );
    assert_eq!(
        turns.lock_retained(&run("b"), &run("a")),
        Ok(TurnOrder::SuccessorFirst)
    );
    assert_eq!(
        turns.lock_retained(&run("a"), &run("a")),
        Err(CapsuleAllocationUnavailable::Runtime)
    );
}

#[test]
fn a_ring_of_handoffs_has_one_that_need_not_wait() {
    let turns = AllocationTurns::default();
    let ring = [("a", "b"), ("b", "c"), ("c", "a")];
    let mut locked = Vec::new();
    for (source, successor) in ring {
        let order = turns.lock_retained(&run(source), &run(successor));
        locked.push(match order {
            Ok(TurnOrder::SourceFirst) => (source, successor),
            _ => (successor, source),
        });
    }
    assert_eq!(locked, vec![("a", "b"), ("b", "c"), ("a", "c")]);
    // Nobody holds "c" first, so whoever waits for it gets it.
    assert!(locked.iter().all(|(first, _)| *first != "c"));
}

#[test]
fn a_handoff_claims_and_moves_under_both_turns() {
    let mut step: Handoff<&str, &str> =
        allocator().begin_retained_allocation(&run("b"), &run("a"));
    assert_eq!(step, Handoff::LockFirst(HandoffRun::Successor));
    step = step.next(HandoffEvent::Moved(true));
    assert_eq!(step, Handoff::LockFirst(HandoffRun::Successor));
    step = step.next(HandoffEvent::Locked);
    assert_eq!(step, Handoff::LockSecond(HandoffRun::Source));
    step = step.next(HandoffEvent::Locked);
    assert_eq!(step, Handoff::Claim);
    step = step.next(HandoffEvent::Claimed(Ok("claim")));
    assert_eq!(step, Handoff::Move { claim: "claim" });
    step = step.next(HandoffEvent::Moved(true));
    assert_eq!(step, Handoff::Begun { claim: "claim" });
    step = step.next(HandoffEvent::Undone("late"));
    assert_eq!(step, Handoff::Begun { claim: "claim" });
}

#[test]
fn a_handoff_to_the_run_itself_is_refused() {
    let step: Handoff<&str, &str> = allocator().begin_retained_allocation(&run("a"), &run("a"));
    assert_eq!(
        step,
        Handoff::Refused(HandoffRefusal::Turns(CapsuleAllocationUnavailable::Runtime))
    );
}

#[test]
fn a_handoff_without_a_claim_moves_nothing() {
    let mut step: Handoff<&str, &str> =
        allocator().begin_retained_allocation(&run("a"), &run("b"));
    assert_eq!(step, Handoff::LockFirst(HandoffRun::Source));
    step = step.next(HandoffEvent::Locked).next(HandoffEvent::Locked);
    step = step.next(HandoffEvent::Claimed(Err("claimed by another")));
    assert_eq!(
        step,
        Handoff::Refused(HandoffRefusal::Claim("claimed by another"))
    );
}

#[test]
fn a_workspace_that_cannot_move_has_its_claim_undone() {
    let mut step: Handoff<&str, &str> =
        allocator().begin_retained_allocation(&run("a"), &run("b"));
    step = step.next(HandoffEvent::Locked).next(HandoffEvent::Locked);
    step = step.next(HandoffEvent::Claimed(Ok("claim")));
    step = step.next(HandoffEvent::Moved(false));
    assert_eq!(step, Handoff::Undo { claim: "claim" });
    step = step.next(HandoffEvent::Undone("restored"));
    assert_eq!(step, Handoff::Refused(HandoffRefusal::Move("restored")));
}

#[test]
fn a_stored_run_delivers_for_itself() {
    let allocator = allocator();
    let state = (true, Some(run("earlier")), Some(run("later")));
    let document = allocator.write_test_recovery(&run("now"), state);
    assert_eq!(
        document,
        HostedRecoveryDocument {
            recoverable: true,
            run_id: Some(run("now")),
            delivery_run_id: Some(run("now")),
            resumed_from: Some(run("earlier")),
            successor_run_id: Some(run("later")),
        }
    );
    assert_eq!(
        allocator.recovery_delivery_run_id(Some(document)),
        Some(run("now"))
    );
    assert_eq!(allocator.recovery_delivery_run_id(None), None);
    let document = allocator.write_test_recovery(&run("now"), (false, None, None));
    assert!(!document.recoverable);
    assert_eq!(document.resumed_from, None);
    assert_eq!(document.successor_run_id, None);
}

#[test]
fn a_document_without_a_delivering_run_names_none() {
    let document = HostedRecoveryDocument {
        recoverable: true,
        run_id: Some(run("now")),
        delivery_run_id: None,
        resumed_from: None,
        successor_run_id: None,
    };
    assert_eq!(allocator().recovery_delivery_run_id(Some(document)), None);
}

#[test]
fn the_filesystem_and_the_source_can_be_replaced() {
    let mut allocator = allocator().with_test_filesystem_and_source(b"/source".to_vec(), 1);
    assert_eq!(allocator.storage_root, b"/var/lib/zeroshot");
    assert_eq!(allocator.source_override, Some(b"/source".to_vec()));
    assert_eq!(allocator.prepare_filesystem, 1);
    allocator.set_test_filesystem(2);
    assert_eq!(allocator.prepare_filesystem, 2);
    assert_eq!(allocator.source_override, Some(b"/source".to_vec()));
}

#[test]
fn a_handoff_keeps_only_the_turns_it_needs() {
    let kept = |step: &Handoff<&str, &str>| {
        (step.keeps(HandoffRun::Source), step.keeps(HandoffRun::Successor))
    };
    let mut step = allocator().begin_retained_allocation(&run("a"), &run("b"));
    assert_eq!(kept(&step), (false, false));
    step = step.next(HandoffEvent::Locked);
    assert_eq!(kept(&step), (true, false));
    step = step.next(HandoffEvent::Locked);
    assert_eq!(kept(&step), (true, true));
    step = step.next(HandoffEvent::Claimed(Ok("claim")));
    assert_eq!(kept(&step), (true, true));
    let begun = step.next(HandoffEvent::Moved(true));
    assert_eq!(kept(&begun), (false, true));
    let undo = Handoff::Undo { claim: "claim" };
    assert_eq!(kept(&undo), (true, true));
    assert_eq!(kept(&undo.next(HandoffEvent::Undone("restored"))), (false, false));
}

#[test]
fn values_are_kept_by_run() {
    let mut map = RunMap::default();
    map.insert(run("a"), 1);
    map.insert(run("b"), 2);
    map.insert(run("a"), 3);
    assert_eq!(map.get(&run("a")), Some(&3));
    assert_eq!(map.get(&run("b")), Some(&2));
    assert_eq!(map.get(&run("c")), None);
    map.remove(&run("a"));
    map.remove(&run("c"));
    assert_eq!(map.get(&run("a")), None);
    assert_eq!(map.get(&run("b")), Some(&2));
}
