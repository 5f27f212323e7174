//! Histories: what is found among the replies that a step machine has taken.
use vstd::prelude::*;

verus! {

/// The reply at this place is of a kind, which the replies before it and the
/// reply itself tell.
pub open spec fn found_at<R>(replies: Seq<R>, kind: spec_fn(Seq<R>, R) -> bool, i: int) -> bool {
    0 <= i < replies.len() && kind(replies.take(i), replies[i])
}

/// Some reply is of a kind.
pub open spec fn among<R>(replies: Seq<R>, kind: spec_fn(Seq<R>, R) -> bool) -> bool {
    exists|i: int| #[trigger] found_at(replies, kind, i)
}

/// A reply among the first replies is one among all of them, at the same place.
pub proof fn found_among_the_first<R>(
    replies: Seq<R>,
    kind: spec_fn(Seq<R>, R) -> bool,
    count: int,
    i: int,
)
    requires
        0 <= i < count <= replies.len(),
    ensures
        found_at(replies.take(count), kind, i) == found_at(replies, kind, i),
{
    assert(replies.take(count).take(i) =~= replies.take(i));
}

/// What is found among all replies is found among the first of them or is the
/// last.
pub proof fn found_before_or_last<R>(replies: Seq<R>, kind: spec_fn(Seq<R>, R) -> bool)
    requires
        replies.len() > 0,
    ensures
        among(replies, kind) == (among(replies.drop_last(), kind) || kind(
            replies.drop_last(),
            replies.last(),
        )),
{
    let front = replies.drop_last();
    let last = replies.len() - 1;
    assert(replies.take(last) =~= front);
    if among(front, kind) {
        let i = choose|i: int| #[trigger] found_at(front, kind, i);
        found_among_the_first(replies, kind, last, i);
        assert(found_at(replies, kind, i));
    }
    if kind(front, replies.last()) {
        assert(found_at(replies, kind, last));
    }
    if among(replies, kind) {
        let i = choose|i: int| #[trigger] found_at(replies, kind, i);
        if i < last {
            found_among_the_first(replies, kind, last, i);
            assert(found_at(front, kind, i));
        }
    }
}

} // verus!
