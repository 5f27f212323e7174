//! The names of runs and their order.
use vstd::prelude::*;
use vstd::string::*;
use vstd::utf8::*;

verus! {

/// The name of a run.
#[derive(Debug, PartialEq, Eq, Hash)]
pub struct RunId {
    text: String,
}

impl View for RunId {
    type V = Seq<char>;

    closed spec fn view(&self) -> Seq<char> {
        self.text@
    }
}

/// One sequence of bytes comes before another: where they first differ it has
/// the smaller byte, or it ends.
pub open spec fn bytes_before(left: Seq<u8>, right: Seq<u8>) -> bool {
    exists|k: int| differ_at(left, right, k)
}

/// Up to `k` the two sequences agree, and there the left one is smaller or
/// ends.
pub open spec fn differ_at(left: Seq<u8>, right: Seq<u8>, k: int) -> bool {
    &&& 0 <= k <= left.len()
    &&& k < right.len()
    &&& forall|i: int| 0 <= i < k ==> left[i] == right[i]
    &&& k < left.len() ==> left[k] < right[k]
}

/// The order of runs: that of the UTF-8 bytes of their names.
pub open spec fn run_before(left: Seq<char>, right: Seq<char>) -> bool {
    bytes_before(encode_utf8(left), encode_utf8(right))
}

impl Clone for RunId {
    fn clone(&self) -> (run_id: Self)
        ensures
            run_id@ == self@,
    {
        RunId { text: self.text.clone() }
    }
}

impl RunId {
    pub fn new(text: String) -> (run_id: Self)
        ensures
            run_id@ == text@,
    {
        RunId { text }
    }

    pub fn as_str(&self) -> (text: &str)
        ensures
            text@ == self@,
    {
        self.text.as_str()
    }

    pub fn same(&self, other: &RunId) -> (same: bool)
        ensures
            same == (self@ == other@),
    {
        self.text == other.text
    }

    /// Whether this run comes before another in the order of runs.
    pub fn before(&self, other: &RunId) -> (before: bool)
        ensures
            before == run_before(self@, other@),
    {
        let left = self.text.as_str().as_bytes();
        let right = other.text.as_str().as_bytes();
        let mut k: usize = 0;
        while k < left.len() && k < right.len() && left[k] == right[k]
            invariant
                k <= left@.len(),
                k <= right@.len(),
                forall|i: int| 0 <= i < k ==> left@[i] == right@[i],
            decreases left@.len() - k,
        {
            k = k + 1;
        }
        let before = k < right.len() && (k == left.len() || left[k] < right[k]);
        proof {
            if before {
                assert(differ_at(left@, right@, k as int));
            } else {
                assert forall|j: int| !differ_at(left@, right@, j) by {}
            }
        }
        before
    }
}

/// No run comes before itself.
pub proof fn no_run_comes_before_itself(run: Seq<char>)
    ensures
        !run_before(run, run),
{
}

/// Of two different runs exactly one comes before the other.
pub proof fn runs_are_totally_ordered(left: Seq<char>, right: Seq<char>)
    ensures
        !(run_before(left, right) && run_before(right, left)),
        left != right ==> run_before(left, right) || run_before(right, left),
{
    let a = encode_utf8(left);
    let b = encode_utf8(right);
    if run_before(left, right) && run_before(right, left) {
        let i = choose|i: int| differ_at(a, b, i);
        let j = choose|j: int| differ_at(b, a, j);
        assert(differ_at(a, b, i));
        assert(differ_at(b, a, j));
    }
    if left != right {
        encode_utf8_decode_utf8(left);
        encode_utf8_decode_utf8(right);
        assert(a != b);
        bytes_differ_somewhere(a, b, 0);
    }
}

proof fn bytes_differ_somewhere(a: Seq<u8>, b: Seq<u8>, k: int)
    requires
        a != b,
        0 <= k <= a.len(),
        k <= b.len(),
        forall|i: int| 0 <= i < k ==> a[i] == b[i],
    ensures
        bytes_before(a, b) || bytes_before(b, a),
    decreases a.len() - k,
{
    if k == a.len() && k == b.len() {
        assert(a =~= b);
    } else if k == a.len() {
        assert(differ_at(a, b, k));
    } else if k == b.len() {
        assert(differ_at(b, a, k));
    } else if a[k] < b[k] {
        assert(differ_at(a, b, k));
    } else if b[k] < a[k] {
        assert(differ_at(b, a, k));
    } else {
        bytes_differ_somewhere(a, b, k + 1);
    }
}

/// The order of runs carries over: what comes before something earlier comes
/// before what is later.
pub proof fn run_order_is_transitive(first: Seq<char>, second: Seq<char>, third: Seq<char>)
    requires
        run_before(first, second),
        run_before(second, third),
    ensures
        run_before(first, third),
{
    let a = encode_utf8(first);
    let b = encode_utf8(second);
    let c = encode_utf8(third);
    let i = choose|i: int| differ_at(a, b, i);
    let j = choose|j: int| differ_at(b, c, j);
    assert(differ_at(a, c, if i < j {
        i
    } else {
        j
    }));
}

/// Where two names have the same beginning, the bytes behind it decide: the
/// smaller one comes first, and so does a name that is at its end.
pub proof fn the_first_difference_decides(
    beginning: Seq<u8>,
    left: u8,
    left_rest: Seq<u8>,
    right: u8,
    right_rest: Seq<u8>,
)
    requires
        left != right,
    ensures
        bytes_before(beginning.push(left) + left_rest, beginning.push(right) + right_rest) == (left
            < right),
        bytes_before(beginning, beginning.push(right) + right_rest),
        !bytes_before(beginning.push(left) + left_rest, beginning),
{
    let k = beginning.len() as int;
    let a = beginning.push(left) + left_rest;
    let b = beginning.push(right) + right_rest;
    assert(differ_at(beginning, b, k));
    if left < right {
        assert(differ_at(a, b, k));
    } else if bytes_before(a, b) {
        let j = choose|j: int| differ_at(a, b, j);
        if j < k {
            assert(a[j] == beginning[j] && b[j] == beginning[j]);
        } else if j > k {
            assert(a[k] == b[k]);
        }
    }
    if bytes_before(a, beginning) {
        let j = choose|j: int| differ_at(a, beginning, j);
        assert(a[j] == beginning[j]);
    }
}

/// Runs are ordered by the bytes of their names: by the first that differs, and
/// where one name is the beginning of the other, the shorter one comes first.
pub proof fn runs_are_ordered_by_their_names(left: Seq<char>, right: Seq<char>, k: int)
    requires
        0 <= k <= encode_utf8(left).len(),
        k <= encode_utf8(right).len(),
        forall|i: int| 0 <= i < k ==> encode_utf8(left)[i] == encode_utf8(right)[i],
    ensures
        k < encode_utf8(left).len() && k < encode_utf8(right).len() && encode_utf8(left)[k]
            != encode_utf8(right)[k] ==> run_before(left, right) == (encode_utf8(left)[k]
            < encode_utf8(right)[k]),
        k == encode_utf8(left).len() ==> run_before(left, right) == (k < encode_utf8(right).len()),
        k == encode_utf8(right).len() ==> !run_before(left, right),
{
    let a = encode_utf8(left);
    let b = encode_utf8(right);
    if differ_at(a, b, k) {
        assert(run_before(left, right));
    }
    if run_before(left, right) {
        let j = choose|j: int| differ_at(a, b, j);
        assert(j >= k);
    }
}

} // verus!
