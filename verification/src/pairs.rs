use vstd::prelude::*;

verus! {

/// One unit of comparison work: the indices of an unordered pair of input
/// paths, always with `first < second`, so no pair ever appears both ways
/// round and no input is paired with itself.
#[derive(Clone, Copy, Debug, PartialEq, Eq, Structural)]
pub struct PairTask {
    pub first: usize,
    pub second: usize,
}

/// Whether the tasks contain the pair `(a, b)`.
pub open spec fn contains_pair(tasks: Seq<PairTask>, a: usize, b: usize) -> bool {
    exists|k: int| 0 <= k < tasks.len() && tasks[k].first == a && tasks[k].second == b
}

/// The partners one outer index is compared against: every index strictly
/// after it, in order. One outer unit of work covers exactly these inner
/// comparisons, `n - i - 1` of them.
pub fn partners_after(i: usize, n: usize) -> (result: Vec<usize>)
    requires
        i < n,
    ensures
        result@.len() == n - i - 1,
        forall|k: int| 0 <= k < result@.len() ==> result@[k] == i + 1 + k,
{
    let mut partners: Vec<usize> = Vec::new();
    let mut j: usize = i + 1;
    while j < n
        invariant
            i < n,
            i + 1 <= j <= n,
            partners@.len() == j - i - 1,
            forall|k: int| 0 <= k < partners@.len() ==> partners@[k] == i + 1 + k,
        decreases n - j,
    {
        partners.push(j);
        j = j + 1;
    }
    partners
}

/// Enumerates the comparison plan over `n` inputs: exactly the
/// `n * (n - 1) / 2` unordered pairs, each exactly once, with no self-pairs.
pub fn all_pairs(n: usize) -> (result: Vec<PairTask>)
    ensures
        result@.len() == n * (n - 1) / 2,
        forall|k: int|
            0 <= k < result@.len() ==> (#[trigger] result@[k]).first < result@[k].second
                && result@[k].second < n,
        forall|k1: int, k2: int|
            0 <= k1 < k2 < result@.len() ==> result@[k1] != result@[k2],
        forall|a: usize, b: usize| a < b && b < n ==> #[trigger] contains_pair(result@, a, b),
{
    let mut result: Vec<PairTask> = Vec::new();
    let mut i: usize = 0;
    while i < n
        invariant
            i <= n,
            2 * result@.len() == i * (2 * n - i - 1),
            forall|k: int|
                0 <= k < result@.len() ==> (#[trigger] result@[k]).first < result@[k].second
                    && result@[k].second < n,
            forall|k: int| 0 <= k < result@.len() ==> (#[trigger] result@[k]).first < i,
            forall|k1: int, k2: int|
                0 <= k1 < k2 < result@.len() ==> result@[k1] != result@[k2],
            forall|a: usize, b: usize|
                a < b && b < n && a < i ==> #[trigger] contains_pair(result@, a, b),
        decreases n - i,
    {
        let mut j: usize = i + 1;
        while j < n
            invariant
                i < n,
                i + 1 <= j <= n,
                2 * result@.len() == i * (2 * n - i - 1) + 2 * (j - i - 1),
                forall|k: int|
                    0 <= k < result@.len() ==> (#[trigger] result@[k]).first < result@[k].second
                        && result@[k].second < n,
                forall|k: int|
                    0 <= k < result@.len() ==> (#[trigger] result@[k]).first < i || (
                    result@[k].first == i && result@[k].second < j),
                forall|k1: int, k2: int|
                    0 <= k1 < k2 < result@.len() ==> result@[k1] != result@[k2],
                forall|a: usize, b: usize|
                    a < b && b < n && (a < i || (a == i && b < j)) ==> #[trigger] contains_pair(
                        result@,
                        a,
                        b,
                    ),
            decreases n - j,
        {
            let ghost previous = result@;
            result.push(PairTask { first: i, second: j });
            proof {
                assert forall|a: usize, b: usize|
                    a < b && b < n && (a < i || (a == i && b < j + 1)) implies #[trigger] contains_pair(
                    result@,
                    a,
                    b,
                ) by {
                    if a == i && b == j {
                        assert(result@[previous.len() as int].first == a && result@[previous.len()
                            as int].second == b);
                    } else {
                        assert(contains_pair(previous, a, b));
                        let k = choose|k: int|
                            0 <= k < previous.len() && previous[k].first == a && previous[k].second
                                == b;
                        assert(result@[k].first == a && result@[k].second == b);
                    }
                }
            }
            j = j + 1;
        }
        proof {
            assert((i as int) * (2 * (n as int) - i - 1) + 2 * ((n as int) - i - 1) == ((
            i as int) + 1) * (2 * (n as int) - ((i as int) + 1) - 1)) by (nonlinear_arith);
        }
        i = i + 1;
    }
    proof {
        assert(2 * result@.len() == n * ((n as int) - 1));
        assert(result@.len() == n * ((n as int) - 1) / 2);
    }
    result
}

} // verus!
