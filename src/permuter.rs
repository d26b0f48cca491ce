use vstd::prelude::*;

verus! {

/// Position of slot `i` in the round of `n` slots that starts at `start`.
pub open spec fn rank(start: int, n: int, i: int) -> int {
    if i >= start {
        i - start
    } else {
        i + n - start
    }
}

/// The slot visited at position `k` of the round of `n` slots that starts at `start`.
pub open spec fn rotated(start: int, n: int, k: int) -> int {
    if start + k < n {
        start + k
    } else {
        start + k - n
    }
}

/// The state of the generator after one round.
pub open spec fn next_seed(s: u64) -> u64 {
    s.wrapping_mul(6364136223846793005u64).wrapping_add(1442695040888963407u64)
}

/// Ranks are distinct for distinct slots of one round.
pub proof fn lemma_rank_injective(start: int, n: int, i: int, j: int)
    requires
        0 <= start < n,
        0 <= i < n,
        0 <= j < n,
        rank(start, n, i) == rank(start, n, j),
    ensures
        i == j,
{
}

/// A scan order is fixed by its round and the slots it holds: two sequences of
/// slots, each strictly increasing in rank within the round of `n` slots that
/// starts at `start`, that hold the same slots, are equal. So with a fixed seed,
/// the same signals and the same pending slots give the same scan order.
pub proof fn same_round_same_order(start: int, n: int, a: Seq<usize>, b: Seq<usize>)
    requires
        0 <= start < n,
        forall|k: int| 0 <= k < a.len() ==> a[k] < n,
        forall|k: int| 0 <= k < b.len() ==> b[k] < n,
        forall|k1: int, k2: int|
            0 <= k1 < k2 < a.len() ==> rank(start, n, a[k1] as int) < rank(start, n, a[k2] as int),
        forall|k1: int, k2: int|
            0 <= k1 < k2 < b.len() ==> rank(start, n, b[k1] as int) < rank(start, n, b[k2] as int),
        forall|j: usize| a.contains(j) <==> b.contains(j),
    ensures
        a == b,
    decreases a.len(),
{
    if a.len() == 0 {
        if b.len() > 0 {
            assert(b.contains(b[0]));
        }
        assert(a =~= b);
    } else {
        assert(a.contains(a[0]));
        assert(b.len() > 0);
        assert(b.contains(b[0]));
        let kb = choose|k: int| 0 <= k < b.len() && b[k] == a[0];
        let ka = choose|k: int| 0 <= k < a.len() && a[k] == b[0];
        assert(rank(start, n, b[0] as int) <= rank(start, n, a[0] as int)) by {
            if kb > 0 {
            }
        }
        assert(rank(start, n, a[0] as int) <= rank(start, n, b[0] as int)) by {
            if ka > 0 {
            }
        }
        lemma_rank_injective(start, n, a[0] as int, b[0] as int);
        let a1 = a.drop_first();
        let b1 = b.drop_first();
        assert forall|j: usize| a1.contains(j) <==> b1.contains(j) by {
            if a1.contains(j) {
                let k = choose|k: int| 0 <= k < a1.len() && a1[k] == j;
                assert(a[k + 1] == j);
                assert(a.contains(j));
                assert(j != a[0]);
                let m = choose|m: int| 0 <= m < b.len() && b[m] == j;
                assert(m != 0);
                assert(b1[m - 1] == j);
            }
            if b1.contains(j) {
                let k = choose|k: int| 0 <= k < b1.len() && b1[k] == j;
                assert(b[k + 1] == j);
                assert(b.contains(j));
                assert(j != b[0]);
                let m = choose|m: int| 0 <= m < a.len() && a[m] == j;
                assert(m != 0);
                assert(a1[m - 1] == j);
            }
        }
        assert forall|k1: int, k2: int| 0 <= k1 < k2 < a1.len() implies rank(start, n, a1[k1] as int)
            < rank(start, n, a1[k2] as int) by {
            assert(a1[k1] == a[k1 + 1] && a1[k2] == a[k2 + 1]);
        }
        assert forall|k1: int, k2: int| 0 <= k1 < k2 < b1.len() implies rank(start, n, b1[k1] as int)
            < rank(start, n, b1[k2] as int) by {
            assert(b1[k1] == b[k1 + 1] && b1[k2] == b[k2 + 1]);
        }
        same_round_same_order(start, n, a1, b1);
        assert(a =~= b) by {
            assert forall|k: int| 0 <= k < a.len() implies a[k] == b[k] by {
                if k > 0 {
                    assert(a[k] == a1[k - 1]);
                    assert(b[k] == b1[k - 1]);
                }
            }
        }
    }
}

/// One step of the generator.
fn advance(s: u64) -> (r: u64)
    ensures
        r == next_seed(s),
{
    s.wrapping_mul(6364136223846793005u64).wrapping_add(1442695040888963407u64)
}

/// Scan orders for first-success engines: each round is a rotation of `0..n`
/// that starts at a slot drawn from a seeded generator, so no slot is always first.
pub struct FairnessPermuter {
    pub seed: u64,
}

impl FairnessPermuter {
    pub fn new(seed: u64) -> (r: Self)
        ensures
            r.seed == seed,
    {
        FairnessPermuter { seed }
    }

    /// The slot the current round starts at.
    pub open spec fn start(&self, n: nat) -> int {
        (self.seed % (n as u64)) as int
    }

    /// The order of this round: a permutation of `0..n`; advances the generator.
    #[verifier::spinoff_prover]
    #[verifier::rlimit(40)]
    pub fn next_round(&mut self, n: usize) -> (r: Vec<usize>)
        requires
            n > 0,
        ensures
            final(self).seed == next_seed(old(self).seed),
            r@.len() == n,
            forall|k: int|
                0 <= k < n ==> r@[k] == rotated(old(self).start(n as nat), n as int, k),
            forall|k: int| 0 <= k < n ==> rank(old(self).start(n as nat), n as int, r@[k] as int) == k,
            forall|i: usize| i < n ==> r@.contains(i),
            r@.no_duplicates(),
    {
        let start: usize = (self.seed % (n as u64)) as usize;
        let ghost st = start as int;
        let mut r: Vec<usize> = Vec::new();
        let mut k: usize = 0;
        while k < n
            invariant
                k <= n,
                0 <= st < n,
                st == start,
                r@.len() == k,
                forall|m: int| 0 <= m < k ==> r@[m] == rotated(st, n as int, m),
            decreases n - k,
        {
            let v: usize = if start < n - k {
                start + k
            } else {
                start - (n - k)
            };
            r.push(v);
            k = k + 1;
        }
        assert forall|i: usize| i < n implies r@.contains(i) by {
            assert(r@[rank(st, n as int, i as int)] == i);
        }
        self.seed = advance(self.seed);
        r
    }
}

} // verus!
