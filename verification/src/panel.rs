//! Choosing the voters of a round.
//!
//! Voters that have not yet reviewed the Execution come first, then
//! those of higher priority, then those with the lower identifier.

use vstd::prelude::*;
use crate::models::agent_profile::AgentProfile;
use crate::models::consensus_review::{ConsensusReview, ConsensusReviewView};

verus! {

/// Some Review of the Execution was already given to the voter `profile_id`.
pub open spec fn spec_used(rs: Seq<ConsensusReviewView>, profile_id: u128) -> bool {
    exists|j: int| 0 <= j < rs.len() && (#[trigger] rs[j]).reviewer_profile_id == profile_id
}

/// The voter at position `a` of the pool is chosen before the one at
/// position `b`: a voter not yet used comes first, then the higher
/// priority, then the lower identifier, then the earlier position.
pub open spec fn spec_precedes(
    pool: Seq<AgentProfile>,
    rs: Seq<ConsensusReviewView>,
    a: int,
    b: int,
) -> bool {
    let ua = spec_used(rs, pool[a].id);
    let ub = spec_used(rs, pool[b].id);
    (!ua && ub) || (ua == ub && (pool[a].priority > pool[b].priority || (pool[a].priority
        == pool[b].priority && (pool[a].id < pool[b].id || (pool[a].id == pool[b].id && a < b)))))
}

/// How many of the first `n` profiles of the pool are available voters.
pub open spec fn spec_available_reviewers(pool: Seq<AgentProfile>, n: int) -> int
    decreases n,
{
    if n <= 0 {
        0
    } else {
        spec_available_reviewers(pool, n - 1) + if n <= pool.len() && pool[n
            - 1].spec_is_available_reviewer() {
            1int
        } else {
            0int
        }
    }
}

/// `picks` are the positions of the first `count` available voters
/// of the pool in the order of choice.
pub open spec fn spec_is_selection(
    pool: Seq<AgentProfile>,
    rs: Seq<ConsensusReviewView>,
    picks: Seq<usize>,
    count: int,
) -> bool {
    &&& picks.len() == count
    &&& forall|k: int|
        0 <= k < picks.len() ==> (#[trigger] picks[k]) < pool.len()
            && pool[picks[k] as int].spec_is_available_reviewer()
    &&& forall|k1: int, k2: int|
        0 <= k1 < k2 < picks.len() ==> spec_precedes(
            pool,
            rs,
            #[trigger] picks[k1] as int,
            #[trigger] picks[k2] as int,
        )
    &&& forall|b: int, k: int|
        0 <= b < pool.len() && (#[trigger] pool[b]).spec_is_available_reviewer() && 0 <= k
            < picks.len() && !picks.contains(b as usize) ==> spec_precedes(
            pool,
            rs,
            #[trigger] picks[k] as int,
            b,
        )
}

/// Whether some Review was already given to the voter `profile_id`.
pub fn is_used(reviews: &Vec<ConsensusReview>, profile_id: u128) -> (b: bool)
    ensures
        b == spec_used(reviews.deep_view(), profile_id),
{
    let ghost rs = reviews.deep_view();
    let mut j: usize = 0;
    while j < reviews.len()
        invariant
            j <= reviews.len(),
            rs == reviews.deep_view(),
            forall|m: int| 0 <= m < j ==> (#[trigger] rs[m]).reviewer_profile_id != profile_id,
        decreases reviews.len() - j,
    {
        assert(rs[j as int] == reviews[j as int]@);
        if reviews[j].reviewer_profile_id == profile_id {
            return true;
        }
        j += 1;
    }
    false
}

/// Whether the voter at `a` is chosen before the one at `b`.
pub fn precedes(pool: &Vec<AgentProfile>, reviews: &Vec<ConsensusReview>, a: usize, b: usize) -> (r:
    bool)
    requires
        a < pool.len(),
        b < pool.len(),
    ensures
        r == spec_precedes(pool@, reviews.deep_view(), a as int, b as int),
{
    let ua = is_used(reviews, pool[a].id);
    let ub = is_used(reviews, pool[b].id);
    (!ua && ub) || (ua == ub && (pool[a].priority > pool[b].priority || (pool[a].priority
        == pool[b].priority && (pool[a].id < pool[b].id || (pool[a].id == pool[b].id && a < b)))))
}

/// The positions of the available voters of the pool, in ascending order.
pub fn available_positions(pool: &Vec<AgentProfile>) -> (v: Vec<usize>)
    ensures
        v.len() == spec_available_reviewers(pool@, pool.len() as int),
        v.len() <= pool.len(),
        forall|x: int|
            0 <= x < v.len() ==> (#[trigger] v[x]) < pool.len()
                && pool[v[x] as int].spec_is_available_reviewer(),
        forall|x: int, y: int| 0 <= x < y < v.len() ==> (#[trigger] v[x]) != (#[trigger] v[y]),
        forall|b: int|
            0 <= b < pool.len() && (#[trigger] pool[b]).spec_is_available_reviewer()
                ==> v@.contains(b as usize),
{
    let mut v: Vec<usize> = Vec::new();
    let mut i: usize = 0;
    while i < pool.len()
        invariant
            i <= pool.len(),
            v.len() == spec_available_reviewers(pool@, i as int),
            v.len() <= i,
            forall|x: int|
                0 <= x < v.len() ==> (#[trigger] v[x]) < i
                    && pool[v[x] as int].spec_is_available_reviewer(),
            forall|x: int, y: int| 0 <= x < y < v.len() ==> (#[trigger] v[x]) < (#[trigger] v[y]),
            forall|b: int|
                0 <= b < i && (#[trigger] pool[b]).spec_is_available_reviewer() ==> v@.contains(
                    b as usize,
                ),
        decreases pool.len() - i,
    {
        if pool[i].is_available_reviewer() {
            let ghost before = v@;
            v.push(i);
            proof {
                assert forall|b: int|
                    0 <= b < i + 1 && (#[trigger] pool[b]).spec_is_available_reviewer() implies v@.contains(
                    b as usize,
                ) by {
                    if b < i {
                        let x = choose|x: int| 0 <= x < before.len() && before[x] == b as usize;
                        assert(v@[x] == b as usize);
                    } else {
                        assert(v@[before.len() as int] == b as usize);
                    }
                }
            }
        }
        i += 1;
    }
    v
}

/// The order of choice is transitive.
pub proof fn lemma_precedes_transitive(
    pool: Seq<AgentProfile>,
    rs: Seq<ConsensusReviewView>,
    a: int,
    b: int,
    c: int,
)
    requires
        spec_precedes(pool, rs, a, b),
        spec_precedes(pool, rs, b, c),
    ensures
        spec_precedes(pool, rs, a, c),
{
}

/// Of two different positions, one is chosen before the other.
pub proof fn lemma_precedes_total(
    pool: Seq<AgentProfile>,
    rs: Seq<ConsensusReviewView>,
    a: int,
    b: int,
)
    requires
        a != b,
    ensures
        spec_precedes(pool, rs, a, b) || spec_precedes(pool, rs, b, a),
{
}

/// The position in `order`, from `from` on, of the voter that is chosen first.
fn first_from(
    pool: &Vec<AgentProfile>,
    reviews: &Vec<ConsensusReview>,
    order: &Vec<usize>,
    from: usize,
) -> (m: usize)
    requires
        from < order.len(),
        forall|x: int| 0 <= x < order.len() ==> (#[trigger] order[x]) < pool.len(),
        forall|x: int, y: int|
            0 <= x < y < order.len() ==> (#[trigger] order[x]) != (#[trigger] order[y]),
    ensures
        from <= m < order.len(),
        forall|y: int|
            from <= y < order.len() && y != m ==> spec_precedes(
                pool@,
                reviews.deep_view(),
                order[m as int] as int,
                #[trigger] order[y] as int,
            ),
{
    let ghost rs = reviews.deep_view();
    let mut m: usize = from;
    let mut y: usize = from + 1;
    while y < order.len()
        invariant
            from <= m < y <= order.len(),
            rs == reviews.deep_view(),
            forall|x: int| 0 <= x < order.len() ==> (#[trigger] order[x]) < pool.len(),
            forall|x: int, z: int|
                0 <= x < z < order.len() ==> (#[trigger] order[x]) != (#[trigger] order[z]),
            forall|z: int|
                from <= z < y && z != m ==> spec_precedes(
                    pool@,
                    rs,
                    order[m as int] as int,
                    #[trigger] order[z] as int,
                ),
        decreases order.len() - y,
    {
        if precedes(pool, reviews, order[y], order[m]) {
            proof {
                assert forall|z: int| from <= z < y + 1 && z != y implies spec_precedes(
                    pool@,
                    rs,
                    order[y as int] as int,
                    #[trigger] order[z] as int,
                ) by {
                    if z != m {
                        lemma_precedes_transitive(
                            pool@,
                            rs,
                            order[y as int] as int,
                            order[m as int] as int,
                            order[z] as int,
                        );
                    }
                }
            }
            m = y;
        } else {
            proof {
                assert(order[m as int] != order[y as int]);
                lemma_precedes_total(pool@, rs, order[m as int] as int, order[y as int] as int);
            }
        }
        y += 1;
    }
    m
}

/// Chooses the first `count` available voters of the pool in the order of choice.
pub fn select_reviewers(
    pool: &Vec<AgentProfile>,
    reviews: &Vec<ConsensusReview>,
    count: usize,
) -> (picks: Vec<usize>)
    requires
        count <= spec_available_reviewers(pool@, pool.len() as int),
    ensures
        spec_is_selection(pool@, reviews.deep_view(), picks@, count as int),
{
    let ghost rs = reviews.deep_view();
    let mut order = available_positions(pool);
    let mut k: usize = 0;
    while k < count
        invariant
            k <= count <= order.len(),
            rs == reviews.deep_view(),
            forall|x: int|
                0 <= x < order.len() ==> (#[trigger] order[x]) < pool.len()
                    && pool[order[x] as int].spec_is_available_reviewer(),
            forall|x: int, y: int|
                0 <= x < y < order.len() ==> (#[trigger] order[x]) != (#[trigger] order[y]),
            forall|b: int|
                0 <= b < pool.len() && (#[trigger] pool[b]).spec_is_available_reviewer()
                    ==> order@.contains(b as usize),
            forall|x: int, y: int|
                0 <= x < k && x < y < order.len() ==> spec_precedes(
                    pool@,
                    rs,
                    #[trigger] order[x] as int,
                    #[trigger] order[y] as int,
                ),
        decreases count - k,
    {
        let m = first_from(pool, reviews, &order, k);
        let ghost before = order@;
        let at_k = order[k];
        let at_m = order[m];
        order.set(k, at_m);
        order.set(m, at_k);
        proof {
            let after = order@;
            assert forall|x: int| 0 <= x < after.len() implies (#[trigger] after[x]) < pool.len()
                && pool[after[x] as int].spec_is_available_reviewer() by {
                if x == k {
                    assert(after[x] == before[m as int]);
                } else if x == m {
                    assert(after[x] == before[k as int]);
                } else {
                    assert(after[x] == before[x]);
                }
            }
            assert forall|x: int, y: int| 0 <= x < y < after.len() implies (#[trigger] after[x]) != (
            #[trigger] after[y]) by {
                let bx = if x == k {
                    m as int
                } else if x == m {
                    k as int
                } else {
                    x
                };
                let by = if y == k {
                    m as int
                } else if y == m {
                    k as int
                } else {
                    y
                };
                assert(after[x] == before[bx]);
                assert(after[y] == before[by]);
                assert(bx != by);
                if bx < by {
                    assert(before[bx] != before[by]);
                } else {
                    assert(before[by] != before[bx]);
                }
            }
            assert forall|b: int|
                0 <= b < pool.len() && (#[trigger] pool[b]).spec_is_available_reviewer() implies after.contains(
                b as usize,
            ) by {
                assert(before.contains(b as usize));
                let x = choose|x: int| 0 <= x < before.len() && before[x] == b as usize;
                let ax = if x == k {
                    m as int
                } else if x == m {
                    k as int
                } else {
                    x
                };
                assert(after[ax] == b as usize);
            }
            assert forall|x: int, y: int| 0 <= x < k + 1 && x < y < after.len() implies spec_precedes(
                pool@,
                rs,
                #[trigger] after[x] as int,
                #[trigger] after[y] as int,
            ) by {
                let by = if y == k {
                    m as int
                } else if y == m {
                    k as int
                } else {
                    y
                };
                assert(after[y] == before[by]);
                if x < k {
                    assert(after[x] == before[x]);
                    assert(spec_precedes(pool@, rs, before[x] as int, before[by] as int));
                } else {
                    assert(after[x] == before[m as int]);
                    assert(by != m);
                    assert(spec_precedes(pool@, rs, before[m as int] as int, before[by] as int));
                }
            }
        }
        k += 1;
    }
    let ghost full = order@;
    order.truncate(count);
    proof {
        let picks = order@;
        assert forall|j: int| 0 <= j < picks.len() implies picks[j] == full[j] by {}
        assert forall|b: int, j: int|
            0 <= b < pool.len() && (#[trigger] pool[b]).spec_is_available_reviewer() && 0 <= j
                < picks.len() && !picks.contains(b as usize) implies spec_precedes(
            pool@,
            rs,
            #[trigger] picks[j] as int,
            b,
        ) by {
            assert(full.contains(b as usize));
            let x = choose|x: int| 0 <= x < full.len() && full[x] == b as usize;
            if x < count {
                assert(picks[x] == b as usize);
            }
            assert(spec_precedes(pool@, rs, full[j] as int, full[x] as int));
        }
        assert forall|k1: int, k2: int| 0 <= k1 < k2 < picks.len() implies spec_precedes(
            pool@,
            rs,
            #[trigger] picks[k1] as int,
            #[trigger] picks[k2] as int,
        ) by {
            assert(spec_precedes(pool@, rs, full[k1] as int, full[k2] as int));
        }
        assert forall|j: int| 0 <= j < picks.len() implies (#[trigger] picks[j]) < pool.len()
            && pool[picks[j] as int].spec_is_available_reviewer() by {
            assert(picks[j] == full[j]);
        }
    }
    order
}

/// Two selections of the same size agree up to position `k`.
proof fn lemma_selections_agree(
    pool: Seq<AgentProfile>,
    rs: Seq<ConsensusReviewView>,
    a: Seq<usize>,
    b: Seq<usize>,
    count: int,
    k: int,
)
    requires
        spec_is_selection(pool, rs, a, count),
        spec_is_selection(pool, rs, b, count),
        0 <= k < count,
    ensures
        forall|m: int| 0 <= m <= k ==> a[m] == b[m],
    decreases k,
{
    if k > 0 {
        lemma_selections_agree(pool, rs, a, b, count, k - 1);
    }
    if a[k] != b[k] {
        let x = a[k] as int;
        let y = b[k] as int;
        assert(spec_precedes(pool, rs, y, x)) by {
            if b.contains(a[k]) {
                let m = choose|m: int| 0 <= m < b.len() && b[m] == a[k];
                if m < k {
                    assert(a[m] == b[m]);
                    assert(spec_precedes(pool, rs, a[m] as int, a[k] as int));
                } else {
                    assert(spec_precedes(pool, rs, b[k] as int, b[m] as int));
                }
            } else {
                assert(pool[x].spec_is_available_reviewer());
                assert(spec_precedes(pool, rs, b[k] as int, x));
            }
        }
        assert(spec_precedes(pool, rs, x, y)) by {
            if a.contains(b[k]) {
                let m = choose|m: int| 0 <= m < a.len() && a[m] == b[k];
                if m < k {
                    assert(a[m] == b[m]);
                    assert(spec_precedes(pool, rs, b[m] as int, b[k] as int));
                } else {
                    assert(spec_precedes(pool, rs, a[k] as int, a[m] as int));
                }
            } else {
                assert(pool[y].spec_is_available_reviewer());
                assert(spec_precedes(pool, rs, a[k] as int, y));
            }
        }
    }
}

/// The selection is determined: two selections of the same size from
/// the same pool are the same.
pub proof fn lemma_selection_is_unique(
    pool: Seq<AgentProfile>,
    rs: Seq<ConsensusReviewView>,
    a: Seq<usize>,
    b: Seq<usize>,
    count: int,
)
    requires
        spec_is_selection(pool, rs, a, count),
        spec_is_selection(pool, rs, b, count),
    ensures
        a == b,
{
    if count > 0 {
        lemma_selections_agree(pool, rs, a, b, count, count - 1);
    }
    assert(a =~= b);
}

} // verus!
