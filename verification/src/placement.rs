//! Shard placement generator: assigns replica-holding peers to shards by
//! drawing one random permutation of the peer pool and walking it
//! cyclically, consuming one window of consecutive peers per shard.

use vstd::prelude::*;
use vstd::arithmetic::div_mod::{
    lemma_fundamental_div_mod, lemma_mod_bound, lemma_mod_multiples_vanish, lemma_small_mod,
    lemma_add_mod_noop_right,
};
use vstd::seq_lib::group_to_multiset_ensures;
use rand::prelude::SliceRandom;

use crate::types::PeerId;

verus! {

/// Effective replication factor: the requested factor clamped to the pool
/// size, so that one shard can never ask for more distinct peers than exist.
pub open spec fn effective_replication(replication_factor: int, pool_len: int) -> int {
    if replication_factor <= pool_len {
        replication_factor
    } else {
        pool_len
    }
}

/// The rows of `r` walk `perm` cyclically: shard `i` holds the `eff`
/// consecutive elements of `perm` starting at position `i * eff`, indices
/// wrapping past the end of the permutation.
pub open spec fn is_cyclic_window_placement(
    perm: Seq<PeerId>,
    shard_number: int,
    eff: int,
    r: Seq<Seq<PeerId>>,
) -> bool {
    &&& r.len() == shard_number
    &&& forall|i: int| 0 <= i < shard_number ==> (#[trigger] r[i]).len() == eff
    &&& forall|i: int, j: int|
        0 <= i < shard_number && 0 <= j < eff && perm.len() > 0 ==> (#[trigger] r[i][j]) == perm[(
            i * eff + j
        ) % (perm.len() as int)]
}

/// What the generator promises: the result is a cyclic window walk over some
/// permutation of the pool, with the window width clamped to the pool size.
pub open spec fn even_placement_of(
    pool: Seq<PeerId>,
    shard_number: int,
    replication_factor: int,
    r: Seq<Seq<PeerId>>,
) -> bool {
    exists|perm: Seq<PeerId>|
        perm.to_multiset() == pool.to_multiset() && is_cyclic_window_placement(
            perm,
            shard_number,
            effective_replication(replication_factor, pool.len() as int),
            r,
        )
}

/// The mathematical rows of a placement: each row of peers as a sequence.
pub open spec fn rows_view(r: Seq<Vec<PeerId>>) -> Seq<Seq<PeerId>> {
    r.map_values(|row: Vec<PeerId>| row@)
}

/// Relies on rand's `SliceRandom::shuffle`, driven by `rand::thread_rng`:
/// one in-place Fisher-Yates pass that only swaps elements of the slice, so
/// what comes back is a permutation of what went in. Which permutation comes
/// back is random; nothing more is assumed of it.
#[verifier::external_body]
fn shuffle_pool(pool: &mut Vec<PeerId>)
    ensures
        final(pool)@.to_multiset() == old(pool)@.to_multiset(),
        final(pool)@.len() == old(pool)@.len(),
{
    let mut rng = rand::thread_rng();
    pool.shuffle(&mut rng);
}

/// Stepping a cyclic cursor: incrementing a reduced residue and wrapping at
/// `m` lands on the residue of the incremented value.
proof fn lemma_mod_increment(a: int, m: int)
    requires
        0 < m,
        0 <= a,
    ensures
        a % m + 1 == m ==> (a + 1) % m == 0,
        a % m + 1 < m ==> (a + 1) % m == a % m + 1,
{
    lemma_fundamental_div_mod(a, m);
    lemma_mod_bound(a, m);
    if a % m + 1 == m {
        assert(m * (a / m + 1) + 0 == a + 1) by (nonlinear_arith)
            requires a == m * (a / m) + a % m, a % m + 1 == m;
        lemma_mod_multiples_vanish(a / m + 1, 0, m);
        lemma_small_mod(0nat, m as nat);
    } else {
        lemma_mod_multiples_vanish(a / m, a % m + 1, m);
        assert(m * (a / m) + (a % m + 1) == a + 1);
        lemma_small_mod((a % m + 1) as nat, m as nat);
    }
}

/// Two distinct offsets inside one window land on distinct positions of the
/// permutation, because the window is no wider than the permutation.
proof fn lemma_window_indices_distinct(b: int, j1: int, j2: int, m: int)
    requires
        0 <= b,
        0 <= j1 < j2,
        j2 < m,
    ensures
        (b + j1) % m != (b + j2) % m,
{
    lemma_fundamental_div_mod(b + j1, m);
    lemma_fundamental_div_mod(b + j2, m);
    lemma_mod_bound(b + j1, m);
    lemma_mod_bound(b + j2, m);
    if (b + j1) % m == (b + j2) % m {
        let q1 = (b + j1) / m;
        let q2 = (b + j2) / m;
        assert(j2 - j1 == m * (q2 - q1)) by (nonlinear_arith)
            requires
                b + j1 == m * q1 + (b + j1) % m,
                b + j2 == m * q2 + (b + j2) % m,
                (b + j1) % m == (b + j2) % m;
        assert(false) by (nonlinear_arith)
            requires j2 - j1 == m * (q2 - q1), 0 < j2 - j1 < m;
    }
}

/// A permutation of a duplicate-free sequence is duplicate-free.
proof fn lemma_permutation_no_duplicates(a: Seq<PeerId>, b: Seq<PeerId>)
    requires
        a.to_multiset() == b.to_multiset(),
        a.no_duplicates(),
    ensures
        b.no_duplicates(),
{
    a.lemma_multiset_has_no_duplicates();
    b.lemma_multiset_has_no_duplicates_conv();
}

/// Construct a shards-replicas layout for `shard_number` shards from the
/// given pool of peers: draw one random permutation of the pool, then walk
/// it cyclically, consuming `min(replication_factor, pool size)` consecutive
/// peers per shard, in shard order. Consecutive windows overlap by
/// construction, spreading load evenly over many shards for a fixed pool.
///
/// Every returned shard entry draws only from the pool, and when the pool
/// has no duplicate peers, no shard entry holds a peer twice. An empty pool
/// yields degenerate empty entries; callers guard against that upstream.
pub fn generate_even_placement(
    pool: Vec<PeerId>,
    shard_number: usize,
    replication_factor: usize,
) -> (r: Vec<Vec<PeerId>>)
    ensures
        even_placement_of(pool@, shard_number as int, replication_factor as int, rows_view(r@)),
        r@.len() == shard_number,
        forall|i: int|
            0 <= i < r@.len() ==> (#[trigger] r@[i])@.len() == effective_replication(
                replication_factor as int,
                pool@.len() as int,
            ),
        forall|i: int, j: int|
            0 <= i < r@.len() && 0 <= j < r@[i]@.len() ==> pool@.contains(#[trigger] r@[i]@[j]),
        pool@.no_duplicates() ==> forall|i: int|
            0 <= i < r@.len() ==> (#[trigger] r@[i])@.no_duplicates(),
{
    let ghost original_pool: Seq<PeerId> = pool@;
    let mut perm = pool;
    shuffle_pool(&mut perm);
    let len = perm.len();
    let eff: usize = if replication_factor <= len {
        replication_factor
    } else {
        len
    };
    let ghost gl: int = len as int;
    proof {
        if len > 0 {
            lemma_small_mod(0nat, gl as nat);
        }
    }
    let mut result: Vec<Vec<PeerId>> = Vec::new();
    let mut cursor: usize = 0;
    let mut s: usize = 0;
    while s < shard_number
        invariant
            perm@.to_multiset() == original_pool.to_multiset(),
            len == perm@.len(),
            gl == len as int,
            eff as int == effective_replication(replication_factor as int, gl),
            eff <= len,
            s <= shard_number,
            result@.len() == s,
            len == 0 ==> cursor == 0,
            len > 0 ==> cursor < len && cursor as int == (s * eff) % gl,
            forall|i: int| 0 <= i < s as int ==> (#[trigger] result@[i])@.len() == eff,
            forall|i: int, j: int|
                0 <= i < s as int && 0 <= j < eff as int && len > 0 ==> (#[trigger] result@[i]@[j])
                    == perm@[(i * (eff as int) + j) % gl],
        decreases shard_number - s,
    {
        let ghost base: int = (s as int) * (eff as int);
        let mut row: Vec<PeerId> = Vec::new();
        let mut j: usize = 0;
        while j < eff
            invariant
                len == perm@.len(),
                gl == len as int,
                eff <= len,
                j <= eff,
                row@.len() == j,
                base >= 0,
                len == 0 ==> cursor == 0,
                len > 0 ==> cursor < len && cursor as int == (base + j) % gl,
                forall|k: int|
                    0 <= k < j as int && len > 0 ==> (#[trigger] row@[k]) == perm@[(base + k) % gl],
            decreases eff - j,
        {
            proof {
                lemma_mod_bound(base + j, gl);
            }
            let p = perm[cursor];
            row.push(p);
            proof {
                lemma_mod_increment(base + j, gl);
            }
            cursor = cursor + 1;
            if cursor == len {
                cursor = 0;
            }
            j = j + 1;
        }
        result.push(row);
        proof {
            assert((s as int + 1) * (eff as int) == base + eff as int) by (nonlinear_arith)
                requires base == (s as int) * (eff as int);
            if len > 0 {
                lemma_mod_bound((s as int + 1) * (eff as int), gl);
            }
        }
        s = s + 1;
    }
    proof {
        broadcast use group_to_multiset_ensures;

        assert(perm@.to_multiset().len() == perm@.len());
        assert(original_pool.to_multiset().len() == original_pool.len());
        assert(perm@.len() == original_pool.len());
        let rows = rows_view(result@);
        assert(rows.len() == shard_number as int);
        assert forall|i: int| 0 <= i < shard_number as int implies (#[trigger] rows[i]).len()
            == eff as int by {
            assert(rows[i] == result@[i]@);
        }
        assert forall|i: int, j: int|
            0 <= i < shard_number as int && 0 <= j < eff as int && perm@.len() > 0 implies (
        #[trigger] rows[i][j]) == perm@[(i * (eff as int) + j) % (perm@.len() as int)] by {
            assert(rows[i] == result@[i]@);
            assert(result@[i]@[j] == perm@[(i * (eff as int) + j) % gl]);
        }
        assert(is_cyclic_window_placement(perm@, shard_number as int, eff as int, rows));
        assert(eff as int == effective_replication(
            replication_factor as int,
            original_pool.len() as int,
        ));
        assert(even_placement_of(
            original_pool,
            shard_number as int,
            replication_factor as int,
            rows,
        ));
        // Each assigned peer stands somewhere in the permutation, hence in the pool.
        assert forall|i: int, j: int|
            0 <= i < result@.len() && 0 <= j < result@[i]@.len() implies original_pool.contains(
            #[trigger] result@[i]@[j],
        ) by {
            assert(result@[i]@.len() == eff as int);
            assert(len > 0);
            lemma_mod_bound(i * (eff as int) + j, gl);
            let idx = (i * (eff as int) + j) % gl;
            assert(result@[i]@[j] == perm@[idx]);
            assert(perm@.contains(perm@[idx]));
            assert(perm@.to_multiset().count(perm@[idx]) > 0);
            assert(original_pool.to_multiset().count(perm@[idx]) > 0);
            assert(original_pool.contains(result@[i]@[j]));
        }
        // With a duplicate-free pool, each window touches distinct positions
        // of a duplicate-free permutation.
        if original_pool.no_duplicates() {
            lemma_permutation_no_duplicates(original_pool, perm@);
            assert forall|i: int| 0 <= i < result@.len() implies (
            #[trigger] result@[i])@.no_duplicates() by {
                assert forall|j1: int, j2: int|
                    0 <= j1 < result@[i]@.len() && 0 <= j2 < result@[i]@.len() && j1 != j2
                    implies result@[i]@[j1] != result@[i]@[j2] by {
                    let lo = if j1 < j2 { j1 } else { j2 };
                    let hi = if j1 < j2 { j2 } else { j1 };
                    lemma_window_indices_distinct(i * (eff as int), lo, hi, gl);
                    lemma_mod_bound(i * (eff as int) + j1, gl);
                    lemma_mod_bound(i * (eff as int) + j2, gl);
                }
            }
        }
    }
    result
}

/// Law: an even placement holds exactly one entry per shard, each entry as
/// wide as the effective replication factor, drawing only from the pool;
/// and for a duplicate-free pool no entry holds the same peer twice.
pub proof fn lemma_even_placement_properties(
    pool: Seq<PeerId>,
    shard_number: int,
    replication_factor: int,
    r: Seq<Seq<PeerId>>,
)
    requires
        even_placement_of(pool, shard_number, replication_factor, r),
    ensures
        r.len() == shard_number,
        forall|i: int|
            0 <= i < r.len() ==> (#[trigger] r[i]).len() == effective_replication(
                replication_factor,
                pool.len() as int,
            ),
        forall|i: int, j: int|
            0 <= i < r.len() && 0 <= j < r[i].len() ==> pool.contains(#[trigger] r[i][j]),
        pool.no_duplicates() ==> forall|i: int|
            0 <= i < r.len() ==> (#[trigger] r[i]).no_duplicates(),
{
    broadcast use group_to_multiset_ensures;

    let eff = effective_replication(replication_factor, pool.len() as int);
    let perm = choose|perm: Seq<PeerId>|
        perm.to_multiset() == pool.to_multiset() && is_cyclic_window_placement(
            perm,
            shard_number,
            eff,
            r,
        );
    assert(perm.to_multiset().len() == perm.len());
    assert(pool.to_multiset().len() == pool.len());
    assert(perm.len() == pool.len());
    let gl = perm.len() as int;
    assert forall|i: int, j: int|
        0 <= i < r.len() && 0 <= j < r[i].len() implies pool.contains(#[trigger] r[i][j]) by {
        assert(r[i].len() == eff);
        lemma_mod_bound(i * eff + j, gl);
        let idx = (i * eff + j) % gl;
        assert(r[i][j] == perm[idx]);
        assert(perm.contains(perm[idx]));
        assert(perm.to_multiset().count(perm[idx]) > 0);
        assert(pool.to_multiset().count(perm[idx]) > 0);
        assert(pool.contains(r[i][j]));
    }
    if pool.no_duplicates() {
        lemma_permutation_no_duplicates(pool, perm);
        assert forall|i: int| 0 <= i < r.len() implies (#[trigger] r[i]).no_duplicates() by {
            assert forall|j1: int, j2: int|
                0 <= j1 < r[i].len() && 0 <= j2 < r[i].len() && j1 != j2 implies r[i][j1]
                != r[i][j2] by {
                let lo = if j1 < j2 { j1 } else { j2 };
                let hi = if j1 < j2 { j2 } else { j1 };
                lemma_window_indices_distinct(i * eff, lo, hi, gl);
                lemma_mod_bound(i * eff + j1, gl);
                lemma_mod_bound(i * eff + j2, gl);
            }
        }
    }
}

/// Law: when the windows consume at least as many positions as the pool has
/// peers — `shard_number` times the effective replication factor reaches the
/// pool size — every peer of the pool is assigned to at least one shard; no
/// peer is dropped.
pub proof fn lemma_placement_covers_pool(
    pool: Seq<PeerId>,
    shard_number: int,
    replication_factor: int,
    r: Seq<Seq<PeerId>>,
)
    requires
        even_placement_of(pool, shard_number, replication_factor, r),
        replication_factor >= 1,
        shard_number * effective_replication(replication_factor, pool.len() as int) >= pool.len(),
    ensures
        forall|p: PeerId|
            pool.contains(p) ==> exists|i: int, j: int|
                0 <= i < r.len() && 0 <= j < r[i].len() && r[i][j] == p,
{
    broadcast use group_to_multiset_ensures;

    let eff = effective_replication(replication_factor, pool.len() as int);
    let perm = choose|perm: Seq<PeerId>|
        perm.to_multiset() == pool.to_multiset() && is_cyclic_window_placement(
            perm,
            shard_number,
            eff,
            r,
        );
    assert(perm.to_multiset().len() == perm.len());
    assert(pool.to_multiset().len() == pool.len());
    assert(perm.len() == pool.len());
    assert forall|p: PeerId| pool.contains(p) implies exists|i: int, j: int|
        0 <= i < r.len() && 0 <= j < r[i].len() && r[i][j] == p by {
        assert(pool.to_multiset().count(p) > 0);
        assert(perm.to_multiset().count(p) > 0);
        assert(perm.contains(p));
        let k = choose|k: int| 0 <= k < perm.len() && perm[k] == p;
        let i = k / eff;
        let j = k % eff;
        lemma_fundamental_div_mod(k, eff);
        lemma_mod_bound(k, eff);
        assert(i < shard_number) by (nonlinear_arith)
            requires
                k == eff * i + j,
                0 <= j < eff,
                eff >= 1,
                k < shard_number * eff;
        lemma_small_mod(k as nat, perm.len() as nat);
        assert(r[i][j] == perm[(i * eff + j) % (perm.len() as int)]);
        assert(r[i][j] == p);
    }
}

/// Law: when the replication factor reaches the pool size and the pool has
/// no duplicate peers, every shard's peer set is exactly the pool.
pub proof fn lemma_full_replication_rows(
    pool: Seq<PeerId>,
    shard_number: int,
    replication_factor: int,
    r: Seq<Seq<PeerId>>,
)
    requires
        even_placement_of(pool, shard_number, replication_factor, r),
        replication_factor >= pool.len(),
        pool.len() >= 1,
    ensures
        forall|i: int, p: PeerId|
            0 <= i < r.len() ==> ((#[trigger] r[i].contains(p)) <==> pool.contains(p)),
{
    broadcast use group_to_multiset_ensures;

    let gl = pool.len() as int;
    let eff = effective_replication(replication_factor, gl);
    assert(eff == gl);
    let perm = choose|perm: Seq<PeerId>|
        perm.to_multiset() == pool.to_multiset() && is_cyclic_window_placement(
            perm,
            shard_number,
            eff,
            r,
        );
    assert(perm.to_multiset().len() == perm.len());
    assert(pool.to_multiset().len() == pool.len());
    assert(perm.len() == pool.len());
    assert forall|i: int, p: PeerId| 0 <= i < r.len() implies ((#[trigger] r[i].contains(p))
        <==> pool.contains(p)) by {
        if r[i].contains(p) {
            let j = choose|j: int| 0 <= j < r[i].len() && r[i][j] == p;
            lemma_mod_bound(i * eff + j, gl);
            let idx = (i * eff + j) % gl;
            assert(r[i][j] == perm[idx]);
            assert(perm.contains(perm[idx]));
            assert(perm.to_multiset().count(p) > 0);
            assert(pool.to_multiset().count(p) > 0);
            assert(pool.contains(p));
        }
        if pool.contains(p) {
            assert(pool.to_multiset().count(p) > 0);
            assert(perm.to_multiset().count(p) > 0);
            assert(perm.contains(p));
            let k = choose|k: int| 0 <= k < perm.len() && perm[k] == p;
            let j = (k - i * eff) % gl;
            lemma_mod_bound(k - i * eff, gl);
            lemma_add_mod_noop_right(i * eff, k - i * eff, gl);
            lemma_small_mod(k as nat, gl as nat);
            assert((i * eff + j) % gl == k);
            assert(r[i][j] == p);
            assert(r[i].contains(p));
        }
    }
}

} // verus!
