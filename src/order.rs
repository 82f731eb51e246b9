use vstd::prelude::*;

verus! {

/// Inserts position `j` into `order` just before the first position whose key
/// is greater than the key of `j`.
pub open spec fn insert_pos(keys: Seq<u32>, order: Seq<int>, j: int) -> Seq<int>
    decreases order.len(),
{
    if order.len() == 0 {
        seq![j]
    } else if keys[j] < keys[order[0]] {
        seq![j] + order
    } else {
        seq![order[0]] + insert_pos(keys, order.drop_first(), j)
    }
}

/// The positions `0..n` of `keys`, stably sorted by ascending key: equal keys
/// keep their storage order.
pub open spec fn index_order(keys: Seq<u32>, n: nat) -> Seq<int>
    decreases n,
{
    if n == 0 {
        Seq::empty()
    } else {
        insert_pos(keys, index_order(keys, (n - 1) as nat), n - 1)
    }
}

proof fn lemma_insert_pos_at(keys: Seq<u32>, order: Seq<int>, j: int, p: int)
    requires
        0 <= p <= order.len(),
        forall|k: int| 0 <= k < p ==> keys[order[k]] <= keys[j],
        p < order.len() ==> keys[j] < keys[order[p]],
    ensures
        insert_pos(keys, order, j) == order.insert(p, j),
    decreases order.len(),
{
    if order.len() == 0 {
        assert(order.insert(p, j) =~= seq![j]);
    } else if p == 0 {
        assert(order.insert(p, j) =~= seq![j] + order);
    } else {
        let rest = order.drop_first();
        assert forall|k: int| 0 <= k < p - 1 implies keys[rest[k]] <= keys[j] by {
            assert(rest[k] == order[k + 1]);
        }
        lemma_insert_pos_at(keys, rest, j, p - 1);
        assert(order.insert(p, j) =~= seq![order[0]] + rest.insert(p - 1, j));
    }
}

/// The sorted order lists each position below `n` once, ascending by key, and
/// keeps positions with equal keys in storage order.
pub proof fn lemma_index_order_sorted(keys: Seq<u32>, n: nat)
    requires
        n <= keys.len(),
    ensures
        index_order(keys, n).len() == n,
        forall|j: int| 0 <= j < n ==> #[trigger] index_order(keys, n).contains(j),
        forall|k: int| 0 <= k < n ==> 0 <= #[trigger] index_order(keys, n)[k] < n,
        forall|a: int, b: int| 0 <= a < b < n ==>
            keys[#[trigger] index_order(keys, n)[a]] <= keys[#[trigger] index_order(keys, n)[b]],
        forall|a: int, b: int| 0 <= a < b < n && keys[index_order(keys, n)[a]] == keys[index_order(keys, n)[b]]
            ==> #[trigger] index_order(keys, n)[a] < #[trigger] index_order(keys, n)[b],
    decreases n,
{
    if n > 0 {
        let prev = index_order(keys, (n - 1) as nat);
        lemma_index_order_sorted(keys, (n - 1) as nat);
        let j = n - 1;
        let p = first_greater(keys, prev, j);
        lemma_first_greater(keys, prev, j);
        lemma_insert_pos_at(keys, prev, j, p);
        let r = prev.insert(p, j);
        assert(r[p] == j);
        assert forall|i: int| 0 <= i < n implies #[trigger] r.contains(i) by {
            if i < j {
                assert(prev.contains(i));
                let w = choose|w: int| 0 <= w < prev.len() && prev[w] == i;
                if w < p {
                    assert(r[w] == i);
                } else {
                    assert(r[w + 1] == i);
                }
            }
        }
        assert forall|k: int| 0 <= k < n implies 0 <= #[trigger] r[k] < n by {
            if k > p {
                assert(r[k] == prev[k - 1]);
            }
        }
        assert forall|a: int, b: int| 0 <= a < b < n implies keys[#[trigger] r[a]] <= keys[#[trigger] r[b]] by {
            if b < p {
            } else if b == p {
            } else if a < p {
                assert(r[b] == prev[b - 1]);
                if p < prev.len() {
                    assert(keys[prev[p]] <= keys[prev[b - 1]]);
                }
            } else if a == p {
                assert(r[b] == prev[b - 1]);
                assert(keys[prev[p]] <= keys[prev[b - 1]]);
            } else {
                assert(r[a] == prev[a - 1]);
                assert(r[b] == prev[b - 1]);
            }
        }
        assert forall|a: int, b: int| 0 <= a < b < n && keys[r[a]] == keys[r[b]] implies
            #[trigger] r[a] < #[trigger] r[b] by {
            if b < p {
            } else if b == p {
                assert(r[a] == prev[a]);
            } else if a < p {
                assert(r[a] == prev[a]);
                assert(r[b] == prev[b - 1]);
            } else if a == p {
                assert(r[b] == prev[b - 1]);
                assert(keys[prev[p]] <= keys[prev[b - 1]]);
            } else {
                assert(r[a] == prev[a - 1]);
                assert(r[b] == prev[b - 1]);
            }
        }
    }
}

/// The first place in `order` whose key is greater than the key of `j`.
spec fn first_greater(keys: Seq<u32>, order: Seq<int>, j: int) -> int
    decreases order.len(),
{
    if order.len() == 0 {
        0
    } else if keys[j] < keys[order[0]] {
        0
    } else {
        1 + first_greater(keys, order.drop_first(), j)
    }
}

proof fn lemma_first_greater(keys: Seq<u32>, order: Seq<int>, j: int)
    ensures
        0 <= first_greater(keys, order, j) <= order.len(),
        forall|k: int| 0 <= k < first_greater(keys, order, j) ==> keys[order[k]] <= keys[j],
        first_greater(keys, order, j) < order.len() ==> keys[j] < keys[order[first_greater(keys, order, j)]],
    decreases order.len(),
{
    if order.len() > 0 && keys[j] >= keys[order[0]] {
        let rest = order.drop_first();
        lemma_first_greater(keys, rest, j);
        assert forall|k: int| 0 <= k < first_greater(keys, order, j) implies keys[order[k]] <= keys[j] by {
            if k > 0 {
                assert(order[k] == rest[k - 1]);
            }
        }
    }
}

/// The positions of `keys`, stably sorted by ascending key.
pub fn index_order_exec(keys: &Vec<u32>) -> (r: Vec<usize>)
    ensures
        r@.len() == keys@.len(),
        forall|k: int| 0 <= k < r@.len() ==> r@[k] as int == #[trigger] index_order(keys@, keys@.len())[k],
{
    let n = keys.len();
    let mut r: Vec<usize> = Vec::new();
    let mut j: usize = 0;
    while j < n
        invariant
            j <= n,
            n == keys@.len(),
            r@.len() == j,
            index_order(keys@, j as nat).len() == j,
            forall|k: int| 0 <= k < j ==> r@[k] as int == #[trigger] index_order(keys@, j as nat)[k],
            forall|k: int| 0 <= k < j ==> r@[k] < j,
        decreases n - j,
    {
        proof {
            lemma_index_order_sorted(keys@, j as nat);
        }
        let ghost prev = index_order(keys@, j as nat);
        let mut p: usize = 0;
        while p < r.len() && keys[r[p]] <= keys[j]
            invariant
                p <= r@.len(),
                r@.len() == j,
                j < n,
                n == keys@.len(),
                prev.len() == j,
                forall|k: int| 0 <= k < j ==> r@[k] as int == #[trigger] prev[k],
                forall|k: int| 0 <= k < j ==> r@[k] < j,
                forall|k: int| 0 <= k < p ==> keys@[prev[k]] <= keys@[j as int],
            decreases r@.len() - p,
        {
            p = p + 1;
        }
        proof {
            if p < j {
                assert(r@[p as int] as int == prev[p as int]);
            }
            lemma_insert_pos_at(keys@, prev, j as int, p as int);
        }
        let ghost old_r = r@;
        r.insert(p, j);
        proof {
            let next = index_order(keys@, (j + 1) as nat);
            assert(next == prev.insert(p as int, j as int));
            assert forall|k: int| 0 <= k < j + 1 implies r@[k] as int == #[trigger] next[k] by {
                if k < p {
                    assert(r@[k] == old_r[k]);
                } else if k > p {
                    assert(r@[k] == old_r[k - 1]);
                }
            }
        }
        j = j + 1;
    }
    r
}

} // verus!
