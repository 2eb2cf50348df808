use vstd::prelude::*;

verus! {

/// The lower confidence bound of a rating and its deviation, both truncated
/// to whole points: the rating less twice the deviation.
pub open spec fn lower_bound(row: (i32, i32)) -> int {
    row.0 - 2 * row.1
}

/// Row `x` comes before row `y` in a report: a higher lower bound first, and
/// between equal bounds the earlier row first.
pub open spec fn ranks_before(rows: Seq<(i32, i32)>, x: int, y: int) -> bool {
    lower_bound(rows[x]) > lower_bound(rows[y]) || (lower_bound(rows[x]) == lower_bound(rows[y])
        && x < y)
}

/// `order` lists each row index below `n` exactly once, each before the
/// next in report order.
pub open spec fn is_report_order(rows: Seq<(i32, i32)>, order: Seq<usize>, n: int) -> bool {
    &&& order.len() == n
    &&& forall|a: int| 0 <= a < order.len() ==> #[trigger] order[a] < n
    &&& forall|k: usize| (k as int) < n ==> #[trigger] order.contains(k)
    &&& forall|a: int, b: int|
        0 <= a < b < order.len() ==> ranks_before(rows, #[trigger] order[a] as int, #[trigger] order[b] as int)
}

fn bound_of(row: (i32, i32)) -> (r: i64)
    ensures
        r == lower_bound(row),
{
    row.0 as i64 - 2 * (row.1 as i64)
}

/// The order in which a report lists `rows` of (rating, deviation): by lower
/// confidence bound, highest first, equal bounds in their given order.
pub fn rank_by_lower_bound(rows: &Vec<(i32, i32)>) -> (r: Vec<usize>)
    ensures
        is_report_order(rows@, r@, rows@.len() as int),
{
    let n = rows.len();
    let mut order: Vec<usize> = Vec::new();
    let mut i: usize = 0;
    while i < n
        invariant
            n == rows@.len(),
            0 <= i <= n,
            is_report_order(rows@, order@, i as int),
        decreases n - i,
    {
        let key = bound_of(rows[i]);
        let mut p: usize = 0;
        while p < order.len()
            invariant
                n == rows@.len(),
                0 <= i < n,
                is_report_order(rows@, order@, i as int),
                0 <= p <= order@.len(),
                key == lower_bound(rows@[i as int]),
                forall|a: int| 0 <= a < p ==> ranks_before(rows@, #[trigger] order@[a] as int, i as int),
            ensures
                0 <= p <= order@.len(),
                forall|a: int| 0 <= a < p ==> ranks_before(rows@, #[trigger] order@[a] as int, i as int),
                p < order@.len() ==> lower_bound(rows@[order@[p as int] as int]) < key,
            decreases order@.len() - p,
        {
            if bound_of(rows[order[p]]) < key {
                break;
            }
            p += 1;
        }
        let ghost old_order = order@;
        proof {
            assert forall|a: int| p <= a < old_order.len() implies ranks_before(
                rows@,
                i as int,
                #[trigger] old_order[a] as int,
            ) by {
                if a > p {
                    assert(ranks_before(rows@, old_order[p as int] as int, old_order[a] as int));
                }
            }
        }
        order.insert(p, i);
        proof {
            let new_order = order@;
            assert(new_order == old_order.insert(p as int, i));
            assert forall|k: usize| (k as int) < i + 1 implies #[trigger] new_order.contains(k) by {
                if k == i {
                    assert(new_order[p as int] == i);
                } else {
                    assert(old_order.contains(k));
                    let a = choose|a: int| 0 <= a < old_order.len() && old_order[a] == k;
                    if a < p {
                        assert(new_order[a] == k);
                    } else {
                        assert(new_order[a + 1] == k);
                    }
                }
            }
            assert forall|a: int, b: int| 0 <= a < b < new_order.len() implies ranks_before(
                rows@,
                #[trigger] new_order[a] as int,
                #[trigger] new_order[b] as int,
            ) by {
                if b < p {
                    assert(new_order[a] == old_order[a] && new_order[b] == old_order[b]);
                } else if b == p {
                    assert(new_order[a] == old_order[a]);
                } else if a < p {
                    assert(new_order[a] == old_order[a] && new_order[b] == old_order[b - 1]);
                } else if a == p {
                    assert(new_order[b] == old_order[b - 1]);
                } else {
                    assert(new_order[a] == old_order[a - 1] && new_order[b] == old_order[b - 1]);
                }
            }
        }
        i += 1;
    }
    order
}

} // verus!
