//! Which menu items sell best.

use vstd::prelude::*;
use crate::db::models::OrderItem;
use crate::services::AnalyticsService;

verus! {

/// How many of the menu item `id` the lines `lines` sell in all.
pub open spec fn quantity_sold(lines: Seq<OrderItem>, id: Seq<char>) -> int
    decreases lines.len(),
{
    if lines.len() == 0 {
        0
    } else {
        quantity_sold(lines.drop_last(), id) + if lines.last().menu_item_id@ == id {
            lines.last().quantity as int
        } else {
            0
        }
    }
}

/// Whether some line of `lines` names the menu item `id`.
pub open spec fn is_sold(lines: Seq<OrderItem>, id: Seq<char>) -> bool {
    exists|n: int| 0 <= n < lines.len() && (#[trigger] lines[n]).menu_item_id@ == id
}

/// `tally` lists every menu item that `lines` name, each once and with the
/// quantity the lines sell of it, and lists nothing else.
pub open spec fn is_tally(tally: Seq<(Seq<char>, int)>, lines: Seq<OrderItem>) -> bool {
    &&& forall|i: int, j: int|
        0 <= i < j < tally.len() ==> (#[trigger] tally[i]).0 != (#[trigger] tally[j]).0
    &&& forall|i: int|
        0 <= i < tally.len() ==> is_sold(lines, (#[trigger] tally[i]).0) && tally[i].1
            == quantity_sold(lines, tally[i].0)
    &&& forall|n: int|
        0 <= n < lines.len() ==> exists|i: int|
            0 <= i < tally.len() && (#[trigger] tally[i]).0 == (#[trigger] lines[n]).menu_item_id@
}

/// `ranking` is a tally of `lines` with the best-selling item first: no
/// entry sells more than an entry before it.
pub open spec fn is_ranking(ranking: Seq<(Seq<char>, int)>, lines: Seq<OrderItem>) -> bool {
    &&& is_tally(ranking, lines)
    &&& forall|i: int, j: int|
        0 <= i < j < ranking.len() ==> (#[trigger] ranking[i]).1 >= (#[trigger] ranking[j]).1
}

/// The lines of the orders whose lines could be read, one order after the
/// other.
pub open spec fn readable_lines(orders: Seq<Result<Vec<OrderItem>, String>>) -> Seq<OrderItem>
    decreases orders.len(),
{
    if orders.len() == 0 {
        Seq::empty()
    } else {
        readable_lines(orders.drop_last()) + match orders.last() {
            Ok(read) => read@,
            Err(_) => Seq::empty(),
        }
    }
}

/// `top` holds the first `limit` entries of a ranking of `lines`, or the
/// whole ranking where it is shorter.
pub open spec fn is_top(top: Seq<(String, i32)>, lines: Seq<OrderItem>, limit: usize) -> bool {
    exists|ranking: Seq<(Seq<char>, int)>|
        {
            &&& #[trigger] is_ranking(ranking, lines)
            &&& entries(top) == ranking.take(
                if limit <= ranking.len() {
                    limit as int
                } else {
                    ranking.len() as int
                },
            )
        }
}

/// The entries of a list of pairs, with identifiers as characters.
pub open spec fn entries(list: Seq<(String, i32)>) -> Seq<(Seq<char>, int)> {
    list.map_values(|e: (String, i32)| (e.0@, e.1 as int))
}

/// The entries of identifiers and counts kept side by side.
spec fn paired(ids: Seq<String>, counts: Seq<i32>) -> Seq<(Seq<char>, int)> {
    Seq::new(ids.len(), |i: int| (ids[i]@, counts[i] as int))
}

/// The quantity sold grows by each line's quantity where the line names
/// the item, and not otherwise.
pub proof fn lemma_quantity_sold_push(lines: Seq<OrderItem>, line: OrderItem, id: Seq<char>)
    ensures
        quantity_sold(lines.push(line), id) == quantity_sold(lines, id) + if line.menu_item_id@
            == id {
            line.quantity as int
        } else {
            0
        },
{
    assert(lines.push(line).drop_last() =~= lines);
}

/// Whether `n` can be held in an `i32`.
pub open spec fn fits_i32(n: int) -> bool {
    i32::MIN <= n <= i32::MAX
}

/// Whether the quantity sold of every item stays in the range of `i32`
/// while the lines are counted one after the other.
pub open spec fn sums_fit(lines: Seq<OrderItem>) -> bool {
    forall|n: int, id: Seq<char>|
        0 <= n <= lines.len() ==> fits_i32(#[trigger] quantity_sold(lines.take(n), id))
}

/// Adds one line to a tally kept as identifiers and counts side by side.
/// Answers `false`, with the tally in no particular state, where the
/// quantity sold of the line's item would leave the range of `i32`.
fn tally_line(ids: &mut Vec<String>, counts: &mut Vec<i32>, line: &OrderItem, Ghost(seen): Ghost<
    Seq<OrderItem>,
>) -> (ok: bool)
    requires
        old(ids)@.len() == old(counts)@.len(),
        is_tally(paired(old(ids)@, old(counts)@), seen),
    ensures
        ok == fits_i32(quantity_sold(seen.push(*line), line.menu_item_id@)),
        ok ==> final(ids)@.len() == final(counts)@.len(),
        ok ==> is_tally(paired(final(ids)@, final(counts)@), seen.push(*line)),
{
    let ghost before = paired(ids@, counts@);
    let ghost grown = seen.push(*line);
    let mut i: usize = 0;
    let mut found = false;
    while i < ids.len() && !found
        invariant
            i <= ids@.len(),
            ids@.len() == counts@.len(),
            ids@ == old(ids)@,
            counts@ == old(counts)@,
            forall|j: int| 0 <= j < i ==> (#[trigger] ids@[j])@ != line.menu_item_id@,
            found ==> i < ids@.len() && ids@[i as int]@ == line.menu_item_id@,
        decreases ids@.len() - i + if found { 0int } else { 1int },
    {
        if ids[i] == line.menu_item_id {
            found = true;
        } else {
            i = i + 1;
        }
    }
    proof {
        assert(grown[seen.len() as int] == *line);
        assert forall|n: int| 0 <= n < seen.len() implies grown[n] == seen[n] by {}
        assert forall|id: Seq<char>| is_sold(seen, id) implies is_sold(grown, id) by {
            let n = choose|n: int| 0 <= n < seen.len() && (#[trigger] seen[n]).menu_item_id@ == id;
            assert(grown[n].menu_item_id@ == id);
        }
        assert forall|j: int| 0 <= j < before.len() implies quantity_sold(grown, before[j].0)
            == quantity_sold(seen, before[j].0) + if line.menu_item_id@ == before[j].0 {
            line.quantity as int
        } else {
            0
        } by {
            lemma_quantity_sold_push(seen, *line, before[j].0);
        }
        lemma_quantity_sold_push(seen, *line, line.menu_item_id@);
    }
    if found {
        proof {
            assert(before[i as int].0 == line.menu_item_id@);
        }
        let sum = match counts[i].checked_add(line.quantity) {
            Some(sum) => sum,
            None => {
                return false;
            },
        };
        counts.set(i, sum);
        proof {
            let after = paired(ids@, counts@);
            assert forall|j: int| 0 <= j < after.len() implies after[j].0 == before[j].0 by {}
            assert forall|j: int| 0 <= j < after.len() implies is_sold(
                grown,
                (#[trigger] after[j]).0,
            ) && after[j].1 == quantity_sold(grown, after[j].0) by {
                assert(is_sold(seen, before[j].0));
                if j != i {
                    assert(before[j].0 != before[i as int].0);
                }
            }
            assert forall|n: int| 0 <= n < grown.len() implies exists|j: int|
                0 <= j < after.len() && (#[trigger] after[j]).0 == (
                #[trigger] grown[n]).menu_item_id@ by {
                if n < seen.len() {
                    let j = choose|j: int|
                        0 <= j < before.len() && (#[trigger] before[j]).0 == seen[n].menu_item_id@;
                    assert(after[j].0 == grown[n].menu_item_id@);
                } else {
                    assert(after[i as int].0 == grown[n].menu_item_id@);
                }
            }
        }
    } else {
        proof {
            if is_sold(seen, line.menu_item_id@) {
                let n = choose|n: int|
                    0 <= n < seen.len() && (#[trigger] seen[n]).menu_item_id@
                        == line.menu_item_id@;
                let j = choose|j: int|
                    0 <= j < before.len() && (#[trigger] before[j]).0 == seen[n].menu_item_id@;
                assert(ids@[j]@ == line.menu_item_id@);
            }
            lemma_quantity_sold_absent(seen, line.menu_item_id@);
        }
        ids.push(line.menu_item_id.clone());
        counts.push(line.quantity);
        proof {
            let after = paired(ids@, counts@);
            let last = before.len() as int;
            assert forall|j: int| 0 <= j < before.len() implies after[j] == before[j] by {}
            assert(after[last].0 == line.menu_item_id@);
            assert(is_sold(grown, line.menu_item_id@)) by {
                assert(grown[seen.len() as int].menu_item_id@ == line.menu_item_id@);
            }
            assert forall|a: int, b: int| 0 <= a < b < after.len() implies (#[trigger] after[a]).0
                != (#[trigger] after[b]).0 by {
                if b == last {
                    assert(ids@[a]@ != line.menu_item_id@);
                } else {
                    assert(before[a].0 != before[b].0);
                }
            }
            assert forall|j: int| 0 <= j < after.len() implies is_sold(
                grown,
                (#[trigger] after[j]).0,
            ) && after[j].1 == quantity_sold(grown, after[j].0) by {
                if j < last {
                    assert(is_sold(seen, before[j].0));
                    assert(ids@[j]@ != line.menu_item_id@);
                }
            }
            assert forall|n: int| 0 <= n < grown.len() implies exists|j: int|
                0 <= j < after.len() && (#[trigger] after[j]).0 == (
                #[trigger] grown[n]).menu_item_id@ by {
                if n < seen.len() {
                    let j = choose|j: int|
                        0 <= j < before.len() && (#[trigger] before[j]).0 == seen[n].menu_item_id@;
                    assert(after[j].0 == grown[n].menu_item_id@);
                } else {
                    assert(after[last].0 == grown[n].menu_item_id@);
                }
            }
        }
    }
    true
}

/// Of an item that no line names, nothing is sold.
pub proof fn lemma_quantity_sold_absent(lines: Seq<OrderItem>, id: Seq<char>)
    requires
        !is_sold(lines, id),
    ensures
        quantity_sold(lines, id) == 0,
    decreases lines.len(),
{
    if lines.len() > 0 {
        assert(lines[lines.len() - 1].menu_item_id@ != id);
        assert forall|n: int| 0 <= n < lines.drop_last().len() implies (
        #[trigger] lines.drop_last()[n]).menu_item_id@ != id by {
            assert(lines.drop_last()[n] == lines[n]);
        }
        lemma_quantity_sold_absent(lines.drop_last(), id);
    }
}

impl AnalyticsService {
    /// The `limit` best-selling menu items over `orders`, best first, each
    /// with the quantity sold. Each element of `orders` is what became of
    /// reading the lines of one order; an order whose lines could not be
    /// read counts for nothing.
    ///
    /// Items that sell equally well come in no particular order. No partial
    /// sum of quantities may leave the range of `i32`; see
    /// [`AnalyticsService::try_top_selling_items`] where that is not known.
    pub fn get_top_selling_items(orders: &[Result<Vec<OrderItem>, String>], limit: usize) -> (top:
        Vec<(String, i32)>)
        requires
            sums_fit(readable_lines(orders@)),
        ensures
            is_top(top@, readable_lines(orders@), limit),
    {
        match Self::try_top_selling_items(orders, limit) {
            Some(top) => top,
            None => vstd::pervasive::unreached(),
        }
    }

    /// The `limit` best-selling menu items over `orders`, as
    /// [`AnalyticsService::get_top_selling_items`] gives them, or `None`
    /// where a partial sum of quantities leaves the range of `i32`.
    pub fn try_top_selling_items(orders: &[Result<Vec<OrderItem>, String>], limit: usize) -> (r:
        Option<Vec<(String, i32)>>)
        ensures
            r is Some <==> sums_fit(readable_lines(orders@)),
            r matches Some(top) ==> is_top(top@, readable_lines(orders@), limit),
    {
        let mut lines: Vec<OrderItem> = Vec::new();
        let mut k: usize = 0;
        proof {
            assert(orders@.take(0) =~= Seq::<Result<Vec<OrderItem>, String>>::empty());
        }
        while k < orders.len()
            invariant
                k <= orders@.len(),
                lines@ == readable_lines(orders@.take(k as int)),
            decreases orders@.len() - k,
        {
            proof {
                assert(orders@.take(k + 1).drop_last() =~= orders@.take(k as int));
                assert(orders@.take(k + 1).last() == orders@[k as int]);
            }
            match &orders[k] {
                Ok(read) => {
                    let ghost before = lines@;
                    let mut j: usize = 0;
                    while j < read.len()
                        invariant
                            j <= read@.len(),
                            lines@ == before + read@.take(j as int),
                        decreases read@.len() - j,
                    {
                        proof {
                            assert(read@.take(j + 1) =~= read@.take(j as int).push(read@[j as int]));
                        }
                        lines.push(read[j].clone());
                        j = j + 1;
                    }
                    proof {
                        assert(read@.take(read@.len() as int) =~= read@);
                    }
                },
                Err(_) => {
                    proof {
                        assert(lines@ + Seq::<OrderItem>::empty() =~= lines@);
                    }
                },
            }
            k = k + 1;
        }
        proof {
            assert(orders@.take(orders@.len() as int) =~= orders@);
        }
        Self::top_selling_lines(lines.as_slice(), limit)
    }

    /// The `limit` best-selling menu items of `lines`, best first, each with
    /// the quantity sold, or `None` where a partial sum of quantities leaves
    /// the range of `i32`.
    pub fn top_selling_lines(lines: &[OrderItem], limit: usize) -> (r: Option<Vec<(String, i32)>>)
        ensures
            r is Some <==> sums_fit(lines@),
            r matches Some(top) ==> is_top(top@, lines@, limit),
    {
        let mut ids: Vec<String> = Vec::new();
        let mut counts: Vec<i32> = Vec::new();
        let mut k: usize = 0;
        proof {
            assert(lines@.take(0) =~= Seq::<OrderItem>::empty());
            assert forall|n: int, id: Seq<char>| 0 <= n <= 0 implies fits_i32(
                #[trigger] quantity_sold(lines@.take(n), id),
            ) by {}
        }
        while k < lines.len()
            invariant
                k <= lines@.len(),
                ids@.len() == counts@.len(),
                is_tally(paired(ids@, counts@), lines@.take(k as int)),
                forall|n: int, id: Seq<char>|
                    0 <= n <= k ==> fits_i32(#[trigger] quantity_sold(lines@.take(n), id)),
            decreases lines@.len() - k,
        {
            let ghost seen = lines@.take(k as int);
            proof {
                assert(lines@.take(k + 1) =~= seen.push(lines@[k as int]));
            }
            let ok = tally_line(&mut ids, &mut counts, &lines[k], Ghost(seen));
            if !ok {
                proof {
                    assert(!fits_i32(
                        quantity_sold(lines@.take(k + 1), lines@[k as int].menu_item_id@),
                    ));
                }
                return None;
            }
            proof {
                assert forall|n: int, id: Seq<char>| 0 <= n <= k + 1 implies fits_i32(
                    #[trigger] quantity_sold(lines@.take(n), id),
                ) by {
                    if n == k + 1 {
                        lemma_quantity_sold_push(seen, lines@[k as int], id);
                        assert(fits_i32(quantity_sold(lines@.take(k as int), id)));
                    }
                }
            }
            k = k + 1;
        }
        proof {
            assert(lines@.take(lines@.len() as int) =~= lines@);
        }
        let ghost tally = paired(ids@, counts@);
        let mut ranked = rank(&ids, &counts);
        proof {
            let ranking = entries(ranked@);
            let (src, dst) = choose|src: Seq<int>, dst: Seq<int>|
                rearranges(src, dst, tally, ranking);
            lemma_rearranged_tally(tally, ranking, src, dst, lines@);
            assert forall|i: int, j: int| 0 <= i < j < ranking.len() implies (
            #[trigger] ranking[i]).1 >= (#[trigger] ranking[j]).1 by {
                assert(ranked@[i].1 >= ranked@[j].1);
            }
            assert(is_ranking(ranking, lines@));
        }
        let ghost full = ranked@;
        ranked.truncate(limit);
        proof {
            let ranking = entries(full);
            let cut = if limit <= ranking.len() {
                limit as int
            } else {
                ranking.len() as int
            };
            assert(entries(ranked@) =~= ranking.take(cut));
        }
        Some(ranked)
    }
}

/// `other` holds the entries of `tally` in another order: `other[i]` is
/// `tally[src[i]]`, and `tally[s]` is `other[dst[s]]`.
spec fn rearranges(
    src: Seq<int>,
    dst: Seq<int>,
    tally: Seq<(Seq<char>, int)>,
    other: Seq<(Seq<char>, int)>,
) -> bool {
    &&& src.len() == other.len()
    &&& dst.len() == tally.len()
    &&& other.len() == tally.len()
    &&& forall|i: int|
        0 <= i < other.len() ==> 0 <= #[trigger] src[i] < tally.len() && other[i] == tally[src[i]]
            && dst[src[i]] == i
    &&& forall|s: int|
        0 <= s < tally.len() ==> 0 <= #[trigger] dst[s] < other.len() && other[dst[s]] == tally[s]
}

/// The entries given as identifiers and counts side by side, ordered by
/// count with the greatest first; entries with equal counts keep their
/// order.
fn rank(ids: &Vec<String>, counts: &Vec<i32>) -> (ranked: Vec<(String, i32)>)
    requires
        ids@.len() == counts@.len(),
    ensures
        exists|src: Seq<int>, dst: Seq<int>|
            rearranges(src, dst, paired(ids@, counts@), entries(ranked@)),
        forall|i: int, j: int|
            0 <= i < j < ranked@.len() ==> (#[trigger] ranked@[i]).1 >= (#[trigger] ranked@[j]).1,
{
    let ghost tally = paired(ids@, counts@);
    let mut ranked: Vec<(String, i32)> = Vec::new();
    let ghost mut src: Seq<int> = Seq::empty();
    let ghost mut dst: Seq<int> = Seq::empty();
    let mut t: usize = 0;
    while t < ids.len()
        invariant
            t <= ids@.len(),
            ids@.len() == counts@.len(),
            tally == paired(ids@, counts@),
            ranked@.len() == t,
            src.len() == t,
            dst.len() == t,
            forall|i: int, j: int|
                0 <= i < j < ranked@.len() ==> (#[trigger] ranked@[i]).1 >= (#[trigger] ranked@[j]).1,
            forall|i: int|
                0 <= i < t ==> 0 <= #[trigger] src[i] < t && entries(ranked@)[i] == tally[src[i]]
                    && dst[src[i]] == i,
            forall|s: int|
                0 <= s < t ==> 0 <= #[trigger] dst[s] < t && entries(ranked@)[dst[s]] == tally[s],
        decreases ids@.len() - t,
    {
        let count = counts[t];
        let mut pos: usize = 0;
        while pos < ranked.len() && ranked[pos].1 >= count
            invariant
                pos <= ranked@.len(),
                forall|i: int| 0 <= i < pos ==> (#[trigger] ranked@[i]).1 >= count,
            decreases ranked@.len() - pos,
        {
            pos = pos + 1;
        }
        let ghost before = ranked@;
        let ghost old_src = src;
        let ghost old_dst = dst;
        let entry = (ids[t].clone(), count);
        ranked.insert(pos, entry);
        proof {
            let after = ranked@;
            let p = pos as int;
            src = old_src.insert(p, t as int);
            dst = Seq::new(
                (t + 1) as nat,
                |s: int|
                    if s == t {
                        p
                    } else if old_dst[s] >= p {
                        old_dst[s] + 1
                    } else {
                        old_dst[s]
                    },
            );
            lemma_inserted(before, p, entry);
            lemma_inserted(old_src, p, t as int);
            assert forall|i: int, j: int| 0 <= i < j < after.len() implies (#[trigger] after[i]).1
                >= (#[trigger] after[j]).1 by {
                if j == p {
                    assert(before[i].1 >= count);
                } else if i == p {
                    assert(before[j - 1].1 <= before[p].1);
                } else {
                    let bi = if i < p {
                        i
                    } else {
                        i - 1
                    };
                    let bj = if j < p {
                        j
                    } else {
                        j - 1
                    };
                    assert(before[bi].1 >= before[bj].1);
                }
            }
            assert forall|i: int| 0 <= i < t + 1 implies 0 <= #[trigger] src[i] < t + 1
                && entries(after)[i] == tally[src[i]] && dst[src[i]] == i by {
                if i != p {
                    let b = if i < p {
                        i
                    } else {
                        i - 1
                    };
                    assert(src[i] == old_src[b]);
                    assert(entries(before)[b] == tally[old_src[b]]);
                    assert(after[i] == before[b]);
                }
            }
            assert forall|s: int| 0 <= s < t + 1 implies 0 <= #[trigger] dst[s] < t + 1
                && entries(after)[dst[s]] == tally[s] by {
                if s != t {
                    let b = old_dst[s];
                    assert(entries(before)[b] == tally[s]);
                    assert(after[dst[s]] == before[b]);
                }
            }
        }
        t = t + 1;
    }
    proof {
        assert(rearranges(src, dst, tally, entries(ranked@)));
    }
    ranked
}

/// Where the elements of a sequence stand after one is inserted.
proof fn lemma_inserted<A>(s: Seq<A>, pos: int, a: A)
    requires
        0 <= pos <= s.len(),
    ensures
        s.insert(pos, a).len() == s.len() + 1,
        s.insert(pos, a)[pos] == a,
        forall|i: int| 0 <= i < pos ==> #[trigger] s.insert(pos, a)[i] == s[i],
        forall|i: int| pos < i <= s.len() ==> #[trigger] s.insert(pos, a)[i] == s[i - 1],
{
}

/// A tally in another order is still a tally of the same lines.
proof fn lemma_rearranged_tally(
    tally: Seq<(Seq<char>, int)>,
    other: Seq<(Seq<char>, int)>,
    src: Seq<int>,
    dst: Seq<int>,
    lines: Seq<OrderItem>,
)
    requires
        is_tally(tally, lines),
        rearranges(src, dst, tally, other),
    ensures
        is_tally(other, lines),
{
    assert forall|i: int, j: int| 0 <= i < j < other.len() implies (#[trigger] other[i]).0 != (
    #[trigger] other[j]).0 by {
        let s = src[i];
        let u = src[j];
        assert(dst[s] == i && dst[u] == j);
        if s < u {
            assert(tally[s].0 != tally[u].0);
        } else {
            assert(tally[u].0 != tally[s].0);
        }
    }
    assert forall|i: int| 0 <= i < other.len() implies is_sold(lines, (#[trigger] other[i]).0)
        && other[i].1 == quantity_sold(lines, other[i].0) by {
        let s = src[i];
        assert(is_sold(lines, tally[s].0));
    }
    assert forall|n: int| 0 <= n < lines.len() implies exists|i: int|
        0 <= i < other.len() && (#[trigger] other[i]).0 == (#[trigger] lines[n]).menu_item_id@ by {
        let s = choose|s: int|
            0 <= s < tally.len() && (#[trigger] tally[s]).0 == (#[trigger] lines[n]).menu_item_id@;
        let i = dst[s];
        assert(other[i].0 == lines[n].menu_item_id@);
    }
}

} // verus!
