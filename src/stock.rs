//! The general pool as a sequence of operations sees it. Values are told
//! apart by the order in which they were built: the `n`-th built is `n`.

use vstd::prelude::*;

verus! {

/// The spares of a general pool, by number, and how many values it built.
pub struct Stock {
    pub spares: Seq<nat>,
    pub made: nat,
}

/// A pool just made: no spares, nothing built.
pub open spec fn empty_stock() -> Stock {
    Stock { spares: Seq::empty(), made: 0 }
}

/// No value is a spare twice, and every spare was built.
pub open spec fn stock_wf(s: Stock) -> bool {
    &&& s.spares.no_duplicates()
    &&& forall|i: int| 0 <= i < s.spares.len() ==> #[trigger] s.spares[i] < s.made
}

/// A value is out: built, and not among the spares.
pub open spec fn is_out(s: Stock, o: nat) -> bool {
    o < s.made && !s.spares.contains(o)
}

/// One acquisition: the most recent spare, or a value built anew.
pub open spec fn take(s: Stock) -> (Stock, nat) {
    if s.spares.len() == 0 {
        (Stock { spares: s.spares, made: s.made + 1 }, s.made)
    } else {
        (Stock { spares: s.spares.drop_last(), made: s.made }, s.spares.last())
    }
}

/// One release of the value `o`.
pub open spec fn give(s: Stock, o: nat) -> Stock {
    Stock { spares: s.spares.push(o), made: s.made }
}

/// `n` rounds, each of which takes a value and gives it back.
pub open spec fn rounds(s: Stock, n: nat) -> Stock
    decreases n,
{
    if n == 0 {
        s
    } else {
        let (t, o) = take(s);
        rounds(give(t, o), (n - 1) as nat)
    }
}

/// `k` acquisitions with no release between them: the stock left, and the
/// values handed out, in order.
pub open spec fn takes(s: Stock, k: nat) -> (Stock, Seq<nat>)
    decreases k,
{
    if k == 0 {
        (s, Seq::empty())
    } else {
        let (t, o) = take(s);
        let (u, os) = takes(t, (k - 1) as nat);
        (u, seq![o].add(os))
    }
}

/// In the model: where each release comes before the next acquisition, a pool builds one
/// value, and every round is served that value.
pub proof fn lemma_reuse_builds_once(n: nat)
    requires
        n > 0,
    ensures
        rounds(empty_stock(), n) == (Stock { spares: seq![0nat], made: 1 }),
        take(rounds(empty_stock(), n)).1 == 0,
{
    let first = give(take(empty_stock()).0, 0);
    assert(first.spares =~= seq![0nat]);
    assert(rounds(empty_stock(), n) == rounds(first, (n - 1) as nat));
    lemma_rounds_keep((n - 1) as nat);
}

/// A round on the stock holding the one value `0` leaves it as it was.
proof fn lemma_rounds_keep(n: nat)
    ensures
        rounds(Stock { spares: seq![0nat], made: 1 }, n) == (Stock { spares: seq![0nat], made: 1 }),
    decreases n,
{
    let s = Stock { spares: seq![0nat], made: 1 };
    assert(give(take(s).0, take(s).1).spares =~= s.spares);
    if n > 0 {
        lemma_rounds_keep((n - 1) as nat);
    }
}

/// In the model: acquisitions with no release between them hand out distinct values,
/// none of which stays among the spares.
pub proof fn lemma_takes_distinct(s: Stock, k: nat)
    requires
        stock_wf(s),
    ensures
        stock_wf(takes(s, k).0),
        takes(s, k).1.len() == k,
        takes(s, k).1.no_duplicates(),
        forall|i: int| 0 <= i < k ==> is_out(takes(s, k).0, #[trigger] takes(s, k).1[i]),
    decreases k,
{
    if k > 0 {
        let (t, o) = take(s);
        assert(stock_wf(t) && is_out(t, o)) by {
            if s.spares.len() > 0 {
                assert(s.spares =~= s.spares.drop_last().push(o));
                assert(s.spares[s.spares.len() - 1] == o);
                assert forall|i: int| 0 <= i < t.spares.len() implies t.spares[i] != o by {
                    assert(t.spares[i] == s.spares[i]);
                }
            }
        }
        lemma_takes_distinct(t, (k - 1) as nat);
        let (u, os) = takes(t, (k - 1) as nat);
        lemma_take_out_stays_out(t, (k - 1) as nat, o);
        let all = seq![o].add(os);
        assert forall|i: int| 0 <= i < k implies is_out(u, #[trigger] all[i]) by {
            if i > 0 {
                assert(all[i] == os[i - 1]);
            }
        }
        assert forall|i: int, j: int| 0 <= i < j < all.len() implies all[i] != all[j] by {
            assert(all[j] == os[j - 1]);
            if i > 0 {
                assert(all[i] == os[i - 1]);
            }
        }
    }
}

/// A value that is out stays out while values are only taken.
proof fn lemma_take_out_stays_out(s: Stock, k: nat, o: nat)
    requires
        is_out(s, o),
    ensures
        is_out(takes(s, k).0, o),
        !takes(s, k).1.contains(o),
    decreases k,
{
    if k > 0 {
        let (t, p) = take(s);
        assert(is_out(t, o) && p != o) by {
            if s.spares.len() > 0 {
                assert(s.spares[s.spares.len() - 1] == p);
                if t.spares.contains(o) {
                    let i = choose|i: int| 0 <= i < t.spares.len() && t.spares[i] == o;
                    assert(s.spares[i] == o);
                }
            }
        }
        lemma_take_out_stays_out(t, (k - 1) as nat, o);
        let os = takes(t, (k - 1) as nat).1;
        let all = seq![p].add(os);
        if all.contains(o) {
            let i = choose|i: int| 0 <= i < all.len() && all[i] == o;
            assert(os[i - 1] == o);
        }
    }
}

/// In the model: giving back a value that is out adds exactly that one value to the
/// spares, and no value becomes a spare twice.
pub proof fn lemma_give_once(s: Stock, o: nat)
    requires
        stock_wf(s),
        is_out(s, o),
    ensures
        give(s, o).spares.to_multiset() == s.spares.to_multiset().insert(o),
        give(s, o).spares.len() == s.spares.len() + 1,
        stock_wf(give(s, o)),
        !is_out(give(s, o), o),
{
    s.spares.to_multiset_ensures();
    s.spares.push(o).to_multiset_ensures();
    let t = give(s, o);
    assert(t.spares[s.spares.len() as int] == o);
    assert forall|i: int, j: int| 0 <= i < j < t.spares.len() implies t.spares[i] != t.spares[j] by {
        if j == s.spares.len() {
            assert(t.spares[i] == s.spares[i]);
        } else {
            assert(t.spares[i] == s.spares[i] && t.spares[j] == s.spares[j]);
        }
    }
    assert forall|i: int| 0 <= i < t.spares.len() implies #[trigger] t.spares[i] < t.made by {
        if i < s.spares.len() {
            assert(t.spares[i] == s.spares[i]);
        }
    }
}

} // verus!
