//! The bid ledger seen as a map, and the summation facts the engine needs.
//!
//! The engine stores one `BidEntry` per bidder in a vector; contracts speak
//! of the ledger as a `Map` from address to record.  The lemmas here relate
//! the vector operations the engine performs (push, update in place, remove)
//! to the map operations the contracts are stated over, and give the
//! summation bounds that rule out arithmetic overflow.
use vstd::prelude::*;

use crate::state::{BidEntry, BidView};

verus! {

/// No two rows of the ledger belong to the same address.
pub open spec fn distinct_addrs(s: Seq<BidEntry>) -> bool {
    forall|i: int, j: int| 0 <= i < j < s.len() ==> s[i].address@ != s[j].address@
}

/// The ledger as a map from bidder address to that bidder's record.
pub open spec fn ledger(s: Seq<BidEntry>) -> Map<Seq<char>, BidView>
    decreases s.len(),
{
    if s.len() == 0 {
        Map::empty()
    } else {
        ledger(s.drop_last()).insert(s.last().address@, s.last().bid@)
    }
}

/// The asset units the contract holds live for bidders: the sum of every
/// record's cumulative total.
pub open spec fn sum_totals(s: Seq<BidEntry>) -> int
    decreases s.len(),
{
    if s.len() == 0 {
        0
    } else {
        sum_totals(s.drop_last()) + s.last().bid@.total()
    }
}

/// The commission portion of the same sum.
pub open spec fn sum_commissions(s: Seq<BidEntry>) -> int
    decreases s.len(),
{
    if s.len() == 0 {
        0
    } else {
        sum_commissions(s.drop_last()) + s.last().bid@.commission
    }
}

/// Inserting under two different keys commutes.
pub proof fn lemma_insert_commute<K, V>(m: Map<K, V>, k1: K, v1: V, k2: K, v2: V)
    requires
        k1 != k2,
    ensures
        m.insert(k1, v1).insert(k2, v2) == m.insert(k2, v2).insert(k1, v1),
{
    assert(m.insert(k1, v1).insert(k2, v2) =~= m.insert(k2, v2).insert(k1, v1));
}

/// Removing one key and inserting under another commutes.
pub proof fn lemma_remove_insert_commute<K, V>(m: Map<K, V>, k1: K, v1: V, k2: K)
    requires
        k1 != k2,
    ensures
        m.insert(k1, v1).remove(k2) == m.remove(k2).insert(k1, v1),
{
    assert(m.insert(k1, v1).remove(k2) =~= m.remove(k2).insert(k1, v1));
}

/// A row of the ledger is found in the map, under its own address.
pub proof fn lemma_ledger_index(s: Seq<BidEntry>, i: int)
    requires
        distinct_addrs(s),
        0 <= i < s.len(),
    ensures
        ledger(s).dom().contains(s[i].address@),
        ledger(s)[s[i].address@] == s[i].bid@,
    decreases s.len(),
{
    if i < s.len() - 1 {
        lemma_ledger_index(s.drop_last(), i);
        assert(s.drop_last()[i] == s[i]);
        assert(s[i].address@ != s.last().address@);
    }
}

/// An address has a binding in the map exactly when some row carries it.
pub proof fn lemma_ledger_contains(s: Seq<BidEntry>, a: Seq<char>)
    ensures
        ledger(s).dom().contains(a) <==> exists|i: int| 0 <= i < s.len() && s[i].address@ == a,
    decreases s.len(),
{
    if s.len() > 0 {
        lemma_ledger_contains(s.drop_last(), a);
        if s.last().address@ == a {
            assert(s[s.len() - 1].address@ == a);
        } else {
            if ledger(s).dom().contains(a) {
                let i = choose|i: int| 0 <= i < s.drop_last().len() && s.drop_last()[i].address@ == a;
                assert(s[i].address@ == a);
            }
            if exists|i: int| 0 <= i < s.len() && s[i].address@ == a {
                let i = choose|i: int| 0 <= i < s.len() && s[i].address@ == a;
                assert(i < s.len() - 1);
                assert(s.drop_last()[i].address@ == a);
            }
        }
    }
}

/// Appending a row for a fresh address inserts its record into the map.
pub proof fn lemma_ledger_push(s: Seq<BidEntry>, e: BidEntry)
    ensures
        ledger(s.push(e)) == ledger(s).insert(e.address@, e.bid@),
        sum_totals(s.push(e)) == sum_totals(s) + e.bid@.total(),
        sum_commissions(s.push(e)) == sum_commissions(s) + e.bid@.commission,
{
    assert(s.push(e).drop_last() =~= s);
    assert(s.push(e).last() == e);
}

/// Overwriting a row in place, keeping its address, overwrites the binding.
pub proof fn lemma_ledger_update(s: Seq<BidEntry>, i: int, e: BidEntry)
    requires
        distinct_addrs(s),
        0 <= i < s.len(),
        s[i].address@ == e.address@,
    ensures
        ledger(s.update(i, e)) == ledger(s).insert(e.address@, e.bid@),
        sum_totals(s.update(i, e)) == sum_totals(s) - s[i].bid@.total() + e.bid@.total(),
        sum_commissions(s.update(i, e)) == sum_commissions(s) - s[i].bid@.commission
            + e.bid@.commission,
    decreases s.len(),
{
    if i == s.len() - 1 {
        assert(s.update(i, e).drop_last() =~= s.drop_last());
        assert(s.update(i, e).last() == e);
        assert(ledger(s.drop_last()).insert(s.last().address@, s.last().bid@).insert(
            e.address@,
            e.bid@,
        ) =~= ledger(s.drop_last()).insert(e.address@, e.bid@));
    } else {
        lemma_ledger_update(s.drop_last(), i, e);
        assert(s.update(i, e).drop_last() =~= s.drop_last().update(i, e));
        assert(s.update(i, e).last() == s.last());
        assert(s[i].address@ != s.last().address@);
        lemma_insert_commute(
            ledger(s.drop_last()),
            e.address@,
            e.bid@,
            s.last().address@,
            s.last().bid@,
        );
    }
}

/// Deleting a row removes its address from the map.
pub proof fn lemma_ledger_remove(s: Seq<BidEntry>, i: int)
    requires
        distinct_addrs(s),
        0 <= i < s.len(),
    ensures
        ledger(s.remove(i)) == ledger(s).remove(s[i].address@),
        sum_totals(s.remove(i)) == sum_totals(s) - s[i].bid@.total(),
        sum_commissions(s.remove(i)) == sum_commissions(s) - s[i].bid@.commission,
        distinct_addrs(s.remove(i)),
    decreases s.len(),
{
    assert forall|p: int, q: int| 0 <= p < q < s.remove(i).len() implies s.remove(i)[p].address@
        != s.remove(i)[q].address@ by {
        let p0 = if p < i { p } else { p + 1 };
        let q0 = if q < i { q } else { q + 1 };
        assert(s.remove(i)[p] == s[p0]);
        assert(s.remove(i)[q] == s[q0]);
    }
    if i == s.len() - 1 {
        assert(s.remove(i) =~= s.drop_last());
        lemma_ledger_contains(s.drop_last(), s[i].address@);
        assert(forall|j: int| 0 <= j < s.drop_last().len() ==> s.drop_last()[j] == s[j]);
        assert(!ledger(s.drop_last()).dom().contains(s[i].address@));
        assert(ledger(s.drop_last()).insert(s.last().address@, s.last().bid@).remove(
            s[i].address@,
        ) =~= ledger(s.drop_last()));
    } else {
        lemma_ledger_remove(s.drop_last(), i);
        assert(s.remove(i).drop_last() =~= s.drop_last().remove(i));
        assert(s.remove(i).last() == s.last());
        assert(s[i].address@ != s.last().address@);
        lemma_remove_insert_commute(
            ledger(s.drop_last()),
            s.last().address@,
            s.last().bid@,
            s[i].address@,
        );
    }
}

/// One record's total never exceeds the ledger-wide sum.
pub proof fn lemma_entry_le_sum(s: Seq<BidEntry>, i: int)
    requires
        0 <= i < s.len(),
    ensures
        s[i].bid@.total() <= sum_totals(s),
    decreases s.len(),
{
    if i < s.len() - 1 {
        lemma_entry_le_sum(s.drop_last(), i);
        assert(s.drop_last()[i] == s[i]);
    } else {
        lemma_commissions_le_totals(s.drop_last());
    }
}

/// Looks up the row index of an address's record, if it has one.
pub fn find_bid(bids: &Vec<BidEntry>, addr: &String) -> (r: Option<usize>)
    ensures
        match r {
            Some(i) => i < bids@.len() && bids@[i as int].address@ == addr@,
            None => !ledger(bids@).dom().contains(addr@),
        },
{
    let n = bids.len();
    let mut i: usize = 0;
    while i < n
        invariant
            n == bids.len(),
            i <= n,
            forall|j: int| 0 <= j < i ==> bids@[j].address@ != addr@,
        decreases n - i,
    {
        if bids[i].address == *addr {
            return Some(i);
        }
        i = i + 1;
    }
    proof {
        lemma_ledger_contains(bids@, addr@);
    }
    None
}

/// The commission held in the ledger never exceeds the full sum.
pub proof fn lemma_commissions_le_totals(s: Seq<BidEntry>)
    ensures
        0 <= sum_commissions(s) <= sum_totals(s),
    decreases s.len(),
{
    if s.len() > 0 {
        lemma_commissions_le_totals(s.drop_last());
    }
}

} // verus!
