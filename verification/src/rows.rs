//! The ordered row remover.
//!
//! A deletion request arrives as a set of selected row positions against the
//! backing sequence.  The positions are sorted ascending and then processed
//! in descending order: removing the highest position first only ever shifts
//! rows that sit *behind* positions still to be processed, so every
//! not-yet-processed position stays valid.  Removing in ascending order
//! without re-indexing would shift the later selected positions and delete
//! the wrong rows.

use vstd::prelude::*;

verus! {

/// The set of row positions named by a selection, as mathematical integers.
pub open spec fn position_set(ps: Seq<usize>) -> Set<int> {
    Set::new(|p: int| exists|k: int| 0 <= k < ps.len() && ps[k] as int == p)
}

/// The positions appear in ascending order.
spec fn sorted_ascending(s: Seq<usize>) -> bool {
    forall|a: int, b: int| 0 <= a < b < s.len() ==> s[a] <= s[b]
}

/// The rows of `s` that remain once every selected position at or above
/// `cutoff` has been removed; rows below `cutoff` are still in place.
/// Descending removal walks the sequence from its end, which is how this
/// function recurses.
pub open spec fn rows_removed_above(s: Seq<String>, ps: Set<int>, cutoff: int) -> Seq<String>
    decreases s.len(),
{
    if s.len() == 0 {
        Seq::empty()
    } else if s.len() - 1 >= cutoff && ps.contains(s.len() - 1) {
        rows_removed_above(s.drop_last(), ps, cutoff)
    } else {
        rows_removed_above(s.drop_last(), ps, cutoff).push(s.last())
    }
}

/// The rows that remain after removing every position of `ps` from `s`.
pub open spec fn rows_removed(s: Seq<String>, ps: Set<int>) -> Seq<String> {
    rows_removed_above(s, ps, 0)
}

/// The rows of `s` at the positions of `ps`, in ascending position order:
/// exactly the rows that a removal of `ps` takes out.
pub open spec fn rows_taken(s: Seq<String>, ps: Set<int>) -> Seq<String>
    decreases s.len(),
{
    if s.len() == 0 {
        Seq::empty()
    } else if ps.contains(s.len() - 1) {
        rows_taken(s.drop_last(), ps).push(s.last())
    } else {
        rows_taken(s.drop_last(), ps)
    }
}

/// With the cutoff at or past the end of the sequence, nothing is removed.
proof fn lemma_rows_removed_above_high(s: Seq<String>, ps: Set<int>, cutoff: int)
    requires
        cutoff >= s.len(),
    ensures
        rows_removed_above(s, ps, cutoff) == s,
    decreases s.len(),
{
    if s.len() == 0 {
        assert(rows_removed_above(s, ps, cutoff) =~= s);
    } else {
        lemma_rows_removed_above_high(s.drop_last(), ps, cutoff);
        assert(rows_removed_above(s, ps, cutoff) =~= s);
    }
}

/// Moving the cutoff across positions that are not selected changes nothing.
proof fn lemma_rows_removed_above_gap(s: Seq<String>, ps: Set<int>, a: int, b: int)
    requires
        a <= b,
        forall|j: int| a <= j < b ==> !ps.contains(j),
    ensures
        rows_removed_above(s, ps, a) == rows_removed_above(s, ps, b),
    decreases s.len(),
{
    if s.len() > 0 {
        lemma_rows_removed_above_gap(s.drop_last(), ps, a, b);
        let last = s.len() - 1;
        if a <= last && last < b {
            assert(!ps.contains(last));
        }
    }
}

/// One descending removal step: with the cutoff just above a selected
/// position `p`, row `p` is still in place, and removing it from the
/// sequence moves the cutoff down to `p`.
proof fn lemma_rows_removed_above_step(s: Seq<String>, ps: Set<int>, p: int)
    requires
        0 <= p < s.len(),
        ps.contains(p),
    ensures
        p < rows_removed_above(s, ps, p + 1).len(),
        rows_removed_above(s, ps, p + 1).len() <= s.len(),
        rows_removed_above(s, ps, p) == rows_removed_above(s, ps, p + 1).remove(p),
    decreases s.len(),
{
    let t = rows_removed_above(s, ps, p + 1);
    let last = s.len() - 1;
    if last == p {
        lemma_rows_removed_above_high(s.drop_last(), ps, p + 1);
        assert(t =~= s);
        lemma_rows_removed_above_high(s.drop_last(), ps, p);
        assert(rows_removed_above(s, ps, p) =~= t.remove(p));
    } else {
        lemma_rows_removed_above_step(s.drop_last(), ps, p);
        let t1 = rows_removed_above(s.drop_last(), ps, p + 1);
        if ps.contains(last) {
            assert(rows_removed_above(s, ps, p) == t1.remove(p));
        } else {
            assert(t == t1.push(s.last()));
            assert(t.remove(p) =~= t1.remove(p).push(s.last()));
        }
    }
}

/// Law: a removal partitions the rows.  Every row of the sequence either
/// remains or is taken out, in total count and identity (as a multiset of
/// row names): none is lost and none is duplicated.
pub proof fn lemma_removal_partitions_rows(s: Seq<String>, ps: Set<int>)
    ensures
        rows_removed(s, ps).len() + rows_taken(s, ps).len() == s.len(),
        rows_removed(s, ps).to_multiset().add(rows_taken(s, ps).to_multiset()) == s.to_multiset(),
    decreases s.len(),
{
    broadcast use vstd::seq_lib::group_to_multiset_ensures;
    broadcast use vstd::multiset::group_multiset_axioms;

    if s.len() == 0 {
        assert(rows_removed(s, ps).to_multiset().add(rows_taken(s, ps).to_multiset())
            =~= s.to_multiset());
    } else {
        let dl = s.drop_last();
        let e = s.last();
        lemma_removal_partitions_rows(dl, ps);
        assert(dl.push(e) =~= s);
        assert(s.to_multiset() == dl.to_multiset().insert(e));
        if ps.contains(s.len() - 1) {
            assert(rows_taken(s, ps).to_multiset() == rows_taken(dl, ps).to_multiset().insert(e));
            assert(rows_removed(s, ps).to_multiset().add(rows_taken(s, ps).to_multiset())
                =~= s.to_multiset());
        } else {
            assert(rows_removed(s, ps).to_multiset()
                == rows_removed(dl, ps).to_multiset().insert(e));
            assert(rows_removed(s, ps).to_multiset().add(rows_taken(s, ps).to_multiset())
                =~= s.to_multiset());
        }
    }
}

/// Sort the selected positions in ascending order (insertion sort), keeping
/// exactly the same positions.
fn sort_positions(v: &mut Vec<usize>)
    ensures
        sorted_ascending(final(v)@),
        final(v)@.to_multiset() == old(v)@.to_multiset(),
{
    let ghost orig = v@;
    if v.len() < 2 {
        return;
    }
    let mut i: usize = 1;
    while i < v.len()
        invariant
            1 <= i <= v@.len(),
            v@.len() == orig.len(),
            v@.to_multiset() == orig.to_multiset(),
            sorted_ascending(v@.subrange(0, i as int)),
        decreases v@.len() - i,
    {
        let ghost prev = v@;
        let x = v.remove(i);
        let mut j: usize = 0;
        while j < i && v[j] <= x
            invariant
                j <= i,
                i < prev.len(),
                v@ == prev.remove(i as int),
                forall|k: int| 0 <= k < j ==> v@[k] <= x,
            decreases i - j,
        {
            j += 1;
        }
        v.insert(j, x);
        proof {
            broadcast use vstd::seq_lib::group_to_multiset_ensures;
            broadcast use vstd::multiset::group_multiset_axioms;

            let mid = prev.remove(i as int);
            assert(x == prev[i as int]);
            assert(prev.contains(x));
            assert(prev.to_multiset().count(x) > 0);
            assert(v@ == mid.insert(j as int, x));
            assert(v@.to_multiset() =~= prev.to_multiset());

            // the first i + 1 rows are sorted again: the prefix below j is
            // unchanged and at most x, x sits at j, and everything shifted
            // up from [j, i) exceeds x
            mid.insert_ensures(j as int, x);
            prev.remove_ensures(i as int);
            assert forall|a: int, b: int|
                0 <= a < b < i + 1 implies v@[a] <= v@[b] by {
                assert(forall|k: int| 0 <= k < i ==> mid[k] == prev[k]);
                assert(forall|k: int| 0 <= k < j ==> v@[k] == mid[k]);
                assert(forall|k: int| j < k <= i ==> v@[k] == mid[k - 1]);
                assert(forall|k: int| j < k <= i ==> v@[k] > x);
                assert(forall|a2: int, b2: int|
                    0 <= a2 < b2 < i ==> #[trigger] mid[a2] <= #[trigger] mid[b2]);
            };
            assert(sorted_ascending(v@.subrange(0, i + 1)));
        }
        i += 1;
    }
    proof {
        assert(v@.subrange(0, i as int) =~= v@);
    }
}

/// Why a removal batch is refused.
#[derive(Clone, Copy, Debug, PartialEq, Eq, Structural)]
pub enum RemoveError {
    /// A selected position lies at or beyond the end of the sequence.
    OutOfRange,
}

/// The cutoff the removal loop has reached with `i` selected positions left
/// to process: everything selected at or above it is already removed.
spec fn loop_cutoff(sel: Seq<usize>, total: int, i: int) -> int {
    if i == sel.len() {
        total
    } else {
        sel[i] as int
    }
}

/// Remove the selected positions from `rows`.
///
/// The positions are sorted ascending and removed in descending order, so
/// that no position is invalidated by an earlier removal of the same batch.
/// A selection reaching past the end of the sequence is refused before any
/// row is removed: the highest position is the first one processed, so the
/// batch fails at its very first step and the sequence stays unchanged.
pub fn remove_rows(rows: &mut Vec<String>, positions: &Vec<usize>) -> (r: Result<
    (),
    RemoveError,
>)
    requires
        positions@.no_duplicates(),
    ensures
        match r {
            Ok(()) => {
                &&& forall|k: int|
                    0 <= k < positions@.len() ==> (#[trigger] positions@[k]) < old(rows)@.len()
                &&& final(rows)@ == rows_removed(old(rows)@, position_set(positions@))
                &&& final(rows)@.len() == old(rows)@.len() - positions@.len()
            },
            Err(RemoveError::OutOfRange) => {
                &&& exists|k: int|
                    0 <= k < positions@.len() && (#[trigger] positions@[k]) >= old(rows)@.len()
                &&& final(rows)@ == old(rows)@
            },
        },
{
    let ghost s0 = rows@;
    let ghost ps = position_set(positions@);

    // sort a copy of the selection, leaving the caller's set untouched
    let mut sel: Vec<usize> = Vec::new();
    let mut c: usize = 0;
    while c < positions.len()
        invariant
            c <= positions@.len(),
            sel@ == positions@.subrange(0, c as int),
        decreases positions@.len() - c,
    {
        sel.push(positions[c]);
        c += 1;
        proof {
            assert(sel@ =~= positions@.subrange(0, c as int));
        }
    }
    proof {
        assert(sel@ =~= positions@);
    }
    sort_positions(&mut sel);
    proof {
        broadcast use vstd::seq_lib::group_to_multiset_ensures;

        assert(sel@.to_multiset().len() == sel@.len());
        assert(positions@.to_multiset().len() == positions@.len());
        positions@.lemma_multiset_has_no_duplicates();
        sel@.lemma_multiset_has_no_duplicates_conv();
        assert forall|p: int| ps.contains(p) implies position_set(sel@).contains(p) by {
            let k = choose|k: int| 0 <= k < positions@.len() && positions@[k] as int == p;
            assert(positions@.contains(positions@[k]));
            assert(positions@.to_multiset().count(positions@[k]) > 0);
            assert(sel@.to_multiset().count(positions@[k]) > 0);
            assert(sel@.contains(positions@[k]));
            let k2 = choose|k2: int| 0 <= k2 < sel@.len() && sel@[k2] == positions@[k];
            assert(sel@[k2] as int == p);
        };
        assert forall|p: int| position_set(sel@).contains(p) implies ps.contains(p) by {
            let k = choose|k: int| 0 <= k < sel@.len() && sel@[k] as int == p;
            assert(sel@.contains(sel@[k]));
            assert(sel@.to_multiset().count(sel@[k]) > 0);
            assert(positions@.to_multiset().count(sel@[k]) > 0);
            assert(positions@.contains(sel@[k]));
            let k2 = choose|k2: int| 0 <= k2 < positions@.len() && positions@[k2] == sel@[k];
            assert(positions@[k2] as int == p);
        };
        assert(position_set(sel@) =~= ps);
    }

    // guard the whole batch: the highest position is processed first, so an
    // out-of-range selection fails before anything is removed
    if sel.len() > 0 {
        let maxp = sel[sel.len() - 1];
        if maxp >= rows.len() {
            proof {
                broadcast use vstd::seq_lib::group_to_multiset_ensures;

                assert(sel@.contains(maxp));
                assert(sel@.to_multiset().count(maxp) > 0);
                assert(positions@.to_multiset().count(maxp) > 0);
                assert(positions@.contains(maxp));
                let k2 = choose|k2: int| 0 <= k2 < positions@.len() && positions@[k2] == maxp;
                assert(positions@[k2] >= s0.len());
            }
            return Err(RemoveError::OutOfRange);
        }
        proof {
            broadcast use vstd::seq_lib::group_to_multiset_ensures;

            assert forall|k: int|
                0 <= k < positions@.len() implies (#[trigger] positions@[k]) < s0.len() by {
                assert(positions@.contains(positions@[k]));
                assert(positions@.to_multiset().count(positions@[k]) > 0);
                assert(sel@.to_multiset().count(positions@[k]) > 0);
                assert(sel@.contains(positions@[k]));
                let k2 = choose|k2: int| 0 <= k2 < sel@.len() && sel@[k2] == positions@[k];
                assert(sel@[k2] <= maxp);
            };
        }
    }

    // remove in descending order
    let mut i: usize = sel.len();
    proof {
        lemma_rows_removed_above_high(s0, ps, s0.len() as int);
    }
    while i > 0
        invariant
            i <= sel@.len(),
            sorted_ascending(sel@),
            sel@.no_duplicates(),
            position_set(sel@) == ps,
            forall|k: int| 0 <= k < sel@.len() ==> (#[trigger] sel@[k]) < s0.len(),
            rows@.len() == s0.len() - (sel@.len() - i),
            rows@ == rows_removed_above(s0, ps, loop_cutoff(sel@, s0.len() as int, i as int)),
        decreases i,
    {
        i -= 1;
        let p = sel[i];
        proof {
            let prev_cut = loop_cutoff(sel@, s0.len() as int, i as int + 1);
            assert forall|j: int| p as int + 1 <= j < prev_cut implies !ps.contains(j) by {
                if ps.contains(j) {
                    let k = choose|k: int| 0 <= k < sel@.len() && sel@[k] as int == j;
                    if k <= i {
                        assert(sel@[k] <= sel@[i as int]);
                    } else {
                        assert(i as int + 1 < sel@.len());
                        assert(sel@[i as int + 1] <= sel@[k]);
                    }
                }
            };
            lemma_rows_removed_above_gap(s0, ps, p as int + 1, prev_cut);
            assert(sel@[i as int] as int == p as int);
            assert(ps.contains(p as int));
            lemma_rows_removed_above_step(s0, ps, p as int);
        }
        let _removed = rows.remove(p);
    }
    proof {
        if sel@.len() == 0 {
            assert(positions@.len() == 0);
            assert(forall|j: int| !ps.contains(j));
            lemma_rows_removed_above_gap(s0, ps, 0, s0.len() as int);
        } else {
            let c0 = sel@[0] as int;
            assert forall|j: int| 0 <= j < c0 implies !ps.contains(j) by {
                if ps.contains(j) {
                    let k = choose|k: int| 0 <= k < sel@.len() && sel@[k] as int == j;
                    assert(sel@[0] <= sel@[k]);
                }
            };
            lemma_rows_removed_above_gap(s0, ps, 0, c0);
        }
    }
    Ok(())
}

} // verus!
