//! The vote ledger: per-candidate point accumulation, stable descending
//! sorting, and threshold-filtered top-N selection.

use vstd::prelude::*;
use vstd::pervasive::VecAdditionalExecFns;
use crate::AccountId;

verus! {

/// One ledger entry: a candidate and its accumulated points.
pub type VoteEntry = (AccountId, u64);

/// Saturating addition on `u64`, the accumulator of the ledger.
pub open spec fn sat_add(a: u64, b: u64) -> u64 {
    if a + b > u64::MAX {
        u64::MAX
    } else {
        (a + b) as u64
    }
}

/// Index of the first entry for `who`, or `s.len()` when `who` has no entry.
pub open spec fn find_key(s: Seq<VoteEntry>, who: AccountId) -> int
    decreases s.len(),
{
    if s.len() == 0 {
        0
    } else if s[0].0 == who {
        0
    } else {
        1 + find_key(s.drop_first(), who)
    }
}

/// Whether the ledger holds an entry for `who`.
pub open spec fn has_key(s: Seq<VoteEntry>, who: AccountId) -> bool {
    find_key(s, who) < s.len()
}

/// The points accumulated for `who`, zero when `who` has no entry.
pub open spec fn points_of(s: Seq<VoteEntry>, who: AccountId) -> u64 {
    if has_key(s, who) {
        s[find_key(s, who)].1
    } else {
        0
    }
}

/// `find_key` lands on the first entry for `who`.
pub proof fn lemma_find_key_properties(s: Seq<VoteEntry>, who: AccountId)
    ensures
        0 <= find_key(s, who) <= s.len(),
        find_key(s, who) < s.len() ==> s[find_key(s, who)].0 == who,
        forall|j: int| 0 <= j < find_key(s, who) ==> s[j].0 != who,
    decreases s.len(),
{
    if s.len() > 0 && s[0].0 != who {
        lemma_find_key_properties(s.drop_first(), who);
        assert forall|j: int| 0 <= j < find_key(s, who) implies s[j].0 != who by {
            if j > 0 {
                assert(s.drop_first()[j - 1] == s[j]);
            }
        }
    }
}

/// A position `i` whose predecessors all miss `who`, and which hits `who`
/// unless it is the length, is exactly `find_key`.
pub proof fn lemma_find_key_at(s: Seq<VoteEntry>, who: AccountId, i: int)
    requires
        0 <= i <= s.len(),
        forall|j: int| 0 <= j < i ==> s[j].0 != who,
        i < s.len() ==> s[i].0 == who,
    ensures
        find_key(s, who) == if i < s.len() {
            i
        } else {
            s.len() as int
        },
    decreases i,
{
    if i == 0 {
        if s.len() > 0 && s[0].0 != who {
            lemma_find_key_properties(s, who);
        }
    } else {
        assert(s[0].0 != who);
        lemma_find_key_at(s.drop_first(), who, i - 1);
    }
}

/// The ledger after `add_points(who, pts)`: the first entry for `who` has its
/// points saturating-added in place; an absent candidate is appended.
pub open spec fn add_points_spec(s: Seq<VoteEntry>, who: AccountId, pts: u64) -> Seq<VoteEntry> {
    if has_key(s, who) {
        let i = find_key(s, who);
        s.update(i, (who, sat_add(s[i].1, pts)))
    } else {
        s.push((who, pts))
    }
}

/// Inserts `x` into `t` after every entry whose points are at least `x`'s:
/// the insertion step of a stable descending sort.
pub open spec fn insert_desc(t: Seq<VoteEntry>, x: VoteEntry) -> Seq<VoteEntry>
    decreases t.len(),
{
    if t.len() > 0 && t[0].1 >= x.1 {
        seq![t[0]] + insert_desc(t.drop_first(), x)
    } else {
        seq![x] + t
    }
}

/// The stable descending sort of the ledger, by points; entries with equal
/// points keep their original order.
pub open spec fn stable_sort_desc(s: Seq<VoteEntry>) -> Seq<VoteEntry>
    decreases s.len(),
{
    if s.len() == 0 {
        Seq::empty()
    } else {
        insert_desc(stable_sort_desc(s.drop_last()), s.last())
    }
}

/// Points are non-increasing along the sequence.
pub open spec fn sorted_desc(s: Seq<VoteEntry>) -> bool {
    forall|i: int, j: int| 0 <= i < j < s.len() ==> s[i].1 >= s[j].1
}

/// When the first `k` entries of `t` have points at least `x`'s and the entry
/// at `k` (if any) has fewer, `insert_desc` places `x` exactly at `k`.
pub proof fn lemma_insert_desc_at(t: Seq<VoteEntry>, x: VoteEntry, k: int)
    requires
        0 <= k <= t.len(),
        forall|j: int| 0 <= j < k ==> t[j].1 >= x.1,
        k < t.len() ==> t[k].1 < x.1,
    ensures
        insert_desc(t, x) == t.insert(k, x),
    decreases k,
{
    if k == 0 {
        if t.len() == 0 || t[0].1 < x.1 {
            assert(insert_desc(t, x) =~= t.insert(0, x));
        }
    } else {
        assert(t[0].1 >= x.1);
        lemma_insert_desc_at(t.drop_first(), x, k - 1);
        assert(seq![t[0]] + t.drop_first().insert(k - 1, x) =~= t.insert(k, x));
    }
}

/// The account identifiers of the entries of `s` whose points reach
/// `threshold`, in order.
pub open spec fn select_top(s: Seq<VoteEntry>, threshold: u64) -> Seq<AccountId>
    decreases s.len(),
{
    if s.len() == 0 {
        Seq::empty()
    } else {
        let rest = select_top(s.drop_last(), threshold);
        if s.last().1 >= threshold {
            rest.push(s.last().0)
        } else {
            rest
        }
    }
}

/// The first `num` entries (at most) whose points reach `threshold`, mapped
/// to their account identifiers.
pub open spec fn top_of(s: Seq<VoteEntry>, num: u32, threshold: u64) -> Seq<AccountId> {
    select_top(s.take(vstd::math::min(num as int, s.len() as int)), threshold)
}

/// The vote ledger: an ordered sequence of `(candidate, points)` pairs.
/// Mutation goes through [`VotingStatus::add_points`], which keeps candidates
/// unique; the sequence order is the tie-break of the stable sort.
pub struct VotingStatus {
    pub status: Vec<VoteEntry>,
}

impl Default for VotingStatus {
    /// An empty ledger.
    fn default() -> (r: VotingStatus)
        ensures
            r.status@ == Seq::<VoteEntry>::empty(),
    {
        VotingStatus { status: Vec::new() }
    }
}

impl VotingStatus {
    /// An entry-for-entry copy of the ledger, for sorting without disturbing
    /// the stored insertion order.
    pub fn duplicate(&self) -> (r: VotingStatus)
        ensures
            r.status@ == self.status@,
    {
        let mut status: Vec<VoteEntry> = Vec::new();
        let mut i: usize = 0;
        while i < self.status.len()
            invariant
                i <= self.status@.len(),
                status@ == self.status@.take(i as int),
            decreases self.status@.len() - i,
        {
            status.push(self.status[i]);
            proof {
                assert(self.status@.take(i as int + 1) =~= self.status@.take(i as int).push(
                    self.status@[i as int],
                ));
            }
            i += 1;
        }
        proof {
            assert(self.status@.take(self.status@.len() as int) =~= self.status@);
        }
        VotingStatus { status }
    }

    /// Add vote points for the given vote account id: saturating-add in place
    /// when the candidate already has an entry, append otherwise.  Points for
    /// a candidate never decrease.
    pub fn add_points(&mut self, who: &AccountId, vote_points: u64)
        ensures
            final(self).status@ == add_points_spec(old(self).status@, *who, vote_points),
            points_of(final(self).status@, *who) >= points_of(old(self).status@, *who),
    {
        let mut i: usize = 0;
        while i < self.status.len()
            invariant
                i <= self.status@.len(),
                self.status@ == old(self).status@,
                forall|j: int| 0 <= j < i ==> self.status@[j].0 != *who,
            decreases self.status@.len() - i,
        {
            if self.status[i].0 == *who {
                proof {
                    lemma_find_key_at(old(self).status@, *who, i as int);
                }
                let np = self.status[i].1.saturating_add(vote_points);
                self.status.set(i, (*who, np));
                proof {
                    lemma_find_key_at(self.status@, *who, i as int);
                }
                return;
            }
            i += 1;
        }
        proof {
            lemma_find_key_at(old(self).status@, *who, old(self).status@.len() as int);
        }
        self.status.push((*who, vote_points));
        proof {
            lemma_find_key_at(self.status@, *who, old(self).status@.len() as int);
        }
    }

    /// The number of candidates in the ledger.
    pub fn counts(&self) -> (r: usize)
        ensures
            r == self.status@.len(),
    {
        self.status.len()
    }

    /// Sort the ledger by points in decreasing order; candidates with equal
    /// points keep their original order (a stable sort).
    pub fn sort_by_vote_points(&mut self)
        ensures
            final(self).status@ == stable_sort_desc(old(self).status@),
    {
        let ghost orig = self.status@;
        let mut result: Vec<VoteEntry> = Vec::new();
        let mut i: usize = 0;
        while i < self.status.len()
            invariant
                i <= self.status@.len(),
                self.status@ == orig,
                result@ == stable_sort_desc(orig.take(i as int)),
            decreases self.status@.len() - i,
        {
            let x = self.status[i];
            let mut k: usize = 0;
            while k < result.len() && result[k].1 >= x.1
                invariant
                    k <= result@.len(),
                    result@ == stable_sort_desc(orig.take(i as int)),
                    forall|j: int| 0 <= j < k ==> result@[j].1 >= x.1,
                decreases result@.len() - k,
            {
                k += 1;
            }
            proof {
                lemma_insert_desc_at(result@, x, k as int);
            }
            result.insert(k, x);
            proof {
                assert(result@ == insert_desc(stable_sort_desc(orig.take(i as int)), x));
                assert(orig.take(i as int + 1).drop_last() =~= orig.take(i as int));
                assert(orig.take(i as int + 1).last() == x);
                assert(result@ == stable_sort_desc(orig.take(i as int + 1)));
            }
            i += 1;
        }
        proof {
            assert(orig.take(orig.len() as int) =~= orig);
        }
        self.status = result;
    }

    /// The top validators of the ledger: the first `num` entries whose points
    /// have reached `min_vote_points_threshold`, as account identifiers.
    ///
    /// The ledger is read in its stored order, so this is meaningful after
    /// [`VotingStatus::sort_by_vote_points`]; calling out of order is a
    /// caller bug.
    pub fn top_validators(&self, num: u32, min_vote_points_threshold: u64) -> (r: Vec<AccountId>)
        ensures
            r@ == top_of(self.status@, num, min_vote_points_threshold),
    {
        let bound: usize = if (num as usize) < self.status.len() {
            num as usize
        } else {
            self.status.len()
        };
        let mut r: Vec<AccountId> = Vec::new();
        let mut i: usize = 0;
        while i < bound
            invariant
                i <= bound,
                bound == vstd::math::min(num as int, self.status@.len() as int),
                r@ == select_top(self.status@.take(i as int), min_vote_points_threshold),
            decreases bound - i,
        {
            let e = self.status[i];
            proof {
                assert(self.status@.take(i as int + 1).drop_last() =~= self.status@.take(i as int));
                assert(self.status@.take(i as int + 1).last() == e);
            }
            if e.1 >= min_vote_points_threshold {
                r.push(e.0);
            }
            i += 1;
        }
        r
    }
}


/// Position at which `insert_desc` places `x` in `t`: the length of the
/// leading run of entries whose points are at least `x`'s.
pub open spec fn desc_insert_pos(t: Seq<VoteEntry>, x: VoteEntry) -> int
    decreases t.len(),
{
    if t.len() == 0 {
        0
    } else if t[0].1 >= x.1 {
        1 + desc_insert_pos(t.drop_first(), x)
    } else {
        0
    }
}

/// The characteristic properties of `desc_insert_pos`, and the consequence
/// that `insert_desc` is insertion at that position.
pub proof fn lemma_desc_insert_pos(t: Seq<VoteEntry>, x: VoteEntry)
    ensures
        0 <= desc_insert_pos(t, x) <= t.len(),
        forall|j: int| 0 <= j < desc_insert_pos(t, x) ==> t[j].1 >= x.1,
        desc_insert_pos(t, x) < t.len() ==> t[desc_insert_pos(t, x)].1 < x.1,
        insert_desc(t, x) == t.insert(desc_insert_pos(t, x), x),
    decreases t.len(),
{
    if t.len() > 0 && t[0].1 >= x.1 {
        lemma_desc_insert_pos(t.drop_first(), x);
        let k = desc_insert_pos(t, x);
        assert forall|j: int| 0 <= j < k implies t[j].1 >= x.1 by {
            if j > 0 {
                assert(t.drop_first()[j - 1] == t[j]);
            }
        }
        if k < t.len() {
            assert(t.drop_first()[k - 1] == t[k]);
        }
    }
    lemma_insert_desc_at(t, x, desc_insert_pos(t, x));
}

/// Entries of `insert_desc(t, x)` with points bounded for `t` and `x` stay
/// bounded.
proof fn lemma_insert_desc_bounded(t: Seq<VoteEntry>, x: VoteEntry, b: u64)
    requires
        forall|j: int| 0 <= j < t.len() ==> t[j].1 <= b,
        x.1 <= b,
    ensures
        forall|j: int| 0 <= j < insert_desc(t, x).len() ==> insert_desc(t, x)[j].1 <= b,
{
    lemma_desc_insert_pos(t, x);
    let k = desc_insert_pos(t, x);
    assert forall|j: int| 0 <= j < insert_desc(t, x).len() implies insert_desc(t, x)[j].1
        <= b by {
        t.insert_ensures(k, x);
        if j < k {
            assert(insert_desc(t, x)[j] == t[j]);
        } else if j > k {
            assert(insert_desc(t, x)[j] == t[j - 1]);
        }
    }
}

/// `insert_desc` keeps a descending sequence descending.
pub proof fn lemma_insert_desc_sorted(t: Seq<VoteEntry>, x: VoteEntry)
    requires
        sorted_desc(t),
    ensures
        sorted_desc(insert_desc(t, x)),
{
    lemma_desc_insert_pos(t, x);
    let k = desc_insert_pos(t, x);
    let r = insert_desc(t, x);
    assert forall|i: int, j: int| 0 <= i < j < r.len() implies r[i].1 >= r[j].1 by {
        t.insert_ensures(k, x);
        let ri = if i < k {
            t[i]
        } else if i == k {
            x
        } else {
            t[i - 1]
        };
        let rj = if j < k {
            t[j]
        } else if j == k {
            x
        } else {
            t[j - 1]
        };
        assert(r[i] == ri);
        assert(r[j] == rj);
        if i < k && j == k {
            assert(t[i].1 >= x.1);
        } else if i == k && j > k {
            assert(j - 1 >= k);
            if j - 1 == k {
                assert(t[k].1 < x.1);
            } else {
                assert(t[k].1 < x.1 && t[k].1 >= t[j - 1].1);
            }
        }
    }
}

/// The stable descending sort is descending.
pub proof fn lemma_stable_sort_desc_sorted(s: Seq<VoteEntry>)
    ensures
        sorted_desc(stable_sort_desc(s)),
    decreases s.len(),
{
    if s.len() > 0 {
        lemma_stable_sort_desc_sorted(s.drop_last());
        lemma_insert_desc_sorted(stable_sort_desc(s.drop_last()), s.last());
    }
}

/// The stable descending sort is a permutation of the ledger.
pub proof fn lemma_stable_sort_desc_permutes(s: Seq<VoteEntry>)
    ensures
        stable_sort_desc(s).to_multiset() == s.to_multiset(),
    decreases s.len(),
{
    broadcast use vstd::seq_lib::lemma_multiset_commutative;
    broadcast use vstd::multiset::group_multiset_axioms;

    if s.len() == 0 {
        assert(s =~= Seq::<VoteEntry>::empty());
    } else {
        let prev = stable_sort_desc(s.drop_last());
        let x = s.last();
        lemma_stable_sort_desc_permutes(s.drop_last());
        lemma_desc_insert_pos(prev, x);
        let k = desc_insert_pos(prev, x);
        let a = prev.subrange(0, k);
        let b = prev.subrange(k, prev.len() as int);
        assert(prev.insert(k, x) == a.push(x) + b);
        a.to_multiset_ensures();
        s.drop_last().to_multiset_ensures();
        assert(a.push(x).to_multiset() =~= a.to_multiset().insert(x));
        assert(prev =~= a + b);
        assert(s.drop_last().push(x) =~= s);
        assert(stable_sort_desc(s).to_multiset() == (a.push(x) + b).to_multiset());
        assert((a.push(x) + b).to_multiset() =~= a.to_multiset().insert(x).add(b.to_multiset()));
        assert(s.to_multiset() =~= s.drop_last().to_multiset().insert(x));
        assert(s.drop_last().to_multiset() =~= a.to_multiset().add(b.to_multiset()));
        assert(a.to_multiset().insert(x).add(b.to_multiset()) =~= a.to_multiset().add(
            b.to_multiset(),
        ).insert(x));
    }
}

/// The predicate "the entry's points are exactly `p`".
pub open spec fn has_points(p: u64) -> spec_fn(VoteEntry) -> bool {
    |e: VoteEntry| e.1 == p
}

/// Inserting into a descending sequence appends to the run of entries with
/// the inserted entry's points, and leaves every other run unchanged.
proof fn lemma_insert_desc_filter(t: Seq<VoteEntry>, x: VoteEntry, p: u64)
    requires
        sorted_desc(t),
    ensures
        insert_desc(t, x).filter(has_points(p)) == (if x.1 == p {
            t.filter(has_points(p)).push(x)
        } else {
            t.filter(has_points(p))
        }),
{
    reveal(Seq::filter);
    lemma_desc_insert_pos(t, x);
    let k = desc_insert_pos(t, x);
    let a = t.subrange(0, k);
    let b = t.subrange(k, t.len() as int);
    let pred = has_points(p);
    assert(t =~= a + b);
    assert(insert_desc(t, x) == a.push(x) + b);
    Seq::filter_distributes_over_add(a, b, pred);
    Seq::filter_distributes_over_add(a.push(x), b, pred);
    assert(a.push(x).drop_last() =~= a);
    assert(a.push(x).filter(pred) == if pred(x) {
        a.filter(pred).push(x)
    } else {
        a.filter(pred)
    });
    if x.1 == p {
        assert forall|j: int| 0 <= j < b.len() implies !pred(b[j]) by {
            if j > 0 {
                assert(t[k].1 >= t[k + j].1);
            }
            assert(b[j] == t[k + j]);
            assert(b[j].1 < x.1);
        }
        b.lemma_all_neg_filter_empty(pred);
        assert(b.filter(pred) =~= Seq::<VoteEntry>::empty());
        assert(a.filter(pred).push(x) + Seq::<VoteEntry>::empty() =~= a.filter(pred).push(x));
        assert(a.filter(pred) + Seq::<VoteEntry>::empty() =~= a.filter(pred));
        assert(insert_desc(t, x).filter(pred) == a.filter(pred).push(x));
        assert(t.filter(pred) == a.filter(pred));
    } else {
        assert(insert_desc(t, x).filter(pred) == a.filter(pred) + b.filter(pred));
        assert(t.filter(pred) == a.filter(pred) + b.filter(pred));
    }
}

/// Stability of the sort: for every points value, the entries with exactly
/// those points come out in their original relative order.  Together with
/// `lemma_stable_sort_desc_sorted` and `lemma_stable_sort_desc_permutes`
/// this pins `stable_sort_desc` down as the stable descending sort.
pub proof fn lemma_stable_sort_desc_stable(s: Seq<VoteEntry>, p: u64)
    ensures
        stable_sort_desc(s).filter(has_points(p)) == s.filter(has_points(p)),
    decreases s.len(),
{
    reveal(Seq::filter);
    if s.len() == 0 {
    } else {
        let prev = stable_sort_desc(s.drop_last());
        let x = s.last();
        lemma_stable_sort_desc_stable(s.drop_last(), p);
        lemma_stable_sort_desc_sorted(s.drop_last());
        lemma_insert_desc_filter(prev, x, p);
    }
}


/// Saturating accumulation never loses ground: one `add_points` step — for
/// any candidate — never decreases any candidate's recorded points, so over
/// any sequence of calls every tally is non-decreasing.
pub proof fn lemma_add_points_never_decreases(
    s: Seq<VoteEntry>,
    who: AccountId,
    pts: u64,
    other: AccountId,
)
    ensures
        points_of(add_points_spec(s, who, pts), other) >= points_of(s, other),
{
    lemma_find_key_properties(s, who);
    lemma_find_key_properties(s, other);
    let j = find_key(s, other);
    if has_key(s, who) {
        let i = find_key(s, who);
        let t = s.update(i, (who, sat_add(s[i].1, pts)));
        assert forall|m: int| 0 <= m < s.len() implies t[m].0 == s[m].0 by {}
        if j < s.len() {
            lemma_find_key_at(t, other, j);
        } else {
            lemma_find_key_at(t, other, t.len() as int);
        }
    } else {
        let t = s.push((who, pts));
        if j < s.len() {
            lemma_find_key_at(t, other, j);
        } else if other == who {
            lemma_find_key_at(t, who, s.len() as int);
        } else {
            lemma_find_key_at(t, other, t.len() as int);
        }
    }
}

} // verus!
