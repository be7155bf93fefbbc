//! The in-memory storage engine for the `likes` collection.
//!
//! The store owns the rows and enforces the one-like-per-(user, post)
//! invariant the way a unique compound index would: an insert that hits
//! an existing pair is rejected and changes nothing. Reads provide the
//! filtered, ordered and paginated views the repository needs; deletes
//! are physical.

use vstd::prelude::*;
use vstd::multiset::Multiset;
use vstd::seq_lib::*;

use crate::like::{Like, LikeView};
use crate::timestamp::ts_le;

verus! {

/// The row count the store accepts, chosen so that every aggregate count
/// fits the result types of the queries.
pub const MAX_ROWS: usize = 0x7fff_ffff;

/// The row's user is `uid`.
pub open spec fn user_matches(l: LikeView, uid: Seq<char>) -> bool {
    l.user_id == uid
}

/// The row's post is `pid`.
pub open spec fn post_matches(l: LikeView, pid: u32) -> bool {
    l.post_id == pid
}

/// The row is the like of `uid` on `pid`.
pub open spec fn pair_matches(l: LikeView, uid: Seq<char>, pid: u32) -> bool {
    l.user_id == uid && l.post_id == pid
}

/// The row falls to a bulk delete over `uids` and `pids`: whichever of
/// the two lists is supplied must contain the row's field, and the two
/// membership conditions are conjoined when both are supplied.
pub open spec fn bulk_matches(l: LikeView, uids: Seq<Seq<char>>, pids: Seq<u32>) -> bool {
    &&& (uids.len() == 0 || uids.contains(l.user_id))
    &&& (pids.len() == 0 || pids.contains(l.post_id))
}

/// Some row of `s` is the like of `uid` on `pid`.
pub open spec fn pair_present(s: Seq<LikeView>, uid: Seq<char>, pid: u32) -> bool {
    exists|i: int| 0 <= i < s.len() && pair_matches(#[trigger] s[i], uid, pid)
}

/// The first row of `s` that is the like of `uid` on `pid`, if any.
pub open spec fn find_pair(s: Seq<LikeView>, uid: Seq<char>, pid: u32) -> Option<LikeView>
    decreases s.len(),
{
    if s.len() == 0 {
        None
    } else if pair_matches(s[0], uid, pid) {
        Some(s[0])
    } else {
        find_pair(s.drop_first(), uid, pid)
    }
}

/// The predicate selecting the likes of `uid`.
pub open spec fn user_pred(uid: Seq<char>) -> spec_fn(LikeView) -> bool {
    |l: LikeView| user_matches(l, uid)
}

/// The predicate selecting the likes on `pid`.
pub open spec fn post_pred(pid: u32) -> spec_fn(LikeView) -> bool {
    |l: LikeView| post_matches(l, pid)
}

/// The predicate selecting the rows that survive deleting the like of
/// `uid` on `pid`.
pub open spec fn not_pair_pred(uid: Seq<char>, pid: u32) -> spec_fn(LikeView) -> bool {
    |l: LikeView| !pair_matches(l, uid, pid)
}

/// The predicate selecting the rows that survive a bulk delete.
pub open spec fn not_bulk_pred(uids: Seq<Seq<char>>, pids: Seq<u32>) -> spec_fn(LikeView) -> bool {
    |l: LikeView| !bulk_matches(l, uids, pids)
}

/// How many rows of `s` are likes by `uid`.
pub open spec fn count_user(s: Seq<LikeView>, uid: Seq<char>) -> nat {
    s.filter(user_pred(uid)).len()
}

/// How many rows of `s` are likes on `pid`.
pub open spec fn count_post(s: Seq<LikeView>, pid: u32) -> nat {
    s.filter(post_pred(pid)).len()
}

/// The views of a row sequence.
pub open spec fn likes_view(rows: Seq<Like>) -> Seq<LikeView> {
    rows.map_values(|l: Like| l@)
}

/// No two rows of `s` share a (user, post) pair.
pub open spec fn distinct_pairs(s: Seq<LikeView>) -> bool {
    forall|i: int, j: int|
        0 <= i < j < s.len() ==> !(#[trigger] s[i].user_id == #[trigger] s[j].user_id
            && s[i].post_id == s[j].post_id)
}

/// The rows of `s` are ordered latest-created first.
pub open spec fn sorted_desc(s: Seq<LikeView>) -> bool {
    forall|i: int, j: int|
        0 <= i < j < s.len() ==> ts_le(#[trigger] s[j].created_at, #[trigger] s[i].created_at)
}

/// `x` placed into `s` before the first row created no later than `x`.
pub open spec fn insert_desc(x: LikeView, s: Seq<LikeView>) -> Seq<LikeView>
    decreases s.len(),
{
    if s.len() == 0 {
        seq![x]
    } else if ts_le(s[0].created_at, x.created_at) {
        seq![x] + s
    } else {
        seq![s[0]] + insert_desc(x, s.drop_first())
    }
}

/// The rows of `s` reordered latest-created first, by insertion. This is
/// a function of `s` alone, so two reads of one store order equal rows
/// the same way.
pub open spec fn sort_desc(s: Seq<LikeView>) -> Seq<LikeView>
    decreases s.len(),
{
    if s.len() == 0 {
        Seq::<LikeView>::empty()
    } else {
        insert_desc(s[0], sort_desc(s.drop_first()))
    }
}

/// The page of `s` that starts `offset` rows in and holds at most
/// `limit` rows; past the end it is empty.
pub open spec fn page_of(s: Seq<LikeView>, offset: int, limit: int) -> Seq<LikeView>
    recommends
        0 <= offset,
        0 <= limit,
{
    let lo = if offset <= s.len() {
        offset
    } else {
        s.len() as int
    };
    let hi = if offset + limit <= s.len() {
        offset + limit
    } else {
        s.len() as int
    };
    s.subrange(lo, hi)
}

/// The page of the likes of `uid` in `s`, ordered latest-created first.
pub open spec fn user_page(s: Seq<LikeView>, uid: Seq<char>, offset: int, limit: int) -> Seq<
    LikeView,
> {
    page_of(sort_desc(s.filter(user_pred(uid))), offset, limit)
}

/// The page of the likes on `pid` in `s`, ordered latest-created first.
pub open spec fn post_page(s: Seq<LikeView>, pid: u32, offset: int, limit: int) -> Seq<LikeView> {
    page_of(sort_desc(s.filter(post_pred(pid))), offset, limit)
}

/// The multiset of a one-row sequence.
proof fn lemma_singleton_multiset(x: LikeView)
    ensures
        seq![x].to_multiset() == Multiset::<LikeView>::empty().insert(x),
{
    broadcast use vstd::seq_lib::group_to_multiset_ensures;

    assert(seq![x] =~= Seq::<LikeView>::empty().push(x));
    vstd::multiset::lemma_multiset_empty_len(Seq::<LikeView>::empty().to_multiset());
    assert(Seq::<LikeView>::empty().to_multiset() =~= Multiset::<LikeView>::empty());
    assert(seq![x].to_multiset() =~= Multiset::<LikeView>::empty().insert(x));
}

/// What one insertion step does: the result is one row longer, holds `x`
/// and the rows of `s`, and is ordered whenever `s` was.
pub(crate) proof fn lemma_insert_desc_props(x: LikeView, s: Seq<LikeView>)
    ensures
        insert_desc(x, s).len() == s.len() + 1,
        insert_desc(x, s).to_multiset() == s.to_multiset().insert(x),
        forall|i: int|
            0 <= i < insert_desc(x, s).len() ==> (#[trigger] insert_desc(x, s)[i] == x
                || s.contains(insert_desc(x, s)[i])),
        sorted_desc(s) ==> sorted_desc(insert_desc(x, s)),
    decreases s.len(),
{
    broadcast use vstd::seq_lib::group_to_multiset_ensures;

    let out = insert_desc(x, s);
    if s.len() == 0 {
        assert(out =~= s.push(x));
    } else if ts_le(s[0].created_at, x.created_at) {
        assert(out == seq![x] + s);
        assert(out.to_multiset() =~= s.to_multiset().insert(x)) by {
            lemma_multiset_commutative(seq![x], s);
            lemma_singleton_multiset(x);
        }
        assert(forall|i: int| 0 < i < out.len() ==> out[i] == s[i - 1]);
        if sorted_desc(s) {
            assert forall|i: int, j: int| 0 <= i < j < out.len() implies ts_le(
                #[trigger] out[j].created_at,
                #[trigger] out[i].created_at,
            ) by {
                if i == 0 {
                    if j > 1 {
                        assert(ts_le(s[j - 1].created_at, s[0].created_at));
                    }
                }
            }
        }
    } else {
        let rest = s.drop_first();
        let tail = insert_desc(x, rest);
        lemma_insert_desc_props(x, rest);
        assert(out == seq![s[0]] + tail);
        assert(forall|i: int| 0 < i < out.len() ==> out[i] == tail[i - 1]);
        assert(out.to_multiset() =~= s.to_multiset().insert(x)) by {
            lemma_multiset_commutative(seq![s[0]], tail);
            lemma_singleton_multiset(s[0]);
            assert(s =~= seq![s[0]] + rest);
            lemma_multiset_commutative(seq![s[0]], rest);
        }
        assert forall|i: int| 0 <= i < out.len() implies (#[trigger] out[i] == x || s.contains(
            out[i],
        )) by {
            if i == 0 {
                assert(s[0] == out[0]);
            } else {
                if tail[i - 1] == x {
                } else {
                    assert(rest.contains(tail[i - 1]));
                    let m = choose|m: int| 0 <= m < rest.len() && rest[m] == tail[i - 1];
                    assert(s[m + 1] == out[i]);
                }
            }
        }
        if sorted_desc(s) {
            assert(sorted_desc(rest)) by {
                assert(forall|i: int| 0 <= i < rest.len() ==> rest[i] == s[i + 1]);
            }
            assert(sorted_desc(tail));
            assert forall|i: int, j: int| 0 <= i < j < out.len() implies ts_le(
                #[trigger] out[j].created_at,
                #[trigger] out[i].created_at,
            ) by {
                if i == 0 {
                    if tail[j - 1] == x {
                        assert(ts_le(x.created_at, s[0].created_at));
                    } else {
                        assert(rest.contains(tail[j - 1]));
                        let m = choose|m: int| 0 <= m < rest.len() && rest[m] == tail[j - 1];
                        assert(ts_le(s[m + 1].created_at, s[0].created_at));
                    }
                }
            }
        }
    }
}

/// What the specification sort does: a permutation of `s`, ordered
/// latest-created first.
pub proof fn lemma_sort_desc_props(s: Seq<LikeView>)
    ensures
        sort_desc(s).len() == s.len(),
        sort_desc(s).to_multiset() == s.to_multiset(),
        sorted_desc(sort_desc(s)),
    decreases s.len(),
{
    broadcast use vstd::seq_lib::group_to_multiset_ensures;

    if s.len() > 0 {
        let rest = s.drop_first();
        lemma_sort_desc_props(rest);
        lemma_insert_desc_props(s[0], sort_desc(rest));
        assert(s.to_multiset() =~= rest.to_multiset().insert(s[0])) by {
            assert(s =~= seq![s[0]] + rest);
            lemma_multiset_commutative(seq![s[0]], rest);
            lemma_singleton_multiset(s[0]);
        }
    }
}

/// `insert_desc` lands `x` exactly at the first index whose row was
/// created no later than `x`.
proof fn lemma_insert_desc_at(x: LikeView, s: Seq<LikeView>, idx: int)
    requires
        0 <= idx <= s.len(),
        forall|j: int| 0 <= j < idx ==> !ts_le(#[trigger] s[j].created_at, x.created_at),
        idx < s.len() ==> ts_le(s[idx].created_at, x.created_at),
    ensures
        insert_desc(x, s) == s.insert(idx, x),
    decreases idx,
{
    if idx == 0 {
        if s.len() == 0 {
            assert(insert_desc(x, s) =~= s.insert(0, x));
        } else {
            assert(insert_desc(x, s) == seq![x] + s);
            assert(seq![x] + s =~= s.insert(0, x));
        }
    } else {
        let rest = s.drop_first();
        assert(forall|j: int| 0 <= j < rest.len() ==> #[trigger] rest[j] == s[j + 1]);
        lemma_insert_desc_at(x, rest, idx - 1);
        assert(seq![s[0]] + rest.insert(idx - 1, x) =~= s.insert(idx, x));
    }
}

/// Places one like into a vector kept ordered latest-created first.
fn insert_sorted(out: &mut Vec<Like>, like: Like)
    ensures
        likes_view(final(out)@) == insert_desc(like@, likes_view(old(out)@)),
{
    let n = out.len();
    let mut idx: usize = 0;
    while idx < n && !out[idx].created_at.le(&like.created_at)
        invariant
            0 <= idx <= n,
            n == out.len(),
            forall|j: int|
                0 <= j < idx ==> !ts_le(
                    #[trigger] likes_view(out@)[j].created_at,
                    like@.created_at,
                ),
        decreases n - idx,
    {
        idx = idx + 1;
    }
    proof {
        lemma_insert_desc_at(like@, likes_view(out@), idx as int);
    }
    out.insert(idx, like);
    proof {
        assert(likes_view(out@) =~= likes_view(old(out)@).insert(idx as int, like@));
    }
}

/// The rows reordered latest-created first.
fn sort_rows(rows: &Vec<Like>) -> (r: Vec<Like>)
    ensures
        likes_view(r@) == sort_desc(likes_view(rows@)),
{
    let n = rows.len();
    let mut out: Vec<Like> = Vec::new();
    let mut i: usize = n;
    proof {
        assert(likes_view(rows@).subrange(n as int, n as int) =~= Seq::<LikeView>::empty());
        assert(likes_view(out@) =~= Seq::<LikeView>::empty());
    }
    while i > 0
        invariant
            i <= n,
            n == rows.len(),
            likes_view(out@) == sort_desc(likes_view(rows@).subrange(i as int, n as int)),
        decreases i,
    {
        i = i - 1;
        let ghost v = likes_view(rows@);
        let ghost before = v.subrange(i + 1, n as int);
        insert_sorted(&mut out, rows[i].clone());
        proof {
            let cur = v.subrange(i as int, n as int);
            assert(cur.drop_first() =~= before);
            assert(cur[0] == v[i as int]);
            assert(sort_desc(cur) == insert_desc(v[i as int], sort_desc(before)));
        }
    }
    proof {
        assert(likes_view(rows@).subrange(0, n as int) =~= likes_view(rows@));
    }
    out
}

/// The slice of `rows` that forms the requested page.
fn page_rows(rows: &Vec<Like>, offset: usize, limit: usize) -> (r: Vec<Like>)
    ensures
        likes_view(r@) == page_of(likes_view(rows@), offset as int, limit as int),
{
    let n = rows.len();
    let lo = if offset <= n {
        offset
    } else {
        n
    };
    let hi = if limit <= n - lo {
        if offset <= n {
            offset + limit
        } else {
            n
        }
    } else {
        n
    };
    let mut out: Vec<Like> = Vec::new();
    let mut i: usize = lo;
    proof {
        assert(likes_view(out@) =~= likes_view(rows@).subrange(lo as int, lo as int));
    }
    while i < hi
        invariant
            lo <= i <= hi <= n,
            n == rows.len(),
            likes_view(out@) == likes_view(rows@).subrange(lo as int, i as int),
        decreases hi - i,
    {
        let ghost v = likes_view(rows@);
        let ghost prev = likes_view(out@);
        out.push(rows[i].clone());
        proof {
            assert(likes_view(out@) =~= prev.push(v[i as int]));
            assert(v.subrange(lo as int, i + 1) =~= prev.push(v[i as int]));
        }
        i = i + 1;
    }
    proof {
        assert(likes_view(out@) == page_of(
            likes_view(rows@),
            offset as int,
            limit as int,
        ));
    }
    out
}

/// The in-memory `likes` collection.
pub struct LikesStore {
    rows: Vec<Like>,
}

impl View for LikesStore {
    type V = Seq<LikeView>;

    closed spec fn view(&self) -> Seq<LikeView> {
        likes_view(self.rows@)
    }
}

/// Filtering a sequence extended by one element keeps the element exactly
/// when the predicate holds of it.
proof fn lemma_filter_push<A>(s: Seq<A>, x: A, pred: spec_fn(A) -> bool)
    ensures
        s.push(x).filter(pred) == if pred(x) {
            s.filter(pred).push(x)
        } else {
            s.filter(pred)
        },
{
    reveal(Seq::filter);
    assert(s.push(x).drop_last() =~= s);
    assert(s.push(x).last() == x);
}

/// A filtered sequence with pairwise-distinct pairs keeps that
/// distinctness, and every filtered row is a row of the unfiltered
/// sequence.
proof fn lemma_filter_distinct(s: Seq<LikeView>, pred: spec_fn(LikeView) -> bool)
    requires
        distinct_pairs(s),
    ensures
        distinct_pairs(s.filter(pred)),
        forall|x: LikeView| #[trigger] s.filter(pred).contains(x) ==> s.contains(x),
    decreases s.len(),
{
    reveal(Seq::filter);
    let out = s.filter(pred);
    if s.len() > 0 {
        let head = s.drop_last();
        assert(distinct_pairs(head)) by {
            assert(forall|i: int| 0 <= i < head.len() ==> head[i] == s[i]);
        }
        lemma_filter_distinct(head, pred);
        let f = head.filter(pred);
        assert forall|x: LikeView| #[trigger] out.contains(x) implies s.contains(x) by {
            let k = choose|k: int| 0 <= k < out.len() && out[k] == x;
            if pred(s.last()) && k == out.len() - 1 {
                assert(s[s.len() - 1] == x);
            } else {
                assert(f.contains(x));
                assert(head.contains(x));
                let m = choose|m: int| 0 <= m < head.len() && head[m] == x;
                assert(s[m] == x);
            }
        }
        if pred(s.last()) {
            assert(out == f.push(s.last()));
            assert forall|i: int, j: int| 0 <= i < j < out.len() implies !(#[trigger] out[i].user_id
                == #[trigger] out[j].user_id && out[i].post_id == out[j].post_id) by {
                if j == out.len() - 1 {
                    assert(f.contains(f[i]));
                    assert(head.contains(f[i]));
                    let m = choose|m: int| 0 <= m < head.len() && head[m] == f[i];
                    assert(s[m] == out[i]);
                    assert(s[s.len() - 1] == out[j]);
                }
            }
        }
    }
}

/// `find_pair` returns the row at the first matching index.
pub(crate) proof fn lemma_find_pair_at(s: Seq<LikeView>, uid: Seq<char>, pid: u32, i: int)
    requires
        0 <= i < s.len(),
        forall|j: int| 0 <= j < i ==> !pair_matches(#[trigger] s[j], uid, pid),
        pair_matches(s[i], uid, pid),
    ensures
        find_pair(s, uid, pid) == Some(s[i]),
    decreases i,
{
    if i > 0 {
        let rest = s.drop_first();
        assert(forall|j: int| 0 <= j < i - 1 ==> #[trigger] rest[j] == s[j + 1]);
        lemma_find_pair_at(rest, uid, pid, i - 1);
    }
}

/// `find_pair` returns nothing when no row matches.
proof fn lemma_find_pair_none(s: Seq<LikeView>, uid: Seq<char>, pid: u32)
    requires
        forall|j: int| 0 <= j < s.len() ==> !pair_matches(#[trigger] s[j], uid, pid),
    ensures
        find_pair(s, uid, pid) is None,
    decreases s.len(),
{
    if s.len() > 0 {
        let rest = s.drop_first();
        assert(forall|j: int| 0 <= j < rest.len() ==> #[trigger] rest[j] == s[j + 1]);
        lemma_find_pair_none(rest, uid, pid);
    }
}

impl LikesStore {
    /// The store keeps its rows pairwise distinct on (user, post) and
    /// within the row cap.
    pub open spec fn wf(&self) -> bool {
        distinct_pairs(self@) && self@.len() <= MAX_ROWS
    }

    /// An empty store.
    pub fn new() -> (s: Self)
        ensures
            s@ == Seq::<LikeView>::empty(),
            s.wf(),
    {
        let s = LikesStore { rows: Vec::new() };
        proof {
            assert(s@ =~= Seq::<LikeView>::empty());
        }
        s
    }

    /// Whether the like of `user_id` on `post_id` is recorded.
    pub fn contains_pair(&self, user_id: &String, post_id: u32) -> (r: bool)
        ensures
            r == pair_present(self@, user_id@, post_id),
    {
        let n = self.rows.len();
        let mut i: usize = 0;
        while i < n
            invariant
                0 <= i <= n,
                n == self.rows.len(),
                forall|j: int| 0 <= j < i ==> !pair_matches(#[trigger] self@[j], user_id@, post_id),
            decreases n - i,
        {
            if self.rows[i].user_id == *user_id && self.rows[i].post_id == post_id {
                assert(pair_matches(self@[i as int], user_id@, post_id));
                return true;
            }
            i = i + 1;
        }
        false
    }

    /// Inserts one like. The unique compound index is enforced here: if
    /// the pair is already recorded nothing changes and the insert
    /// reports the violation by returning `false`; otherwise the row is
    /// appended and the insert reports `true`.
    pub fn insert(&mut self, like: Like) -> (created: bool)
        requires
            old(self).wf(),
            old(self)@.len() < MAX_ROWS,
        ensures
            final(self).wf(),
            created == !pair_present(old(self)@, like@.user_id, like@.post_id),
            created ==> final(self)@ == old(self)@.push(like@),
            !created ==> final(self)@ == old(self)@,
    {
        if self.contains_pair(&like.user_id, like.post_id) {
            return false;
        }
        self.rows.push(like);
        proof {
            assert(self@ =~= old(self)@.push(like@));
        }
        true
    }

    /// Deletes the like of `user_id` on `post_id` if it is recorded, and
    /// reports whether anything was deleted. Deleting a pair that is not
    /// recorded is not an error.
    pub fn delete_pair(&mut self, user_id: &String, post_id: u32) -> (r: bool)
        requires
            old(self).wf(),
        ensures
            final(self).wf(),
            final(self)@ == old(self)@.filter(not_pair_pred(user_id@, post_id)),
            r == pair_present(old(self)@, user_id@, post_id),
    {
        let ghost pred = not_pair_pred(user_id@, post_id);
        let n = self.rows.len();
        let mut kept: Vec<Like> = Vec::new();
        let mut found = false;
        let mut i: usize = 0;
        proof {
            reveal(Seq::filter);
            assert(likes_view(kept@) =~= self@.subrange(0, 0).filter(pred));
        }
        while i < n
            invariant
                i <= n,
                n == self.rows.len(),
                pred == not_pair_pred(user_id@, post_id),
                likes_view(kept@) == self@.subrange(0, i as int).filter(pred),
                found == pair_present(self@.subrange(0, i as int), user_id@, post_id),
            decreases n - i,
        {
            let ghost v = self@;
            let ghost prefix = v.subrange(0, i as int);
            let row = &self.rows[i];
            proof {
                assert(v.subrange(0, i + 1) =~= prefix.push(v[i as int]));
                lemma_filter_push(prefix, v[i as int], pred);
            }
            if row.user_id == *user_id && row.post_id == post_id {
                found = true;
                proof {
                    assert(pair_matches(v.subrange(0, i + 1)[i as int], user_id@, post_id));
                }
            } else {
                kept.push(row.clone());
                proof {
                    assert(likes_view(kept@) =~= prefix.filter(pred).push(v[i as int]));
                    if !found {
                        assert forall|k: int| 0 <= k < i + 1 implies !pair_matches(
                            #[trigger] v.subrange(0, i + 1)[k],
                            user_id@,
                            post_id,
                        ) by {
                            if k < i {
                                assert(v.subrange(0, i + 1)[k] == prefix[k]);
                            }
                        }
                    }
                }
            }
            i = i + 1;
        }
        proof {
            assert(self@.subrange(0, n as int) =~= self@);
            lemma_filter_distinct(self@, pred);
            self@.lemma_filter_len(pred);
        }
        self.rows = kept;
        found
    }

    /// The recorded like of `user_id` on `post_id`, if any.
    pub fn select_pair(&self, user_id: &String, post_id: u32) -> (r: Option<Like>)
        ensures
            match r {
                Some(l) => find_pair(self@, user_id@, post_id) == Some(l@),
                None => find_pair(self@, user_id@, post_id) is None,
            },
    {
        let n = self.rows.len();
        let mut i: usize = 0;
        while i < n
            invariant
                i <= n,
                n == self.rows.len(),
                forall|j: int| 0 <= j < i ==> !pair_matches(#[trigger] self@[j], user_id@, post_id),
            decreases n - i,
        {
            let row = &self.rows[i];
            if row.user_id == *user_id && row.post_id == post_id {
                proof {
                    lemma_find_pair_at(self@, user_id@, post_id, i as int);
                }
                return Some(row.clone());
            }
            i = i + 1;
        }
        proof {
            lemma_find_pair_none(self@, user_id@, post_id);
        }
        None
    }

    /// Clones of all likes by `user_id`, in storage order.
    pub fn rows_for_user(&self, user_id: &String) -> (r: Vec<Like>)
        ensures
            likes_view(r@) == self@.filter(user_pred(user_id@)),
    {
        let ghost pred = user_pred(user_id@);
        let n = self.rows.len();
        let mut out: Vec<Like> = Vec::new();
        let mut i: usize = 0;
        proof {
            reveal(Seq::filter);
            assert(likes_view(out@) =~= self@.subrange(0, 0).filter(pred));
        }
        while i < n
            invariant
                i <= n,
                n == self.rows.len(),
                pred == user_pred(user_id@),
                likes_view(out@) == self@.subrange(0, i as int).filter(pred),
            decreases n - i,
        {
            let ghost v = self@;
            let ghost prefix = v.subrange(0, i as int);
            let row = &self.rows[i];
            proof {
                assert(v.subrange(0, i + 1) =~= prefix.push(v[i as int]));
                lemma_filter_push(prefix, v[i as int], pred);
            }
            if row.user_id == *user_id {
                out.push(row.clone());
                proof {
                    assert(likes_view(out@) =~= prefix.filter(pred).push(v[i as int]));
                }
            }
            i = i + 1;
        }
        proof {
            assert(self@.subrange(0, n as int) =~= self@);
        }
        out
    }

    /// Clones of all likes on `post_id`, in storage order.
    pub fn rows_for_post(&self, post_id: u32) -> (r: Vec<Like>)
        ensures
            likes_view(r@) == self@.filter(post_pred(post_id)),
    {
        let ghost pred = post_pred(post_id);
        let n = self.rows.len();
        let mut out: Vec<Like> = Vec::new();
        let mut i: usize = 0;
        proof {
            reveal(Seq::filter);
            assert(likes_view(out@) =~= self@.subrange(0, 0).filter(pred));
        }
        while i < n
            invariant
                i <= n,
                n == self.rows.len(),
                pred == post_pred(post_id),
                likes_view(out@) == self@.subrange(0, i as int).filter(pred),
            decreases n - i,
        {
            let ghost v = self@;
            let ghost prefix = v.subrange(0, i as int);
            let row = &self.rows[i];
            proof {
                assert(v.subrange(0, i + 1) =~= prefix.push(v[i as int]));
                lemma_filter_push(prefix, v[i as int], pred);
            }
            if row.post_id == post_id {
                out.push(row.clone());
                proof {
                    assert(likes_view(out@) =~= prefix.filter(pred).push(v[i as int]));
                }
            }
            i = i + 1;
        }
        proof {
            assert(self@.subrange(0, n as int) =~= self@);
        }
        out
    }

    /// How many likes `user_id` has recorded.
    pub fn count_for_user(&self, user_id: &String) -> (r: usize)
        ensures
            r == count_user(self@, user_id@),
    {
        let rows = self.rows_for_user(user_id);
        rows.len()
    }

    /// How many likes `post_id` has received.
    pub fn count_for_post(&self, post_id: u32) -> (r: usize)
        ensures
            r == count_post(self@, post_id),
    {
        let rows = self.rows_for_post(post_id);
        rows.len()
    }

    /// The requested page of the likes by `user_id`, ordered
    /// latest-created first.
    pub fn select_user_page(&self, user_id: &String, offset: usize, limit: usize) -> (r: Vec<Like>)
        ensures
            likes_view(r@) == user_page(self@, user_id@, offset as int, limit as int),
    {
        let filtered = self.rows_for_user(user_id);
        let sorted = sort_rows(&filtered);
        page_rows(&sorted, offset, limit)
    }

    /// The requested page of the likes on `post_id`, ordered
    /// latest-created first.
    pub fn select_post_page(&self, post_id: u32, offset: usize, limit: usize) -> (r: Vec<Like>)
        ensures
            likes_view(r@) == post_page(self@, post_id, offset as int, limit as int),
    {
        let filtered = self.rows_for_post(post_id);
        let sorted = sort_rows(&filtered);
        page_rows(&sorted, offset, limit)
    }

    /// Deletes every row that matches the bulk condition: membership of
    /// the row's user in `user_ids` and of its post in `post_ids`,
    /// conjoined, with an empty list imposing no condition. Reports
    /// whether anything was deleted.
    pub fn delete_bulk(&mut self, user_ids: &Vec<String>, post_ids: &Vec<u32>) -> (r: bool)
        requires
            old(self).wf(),
        ensures
            final(self).wf(),
            final(self)@ == old(self)@.filter(not_bulk_pred(user_ids.deep_view(), post_ids@)),
            r == exists|i: int|
                0 <= i < old(self)@.len() && bulk_matches(
                    #[trigger] old(self)@[i],
                    user_ids.deep_view(),
                    post_ids@,
                ),
    {
        let ghost uids = user_ids.deep_view();
        let ghost pids = post_ids@;
        let ghost pred = not_bulk_pred(uids, pids);
        let n = self.rows.len();
        let mut kept: Vec<Like> = Vec::new();
        let mut found = false;
        let mut i: usize = 0;
        proof {
            reveal(Seq::filter);
            assert(likes_view(kept@) =~= self@.subrange(0, 0).filter(pred));
        }
        while i < n
            invariant
                i <= n,
                n == self.rows.len(),
                uids == user_ids.deep_view(),
                pids == post_ids@,
                pred == not_bulk_pred(uids, pids),
                likes_view(kept@) == self@.subrange(0, i as int).filter(pred),
                found == exists|k: int|
                    0 <= k < i && bulk_matches(#[trigger] self@[k], uids, pids),
            decreases n - i,
        {
            let ghost v = self@;
            let ghost prefix = v.subrange(0, i as int);
            let row = &self.rows[i];
            proof {
                assert(v.subrange(0, i + 1) =~= prefix.push(v[i as int]));
                lemma_filter_push(prefix, v[i as int], pred);
            }
            let user_hit = user_ids.len() == 0 || contains_user(user_ids, &row.user_id);
            let post_hit = post_ids.len() == 0 || contains_post(post_ids, row.post_id);
            if user_hit && post_hit {
                found = true;
                assert(bulk_matches(v[i as int], uids, pids));
            } else {
                kept.push(row.clone());
                proof {
                    assert(likes_view(kept@) =~= prefix.filter(pred).push(v[i as int]));
                }
            }
            i = i + 1;
        }
        proof {
            assert(self@.subrange(0, n as int) =~= self@);
            lemma_filter_distinct(self@, pred);
            self@.lemma_filter_len(pred);
        }
        self.rows = kept;
        found
    }

    /// The engine's liveness probe; the in-memory engine is always
    /// reachable.
    pub fn health_check(&self) -> (r: bool)
        ensures
            r == true,
    {
        true
    }
}

/// Whether `user_id` occurs in `user_ids`.
fn contains_user(user_ids: &Vec<String>, user_id: &String) -> (r: bool)
    ensures
        r == user_ids.deep_view().contains(user_id@),
{
    let n = user_ids.len();
    let mut i: usize = 0;
    while i < n
        invariant
            i <= n,
            n == user_ids.len(),
            forall|j: int| 0 <= j < i ==> user_ids.deep_view()[j] != user_id@,
        decreases n - i,
    {
        if user_ids[i] == *user_id {
            assert(user_ids.deep_view()[i as int] == user_id@);
            return true;
        }
        i = i + 1;
    }
    false
}

/// Whether `post_id` occurs in `post_ids`.
fn contains_post(post_ids: &Vec<u32>, post_id: u32) -> (r: bool)
    ensures
        r == post_ids@.contains(post_id),
{
    let n = post_ids.len();
    let mut i: usize = 0;
    while i < n
        invariant
            i <= n,
            n == post_ids.len(),
            forall|j: int| 0 <= j < i ==> post_ids@[j] != post_id,
        decreases n - i,
    {
        if post_ids[i] == post_id {
            return true;
        }
        i = i + 1;
    }
    false
}

} // verus!
