//! Laws that relate the library's operations across calls, proved from
//! the same specification functions the operations' contracts use.

use vstd::prelude::*;

use crate::like::LikeView;
use crate::store::{
    distinct_pairs, find_pair, insert_desc, lemma_find_pair_at, lemma_insert_desc_props,
    lemma_sort_desc_props, pair_matches, pair_present, sort_desc, user_page, user_pred,
};
use crate::timestamp::{ts_le, ts_lt, Timestamp};

verus! {

/// Uniqueness: a well-formed store holds at most one row per
/// (user, post) pair — two indices that both carry the pair coincide.
/// `create_like` keeps stores well formed and answers a pair that is
/// already present with `AlreadyExists`, so a second like of the same
/// pair can never add a second row.
pub proof fn lemma_at_most_one_like(s: Seq<LikeView>, uid: Seq<char>, pid: u32, i: int, j: int)
    requires
        distinct_pairs(s),
        0 <= i < s.len(),
        0 <= j < s.len(),
        pair_matches(s[i], uid, pid),
        pair_matches(s[j], uid, pid),
    ensures
        i == j,
{
}

/// A recorded like is present: pushing a row makes its pair present, so
/// by `create_like`'s contract the next like of that pair is refused.
pub proof fn lemma_like_recorded(s: Seq<LikeView>, l: LikeView)
    ensures
        pair_present(s.push(l), l.user_id, l.post_id),
{
    assert(pair_matches(s.push(l)[s.len() as int], l.user_id, l.post_id));
}

/// Round trip: recording a like on a store that did not hold the pair
/// and then looking the pair up finds exactly the recorded row — so a
/// check after a successful like reports `is_liked` with the very
/// `liked_at` the like returned.
pub proof fn lemma_like_round_trip(s: Seq<LikeView>, l: LikeView)
    requires
        !pair_present(s, l.user_id, l.post_id),
    ensures
        find_pair(s.push(l), l.user_id, l.post_id) == Some(l),
{
    let t = s.push(l);
    assert forall|j: int| 0 <= j < s.len() implies !pair_matches(
        #[trigger] t[j],
        l.user_id,
        l.post_id,
    ) by {
        assert(t[j] == s[j]);
    }
    assert(pair_matches(t[s.len() as int], l.user_id, l.post_id));
    lemma_find_pair_at(t, l.user_id, l.post_id, s.len() as int);
}

/// No two rows of `s` were created at the same instant.
pub open spec fn distinct_created(s: Seq<LikeView>) -> bool {
    forall|i: int, j: int|
        0 <= i < j < s.len() ==> (#[trigger] s[i]).created_at != (#[trigger] s[j]).created_at
}

/// No row of `s` was created at `t`.
pub open spec fn ts_absent(t: Timestamp, s: Seq<LikeView>) -> bool {
    forall|k: int| 0 <= k < s.len() ==> (#[trigger] s[k]).created_at != t
}

/// One insertion step keeps creation times pairwise distinct when the
/// inserted row's creation time is fresh.
proof fn lemma_insert_desc_distinct(x: LikeView, s: Seq<LikeView>)
    requires
        distinct_created(s),
        ts_absent(x.created_at, s),
    ensures
        distinct_created(insert_desc(x, s)),
    decreases s.len(),
{
    let out = insert_desc(x, s);
    lemma_insert_desc_props(x, s);
    if s.len() == 0 {
    } else if ts_le(s[0].created_at, x.created_at) {
        assert(out == seq![x] + s);
        assert forall|i: int, j: int| 0 <= i < j < out.len() implies (#[trigger] out[i]).created_at
            != (#[trigger] out[j]).created_at by {
            if i == 0 {
                assert(out[j] == s[j - 1]);
            } else {
                assert(out[i] == s[i - 1]);
                assert(out[j] == s[j - 1]);
            }
        }
    } else {
        let rest = s.drop_first();
        let tail = insert_desc(x, rest);
        assert(distinct_created(rest) && ts_absent(x.created_at, rest)) by {
            assert(forall|k: int| 0 <= k < rest.len() ==> #[trigger] rest[k] == s[k + 1]);
        }
        lemma_insert_desc_distinct(x, rest);
        lemma_insert_desc_props(x, rest);
        assert(out == seq![s[0]] + tail);
        assert forall|i: int, j: int| 0 <= i < j < out.len() implies (#[trigger] out[i]).created_at
            != (#[trigger] out[j]).created_at by {
            if i == 0 {
                assert(out[j] == tail[j - 1]);
                if tail[j - 1] == x {
                } else {
                    assert(rest.contains(tail[j - 1]));
                    let m = choose|m: int| 0 <= m < rest.len() && rest[m] == tail[j - 1];
                    assert(s[m + 1] == tail[j - 1]);
                }
            } else {
                assert(out[i] == tail[i - 1]);
                assert(out[j] == tail[j - 1]);
            }
        }
    }
}

/// The specification sort keeps creation times pairwise distinct.
proof fn lemma_sort_desc_distinct(s: Seq<LikeView>)
    requires
        distinct_created(s),
    ensures
        distinct_created(sort_desc(s)),
    decreases s.len(),
{
    broadcast use vstd::seq_lib::group_to_multiset_ensures;

    if s.len() > 0 {
        let rest = s.drop_first();
        let sorted_rest = sort_desc(rest);
        assert(distinct_created(rest)) by {
            assert(forall|k: int| 0 <= k < rest.len() ==> #[trigger] rest[k] == s[k + 1]);
        }
        lemma_sort_desc_distinct(rest);
        lemma_sort_desc_props(rest);
        assert(ts_absent(s[0].created_at, sorted_rest)) by {
            assert forall|k: int| 0 <= k < sorted_rest.len() implies (
            #[trigger] sorted_rest[k]).created_at != s[0].created_at by {
                assert(sorted_rest.contains(sorted_rest[k]));
                assert(sorted_rest.to_multiset().count(sorted_rest[k]) > 0);
                assert(rest.to_multiset().count(sorted_rest[k]) > 0);
                assert(rest.contains(sorted_rest[k]));
                let m = choose|m: int| 0 <= m < rest.len() && rest[m] == sorted_rest[k];
                assert(s[m + 1] == sorted_rest[k]);
            }
        }
        lemma_insert_desc_distinct(s[0], sorted_rest);
    }
}

/// Ordering across a page boundary: two consecutive pages of one user's
/// likes, read from one store, are strictly descending in creation time
/// — within each page and from the last row of the first page to the
/// first row of the next — provided no two of that user's likes share a
/// creation time. (On ties the order is still descending, merely not
/// strictly.)
pub proof fn lemma_user_pages_strictly_descending(
    s: Seq<LikeView>,
    uid: Seq<char>,
    off: int,
    limit: int,
)
    requires
        0 <= off,
        0 <= limit,
        distinct_created(s.filter(user_pred(uid))),
    ensures
        ({
            let joined = user_page(s, uid, off, limit) + user_page(s, uid, off + limit, limit);
            forall|i: int, j: int|
                0 <= i < j < joined.len() ==> ts_lt(
                    (#[trigger] joined[j]).created_at,
                    (#[trigger] joined[i]).created_at,
                )
        }),
{
    let f = s.filter(user_pred(uid));
    let sorted = sort_desc(f);
    lemma_sort_desc_props(f);
    lemma_sort_desc_distinct(f);
    let p1 = user_page(s, uid, off, limit);
    let p2 = user_page(s, uid, off + limit, limit);
    let joined = p1 + p2;
    let n = sorted.len() as int;
    let lo1 = if off <= n {
        off
    } else {
        n
    };
    let hi1 = if off + limit <= n {
        off + limit
    } else {
        n
    };
    assert forall|i: int, j: int| 0 <= i < j < joined.len() implies ts_lt(
        (#[trigger] joined[j]).created_at,
        (#[trigger] joined[i]).created_at,
    ) by {
        let gi = if i < p1.len() {
            lo1 + i
        } else {
            hi1 + (i - p1.len())
        };
        let gj = if j < p1.len() {
            lo1 + j
        } else {
            hi1 + (j - p1.len())
        };
        assert(joined[i] == sorted[gi]);
        assert(joined[j] == sorted[gj]);
        assert(gi < gj);
        assert(ts_le(sorted[gj].created_at, sorted[gi].created_at));
        assert(sorted[gi].created_at != sorted[gj].created_at);
    }
}

} // verus!
