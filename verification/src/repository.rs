//! The likes repository: translates domain operations into storage
//! operations and normalizes storage outcomes into the domain error set.
//!
//! Absence is never an error here: deleting a missing like reports
//! `false`, counting a post nobody liked reports zero, and a point
//! lookup that finds nothing reports `None`.

use vstd::prelude::*;

use crate::error::LikesError;
use crate::like::{ceil_div, Like, LikeCount, PaginatedResult, PaginationParams};
use crate::store::{
    bulk_matches, count_post, count_user, distinct_pairs, find_pair, likes_view, not_bulk_pred,
    not_pair_pred, pair_present, post_page, user_page, LikesStore, MAX_ROWS,
};
use crate::timestamp::Timestamp;

verus! {

/// The repository over the `likes` store.
pub struct LikesRepository {
    db: LikesStore,
}

impl View for LikesRepository {
    type V = Seq<crate::like::LikeView>;

    closed spec fn view(&self) -> Seq<crate::like::LikeView> {
        self.db@
    }
}

impl LikesRepository {
    /// The repository's rows are pairwise distinct on (user, post) and
    /// within the row cap.
    pub open spec fn wf(&self) -> bool {
        distinct_pairs(self@) && self@.len() <= MAX_ROWS
    }

    /// A repository over the given store.
    pub fn new(db: LikesStore) -> (r: Self)
        ensures
            r@ == db@,
            db.wf() ==> r.wf(),
    {
        Self { db }
    }

    /// Records that `user_id` liked `post_id`. An empty user or a zero
    /// post is rejected as `InvalidInput` before anything is touched; a
    /// pair that is already recorded is rejected as `AlreadyExists`; on
    /// success the created row is echoed back.
    pub fn create_like(&mut self, user_id: &str, post_id: u32) -> (r: Result<Like, LikesError>)
        requires
            old(self).wf(),
            old(self)@.len() < MAX_ROWS,
        ensures
            final(self).wf(),
            user_id@.len() == 0 ==> (r matches Err(LikesError::InvalidInput(m)) && m@
                == "User ID cannot be empty"@ && final(self)@ == old(self)@),
            user_id@.len() > 0 && post_id == 0 ==> (r matches Err(LikesError::InvalidInput(m))
                && m@ == "Post ID must be a positive integer"@ && final(self)@ == old(self)@),
            user_id@.len() > 0 && post_id > 0 && pair_present(old(self)@, user_id@, post_id)
                ==> (r matches Err(LikesError::AlreadyExists(m)) && m@
                == "User has already liked this post"@ && final(self)@ == old(self)@),
            user_id@.len() > 0 && post_id > 0 && !pair_present(old(self)@, user_id@, post_id) ==> (
            r matches Ok(l) && l@.user_id == user_id@ && l@.post_id == post_id && l@.created_at
                == l@.liked_at && l@.updated_at == l@.liked_at && final(self)@ == old(
                self,
            )@.push(l@)),
    {
        if user_id.is_empty() {
            return Err(LikesError::InvalidInput("User ID cannot be empty".to_owned()));
        }
        if post_id == 0 {
            return Err(LikesError::InvalidInput("Post ID must be a positive integer".to_owned()));
        }

        let like = Like::new(user_id.to_owned(), post_id);
        let echo = like.clone();
        if self.db.insert(like) {
            Ok(echo)
        } else {
            Err(LikesError::AlreadyExists("User has already liked this post".to_owned()))
        }
    }

    /// Deletes the like of `user_id` on `post_id` if it is recorded and
    /// reports whether anything was deleted; a missing like is not an
    /// error.
    pub fn delete_like(&mut self, user_id: &str, post_id: u32) -> (r: Result<bool, LikesError>)
        requires
            old(self).wf(),
        ensures
            final(self).wf(),
            final(self)@ == old(self)@.filter(not_pair_pred(user_id@, post_id)),
            r matches Ok(b) && b == pair_present(old(self)@, user_id@, post_id),
    {
        let uid = user_id.to_owned();
        Ok(self.db.delete_pair(&uid, post_id))
    }

    /// The page of `user_id`'s likes selected by `params`, ordered
    /// latest-created first, together with the total count over all
    /// pages. The count is taken even when the page itself is empty.
    pub fn get_user_likes(&self, user_id: &str, params: &PaginationParams) -> (r: Result<
        PaginatedResult<Like>,
        LikesError,
    >)
        requires
            self.wf(),
            params.wf(),
        ensures
            r matches Ok(res) && {
                &&& res.total_count == count_user(self@, user_id@)
                &&& res.current_page == params.page
                &&& res.limit == params.limit
                &&& res.total_pages == ceil_div(
                    count_user(self@, user_id@) as int,
                    params.limit as int,
                )
                &&& likes_view(res.data@) == user_page(
                    self@,
                    user_id@,
                    params.spec_offset(),
                    params.limit as int,
                )
            },
    {
        let uid = user_id.to_owned();
        let total = self.db.count_for_user(&uid);
        proof {
            self@.lemma_filter_len(crate::store::user_pred(uid@));
        }

        proof {
            assert(0 <= (params.page as int - 1) * (params.limit as int) <= 0x7fff_ffff * 100)
                by (nonlinear_arith)
                requires
                    1 <= params.page <= 0x7fff_ffff,
                    1 <= params.limit <= 100,
            ;
        }
        let offset_wide: i64 = (params.page as i64 - 1) * (params.limit as i64);
        let offset: usize = if offset_wide > total as i64 {
            total
        } else {
            offset_wide as usize
        };
        let data = self.db.select_user_page(&uid, offset, params.limit as usize);
        proof {
            let sorted = crate::store::sort_desc(self@.filter(crate::store::user_pred(uid@)));
            crate::store::lemma_sort_desc_props(self@.filter(crate::store::user_pred(uid@)));
            assert(likes_view(data@) =~= user_page(
                self@,
                user_id@,
                params.spec_offset(),
                params.limit as int,
            ));
            assert(ceil_div(total as int, params.limit as int) <= total) by (nonlinear_arith)
                requires
                    0 <= total,
                    1 <= params.limit,
            ;
        }
        Ok(PaginatedResult::new(data, total as i64, params))
    }

    /// The page of `post_id`'s likes selected by `params`, ordered
    /// latest-created first, together with the total count over all
    /// pages.
    pub fn get_post_likes(&self, post_id: u32, params: &PaginationParams) -> (r: Result<
        PaginatedResult<Like>,
        LikesError,
    >)
        requires
            self.wf(),
            params.wf(),
        ensures
            r matches Ok(res) && {
                &&& res.total_count == count_post(self@, post_id)
                &&& res.current_page == params.page
                &&& res.limit == params.limit
                &&& res.total_pages == ceil_div(
                    count_post(self@, post_id) as int,
                    params.limit as int,
                )
                &&& likes_view(res.data@) == post_page(
                    self@,
                    post_id,
                    params.spec_offset(),
                    params.limit as int,
                )
            },
    {
        let total = self.db.count_for_post(post_id);
        proof {
            self@.lemma_filter_len(crate::store::post_pred(post_id));
        }

        proof {
            assert(0 <= (params.page as int - 1) * (params.limit as int) <= 0x7fff_ffff * 100)
                by (nonlinear_arith)
                requires
                    1 <= params.page <= 0x7fff_ffff,
                    1 <= params.limit <= 100,
            ;
        }
        let offset_wide: i64 = (params.page as i64 - 1) * (params.limit as i64);
        let offset: usize = if offset_wide > total as i64 {
            total
        } else {
            offset_wide as usize
        };
        let data = self.db.select_post_page(post_id, offset, params.limit as usize);
        proof {
            crate::store::lemma_sort_desc_props(self@.filter(crate::store::post_pred(post_id)));
            assert(likes_view(data@) =~= post_page(
                self@,
                post_id,
                params.spec_offset(),
                params.limit as int,
            ));
            assert(ceil_div(total as int, params.limit as int) <= total) by (nonlinear_arith)
                requires
                    0 <= total,
                    1 <= params.limit,
            ;
        }
        Ok(PaginatedResult::new(data, total as i64, params))
    }

    /// When `user_id` liked `post_id`, if at all: the `liked_at`
    /// timestamp of the recorded like, or `None`.
    pub fn is_post_liked(&self, user_id: &str, post_id: u32) -> (r: Result<
        Option<Timestamp>,
        LikesError,
    >)
        ensures
            r matches Ok(o) && o == match find_pair(self@, user_id@, post_id) {
                Some(l) => Some(l.liked_at),
                None => None::<Timestamp>,
            },
    {
        let uid = user_id.to_owned();
        match self.db.select_pair(&uid, post_id) {
            Some(l) => Ok(Some(l.liked_at)),
            None => Ok(None),
        }
    }

    /// How many likes `post_id` has received; zero when nobody liked it.
    pub fn get_likes_count(&self, post_id: u32) -> (r: Result<i64, LikesError>)
        requires
            self.wf(),
        ensures
            r matches Ok(c) && c == count_post(self@, post_id),
    {
        proof {
            self@.lemma_filter_len(crate::store::post_pred(post_id));
        }
        Ok(self.db.count_for_post(post_id) as i64)
    }

    /// The like count of every requested post, in request order: a post
    /// nobody liked is reported with a zero count, never omitted.
    pub fn get_likes_count_bulk(&self, post_ids: &Vec<u32>) -> (r: Result<
        Vec<LikeCount>,
        LikesError,
    >)
        requires
            self.wf(),
        ensures
            r matches Ok(v) && v@.len() == post_ids@.len() && forall|i: int|
                0 <= i < v@.len() ==> (#[trigger] v@[i]).post_id == post_ids@[i] && v@[i].count
                    == count_post(self@, post_ids@[i]),
    {
        let n = post_ids.len();
        let mut counts: Vec<LikeCount> = Vec::new();
        let mut i: usize = 0;
        while i < n
            invariant
                i <= n,
                n == post_ids.len(),
                self.wf(),
                counts@.len() == i,
                forall|j: int|
                    0 <= j < i ==> (#[trigger] counts@[j]).post_id == post_ids@[j]
                        && counts@[j].count == count_post(self@, post_ids@[j]),
            decreases n - i,
        {
            let pid = post_ids[i];
            proof {
                self@.lemma_filter_len(crate::store::post_pred(pid));
            }
            let c = self.db.count_for_post(pid);
            counts.push(LikeCount { post_id: pid, count: c as i64 });
            i = i + 1;
        }
        Ok(counts)
    }

    /// Bulk delete: rejected as `InvalidInput` only when both lists are
    /// empty; otherwise removes the rows matching the conjunction of the
    /// supplied membership conditions and reports whether anything was
    /// deleted.
    pub fn unlike_posts(&mut self, user_ids: &Vec<String>, post_ids: &Vec<u32>) -> (r: Result<
        bool,
        LikesError,
    >)
        requires
            old(self).wf(),
        ensures
            final(self).wf(),
            user_ids@.len() == 0 && post_ids@.len() == 0 ==> (r matches Err(
                LikesError::InvalidInput(m),
            ) && m@ == "At least one of user_ids or post_ids must be provided"@ && final(self)@
                == old(self)@),
            user_ids@.len() > 0 || post_ids@.len() > 0 ==> {
                &&& final(self)@ == old(self)@.filter(
                    not_bulk_pred(user_ids.deep_view(), post_ids@),
                )
                &&& r matches Ok(b) && b == exists|i: int|
                    0 <= i < old(self)@.len() && bulk_matches(
                        #[trigger] old(self)@[i],
                        user_ids.deep_view(),
                        post_ids@,
                    )
            },
    {
        if user_ids.is_empty() && post_ids.is_empty() {
            return Err(
                LikesError::InvalidInput(
                    "At least one of user_ids or post_ids must be provided".to_owned(),
                ),
            );
        }
        Ok(self.db.delete_bulk(user_ids, post_ids))
    }

    /// Delegates the liveness probe to the storage engine.
    pub fn health_check(&self) -> (r: Result<bool, LikesError>)
        ensures
            r matches Ok(b) && b == true,
    {
        Ok(self.db.health_check())
    }
}

} // verus!
