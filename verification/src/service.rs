//! The like-service orchestrator: validates the shape of each request,
//! delegates to the repository, and translates domain errors into
//! transport statuses.
//!
//! This is the mode in which incoming identifiers are already canonical,
//! so no collaborator lookup stands between validation and the
//! repository; the decision functions for the federated mode, where a
//! user directory and a post store are consulted first, are in
//! `federation`.

use vstd::prelude::*;

use crate::error::{status_of, RpcCode, RpcStatus};
use crate::like::{ceil_div, clamp_limit, clamp_page, LikeCount, PaginationParams};
use crate::repository::LikesRepository;
use crate::store::{
    bulk_matches, count_post, count_user, find_pair, likes_view, not_bulk_pred, not_pair_pred,
    pair_matches, pair_present, post_page, user_page, MAX_ROWS,
};
use crate::timestamp::{now_timestamp, Timestamp};

verus! {

/// The character is Unicode whitespace, the set that trimming removes.
pub open spec fn is_space_char(c: char) -> bool {
    let n = c as int;
    ||| n == 0x20
    ||| 0x09 <= n <= 0x0D
    ||| n == 0x85
    ||| n == 0xA0
    ||| n == 0x1680
    ||| 0x2000 <= n <= 0x200A
    ||| n == 0x2028
    ||| n == 0x2029
    ||| n == 0x202F
    ||| n == 0x205F
    ||| n == 0x3000
}

/// Nothing but whitespace: the string an identifier check rejects.
pub open spec fn blank(s: Seq<char>) -> bool {
    forall|i: int| 0 <= i < s.len() ==> is_space_char(#[trigger] s[i])
}

/// Whether `c` is Unicode whitespace.
fn is_space(c: char) -> (r: bool)
    ensures
        r == is_space_char(c),
{
    let n = c as u32;
    n == 0x20 || (0x09 <= n && n <= 0x0D) || n == 0x85 || n == 0xA0 || n == 0x1680 || (0x2000 <= n
        && n <= 0x200A) || n == 0x2028 || n == 0x2029 || n == 0x202F || n == 0x205F || n == 0x3000
}

/// Whether `s` trims to the empty string.
fn is_blank(s: &str) -> (r: bool)
    ensures
        r == blank(s@),
{
    let n = s.unicode_len();
    let mut i: usize = 0;
    while i < n
        invariant
            i <= n,
            n == s@.len(),
            forall|j: int| 0 <= j < i ==> is_space_char(#[trigger] s@[j]),
        decreases n - i,
    {
        if !is_space(s.get_char(i)) {
            return false;
        }
        i = i + 1;
    }
    true
}

/// A request to record a like.
#[derive(Debug)]
pub struct LikePostRequest {
    pub user_id: String,
    pub post_id: u32,
}

/// The reply to a like request; a missing user or post is reported here
/// with `success == false`, not as a transport error.
#[derive(Debug)]
pub struct LikePostResponse {
    pub success: bool,
    pub message: String,
    pub liked_at: Option<Timestamp>,
}

/// A request to remove a like.
#[derive(Debug)]
pub struct UnlikePostRequest {
    pub user_id: String,
    pub post_id: u32,
}

/// The reply to a single or bulk unlike; a like that was not there is
/// reported with `success == false`, not as an error.
#[derive(Debug)]
pub struct UnlikePostResponse {
    pub success: bool,
    pub message: String,
}

/// A request for one page of a user's likes.
#[derive(Debug)]
pub struct GetUserLikesRequest {
    pub user_id: String,
    pub page: i32,
    pub limit: i32,
}

/// One like in a user's listing.
#[derive(Debug)]
pub struct UserLike {
    pub post_id: u32,
    pub liked_at: Option<Timestamp>,
}

/// The totals that accompany one fetched page.
#[derive(Clone, Copy, Debug, PartialEq, Eq, Structural)]
pub struct PaginationInfo {
    pub current_page: i32,
    pub total_pages: i32,
    pub total_count: i64,
    pub limit: i32,
}

/// One page of a user's likes.
#[derive(Debug)]
pub struct GetUserLikesResponse {
    pub likes: Vec<UserLike>,
    pub pagination: Option<PaginationInfo>,
}

/// A request for one page of a post's likes.
#[derive(Debug)]
pub struct GetPostLikesRequest {
    pub post_id: u32,
    pub page: i32,
    pub limit: i32,
}

/// One like in a post's listing.
#[derive(Debug)]
pub struct PostLike {
    pub user_id: String,
    pub liked_at: Option<Timestamp>,
}

/// One page of a post's likes.
#[derive(Debug)]
pub struct GetPostLikesResponse {
    pub likes: Vec<PostLike>,
    pub pagination: Option<PaginationInfo>,
}

/// A request to check one (user, post) pair.
#[derive(Debug)]
pub struct IsPostLikedRequest {
    pub user_id: String,
    pub post_id: u32,
}

/// Whether the pair is liked, and since when.
#[derive(Debug)]
pub struct IsPostLikedResponse {
    pub is_liked: bool,
    pub liked_at: Option<Timestamp>,
}

/// A request for one post's like count.
#[derive(Debug)]
pub struct GetLikesCountRequest {
    pub post_id: u32,
}

/// One post's like count.
#[derive(Clone, Copy, Debug, PartialEq, Eq, Structural)]
pub struct GetLikesCountResponse {
    pub count: i64,
}

/// A request for the like counts of a batch of posts.
#[derive(Debug)]
pub struct GetLikesCountBulkRequest {
    pub post_ids: Vec<u32>,
}

/// The like count of every requested post, zero-filled for posts nobody
/// liked.
#[derive(Debug)]
pub struct GetLikesCountBulkResponse {
    pub counts: Vec<LikeCount>,
}

/// A bulk unlike request: conditions on users and posts, conjoined.
#[derive(Debug)]
pub struct UnlikePostsRequest {
    pub user_ids: Vec<String>,
    pub post_ids: Vec<u32>,
}

/// A liveness probe.
#[derive(Debug)]
pub struct HealthCheckRequest {}

/// The liveness report.
#[derive(Debug)]
pub struct HealthCheckResponse {
    pub status: String,
    pub timestamp: Option<Timestamp>,
}

/// The like service in local mode: identifiers arrive canonical and go
/// straight to the repository.
pub struct LikesServiceImpl {
    repository: LikesRepository,
}

impl View for LikesServiceImpl {
    type V = Seq<crate::like::LikeView>;

    closed spec fn view(&self) -> Seq<crate::like::LikeView> {
        self.repository@
    }
}

impl LikesServiceImpl {
    /// The underlying repository is well formed.
    pub open spec fn wf(&self) -> bool {
        crate::store::distinct_pairs(self@) && self@.len() <= MAX_ROWS
    }

    /// A service over the given repository.
    pub fn new(repository: LikesRepository) -> (r: Self)
        ensures
            r@ == repository@,
            repository.wf() ==> r.wf(),
    {
        Self { repository }
    }

    /// Rejects a blank user identifier or a zero post identifier.
    fn validate_ids(user_id: &str, post_id: u32) -> (r: Result<(), RpcStatus>)
        ensures
            blank(user_id@) ==> (r matches Err(e) && e.code == RpcCode::InvalidArgument
                && e.message@ == "User ID cannot be empty"@),
            !blank(user_id@) && post_id == 0 ==> (r matches Err(e) && e.code
                == RpcCode::InvalidArgument && e.message@ == "Post ID must be greater than 0"@),
            !blank(user_id@) && post_id > 0 ==> r is Ok,
    {
        if is_blank(user_id) {
            return Err(
                RpcStatus {
                    code: RpcCode::InvalidArgument,
                    message: "User ID cannot be empty".to_owned(),
                },
            );
        }
        if post_id == 0 {
            return Err(
                RpcStatus {
                    code: RpcCode::InvalidArgument,
                    message: "Post ID must be greater than 0".to_owned(),
                },
            );
        }
        Ok(())
    }

    /// Records a like. A malformed request is rejected before any work; a
    /// pair already liked surfaces as an `AlreadyExists` status; on
    /// success the reply carries the `liked_at` timestamp of the row that
    /// was appended.
    pub fn like_post(&mut self, req: LikePostRequest) -> (r: Result<LikePostResponse, RpcStatus>)
        requires
            old(self).wf(),
            old(self)@.len() < MAX_ROWS,
        ensures
            final(self).wf(),
            blank(req.user_id@) ==> (r matches Err(e) && e.code == RpcCode::InvalidArgument
                && final(self)@ == old(self)@),
            !blank(req.user_id@) && req.post_id == 0 ==> (r matches Err(e) && e.code
                == RpcCode::InvalidArgument && final(self)@ == old(self)@),
            !blank(req.user_id@) && req.post_id > 0 && pair_present(
                old(self)@,
                req.user_id@,
                req.post_id,
            ) ==> (r matches Err(e) && e.code == RpcCode::AlreadyExists && final(self)@ == old(
                self,
            )@),
            !blank(req.user_id@) && req.post_id > 0 && !pair_present(
                old(self)@,
                req.user_id@,
                req.post_id,
            ) ==> (r matches Ok(resp) && resp.success && resp.message@
                == "Post liked successfully"@ && (resp.liked_at matches Some(ts) && final(self)@
                == old(self)@.push(final(self)@.last()) && pair_matches(
                final(self)@.last(),
                req.user_id@,
                req.post_id,
            ) && final(self)@.last().liked_at == ts)),
    {
        if let Err(e) = Self::validate_ids(req.user_id.as_str(), req.post_id) {
            return Err(e);
        }

        match self.repository.create_like(req.user_id.as_str(), req.post_id) {
            Ok(like) => Ok(
                LikePostResponse {
                    success: true,
                    message: "Post liked successfully".to_owned(),
                    liked_at: Some(like.liked_at),
                },
            ),
            Err(e) => Err(status_of(e)),
        }
    }

    /// Removes a like. A pair that was never liked is reported with
    /// `success == false` and "Like not found", never as an error.
    pub fn unlike_post(&mut self, req: UnlikePostRequest) -> (r: Result<
        UnlikePostResponse,
        RpcStatus,
    >)
        requires
            old(self).wf(),
        ensures
            final(self).wf(),
            blank(req.user_id@) ==> (r matches Err(e) && e.code == RpcCode::InvalidArgument
                && final(self)@ == old(self)@),
            !blank(req.user_id@) && req.post_id == 0 ==> (r matches Err(e) && e.code
                == RpcCode::InvalidArgument && final(self)@ == old(self)@),
            !blank(req.user_id@) && req.post_id > 0 ==> (r matches Ok(resp) && resp.success
                == pair_present(old(self)@, req.user_id@, req.post_id) && final(self)@ == old(
                self,
            )@.filter(not_pair_pred(req.user_id@, req.post_id)) && (resp.success ==> resp.message@
                == "Post unliked successfully"@) && (!resp.success ==> resp.message@
                == "Like not found"@)),
    {
        if let Err(e) = Self::validate_ids(req.user_id.as_str(), req.post_id) {
            return Err(e);
        }

        match self.repository.delete_like(req.user_id.as_str(), req.post_id) {
            Ok(deleted) => {
                if deleted {
                    Ok(
                        UnlikePostResponse {
                            success: true,
                            message: "Post unliked successfully".to_owned(),
                        },
                    )
                } else {
                    Ok(UnlikePostResponse { success: false, message: "Like not found".to_owned() })
                }
            },
            Err(e) => Err(status_of(e)),
        }
    }

    /// One page of a user's likes, latest-created first, with the totals
    /// computed from the count over all pages.
    pub fn get_user_likes(&self, req: GetUserLikesRequest) -> (r: Result<
        GetUserLikesResponse,
        RpcStatus,
    >)
        requires
            self.wf(),
        ensures
            blank(req.user_id@) ==> (r matches Err(e) && e.code == RpcCode::InvalidArgument
                && e.message@ == "User ID cannot be empty"@),
            !blank(req.user_id@) ==> (r matches Ok(resp) && {
                let lim = clamp_limit(req.limit);
                let pg = clamp_page(req.page);
                let page = user_page(self@, req.user_id@, (pg - 1) * lim, lim as int);
                &&& resp.pagination matches Some(info) && info.current_page == pg && info.limit
                    == lim && info.total_count == count_user(self@, req.user_id@)
                    && info.total_pages == ceil_div(
                    count_user(self@, req.user_id@) as int,
                    lim as int,
                )
                &&& resp.likes@.len() == page.len()
                &&& forall|j: int|
                    0 <= j < page.len() ==> (#[trigger] resp.likes@[j]).post_id == page[j].post_id
                        && resp.likes@[j].liked_at == Some(page[j].liked_at)
            }),
    {
        if is_blank(req.user_id.as_str()) {
            return Err(
                RpcStatus {
                    code: RpcCode::InvalidArgument,
                    message: "User ID cannot be empty".to_owned(),
                },
            );
        }

        let params = PaginationParams::new(req.page, req.limit);
        match self.repository.get_user_likes(req.user_id.as_str(), &params) {
            Ok(result) => {
                let ghost page = likes_view(result.data@);
                let n = result.data.len();
                let mut likes: Vec<UserLike> = Vec::new();
                let mut i: usize = 0;
                while i < n
                    invariant
                        i <= n,
                        n == result.data.len(),
                        page == likes_view(result.data@),
                        likes@.len() == i,
                        forall|j: int|
                            0 <= j < i ==> (#[trigger] likes@[j]).post_id == page[j].post_id
                                && likes@[j].liked_at == Some(page[j].liked_at),
                    decreases n - i,
                {
                    let l = &result.data[i];
                    likes.push(UserLike { post_id: l.post_id, liked_at: Some(l.liked_at) });
                    i = i + 1;
                }

                Ok(
                    GetUserLikesResponse {
                        likes,
                        pagination: Some(
                            PaginationInfo {
                                current_page: result.current_page,
                                total_pages: result.total_pages,
                                total_count: result.total_count,
                                limit: result.limit,
                            },
                        ),
                    },
                )
            },
            Err(e) => Err(status_of(e)),
        }
    }

    /// One page of a post's likes, latest-created first, with the totals
    /// computed from the count over all pages.
    pub fn get_post_likes(&self, req: GetPostLikesRequest) -> (r: Result<
        GetPostLikesResponse,
        RpcStatus,
    >)
        requires
            self.wf(),
        ensures
            req.post_id == 0 ==> (r matches Err(e) && e.code == RpcCode::InvalidArgument
                && e.message@ == "Post ID must be a positive integer"@),
            req.post_id > 0 ==> (r matches Ok(resp) && {
                let lim = clamp_limit(req.limit);
                let pg = clamp_page(req.page);
                let page = post_page(self@, req.post_id, (pg - 1) * lim, lim as int);
                &&& resp.pagination matches Some(info) && info.current_page == pg && info.limit
                    == lim && info.total_count == count_post(self@, req.post_id)
                    && info.total_pages == ceil_div(
                    count_post(self@, req.post_id) as int,
                    lim as int,
                )
                &&& resp.likes@.len() == page.len()
                &&& forall|j: int|
                    0 <= j < page.len() ==> (#[trigger] resp.likes@[j]).user_id@ == page[j].user_id
                        && resp.likes@[j].liked_at == Some(page[j].liked_at)
            }),
    {
        if req.post_id == 0 {
            return Err(
                RpcStatus {
                    code: RpcCode::InvalidArgument,
                    message: "Post ID must be a positive integer".to_owned(),
                },
            );
        }

        let params = PaginationParams::new(req.page, req.limit);
        match self.repository.get_post_likes(req.post_id, &params) {
            Ok(result) => {
                let ghost page = likes_view(result.data@);
                let n = result.data.len();
                let mut likes: Vec<PostLike> = Vec::new();
                let mut i: usize = 0;
                while i < n
                    invariant
                        i <= n,
                        n == result.data.len(),
                        page == likes_view(result.data@),
                        likes@.len() == i,
                        forall|j: int|
                            0 <= j < i ==> (#[trigger] likes@[j]).user_id@ == page[j].user_id
                                && likes@[j].liked_at == Some(page[j].liked_at),
                    decreases n - i,
                {
                    let l = &result.data[i];
                    likes.push(
                        PostLike { user_id: l.user_id.clone(), liked_at: Some(l.liked_at) },
                    );
                    i = i + 1;
                }

                Ok(
                    GetPostLikesResponse {
                        likes,
                        pagination: Some(
                            PaginationInfo {
                                current_page: result.current_page,
                                total_pages: result.total_pages,
                                total_count: result.total_count,
                                limit: result.limit,
                            },
                        ),
                    },
                )
            },
            Err(e) => Err(status_of(e)),
        }
    }

    /// Whether the pair is liked; when it is, the reply carries the
    /// `liked_at` timestamp that `like_post` returned.
    pub fn is_post_liked(&self, req: IsPostLikedRequest) -> (r: Result<
        IsPostLikedResponse,
        RpcStatus,
    >)
        ensures
            blank(req.user_id@) ==> (r matches Err(e) && e.code == RpcCode::InvalidArgument),
            !blank(req.user_id@) && req.post_id == 0 ==> (r matches Err(e) && e.code
                == RpcCode::InvalidArgument),
            !blank(req.user_id@) && req.post_id > 0 ==> (r matches Ok(resp) && match find_pair(
                self@,
                req.user_id@,
                req.post_id,
            ) {
                Some(l) => resp.is_liked && resp.liked_at == Some(l.liked_at),
                None => !resp.is_liked && resp.liked_at is None,
            }),
    {
        if let Err(e) = Self::validate_ids(req.user_id.as_str(), req.post_id) {
            return Err(e);
        }

        match self.repository.is_post_liked(req.user_id.as_str(), req.post_id) {
            Ok(liked_at) => {
                let is_liked = liked_at.is_some();
                Ok(IsPostLikedResponse { is_liked, liked_at })
            },
            Err(e) => Err(status_of(e)),
        }
    }

    /// One post's like count; zero when nobody liked it.
    pub fn get_likes_count(&self, req: GetLikesCountRequest) -> (r: Result<
        GetLikesCountResponse,
        RpcStatus,
    >)
        requires
            self.wf(),
        ensures
            req.post_id == 0 ==> (r matches Err(e) && e.code == RpcCode::InvalidArgument
                && e.message@ == "Post ID must be a positive integer"@),
            req.post_id > 0 ==> (r matches Ok(resp) && resp.count == count_post(
                self@,
                req.post_id,
            )),
    {
        if req.post_id == 0 {
            return Err(
                RpcStatus {
                    code: RpcCode::InvalidArgument,
                    message: "Post ID must be a positive integer".to_owned(),
                },
            );
        }

        match self.repository.get_likes_count(req.post_id) {
            Ok(count) => Ok(GetLikesCountResponse { count }),
            Err(e) => Err(status_of(e)),
        }
    }

    /// The like count of every requested post, in request order and
    /// zero-filled: a post nobody liked is reported with count zero,
    /// never omitted.
    pub fn get_likes_count_bulk(&self, req: GetLikesCountBulkRequest) -> (r: Result<
        GetLikesCountBulkResponse,
        RpcStatus,
    >)
        requires
            self.wf(),
        ensures
            (exists|i: int| 0 <= i < req.post_ids@.len() && req.post_ids@[i] == 0) ==> (
            r matches Err(e) && e.code == RpcCode::InvalidArgument && e.message@
                == "Post ID must be a positive integer"@),
            (forall|i: int| 0 <= i < req.post_ids@.len() ==> req.post_ids@[i] != 0) ==> (
            r matches Ok(resp) && resp.counts@.len() == req.post_ids@.len() && forall|i: int|
                0 <= i < resp.counts@.len() ==> (#[trigger] resp.counts@[i]).post_id
                    == req.post_ids@[i] && resp.counts@[i].count == count_post(
                    self@,
                    req.post_ids@[i],
                )),
    {
        let n = req.post_ids.len();
        let mut i: usize = 0;
        while i < n
            invariant
                i <= n,
                n == req.post_ids.len(),
                forall|j: int| 0 <= j < i ==> req.post_ids@[j] != 0,
            decreases n - i,
        {
            if req.post_ids[i] == 0 {
                return Err(
                    RpcStatus {
                        code: RpcCode::InvalidArgument,
                        message: "Post ID must be a positive integer".to_owned(),
                    },
                );
            }
            i = i + 1;
        }

        match self.repository.get_likes_count_bulk(&req.post_ids) {
            Ok(counts) => Ok(GetLikesCountBulkResponse { counts }),
            Err(e) => Err(status_of(e)),
        }
    }

    /// Bulk unlike. Rejected when both lists are empty, when a user
    /// identifier is blank, or when a post identifier is zero; otherwise
    /// the rows matching the conjoined membership conditions are removed
    /// and `success` reports whether anything was.
    pub fn unlike_posts(&mut self, req: UnlikePostsRequest) -> (r: Result<
        UnlikePostResponse,
        RpcStatus,
    >)
        requires
            old(self).wf(),
        ensures
            final(self).wf(),
            req.user_ids@.len() == 0 && req.post_ids@.len() == 0 ==> (r matches Err(e) && e.code
                == RpcCode::InvalidArgument && e.message@
                == "User IDs and Post IDs cannot be empty"@ && final(self)@ == old(self)@),
            (req.user_ids@.len() > 0 || req.post_ids@.len() > 0) && (exists|i: int|
                0 <= i < req.user_ids@.len() && blank(#[trigger] req.user_ids.deep_view()[i])) ==> (
            r matches Err(e) && e.code == RpcCode::InvalidArgument && e.message@
                == "User ID cannot be empty"@ && final(self)@ == old(self)@),
            (req.user_ids@.len() > 0 || req.post_ids@.len() > 0) && (forall|i: int|
                0 <= i < req.user_ids@.len() ==> !blank(#[trigger] req.user_ids.deep_view()[i]))
                && (exists|i: int| 0 <= i < req.post_ids@.len() && req.post_ids@[i] == 0) ==> (
            r matches Err(e) && e.code == RpcCode::InvalidArgument && e.message@
                == "Post ID must be a positive integer"@ && final(self)@ == old(self)@),
            (req.user_ids@.len() > 0 || req.post_ids@.len() > 0) && (forall|i: int|
                0 <= i < req.user_ids@.len() ==> !blank(#[trigger] req.user_ids.deep_view()[i]))
                && (forall|i: int| 0 <= i < req.post_ids@.len() ==> req.post_ids@[i] != 0) ==> (
            r matches Ok(resp) && final(self)@ == old(self)@.filter(
                not_bulk_pred(req.user_ids.deep_view(), req.post_ids@),
            ) && resp.success == (exists|i: int|
                0 <= i < old(self)@.len() && bulk_matches(
                    #[trigger] old(self)@[i],
                    req.user_ids.deep_view(),
                    req.post_ids@,
                )) && (resp.success ==> resp.message@ == "Posts unliked successfully"@) && (
            !resp.success ==> resp.message@ == "No likes found to unlike"@)),
    {
        if req.user_ids.len() == 0 && req.post_ids.len() == 0 {
            return Err(
                RpcStatus {
                    code: RpcCode::InvalidArgument,
                    message: "User IDs and Post IDs cannot be empty".to_owned(),
                },
            );
        }

        let nu = req.user_ids.len();
        let mut i: usize = 0;
        while i < nu
            invariant
                i <= nu,
                nu == req.user_ids.len(),
                self.wf(),
                self@ == old(self)@,
                forall|j: int| 0 <= j < i ==> !blank(#[trigger] req.user_ids.deep_view()[j]),
            decreases nu - i,
        {
            if is_blank(req.user_ids[i].as_str()) {
                assert(blank(req.user_ids.deep_view()[i as int]));
                return Err(
                    RpcStatus {
                        code: RpcCode::InvalidArgument,
                        message: "User ID cannot be empty".to_owned(),
                    },
                );
            }
            i = i + 1;
        }

        let np = req.post_ids.len();
        let mut k: usize = 0;
        while k < np
            invariant
                k <= np,
                np == req.post_ids.len(),
                self.wf(),
                self@ == old(self)@,
                forall|j: int|
                    0 <= j < req.user_ids@.len() ==> !blank(
                        #[trigger] req.user_ids.deep_view()[j],
                    ),
                forall|j: int| 0 <= j < k ==> req.post_ids@[j] != 0,
            decreases np - k,
        {
            if req.post_ids[k] == 0 {
                return Err(
                    RpcStatus {
                        code: RpcCode::InvalidArgument,
                        message: "Post ID must be a positive integer".to_owned(),
                    },
                );
            }
            k = k + 1;
        }

        match self.repository.unlike_posts(&req.user_ids, &req.post_ids) {
            Ok(deleted) => {
                if deleted {
                    Ok(
                        UnlikePostResponse {
                            success: true,
                            message: "Posts unliked successfully".to_owned(),
                        },
                    )
                } else {
                    Ok(
                        UnlikePostResponse {
                            success: false,
                            message: "No likes found to unlike".to_owned(),
                        },
                    )
                }
            },
            Err(e) => Err(status_of(e)),
        }
    }

    /// The liveness report: delegates to the storage probe and stamps the
    /// reply with the clock.
    pub fn health_check(&self, _req: HealthCheckRequest) -> (r: Result<
        HealthCheckResponse,
        RpcStatus,
    >)
        ensures
            r matches Ok(resp) && resp.status@ == "healthy"@ && resp.timestamp is Some,
    {
        match self.repository.health_check() {
            Ok(_) => Ok(
                HealthCheckResponse {
                    status: "healthy".to_owned(),
                    timestamp: Some(now_timestamp()),
                },
            ),
            Err(_) => Err(
                RpcStatus { code: RpcCode::Internal, message: "Service unhealthy".to_owned() },
            ),
        }
    }
}

} // verus!
