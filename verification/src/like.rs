//! The domain model: a `Like` relating one user to one post, aggregate
//! counts, and pagination parameters and results.

use vstd::prelude::*;

use crate::timestamp::{now_timestamp, Timestamp};

verus! {

/// The mathematical value of a `Like`: its string fields as character
/// sequences, the rest as plain values.
pub ghost struct LikeView {
    pub id: Seq<char>,
    pub user_id: Seq<char>,
    pub post_id: u32,
    pub liked_at: Timestamp,
    pub created_at: Timestamp,
    pub updated_at: Timestamp,
}

/// One user having liked one post. `id` is an opaque identifier fixed at
/// creation; `liked_at` marks the like action and `created_at` /
/// `updated_at` are audit fields, all set to the same instant when the
/// like is built.
#[derive(Debug)]
pub struct Like {
    pub id: String,
    pub user_id: String,
    pub post_id: u32,
    pub liked_at: Timestamp,
    pub created_at: Timestamp,
    pub updated_at: Timestamp,
}

impl View for Like {
    type V = LikeView;

    open spec fn view(&self) -> LikeView {
        LikeView {
            id: self.id@,
            user_id: self.user_id@,
            post_id: self.post_id,
            liked_at: self.liked_at,
            created_at: self.created_at,
            updated_at: self.updated_at,
        }
    }
}

impl Clone for Like {
    fn clone(&self) -> (res: Self)
        ensures
            res@ == self@,
    {
        Like {
            id: self.id.clone(),
            user_id: self.user_id.clone(),
            post_id: self.post_id,
            liked_at: self.liked_at,
            created_at: self.created_at,
            updated_at: self.updated_at,
        }
    }
}

/// Relies on `uuid::Uuid::new_v4` and its `Display` implementation
/// (through `to_string`): a random version-4 UUID rendered in hyphenated
/// form, which is exactly 36 characters. The value is random, so nothing
/// relates two calls; only the length is stated.
#[verifier::external_body]
fn fresh_like_id() -> (r: String)
    ensures
        r@.len() == 36,
{
    uuid::Uuid::new_v4().to_string()
}

impl Like {
    /// Builds a like for `user_id` on `post_id` with a fresh identifier
    /// and all three timestamps read from the clock at one instant.
    pub fn new(user_id: String, post_id: u32) -> (l: Like)
        ensures
            l@.user_id == user_id@,
            l@.post_id == post_id,
            l@.created_at == l@.liked_at,
            l@.updated_at == l@.liked_at,
            l@.id.len() == 36,
    {
        let now = now_timestamp();
        Like {
            id: fresh_like_id(),
            user_id,
            post_id,
            liked_at: now,
            created_at: now,
            updated_at: now,
        }
    }
}

/// An aggregate like count for one post.
#[derive(Clone, Copy, Debug, PartialEq, Eq, Structural)]
pub struct LikeCount {
    pub post_id: u32,
    pub count: i64,
}

/// A requested page number clamped to at least 1.
pub open spec fn clamp_page(page: i32) -> i32 {
    if page < 1 {
        1i32
    } else {
        page
    }
}

/// A requested page size clamped into [1, 100], with 10 standing in for
/// a size below 1.
pub open spec fn clamp_limit(limit: i32) -> i32 {
    if limit < 1 {
        10i32
    } else if limit > 100 {
        100i32
    } else {
        limit
    }
}

/// Page selection for the paginated queries: a 1-based page number and a
/// page size.
#[derive(Clone, Copy, Debug, PartialEq, Eq, Structural)]
pub struct PaginationParams {
    pub page: i32,
    pub limit: i32,
}

impl PaginationParams {
    /// Clamped parameters: the page is at least 1 and the limit lies in
    /// [1, 100].
    pub open spec fn wf(&self) -> bool {
        1 <= self.page && 1 <= self.limit <= 100
    }

    /// The number of rows that precede the requested page.
    pub open spec fn spec_offset(&self) -> int {
        (self.page - 1) * self.limit
    }

    /// Clamps the raw request values: a page below 1 behaves as page 1; a
    /// limit below 1 behaves as 10, one above 100 as 100.
    pub fn new(page: i32, limit: i32) -> (r: Self)
        ensures
            r.page == clamp_page(page),
            r.limit == clamp_limit(limit),
            r.wf(),
    {
        let page = if page < 1 { 1 } else { page };
        let limit = if limit < 1 {
            10
        } else if limit > 100 {
            100
        } else {
            limit
        };

        Self { page, limit }
    }

    /// The row offset of this page.
    pub fn offset(&self) -> (r: i32)
        requires
            self.wf(),
            self.spec_offset() <= i32::MAX,
        ensures
            r == self.spec_offset(),
    {
        (self.page - 1) * self.limit
    }
}

/// The ceiling of `a / b` for a non-negative `a` and positive `b`.
pub open spec fn ceil_div(a: int, b: int) -> int {
    (a + b - 1) / b
}

/// One page of query results together with the totals that describe the
/// whole result set.
#[derive(Debug)]
pub struct PaginatedResult<T> {
    pub data: Vec<T>,
    pub total_count: i64,
    pub current_page: i32,
    pub total_pages: i32,
    pub limit: i32,
}

impl<T> PaginatedResult<T> {
    /// Wraps one fetched page: `total_pages` is the ceiling of
    /// `total_count / limit`, and the page and limit are carried over
    /// from the parameters.
    pub fn new(data: Vec<T>, total_count: i64, params: &PaginationParams) -> (r: Self)
        requires
            params.wf(),
            0 <= total_count,
            total_count + params.limit <= i64::MAX,
            ceil_div(total_count as int, params.limit as int) <= i32::MAX,
        ensures
            r.data == data,
            r.total_count == total_count,
            r.current_page == params.page,
            r.limit == params.limit,
            r.total_pages == ceil_div(total_count as int, params.limit as int),
    {
        let total_pages_wide: i64 = (total_count + params.limit as i64 - 1) / (params.limit as i64);
        let total_pages: i32 = total_pages_wide as i32;

        Self { data, total_count, current_page: params.page, total_pages, limit: params.limit }
    }
}

} // verus!
