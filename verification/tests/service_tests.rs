use like_service::error::RpcCode;
use like_service::federation::{canonical_user_id, like_post_gate, like_user_gate, round_robin_next};
use like_service::repository::LikesRepository;
use like_service::service::{
    GetLikesCountBulkRequest, GetLikesCountRequest, GetPostLikesRequest, GetUserLikesRequest,
    HealthCheckRequest, IsPostLikedRequest, LikePostRequest, LikesServiceImpl, UnlikePostRequest,
    UnlikePostsRequest,
};
use like_service::store::LikesStore;
use like_service::timestamp::Timestamp;

fn fresh_service() -> LikesServiceImpl {
    LikesServiceImpl::new(LikesRepository::new(LikesStore::new()))
}

fn like(svc: &mut LikesServiceImpl, user: &str, post: u32) -> Option<Timestamp> {
    let resp = svc
        .like_post(LikePostRequest { user_id: user.to_string(), post_id: post })
        .expect("like_post should not be a transport error");
    assert!(resp.success);
    assert_eq!(resp.message, "Post liked successfully");
    resp.liked_at
}

#[test]
fn second_like_of_same_pair_is_already_exists() {
    let mut svc = fresh_service();
    like(&mut svc, "alice", 7);
    let err = svc
        .like_post(LikePostRequest { user_id: "alice".to_string(), post_id: 7 })
        .expect_err("a duplicate like must be refused");
    assert_eq!(err.code, RpcCode::AlreadyExists);
    assert_eq!(err.message, "User has already liked this post");
    // No second row: the count is still one.
    let count = svc
        .get_likes_count(GetLikesCountRequest { post_id: 7 })
        .unwrap();
    assert_eq!(count.count, 1);
}

#[test]
fn unlike_of_missing_pair_is_soft_failure_not_error() {
    let mut svc = fresh_service();
    let resp = svc
        .unlike_post(UnlikePostRequest { user_id: "alice".to_string(), post_id: 9 })
        .expect("a missing like is not an error");
    assert!(!resp.success);
    assert_eq!(resp.message, "Like not found");
}

#[test]
fn unlike_after_like_succeeds_then_reports_missing() {
    let mut svc = fresh_service();
    like(&mut svc, "alice", 9);
    let resp = svc
        .unlike_post(UnlikePostRequest { user_id: "alice".to_string(), post_id: 9 })
        .unwrap();
    assert!(resp.success);
    assert_eq!(resp.message, "Post unliked successfully");
    let resp = svc
        .unlike_post(UnlikePostRequest { user_id: "alice".to_string(), post_id: 9 })
        .unwrap();
    assert!(!resp.success);
}

#[test]
fn like_then_is_post_liked_round_trip() {
    let mut svc = fresh_service();
    let liked_at = like(&mut svc, "alice", 7).expect("a successful like carries its timestamp");
    let resp = svc
        .is_post_liked(IsPostLikedRequest { user_id: "alice".to_string(), post_id: 7 })
        .unwrap();
    assert!(resp.is_liked);
    assert_eq!(resp.liked_at, Some(liked_at));
}

#[test]
fn is_post_liked_is_false_for_other_pairs() {
    let mut svc = fresh_service();
    like(&mut svc, "alice", 7);
    let resp = svc
        .is_post_liked(IsPostLikedRequest { user_id: "alice".to_string(), post_id: 8 })
        .unwrap();
    assert!(!resp.is_liked);
    assert_eq!(resp.liked_at, None);
    let resp = svc
        .is_post_liked(IsPostLikedRequest { user_id: "bob".to_string(), post_id: 7 })
        .unwrap();
    assert!(!resp.is_liked);
}

#[test]
fn bulk_count_is_zero_filled_for_every_requested_post() {
    let mut svc = fresh_service();
    like(&mut svc, "alice", 2);
    like(&mut svc, "bob", 2);
    let resp = svc
        .get_likes_count_bulk(GetLikesCountBulkRequest { post_ids: vec![1, 2, 3] })
        .unwrap();
    assert_eq!(resp.counts.len(), 3);
    assert_eq!(resp.counts[0].post_id, 1);
    assert_eq!(resp.counts[0].count, 0);
    assert_eq!(resp.counts[1].post_id, 2);
    assert_eq!(resp.counts[1].count, 2);
    assert_eq!(resp.counts[2].post_id, 3);
    assert_eq!(resp.counts[2].count, 0);
}

#[test]
fn bulk_unlike_conjoins_user_and_post_conditions() {
    let mut svc = fresh_service();
    like(&mut svc, "u1", 1);
    like(&mut svc, "u2", 2);

    // No row matches u1 AND p2, so nothing is deleted.
    let resp = svc
        .unlike_posts(UnlikePostsRequest {
            user_ids: vec!["u1".to_string()],
            post_ids: vec![2],
        })
        .unwrap();
    assert!(!resp.success);
    assert_eq!(resp.message, "No likes found to unlike");
    assert!(svc
        .is_post_liked(IsPostLikedRequest { user_id: "u1".to_string(), post_id: 1 })
        .unwrap()
        .is_liked);
    assert!(svc
        .is_post_liked(IsPostLikedRequest { user_id: "u2".to_string(), post_id: 2 })
        .unwrap()
        .is_liked);

    // A condition on the post alone deletes (u1, 1) only.
    let resp = svc
        .unlike_posts(UnlikePostsRequest { user_ids: vec![], post_ids: vec![1] })
        .unwrap();
    assert!(resp.success);
    assert_eq!(resp.message, "Posts unliked successfully");
    assert!(!svc
        .is_post_liked(IsPostLikedRequest { user_id: "u1".to_string(), post_id: 1 })
        .unwrap()
        .is_liked);
    assert!(svc
        .is_post_liked(IsPostLikedRequest { user_id: "u2".to_string(), post_id: 2 })
        .unwrap()
        .is_liked);
}

#[test]
fn bulk_unlike_with_both_conditions_removes_the_intersection() {
    let mut svc = fresh_service();
    like(&mut svc, "u1", 1);
    like(&mut svc, "u1", 2);
    like(&mut svc, "u2", 1);
    let resp = svc
        .unlike_posts(UnlikePostsRequest {
            user_ids: vec!["u1".to_string()],
            post_ids: vec![1],
        })
        .unwrap();
    assert!(resp.success);
    assert!(!svc
        .is_post_liked(IsPostLikedRequest { user_id: "u1".to_string(), post_id: 1 })
        .unwrap()
        .is_liked);
    assert!(svc
        .is_post_liked(IsPostLikedRequest { user_id: "u1".to_string(), post_id: 2 })
        .unwrap()
        .is_liked);
    assert!(svc
        .is_post_liked(IsPostLikedRequest { user_id: "u2".to_string(), post_id: 1 })
        .unwrap()
        .is_liked);
}

fn ts_not_before(a: &Timestamp, b: &Timestamp) -> bool {
    a.seconds > b.seconds || (a.seconds == b.seconds && a.nanos >= b.nanos)
}

#[test]
fn user_likes_are_ordered_newest_first_across_pages() {
    let mut svc = fresh_service();
    for post in 1..=5u32 {
        like(&mut svc, "alice", post);
    }

    let page1 = svc
        .get_user_likes(GetUserLikesRequest { user_id: "alice".to_string(), page: 1, limit: 2 })
        .unwrap();
    let page2 = svc
        .get_user_likes(GetUserLikesRequest { user_id: "alice".to_string(), page: 2, limit: 2 })
        .unwrap();
    let page3 = svc
        .get_user_likes(GetUserLikesRequest { user_id: "alice".to_string(), page: 3, limit: 2 })
        .unwrap();

    assert_eq!(page1.likes.len(), 2);
    assert_eq!(page2.likes.len(), 2);
    assert_eq!(page3.likes.len(), 1);

    let info = page1.pagination.expect("pagination totals are always present");
    assert_eq!(info.total_count, 5);
    assert_eq!(info.total_pages, 3);
    assert_eq!(info.current_page, 1);
    assert_eq!(info.limit, 2);

    let mut all = Vec::new();
    all.extend(page1.likes.iter().map(|l| l.liked_at.unwrap()));
    all.extend(page2.likes.iter().map(|l| l.liked_at.unwrap()));
    all.extend(page3.likes.iter().map(|l| l.liked_at.unwrap()));
    for pair in all.windows(2) {
        assert!(
            ts_not_before(&pair[0], &pair[1]),
            "likes must be ordered by creation time, newest first, across page boundaries"
        );
    }

    // Every liked post shows up exactly once over the pages.
    let mut posts: Vec<u32> = Vec::new();
    posts.extend(page1.likes.iter().map(|l| l.post_id));
    posts.extend(page2.likes.iter().map(|l| l.post_id));
    posts.extend(page3.likes.iter().map(|l| l.post_id));
    posts.sort();
    assert_eq!(posts, vec![1, 2, 3, 4, 5]);
}

#[test]
fn page_beyond_the_end_is_empty_but_totals_are_kept() {
    let mut svc = fresh_service();
    like(&mut svc, "alice", 1);
    like(&mut svc, "alice", 2);
    let resp = svc
        .get_user_likes(GetUserLikesRequest { user_id: "alice".to_string(), page: 50, limit: 10 })
        .unwrap();
    assert_eq!(resp.likes.len(), 0);
    let info = resp.pagination.unwrap();
    assert_eq!(info.total_count, 2);
    assert_eq!(info.total_pages, 1);
    assert_eq!(info.current_page, 50);
}

#[test]
fn service_applies_pagination_clamps() {
    let mut svc = fresh_service();
    like(&mut svc, "alice", 1);
    let resp = svc
        .get_user_likes(GetUserLikesRequest { user_id: "alice".to_string(), page: 0, limit: -5 })
        .unwrap();
    let info = resp.pagination.unwrap();
    assert_eq!(info.current_page, 1);
    assert_eq!(info.limit, 10);
    let resp = svc
        .get_user_likes(GetUserLikesRequest { user_id: "alice".to_string(), page: 1, limit: 5000 })
        .unwrap();
    assert_eq!(resp.pagination.unwrap().limit, 100);
}

#[test]
fn post_likes_list_the_liking_users() {
    let mut svc = fresh_service();
    like(&mut svc, "alice", 4);
    like(&mut svc, "bob", 4);
    like(&mut svc, "alice", 5);
    let resp = svc
        .get_post_likes(GetPostLikesRequest { post_id: 4, page: 1, limit: 10 })
        .unwrap();
    assert_eq!(resp.likes.len(), 2);
    let mut users: Vec<String> = resp.likes.iter().map(|l| l.user_id.clone()).collect();
    users.sort();
    assert_eq!(users, vec!["alice".to_string(), "bob".to_string()]);
    assert_eq!(resp.pagination.unwrap().total_count, 2);
}

#[test]
fn blank_user_id_is_invalid_argument() {
    let mut svc = fresh_service();
    let err = svc
        .like_post(LikePostRequest { user_id: "   ".to_string(), post_id: 1 })
        .expect_err("a blank user id must be rejected");
    assert_eq!(err.code, RpcCode::InvalidArgument);
    assert_eq!(err.message, "User ID cannot be empty");

    let err = svc
        .get_user_likes(GetUserLikesRequest { user_id: "\t\n".to_string(), page: 1, limit: 10 })
        .expect_err("a blank user id must be rejected");
    assert_eq!(err.code, RpcCode::InvalidArgument);
}

#[test]
fn zero_post_id_is_invalid_argument() {
    let mut svc = fresh_service();
    let err = svc
        .like_post(LikePostRequest { user_id: "alice".to_string(), post_id: 0 })
        .expect_err("a zero post id must be rejected");
    assert_eq!(err.code, RpcCode::InvalidArgument);
    assert_eq!(err.message, "Post ID must be greater than 0");

    let err = svc
        .get_post_likes(GetPostLikesRequest { post_id: 0, page: 1, limit: 10 })
        .expect_err("a zero post id must be rejected");
    assert_eq!(err.message, "Post ID must be a positive integer");

    let err = svc
        .get_likes_count(GetLikesCountRequest { post_id: 0 })
        .expect_err("a zero post id must be rejected");
    assert_eq!(err.code, RpcCode::InvalidArgument);

    let err = svc
        .get_likes_count_bulk(GetLikesCountBulkRequest { post_ids: vec![1, 0, 3] })
        .expect_err("a zero post id in a batch must be rejected");
    assert_eq!(err.code, RpcCode::InvalidArgument);
}

#[test]
fn bulk_unlike_validates_its_lists() {
    let mut svc = fresh_service();
    let err = svc
        .unlike_posts(UnlikePostsRequest { user_ids: vec![], post_ids: vec![] })
        .expect_err("two empty lists must be rejected");
    assert_eq!(err.code, RpcCode::InvalidArgument);
    assert_eq!(err.message, "User IDs and Post IDs cannot be empty");

    let err = svc
        .unlike_posts(UnlikePostsRequest {
            user_ids: vec!["ok".to_string(), "  ".to_string()],
            post_ids: vec![],
        })
        .expect_err("a blank user id in a batch must be rejected");
    assert_eq!(err.message, "User ID cannot be empty");

    let err = svc
        .unlike_posts(UnlikePostsRequest { user_ids: vec!["ok".to_string()], post_ids: vec![0] })
        .expect_err("a zero post id in a batch must be rejected");
    assert_eq!(err.message, "Post ID must be a positive integer");
}

#[test]
fn likes_count_grows_with_likes() {
    let mut svc = fresh_service();
    assert_eq!(
        svc.get_likes_count(GetLikesCountRequest { post_id: 3 }).unwrap().count,
        0
    );
    like(&mut svc, "alice", 3);
    like(&mut svc, "bob", 3);
    assert_eq!(
        svc.get_likes_count(GetLikesCountRequest { post_id: 3 }).unwrap().count,
        2
    );
}

#[test]
fn health_check_reports_healthy_with_a_timestamp() {
    let svc = fresh_service();
    let resp = svc.health_check(HealthCheckRequest {}).unwrap();
    assert_eq!(resp.status, "healthy");
    assert!(resp.timestamp.is_some());
}

#[test]
fn like_flow_soft_fails_on_missing_user_or_post() {
    let resp = like_user_gate(false).expect("a missing user yields the soft-failure reply");
    assert!(!resp.success);
    assert_eq!(resp.message, "User not found");
    assert!(resp.liked_at.is_none());
    assert!(like_user_gate(true).is_none());

    let resp = like_post_gate(false).expect("a missing post yields the soft-failure reply");
    assert!(!resp.success);
    assert_eq!(resp.message, "Post not found");
    assert!(like_post_gate(true).is_none());
}

#[test]
fn unlike_flow_hard_fails_on_missing_user() {
    let id = canonical_user_id(Some("db-17".to_string())).unwrap();
    assert_eq!(id, "db-17");
    let err = canonical_user_id(None).expect_err("a missing user is a hard NotFound here");
    assert_eq!(err.code, RpcCode::NotFound);
    assert_eq!(err.message, "User not found");
}

#[test]
fn pool_selection_walks_the_pool_in_a_cycle() {
    let (served, next) = round_robin_next(0, 3);
    assert_eq!((served, next), (0, 1));
    let (served, next) = round_robin_next(next, 3);
    assert_eq!((served, next), (1, 2));
    let (served, next) = round_robin_next(next, 3);
    assert_eq!((served, next), (2, 0));
    let (served, next) = round_robin_next(0, 1);
    assert_eq!((served, next), (0, 0));
}
