use like_service::error::LikesError;
use like_service::like::PaginationParams;
use like_service::repository::LikesRepository;
use like_service::store::LikesStore;

fn fresh_repo() -> LikesRepository {
    LikesRepository::new(LikesStore::new())
}

#[test]
fn create_like_rejects_empty_user_and_zero_post() {
    let mut repo = fresh_repo();
    let r = repo.create_like("", 5);
    assert!(matches!(r, Err(LikesError::InvalidInput(_))));
    let r = repo.create_like("alice", 0);
    assert!(matches!(r, Err(LikesError::InvalidInput(_))));
}

#[test]
fn create_like_echoes_the_created_row() {
    let mut repo = fresh_repo();
    let like = repo.create_like("alice", 5).unwrap();
    assert_eq!(like.user_id, "alice");
    assert_eq!(like.post_id, 5);
    assert_eq!(like.liked_at, like.created_at);
    assert_eq!(like.liked_at, like.updated_at);
    assert_eq!(like.id.chars().count(), 36);
}

#[test]
fn create_like_refuses_a_recorded_pair() {
    let mut repo = fresh_repo();
    repo.create_like("alice", 5).unwrap();
    let r = repo.create_like("alice", 5);
    assert!(matches!(r, Err(LikesError::AlreadyExists(_))));
}

#[test]
fn delete_like_reports_whether_anything_was_deleted() {
    let mut repo = fresh_repo();
    assert_eq!(repo.delete_like("alice", 5).unwrap(), false);
    repo.create_like("alice", 5).unwrap();
    assert_eq!(repo.delete_like("alice", 5).unwrap(), true);
    assert_eq!(repo.delete_like("alice", 5).unwrap(), false);
}

#[test]
fn two_phase_read_counts_even_when_the_page_is_empty() {
    let mut repo = fresh_repo();
    repo.create_like("alice", 1).unwrap();
    repo.create_like("alice", 2).unwrap();
    repo.create_like("alice", 3).unwrap();
    let params = PaginationParams::new(9, 10);
    let page = repo.get_user_likes("alice", &params).unwrap();
    assert_eq!(page.data.len(), 0);
    assert_eq!(page.total_count, 3);
    assert_eq!(page.total_pages, 1);
    assert_eq!(page.current_page, 9);
}

#[test]
fn unlike_posts_rejects_only_two_empty_lists() {
    let mut repo = fresh_repo();
    let r = repo.unlike_posts(&vec![], &vec![]);
    assert!(matches!(r, Err(LikesError::InvalidInput(_))));
    let r = repo.unlike_posts(&vec!["alice".to_string()], &vec![]);
    assert_eq!(r.unwrap(), false);
}

#[test]
fn is_post_liked_returns_the_recorded_timestamp() {
    let mut repo = fresh_repo();
    let like = repo.create_like("alice", 5).unwrap();
    let found = repo.is_post_liked("alice", 5).unwrap();
    assert_eq!(found, Some(like.liked_at));
    assert_eq!(repo.is_post_liked("bob", 5).unwrap(), None);
}

#[test]
fn health_check_delegates_to_the_engine() {
    let repo = fresh_repo();
    assert_eq!(repo.health_check().unwrap(), true);
}
