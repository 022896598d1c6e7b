use curriculum_board::cache::ListingCache;
use curriculum_board::error::ErrorKind;
use curriculum_board::model::{NewCourse, UserInfo};
use curriculum_board::review::{NewReview, NewVote, Rank};
use curriculum_board::store::Store;

fn admin() -> UserInfo {
    UserInfo { id: 233, is_admin: true }
}

fn student(id: i32) -> UserInfo {
    UserInfo { id, is_admin: false }
}

fn new_course(code: &str, name: &str) -> NewCourse {
    NewCourse {
        name: name.to_string(),
        code: code.to_string(),
        code_id: format!("{}.01", code),
        department: "Computer Science".to_string(),
        teachers: "Ada Lovelace".to_string(),
        credit: 3,
        max_student: 120,
        week_hour: 3,
        year: 2023,
        semester: 1,
        campus_name: "Main".to_string(),
    }
}

fn new_review(title: &str, content: &str) -> NewReview {
    NewReview {
        title: title.to_string(),
        content: content.to_string(),
        rank: Rank { overall: 5, content: 4, workload: 3, assessment: 5 },
    }
}

fn store_with_one_course() -> Store {
    let mut store = Store::new();
    store.add_course(new_course("CS101", "Intro"), admin()).unwrap();
    store
}

#[test]
fn course_group_created_for_new_code() {
    let mut store = Store::new();
    let course = store.add_course(new_course("CS101", "Intro"), admin()).unwrap();
    assert_eq!(store.groups.len(), 1);
    assert_eq!(store.groups[0].code, "CS101");
    assert_eq!(store.groups[0].id, 1);
    assert_eq!(store.groups[0].courses.len(), 1);
    assert_eq!(course.id, 1);
    assert_eq!(course.coursegroup_id, 1);
}

#[test]
fn second_course_with_same_code_joins_group() {
    let mut store = Store::new();
    store.add_course(new_course("CS101", "Intro"), admin()).unwrap();
    let second = store.add_course(new_course("CS101", "Intro (second year)"), admin()).unwrap();
    assert_eq!(store.groups.len(), 1);
    assert_eq!(store.groups[0].courses.len(), 2);
    assert_eq!(second.id, 2);
    assert_eq!(second.coursegroup_id, 1);
}

#[test]
fn courses_with_distinct_codes_get_distinct_groups() {
    let mut store = Store::new();
    store.add_course(new_course("CS101", "Intro"), admin()).unwrap();
    store.add_course(new_course("MATH2", "Calculus"), admin()).unwrap();
    assert_eq!(store.groups.len(), 2);
    assert_eq!(store.groups[0].code, "CS101");
    assert_eq!(store.groups[1].code, "MATH2");
    assert_eq!(store.groups[1].id, 2);
}

#[test]
fn non_admin_cannot_add_course() {
    let mut store = Store::new();
    let err = store.add_course(new_course("CS101", "Intro"), student(7)).unwrap_err();
    assert_eq!(err.status_code(), 401);
    assert!(matches!(err.kind, ErrorKind::Unauthorized));
    assert_eq!(store.groups.len(), 0);
}

#[test]
fn add_review_for_unknown_course_not_found() {
    let mut store = store_with_one_course();
    let err = store.add_review(99, new_review("t", "c"), student(42)).unwrap_err();
    assert_eq!(err.status_code(), 404);
}

#[test]
fn duplicate_review_rejected_with_conflict() {
    let mut store = store_with_one_course();
    let first = store.add_review(1, new_review("great", "liked it"), student(42)).unwrap();
    assert!(first.is_me);
    assert_eq!(first.id, 1);
    let err = store.add_review(1, new_review("again", "twice"), student(42)).unwrap_err();
    assert_eq!(err.status_code(), 409);
    assert!(matches!(err.kind, ErrorKind::Conflict));
    assert_eq!(store.reviews.len(), 1);
    let other = store.add_review(1, new_review("fine", "ok"), student(43)).unwrap();
    assert_eq!(other.id, 2);
}

#[test]
fn vote_toggle_twice_returns_to_unvoted() {
    let mut store = store_with_one_course();
    store.add_review(1, new_review("t", "c"), student(42)).unwrap();
    let up = NewVote { upvote: true };
    let voted = store.vote_for_review(1, up, student(7)).unwrap();
    assert_eq!(voted.vote, 1);
    assert_eq!(voted.remark, 1);
    let unvoted = store.vote_for_review(1, up, student(7)).unwrap();
    assert_eq!(unvoted.vote, 0);
    assert_eq!(unvoted.remark, 0);
    assert!(store.reviews[0].upvoters.is_empty());
    assert!(store.reviews[0].downvoters.is_empty());
}

#[test]
fn vote_switch_clears_opposite_side() {
    let mut store = store_with_one_course();
    store.add_review(1, new_review("t", "c"), student(42)).unwrap();
    store.vote_for_review(1, NewVote { upvote: true }, student(7)).unwrap();
    let switched = store.vote_for_review(1, NewVote { upvote: false }, student(7)).unwrap();
    assert_eq!(switched.vote, -1);
    assert_eq!(switched.remark, -1);
    assert_eq!(store.reviews[0].upvoters.len(), 0);
    assert_eq!(store.reviews[0].downvoters, vec![7]);
}

#[test]
fn votes_from_two_voters_accumulate() {
    let mut store = store_with_one_course();
    store.add_review(1, new_review("t", "c"), student(42)).unwrap();
    store.vote_for_review(1, NewVote { upvote: true }, student(7)).unwrap();
    store.vote_for_review(1, NewVote { upvote: true }, student(8)).unwrap();
    let g = store.vote_for_review(1, NewVote { upvote: false }, student(9)).unwrap();
    assert_eq!(g.remark, 1);
    assert_eq!(g.vote, -1);
}

#[test]
fn vote_for_unknown_review_not_found() {
    let mut store = store_with_one_course();
    let err = store.vote_for_review(3, NewVote { upvote: true }, student(7)).unwrap_err();
    assert_eq!(err.status_code(), 404);
}

#[test]
fn history_grows_by_one_per_edit_and_keeps_old_entries() {
    let mut store = store_with_one_course();
    store.add_review(1, new_review("v1", "first"), student(42)).unwrap();
    assert_eq!(store.reviews[0].history.len(), 0);
    store.modify_review(1, new_review("v2", "second"), student(42)).unwrap();
    assert_eq!(store.reviews[0].history.len(), 1);
    store.modify_review(1, new_review("v3", "third"), student(42)).unwrap();
    store.modify_review(1, new_review("v4", "fourth"), student(42)).unwrap();
    assert_eq!(store.reviews[0].history.len(), 3);
    assert_eq!(store.reviews[0].history[0].original.title, "v1");
    assert_eq!(store.reviews[0].history[1].original.title, "v2");
    assert_eq!(store.reviews[0].history[2].original.title, "v3");
    assert_eq!(store.reviews[0].title, "v4");
    assert_eq!(store.reviews[0].history[0].alter_by, 42);
}

#[test]
fn modify_review_permission_checks() {
    let mut store = store_with_one_course();
    store.add_review(1, new_review("v1", "first"), student(42)).unwrap();
    let err = store.modify_review(1, new_review("x", "y"), student(7)).unwrap_err();
    assert_eq!(err.status_code(), 401);
    assert_eq!(store.reviews[0].title, "v1");
    let edited = store.modify_review(1, new_review("fixed", "by admin"), admin()).unwrap();
    assert_eq!(edited.title, "fixed");
    let err = store.modify_review(9, new_review("x", "y"), admin()).unwrap_err();
    assert_eq!(err.status_code(), 404);
}

#[test]
fn random_review_fails_not_found_on_empty_store() {
    let store = Store::new();
    let err = store.get_random_reviews(student(7)).unwrap_err();
    assert_eq!(err.status_code(), 404);
}

#[test]
fn random_review_returns_the_single_review() {
    let mut store = store_with_one_course();
    store.add_review(1, new_review("only", "one"), student(42)).unwrap();
    for _ in 0..8 {
        let g = store.get_random_reviews(student(7)).unwrap();
        assert_eq!(g.id, 1);
        assert_eq!(g.title, "only");
        assert_eq!(g.course.id, 1);
    }
}

#[test]
fn get_course_loads_reviews_for_reader() {
    let mut store = store_with_one_course();
    store.add_review(1, new_review("mine", "by me"), student(42)).unwrap();
    store.add_review(1, new_review("other", "by other"), student(43)).unwrap();
    let sc = store.get_course(1, student(42)).unwrap();
    assert_eq!(sc.course.id, 1);
    assert_eq!(sc.review_list.len(), 2);
    assert!(sc.review_list[0].is_me);
    assert!(!sc.review_list[1].is_me);
    let err = store.get_course(5, student(42)).unwrap_err();
    assert_eq!(err.status_code(), 404);
}

#[test]
fn get_course_group_loads_courses_and_reviews() {
    let mut store = Store::new();
    store.add_course(new_course("CS101", "Intro"), admin()).unwrap();
    store.add_course(new_course("CS101", "Intro again"), admin()).unwrap();
    store.add_review(2, new_review("t", "c"), student(42)).unwrap();
    let gg = store.get_course_group(1, student(42)).unwrap();
    assert_eq!(gg.id, 1);
    assert_eq!(gg.code, "CS101");
    assert_eq!(gg.course_list.len(), 2);
    assert_eq!(gg.course_list[0].review_list.len(), 0);
    assert_eq!(gg.course_list[1].review_list.len(), 1);
    let err = store.get_course_group(2, student(42)).unwrap_err();
    assert_eq!(err.status_code(), 404);
}

#[test]
fn get_reviews_lists_only_own_reviews_with_courses() {
    let mut store = Store::new();
    store.add_course(new_course("CS101", "Intro"), admin()).unwrap();
    store.add_course(new_course("MATH2", "Calculus"), admin()).unwrap();
    store.add_review(1, new_review("a", "x"), student(42)).unwrap();
    store.add_review(2, new_review("b", "y"), student(7)).unwrap();
    store.add_review(2, new_review("c", "z"), student(42)).unwrap();
    let mine = store.get_reviews(student(42));
    assert_eq!(mine.len(), 2);
    assert_eq!(mine[0].title, "a");
    assert_eq!(mine[0].course.code, "CS101");
    assert_eq!(mine[1].title, "c");
    assert_eq!(mine[1].course.code, "MATH2");
}

#[test]
fn fingerprint_stable_across_reads_without_invalidation() {
    let mut store = store_with_one_course();
    let mut cache = ListingCache::new();
    let fp1 = cache.get_fingerprint(&store.groups);
    let fp2 = cache.get_fingerprint(&store.groups);
    assert_eq!(fp1, fp2);
    // a write without an invalidation signal leaves the cached value alone
    store.add_course(new_course("MATH2", "Calculus"), admin()).unwrap();
    let fp3 = cache.get_fingerprint(&store.groups);
    assert_eq!(fp1, fp3);
}

#[test]
fn rebuild_after_invalidate_reflects_current_store() {
    let mut store = store_with_one_course();
    let mut cache = ListingCache::new();
    let (payload1, fp1) = cache.get_listing(&store.groups);
    store.add_course(new_course("MATH2", "Calculus"), admin()).unwrap();
    cache.invalidate();
    let (payload2, fp2) = cache.get_listing(&store.groups);
    assert_ne!(payload1, payload2);
    assert_ne!(fp1, fp2);
    let parsed: serde_json::Value = serde_json::from_str(&payload2).unwrap();
    let groups = parsed.as_array().unwrap();
    assert_eq!(groups.len(), 2);
    assert_eq!(groups[1]["code"], "MATH2");
}

#[test]
fn listing_and_hash_share_one_cached_value() {
    let store = store_with_one_course();
    let mut cache = ListingCache::new();
    let (_, fp) = cache.get_listing(&store.groups);
    let msg = curriculum_board::cache::get_course_groups_hash(&mut cache, &store.groups);
    assert_eq!(msg.hash, fp);
}
