//! Unit tests of the masks, the statement builders, pagination arithmetic,
//! and the error kinds.

use ublog_db::error::DbError;
use ublog_db::mask::PostUpdateMask;
use ublog_db::sqlgen::{build_post_update_sql, build_tags_insert_sql};
use ublog_db::Pagination;

#[test]
fn empty_mask_is_empty() {
    let m = PostUpdateMask::empty();
    assert!(m.is_empty());
    let mut n = m;
    n.tags = true;
    assert!(!n.is_empty());
}

#[test]
fn mask_union_and_containment() {
    let mut a = PostUpdateMask::empty();
    a.title = true;
    let mut b = PostUpdateMask::empty();
    b.tags = true;
    let u = a.union(b);
    assert!(u.title && u.tags && !u.slug && !u.author && !u.category && !u.content);
    assert!(u.contains(&a));
    assert!(u.contains(&b));
    assert!(!a.contains(&b));
    assert!(u.contains(&PostUpdateMask::empty()));
}

#[test]
fn update_sql_lists_exactly_the_flagged_columns() {
    let cols = vec!["title".to_string(), "content".to_string()];
    let sql = build_post_update_sql(&cols);
    assert_eq!(
        sql,
        "UPDATE posts SET update_timestamp = ?, title = ?, content = ? WHERE id = ?"
    );

    let none: Vec<String> = Vec::new();
    assert_eq!(
        build_post_update_sql(&none),
        "UPDATE posts SET update_timestamp = ? WHERE id = ?"
    );
}

#[test]
fn tags_insert_sql_repeats_one_row_per_tag() {
    assert_eq!(
        build_tags_insert_sql(1),
        "INSERT INTO posts_tags (post_id, tag_name) VALUES (?1, ?)"
    );
    assert_eq!(
        build_tags_insert_sql(3),
        "INSERT INTO posts_tags (post_id, tag_name) VALUES (?1, ?),(?1, ?),(?1, ?)"
    );
}

#[test]
fn pagination_skip_count_multiplies() {
    let p = Pagination { page_size: 2, page_index: 3 };
    assert_eq!(p.skip_count(), 6);
    let q = Pagination { page_size: 4_000_000_000, page_index: 4_000_000_000 };
    assert_eq!(q.skip_count(), 16_000_000_000_000_000_000u64);
}

#[test]
fn error_kind_accessors() {
    assert!(DbError::NotFound.is_not_found());
    assert!(DbError::UniqueConstraint.is_unique_constraint());
    assert!(DbError::UnsupportedOperation.is_unsupported_operation());
    assert!(DbError::Storage("boom".to_string()).is_storage());
    assert!(!DbError::NotFound.is_storage());
}
