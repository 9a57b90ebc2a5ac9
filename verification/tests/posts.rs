//! End-to-end tests of the post model operations against a real in-memory
//! database.

use ublog_db::db::open_memory_db;
use ublog_db::error::DbError;
use ublog_db::mask::PostUpdateMask;
use ublog_db::post::Post;
use ublog_db::resource::PostResource;
use ublog_db::Pagination;

fn setup() -> rusqlite::Connection {
    let c = open_memory_db().unwrap();
    Post::init_db_schema(&c).unwrap();
    PostResource::init_db_schema(&c).unwrap();
    c
}

fn sample_post(slug: &str, tags: &[&str]) -> Post {
    Post {
        id: 0,
        title: format!("title of {slug}"),
        slug: slug.to_string(),
        author: "ann".to_string(),
        create_timestamp: 0,
        update_timestamp: 0,
        category: "general".to_string(),
        tags: tags.iter().map(|t| t.to_string()).collect(),
        views: 0,
        content: format!("content of {slug}"),
    }
}

fn sorted(mut v: Vec<String>) -> Vec<String> {
    v.sort();
    v
}

#[test]
fn insert_then_select_one_roundtrip() {
    let mut c = setup();
    let mut p = sample_post("hello-world", &["rust", "blog"]);
    p.insert_into_at(&mut c, 100).unwrap();
    assert_eq!(p.create_timestamp, 100);
    assert_eq!(p.update_timestamp, 100);

    let q = Post::select_one_from(&c, "hello-world").unwrap();
    assert_eq!(q.id, p.id);
    assert_eq!(q.title, "title of hello-world");
    assert_eq!(q.slug, "hello-world");
    assert_eq!(q.author, "ann");
    assert_eq!(q.category, "general");
    assert_eq!(q.content, "content of hello-world");
    assert_eq!(q.create_timestamp, 100);
    assert_eq!(q.update_timestamp, 100);
    assert_eq!(q.views, 0);
    assert_eq!(sorted(q.tags), vec!["blog".to_string(), "rust".to_string()]);
}

#[test]
fn insert_stores_zero_views_regardless_of_entity() {
    let mut c = setup();
    let mut p = sample_post("viewsy", &[]);
    p.views = 7;
    p.insert_into_at(&mut c, 5).unwrap();
    let q = Post::select_one_from(&c, "viewsy").unwrap();
    assert_eq!(q.views, 0);
}

#[test]
fn select_one_missing_slug_is_not_found() {
    let c = setup();
    let r = Post::select_one_from(&c, "absent");
    assert!(matches!(r, Err(DbError::NotFound)));
}

#[test]
fn duplicate_slug_fails_second_insert_and_keeps_first() {
    let mut c = setup();
    let mut first = sample_post("shared", &["one"]);
    first.insert_into_at(&mut c, 10).unwrap();

    let mut second = sample_post("shared", &["two"]);
    second.title = "usurper".to_string();
    let r = second.insert_into_at(&mut c, 20);
    assert!(matches!(r, Err(DbError::UniqueConstraint)));

    let q = Post::select_one_from(&c, "shared").unwrap();
    assert_eq!(q.id, first.id);
    assert_eq!(q.title, "title of shared");
    assert_eq!(q.create_timestamp, 10);
    assert_eq!(sorted(q.tags), vec!["one".to_string()]);
}

#[test]
fn empty_mask_update_changes_nothing() {
    let mut c = setup();
    let mut p = sample_post("quiet", &["keep"]);
    p.insert_into_at(&mut c, 100).unwrap();

    p.title = "changed in memory only".to_string();
    let r = p.update_into_at(&mut c, &PostUpdateMask::empty(), 999);
    assert!(r.is_ok());

    let q = Post::select_one_from(&c, "quiet").unwrap();
    assert_eq!(q.title, "title of quiet");
    assert_eq!(q.update_timestamp, 100);
    assert_eq!(sorted(q.tags), vec!["keep".to_string()]);
}

#[test]
fn masked_update_writes_exactly_the_flagged_columns() {
    let mut c = setup();
    let mut p = sample_post("partial", &["t"]);
    p.insert_into_at(&mut c, 100).unwrap();

    p.title = "new title".to_string();
    p.category = "new category".to_string();
    p.author = "not written".to_string();
    let mut mask = PostUpdateMask::empty();
    mask.title = true;
    mask.category = true;
    p.update_into_at(&mut c, &mask, 200).unwrap();
    assert_eq!(p.update_timestamp, 200);

    let q = Post::select_one_from(&c, "partial").unwrap();
    assert_eq!(q.title, "new title");
    assert_eq!(q.category, "new category");
    assert_eq!(q.author, "ann");
    assert_eq!(q.content, "content of partial");
    assert_eq!(q.create_timestamp, 100);
    assert_eq!(q.update_timestamp, 200);
    assert_eq!(sorted(q.tags), vec!["t".to_string()]);
}

#[test]
fn tags_mask_replaces_the_full_tag_set() {
    let mut c = setup();
    let mut p = sample_post("tagged", &["old-a", "old-b"]);
    p.insert_into_at(&mut c, 100).unwrap();

    p.tags = vec!["fresh".to_string()];
    let mut mask = PostUpdateMask::empty();
    mask.tags = true;
    p.update_into_at(&mut c, &mask, 150).unwrap();

    let q = Post::select_one_from(&c, "tagged").unwrap();
    assert_eq!(sorted(q.tags), vec!["fresh".to_string()]);
    assert_eq!(q.update_timestamp, 150);

    p.tags = Vec::new();
    p.update_into_at(&mut c, &mask, 160).unwrap();
    let q = Post::select_one_from(&c, "tagged").unwrap();
    assert!(q.tags.is_empty());
}

#[test]
fn slug_update_onto_taken_slug_is_rejected() {
    let mut c = setup();
    let mut a = sample_post("slug-a", &[]);
    a.insert_into_at(&mut c, 1).unwrap();
    let mut b = sample_post("slug-b", &[]);
    b.insert_into_at(&mut c, 2).unwrap();

    b.slug = "slug-a".to_string();
    let mut mask = PostUpdateMask::empty();
    mask.slug = true;
    let r = b.update_into_at(&mut c, &mask, 3);
    assert!(matches!(r, Err(DbError::UniqueConstraint)));

    let q = Post::select_one_from(&c, "slug-b").unwrap();
    assert_eq!(q.update_timestamp, 2);
}

#[test]
fn update_of_absent_identity_is_a_stored_noop() {
    let mut c = setup();
    let mut ghostly = sample_post("never-inserted", &[]);
    ghostly.id = 12345;
    let mut mask = PostUpdateMask::empty();
    mask.title = true;
    let r = ghostly.update_into_at(&mut c, &mask, 9);
    assert!(r.is_ok());
    assert!(matches!(Post::select_one_from(&c, "never-inserted"), Err(DbError::NotFound)));
}

#[test]
fn delete_of_missing_slug_succeeds_and_changes_nothing() {
    let mut c = setup();
    let mut p = sample_post("survivor", &["x"]);
    p.insert_into_at(&mut c, 1).unwrap();

    Post::delete_from(&mut c, "no-such-slug").unwrap();

    let q = Post::select_one_from(&c, "survivor").unwrap();
    assert_eq!(q.title, "title of survivor");
    let page = Post::select_many_from(&c, &Pagination { page_size: 10, page_index: 0 }).unwrap();
    assert_eq!(page.len(), 1);
}

#[test]
fn delete_cascades_to_tags_and_resources() {
    let mut c = setup();
    let mut p = sample_post("doomed", &["a", "b"]);
    p.insert_into_at(&mut c, 1).unwrap();
    let res = PostResource {
        post_id: p.id,
        name: "cover.png".to_string(),
        ty: "image/png".to_string(),
        data: vec![1, 2, 3],
    };
    res.insert_into(&mut c).unwrap();

    Post::delete_from(&mut c, "doomed").unwrap();

    assert!(matches!(Post::select_one_from(&c, "doomed"), Err(DbError::NotFound)));
    let key = (p.id, "cover.png".to_string());
    assert!(matches!(PostResource::select_one_from(&c, &key), Err(DbError::NotFound)));

    // A fresh post under the same slug starts with no leftover tags.
    let mut again = sample_post("doomed", &[]);
    again.insert_into_at(&mut c, 2).unwrap();
    let q = Post::select_one_from(&c, "doomed").unwrap();
    assert!(q.tags.is_empty());
}

#[test]
fn pagination_pages_by_creation_time_descending() {
    let mut c = setup();
    for (i, slug) in ["s1", "s2", "s3", "s4", "s5"].iter().enumerate() {
        let mut p = sample_post(slug, &[]);
        p.insert_into_at(&mut c, (i as i64) + 1).unwrap();
    }

    let page0 = Post::select_many_from(&c, &Pagination { page_size: 2, page_index: 0 }).unwrap();
    let slugs0: Vec<String> = page0.iter().map(|p| p.slug.clone()).collect();
    assert_eq!(slugs0, vec!["s5".to_string(), "s4".to_string()]);

    let page2 = Post::select_many_from(&c, &Pagination { page_size: 2, page_index: 2 }).unwrap();
    let slugs2: Vec<String> = page2.iter().map(|p| p.slug.clone()).collect();
    assert_eq!(slugs2, vec!["s1".to_string()]);

    let page3 = Post::select_many_from(&c, &Pagination { page_size: 2, page_index: 3 }).unwrap();
    assert!(page3.is_empty());
}

#[test]
fn view_increments_accumulate_without_loss() {
    let mut c = setup();
    let mut p = sample_post("counted", &[]);
    p.insert_into_at(&mut c, 1).unwrap();

    // Two independent handles to the same stored post, taking turns.
    let mut other = Post::select_one_from(&c, "counted").unwrap();
    for _ in 0..3 {
        p.increase_views(&mut c).unwrap();
        other.increase_views(&mut c).unwrap();
    }
    assert_eq!(other.views, 6);

    let q = Post::select_one_from(&c, "counted").unwrap();
    assert_eq!(q.views, 6);
}

#[test]
fn increase_views_of_absent_post_is_not_found() {
    let mut c = setup();
    let mut p = sample_post("nowhere", &[]);
    p.id = 424242;
    let r = p.increase_views(&mut c);
    assert!(matches!(r, Err(DbError::NotFound)));
}

#[test]
fn clock_backed_insert_and_update_work() {
    let mut c = setup();
    let mut p = sample_post("clocked", &[]);
    p.insert_into(&mut c).unwrap();
    assert_eq!(p.create_timestamp, p.update_timestamp);

    p.title = "rewritten".to_string();
    let mut mask = PostUpdateMask::empty();
    mask.title = true;
    p.update_into(&mut c, &mask).unwrap();
    let q = Post::select_one_from(&c, "clocked").unwrap();
    assert_eq!(q.title, "rewritten");
    assert!(q.update_timestamp >= q.create_timestamp);
}

#[test]
fn init_db_schema_is_idempotent_and_preserves_rows() {
    let mut c = setup();
    let mut p = sample_post("persistent", &["t"]);
    p.insert_into_at(&mut c, 1).unwrap();

    Post::init_db_schema(&c).unwrap();
    PostResource::init_db_schema(&c).unwrap();

    let q = Post::select_one_from(&c, "persistent").unwrap();
    assert_eq!(q.title, "title of persistent");
    assert_eq!(sorted(q.tags), vec!["t".to_string()]);
}
