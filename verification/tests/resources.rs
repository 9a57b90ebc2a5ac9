//! Tests of the post resource model operations.

use ublog_db::db::open_memory_db;
use ublog_db::error::DbError;
use ublog_db::post::Post;
use ublog_db::resource::{PostResource, ResourceRowData};
use ublog_db::Pagination;

fn setup_with_post() -> (rusqlite::Connection, i64) {
    let mut c = open_memory_db().unwrap();
    Post::init_db_schema(&c).unwrap();
    PostResource::init_db_schema(&c).unwrap();
    let mut p = Post {
        id: 0,
        title: "host".to_string(),
        slug: "host".to_string(),
        author: "ann".to_string(),
        create_timestamp: 0,
        update_timestamp: 0,
        category: "general".to_string(),
        tags: Vec::new(),
        views: 0,
        content: "body".to_string(),
    };
    p.insert_into_at(&mut c, 1).unwrap();
    (c, p.id)
}

#[test]
fn resource_insert_select_roundtrip() {
    let (mut c, post_id) = setup_with_post();
    let res = PostResource {
        post_id,
        name: "img".to_string(),
        ty: "image/png".to_string(),
        data: vec![0, 255, 7],
    };
    res.insert_into(&mut c).unwrap();

    let key = (post_id, "img".to_string());
    let got = PostResource::select_one_from(&c, &key).unwrap();
    assert_eq!(got.post_id, post_id);
    assert_eq!(got.name, "img");
    assert_eq!(got.ty, "image/png");
    assert_eq!(got.data, vec![0, 255, 7]);
}

#[test]
fn resource_duplicate_key_is_rejected() {
    let (mut c, post_id) = setup_with_post();
    let res = PostResource {
        post_id,
        name: "img".to_string(),
        ty: "image/png".to_string(),
        data: vec![1],
    };
    res.insert_into(&mut c).unwrap();
    let again = PostResource {
        post_id,
        name: "img".to_string(),
        ty: "image/jpeg".to_string(),
        data: vec![2],
    };
    let r = again.insert_into(&mut c);
    assert!(matches!(r, Err(DbError::UniqueConstraint)));

    let key = (post_id, "img".to_string());
    let got = PostResource::select_one_from(&c, &key).unwrap();
    assert_eq!(got.ty, "image/png");
}

#[test]
fn resource_for_absent_post_is_rejected() {
    let (mut c, _post_id) = setup_with_post();
    let res = PostResource {
        post_id: 999_999,
        name: "orphan".to_string(),
        ty: "text/plain".to_string(),
        data: vec![1],
    };
    let r = res.insert_into(&mut c);
    assert!(matches!(r, Err(DbError::Storage(_))));
}

#[test]
fn resource_delete_is_idempotent() {
    let (mut c, post_id) = setup_with_post();
    let res = PostResource {
        post_id,
        name: "img".to_string(),
        ty: "image/png".to_string(),
        data: vec![1],
    };
    res.insert_into(&mut c).unwrap();

    let key = (post_id, "img".to_string());
    PostResource::delete_from(&mut c, &key).unwrap();
    assert!(matches!(PostResource::select_one_from(&c, &key), Err(DbError::NotFound)));
    PostResource::delete_from(&mut c, &key).unwrap();
}

#[test]
fn resource_bulk_operations_are_unsupported_and_touch_nothing() {
    let (mut c, post_id) = setup_with_post();
    let res = PostResource {
        post_id,
        name: "img".to_string(),
        ty: "image/png".to_string(),
        data: vec![9],
    };
    res.insert_into(&mut c).unwrap();

    let many = PostResource::select_many_from(&c, &Pagination { page_size: 5, page_index: 0 });
    assert!(matches!(many, Err(DbError::UnsupportedOperation)));

    let upd = res.update_into(&c);
    assert!(matches!(upd, Err(DbError::UnsupportedOperation)));

    let key = (post_id, "img".to_string());
    let got = PostResource::select_one_from(&c, &key).unwrap();
    assert_eq!(got.data, vec![9]);
}

#[test]
fn resource_from_rows_drops_payloads() {
    let rows = vec![
        ResourceRowData {
            post_id: 1,
            name: "a".to_string(),
            ty: "text/plain".to_string(),
            data: vec![1, 2],
        },
        ResourceRowData {
            post_id: 2,
            name: "b".to_string(),
            ty: "image/png".to_string(),
            data: vec![3],
        },
    ];
    let out = PostResource::from_rows(&rows);
    assert_eq!(out.len(), 2);
    assert_eq!(out[0].post_id, 1);
    assert_eq!(out[0].name, "a");
    assert_eq!(out[0].ty, "text/plain");
    assert!(out[0].data.is_empty());
    assert_eq!(out[1].post_id, 2);
    assert!(out[1].data.is_empty());
}
