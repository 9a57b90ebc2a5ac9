//! The trusted boundary to the storage engine.
//!
//! The stored state behind a `rusqlite::Connection` is modelled by three
//! uninterpreted content functions: the posts table as a map from identity to
//! row value, the tag table as a set of (post identity, tag name) pairs, and
//! the resource table as a map from (post identity, resource name) to payload.
//! Each wrapper below runs one fixed statement (or one transaction of fixed
//! statements) and states its effect on those contents; everything above this
//! module is verified against these contracts.

use vstd::prelude::*;

use crate::error::DbError;
use crate::fields::valid_update_columns;
use crate::post::{strs_view, PostRowData, PostRowV};
use crate::resource::{ResRowV, ResourceRowData};
use crate::sqlgen::{post_update_sql, tags_insert_sql};

verus! {

#[verifier::external_type_specification]
#[verifier::external_body]
pub struct ExConnection(rusqlite::Connection);

#[verifier::external_type_specification]
#[verifier::external_body]
pub struct ExError(rusqlite::Error);

/// The posts table: server-assigned identity to stored row value.
pub uninterp spec fn db_post_rows(c: rusqlite::Connection) -> Map<int, PostRowV>;

/// The tag table: the set of stored (post identity, tag name) pairs.
pub uninterp spec fn db_tag_rows(c: rusqlite::Connection) -> Set<(int, Seq<char>)>;

/// The resource table: (post identity, resource name) to stored payload.
pub uninterp spec fn db_resource_rows(c: rusqlite::Connection) -> Map<(int, Seq<char>), ResRowV>;

/// No two stored posts share a slug (the unique index on the slug column).
pub open spec fn slug_unique(m: Map<int, PostRowV>) -> bool {
    forall|i: int, j: int|
        m.dom().contains(i) && m.dom().contains(j) && #[trigger] m[i].slug == #[trigger] m[j].slug
            ==> i == j
}

/// Whether some stored post carries this slug.
pub open spec fn slug_present(m: Map<int, PostRowV>, slug: Seq<char>) -> bool {
    exists|i: int| m.dom().contains(i) && #[trigger] m[i].slug == slug
}

/// The tag names stored for one post identity.
pub open spec fn tags_of(c: rusqlite::Connection, id: int) -> Set<Seq<char>> {
    Set::new(|t: Seq<char>| db_tag_rows(c).contains((id, t)))
}

/// The stored tag pairs a tag list contributes for one post identity.
pub open spec fn tag_pairs(id: int, tags: Seq<Seq<char>>) -> Set<(int, Seq<char>)> {
    Set::new(|p: (int, Seq<char>)| p.0 == id && tags.contains(p.1))
}

/// Well-formedness of the stored state, as the schema's constraints enforce
/// it: each row records its own identity, slugs are unique, view counters fit
/// the signed integer column, and every child row references a stored post.
pub open spec fn db_wf(c: rusqlite::Connection) -> bool {
    &&& forall|i: int|
        #[trigger] db_post_rows(c).dom().contains(i) ==> db_post_rows(c)[i].id == i
    &&& slug_unique(db_post_rows(c))
    &&& forall|i: int|
        #[trigger] db_post_rows(c).dom().contains(i) ==> 0 <= db_post_rows(c)[i].views
            <= 0x7fff_ffff_ffff_ffff
    &&& forall|p: (int, Seq<char>)|
        #[trigger] db_tag_rows(c).contains(p) ==> db_post_rows(c).dom().contains(p.0)
    &&& forall|k: (int, Seq<char>)|
        #[trigger] db_resource_rows(c).dom().contains(k) ==> db_post_rows(c).dom().contains(k.0)
}

/// All three tables unchanged between two connection states.
pub open spec fn db_unchanged(c0: rusqlite::Connection, c1: rusqlite::Connection) -> bool {
    &&& db_post_rows(c1) == db_post_rows(c0)
    &&& db_tag_rows(c1) == db_tag_rows(c0)
    &&& db_resource_rows(c1) == db_resource_rows(c0)
}

/// Maps a storage engine failure onto the model layer's error kinds: an empty
/// single-row lookup to `NotFound`, a unique or primary key violation to
/// `UniqueConstraint`, anything else to `Storage` with the engine's message.
/// Called only from the wrapper bodies below.
#[verifier::external_body]
fn classify(e: rusqlite::Error) -> DbError {
    match e {
        rusqlite::Error::QueryReturnedNoRows => DbError::NotFound,
        rusqlite::Error::SqliteFailure(f, _) if f.extended_code
            == rusqlite::ffi::SQLITE_CONSTRAINT_UNIQUE || f.extended_code
            == rusqlite::ffi::SQLITE_CONSTRAINT_PRIMARYKEY => DbError::UniqueConstraint,
        other => DbError::Storage(format!("{other}")),
    }
}

const POST_SCHEMA_SQL: &'static str = "\
    CREATE TABLE IF NOT EXISTS posts (\
        id               INTEGER PRIMARY KEY,\
        title            TEXT NOT NULL,\
        slug             TEXT NOT NULL,\
        author           TEXT NOT NULL,\
        create_timestamp INTEGER NOT NULL,\
        update_timestamp INTEGER NOT NULL,\
        category         TEXT NOT NULL,\
        views            INTEGER NOT NULL,\
        content          TEXT NOT NULL\
    );\
    CREATE UNIQUE INDEX IF NOT EXISTS posts_idx_slug     ON posts (slug);\
    CREATE INDEX IF NOT EXISTS        posts_idx_ts       ON posts (create_timestamp DESC);\
    CREATE INDEX IF NOT EXISTS        posts_idx_category ON posts (category);\
    CREATE INDEX IF NOT EXISTS        posts_idx_views    ON posts (views DESC);\
    CREATE TABLE IF NOT EXISTS posts_tags (\
        post_id  INTEGER NOT NULL REFERENCES posts(id) ON DELETE CASCADE,\
        tag_name TEXT NOT NULL\
    );\
    CREATE INDEX IF NOT EXISTS        posts_tags_idx_tag_name ON posts_tags (tag_name);\
    CREATE UNIQUE INDEX IF NOT EXISTS posts_tags_idx_uniq     ON posts_tags (post_id, tag_name);";

const RESOURCE_SCHEMA_SQL: &'static str = "\
    CREATE TABLE IF NOT EXISTS posts_resources (\
        post_id  INTEGER NOT NULL REFERENCES posts(id) ON DELETE CASCADE,\
        res_name TEXT NOT NULL,\
        res_type TEXT NOT NULL,\
        res_data BLOB NOT NULL\
    );\
    CREATE UNIQUE INDEX IF NOT EXISTS posts_resources_idx_name_uniq ON posts_resources (post_id, res_name);";

const POST_SELECT_SQL: &'static str =
    "SELECT id, title, slug, author, create_timestamp, update_timestamp, category, views, content FROM posts WHERE slug == ?;";

const POST_PAGE_SQL: &'static str =
    "SELECT id, title, slug, author, create_timestamp, update_timestamp, category, views, content FROM posts ORDER BY create_timestamp DESC LIMIT ? OFFSET ?;";

const POST_INSERT_SQL: &'static str =
    "INSERT INTO posts (title, slug, author, create_timestamp, update_timestamp, category, views, content) VALUES (?, ?, ?, ?, ?, ?, 0, ?);";

const POST_DELETE_SQL: &'static str = "DELETE FROM posts WHERE slug == ?;";

const TAGS_SELECT_SQL: &'static str = "SELECT tag_name FROM posts_tags WHERE post_id == ?;";

const TAGS_DELETE_SQL: &'static str = "DELETE FROM posts_tags WHERE post_id == ?;";

const VIEWS_BUMP_SQL: &'static str = "UPDATE posts SET views = views + 1 WHERE id == ?;";

const VIEWS_SELECT_SQL: &'static str = "SELECT views FROM posts WHERE id == ?;";

const RESOURCE_SELECT_SQL: &'static str =
    "SELECT post_id, res_name, res_type, res_data FROM posts_resources WHERE post_id == ? AND res_name == ?;";

const RESOURCE_INSERT_SQL: &'static str =
    "INSERT INTO posts_resources (post_id, res_name, res_type, res_data) VALUES (?, ?, ?, ?);";

const RESOURCE_DELETE_SQL: &'static str =
    "DELETE FROM posts_resources WHERE post_id == ? AND res_name == ?;";

/// Relies on rusqlite::Connection::open_in_memory — a fresh, empty database —
/// and execute_batch enabling foreign-key enforcement, so that child rows
/// cascade with their post.
#[verifier::external_body]
pub fn open_memory_db() -> (r: Result<rusqlite::Connection, DbError>)
    ensures
        r matches Ok(c) ==> {
            &&& db_post_rows(c) == Map::<int, PostRowV>::empty()
            &&& db_tag_rows(c) == Set::<(int, Seq<char>)>::empty()
            &&& db_resource_rows(c) == Map::<(int, Seq<char>), ResRowV>::empty()
        },
{
    let conn = rusqlite::Connection::open_in_memory().map_err(classify)?;
    conn.execute_batch("PRAGMA foreign_keys = ON;").map_err(classify)?;
    Ok(conn)
}

/// Relies on Connection::execute_batch with CREATE ... IF NOT EXISTS only:
/// idempotent, never touches stored rows.
#[verifier::external_body]
pub(crate) fn exec_init_post_schema(c: &rusqlite::Connection) -> (r: Result<(), DbError>)
    ensures
        r matches Err(e) ==> e is Storage,
{
    c.execute_batch(POST_SCHEMA_SQL).map_err(classify)
}

/// Relies on Connection::execute_batch with CREATE ... IF NOT EXISTS only:
/// idempotent, never touches stored rows.
#[verifier::external_body]
pub(crate) fn exec_init_resource_schema(c: &rusqlite::Connection) -> (r: Result<(), DbError>)
    ensures
        r matches Err(e) ==> e is Storage,
{
    c.execute_batch(RESOURCE_SCHEMA_SQL).map_err(classify)
}

/// Relies on Connection::query_row with a keyed single-row SELECT on the
/// unique slug index: returns the matching row, or QueryReturnedNoRows
/// (mapped to NotFound) when no row carries the slug.
#[verifier::external_body]
pub(crate) fn exec_select_post_row(c: &rusqlite::Connection, slug: &str) -> (r: Result<
    PostRowData,
    DbError,
>)
    ensures
        r matches Ok(d) ==> {
            &&& db_post_rows(*c).dom().contains(d.id as int)
            &&& db_post_rows(*c)[d.id as int] == d.row_view()
            &&& d.slug@ == slug@
        },
        r matches Err(e) ==> {
            &&& (e is NotFound ==> !slug_present(db_post_rows(*c), slug@))
            &&& (e is NotFound || e is Storage)
        },
{
    c.query_row(POST_SELECT_SQL, (slug,), |row| {
        Ok(PostRowData {
            id: row.get(0)?, title: row.get(1)?, slug: row.get(2)?, author: row.get(3)?,
            create_timestamp: row.get(4)?, update_timestamp: row.get(5)?,
            category: row.get(6)?, views: row.get::<_, i64>(7)? as u64, content: row.get(8)?,
        })
    }).map_err(classify)
}

/// Relies on Statement::query_map over the tag table keyed by post identity;
/// the unique index on (post_id, tag_name) makes the result duplicate-free.
#[verifier::external_body]
pub(crate) fn exec_select_post_tags(c: &rusqlite::Connection, id: i64) -> (r: Result<
    Vec<String>,
    DbError,
>)
    ensures
        r matches Ok(v) ==> {
            &&& strs_view(v@).no_duplicates()
            &&& strs_view(v@).to_set() == tags_of(*c, id as int)
        },
        r matches Err(e) ==> e is Storage,
{
    let mut stmt = c.prepare_cached(TAGS_SELECT_SQL).map_err(classify)?;
    let rows = stmt.query_map((id,), |row| row.get::<_, String>(0)).map_err(classify)?;
    rows.collect::<Result<Vec<String>, _>>().map_err(classify)
}

/// All stored post rows, as a duplicate-free sequence.
pub open spec fn all_rows_of(m: Map<int, PostRowV>, all: Seq<PostRowV>) -> bool {
    &&& all.no_duplicates()
    &&& forall|r: PostRowV| #[trigger] all.contains(r) <==> m.dom().contains(r.id) && m[r.id] == r
}

/// Non-increasing creation timestamps.
pub open spec fn sorted_by_create_desc(all: Seq<PostRowV>) -> bool {
    forall|i: int, j: int|
        0 <= i < j < all.len() ==> #[trigger] all[i].create_timestamp
            >= #[trigger] all[j].create_timestamp
}

/// The limit/offset window over a sequence.
pub open spec fn window_of(all: Seq<PostRowV>, offset: int, limit: int) -> Seq<PostRowV> {
    if offset >= all.len() {
        Seq::empty()
    } else if offset + limit >= all.len() {
        all.subrange(offset, all.len() as int)
    } else {
        all.subrange(offset, offset + limit)
    }
}

/// `page` is the limit/offset window of some ordering of all stored posts by
/// creation timestamp, descending. Rows with equal timestamps may come in any
/// order.
pub open spec fn page_of(m: Map<int, PostRowV>, offset: int, limit: int, page: Seq<PostRowV>) -> bool {
    exists|all: Seq<PostRowV>|
        all_rows_of(m, all) && sorted_by_create_desc(all) && page == #[trigger] window_of(
            all,
            offset,
            limit,
        )
}

/// Relies on a SELECT ordered by create_timestamp DESC with LIMIT/OFFSET: the
/// returned rows are the requested window of the ordered table; an
/// out-of-range window is empty, never an error.
#[verifier::external_body]
pub(crate) fn exec_select_post_page(c: &rusqlite::Connection, limit: i64, offset: i64) -> (r:
    Result<Vec<PostRowData>, DbError>)
    requires
        limit >= 0,
        offset >= 0,
    ensures
        r matches Ok(v) ==> page_of(
            db_post_rows(*c),
            offset as int,
            limit as int,
            v@.map_values(|d: PostRowData| d.row_view()),
        ),
        r matches Err(e) ==> e is Storage,
{
    let mut stmt = c.prepare_cached(POST_PAGE_SQL).map_err(classify)?;
    let rows = stmt.query_map((limit, offset), |row| {
        Ok(PostRowData {
            id: row.get(0)?, title: row.get(1)?, slug: row.get(2)?, author: row.get(3)?,
            create_timestamp: row.get(4)?, update_timestamp: row.get(5)?,
            category: row.get(6)?, views: row.get::<_, i64>(7)? as u64, content: row.get(8)?,
        })
    }).map_err(classify)?;
    rows.collect::<Result<Vec<PostRowData>, _>>().map_err(classify)
}

/// Relies on one transaction inserting the primary row (a parameterized
/// INSERT with a literal 0 view counter; last_insert_rowid gives the fresh
/// identity) and, for a non-empty tag list, the bulk tag insert built by
/// `tags_insert_sql`; the unique slug index rejects a collision, and the
/// transaction rolls back on any failure when dropped uncommitted.
#[verifier::external_body]
pub(crate) fn exec_insert_post(
    c: &mut rusqlite::Connection,
    title: &String,
    slug: &String,
    author: &String,
    ts: i64,
    category: &String,
    content: &String,
    tags: &Vec<String>,
    tags_sql: &String,
) -> (r: Result<i64, DbError>)
    requires
        strs_view(tags@).no_duplicates(),
        tags@.len() >= 1 ==> tags_sql@ == tags_insert_sql(tags@.len()),
    ensures
        r matches Ok(id) ==> {
            &&& !db_post_rows(*old(c)).dom().contains(id as int)
            &&& !slug_present(db_post_rows(*old(c)), slug@)
            &&& db_post_rows(*final(c)) == db_post_rows(*old(c)).insert(
                id as int,
                PostRowV {
                    id: id as int,
                    title: title@,
                    slug: slug@,
                    author: author@,
                    create_timestamp: ts as int,
                    update_timestamp: ts as int,
                    category: category@,
                    views: 0,
                    content: content@,
                },
            )
            &&& db_tag_rows(*final(c)) == db_tag_rows(*old(c)) + tag_pairs(
                id as int,
                strs_view(tags@),
            )
            &&& db_resource_rows(*final(c)) == db_resource_rows(*old(c))
        },
        r matches Err(e) ==> {
            &&& db_unchanged(*old(c), *final(c))
            &&& (e is UniqueConstraint ==> slug_present(db_post_rows(*old(c)), slug@))
            &&& (e is UniqueConstraint || e is Storage)
        },
{
    let tx = c.transaction().map_err(classify)?;
    tx.execute(POST_INSERT_SQL, (title, slug, author, ts, ts, category, content))
        .map_err(classify)?;
    let id = tx.last_insert_rowid();
    if !tags.is_empty() {
        let mut ps: Vec<&dyn rusqlite::ToSql> = vec![&id];
        for t in tags.iter() { ps.push(t); }
        tx.execute(tags_sql.as_str(), &ps[..]).map_err(classify)?;
    }
    tx.commit().map_err(classify)?;
    Ok(id)
}

/// The row after a masked update: every column in `cols` replaced by its
/// value in `vals` (later entries win), applied in order.
pub open spec fn apply_columns(row: PostRowV, cols: Seq<Seq<char>>, vals: Seq<Seq<char>>) -> PostRowV
    decreases cols.len(),
{
    if cols.len() == 0 || cols.len() != vals.len() {
        row
    } else {
        apply_one_column(apply_columns(row, cols.drop_last(), vals.drop_last()), cols.last(), vals.last())
    }
}

/// One column of a post row replaced by a new value.
pub open spec fn apply_one_column(row: PostRowV, col: Seq<char>, val: Seq<char>) -> PostRowV {
    if col == "title"@ {
        PostRowV { title: val, ..row }
    } else if col == "slug"@ {
        PostRowV { slug: val, ..row }
    } else if col == "author"@ {
        PostRowV { author: val, ..row }
    } else if col == "category"@ {
        PostRowV { category: val, ..row }
    } else if col == "content"@ {
        PostRowV { content: val, ..row }
    } else {
        row
    }
}

/// The row a masked update stores: the flagged columns replaced, and the
/// update timestamp refreshed.
pub open spec fn updated_row(
    row: PostRowV,
    cols: Seq<Seq<char>>,
    vals: Seq<Seq<char>>,
    ts: int,
) -> PostRowV {
    PostRowV { update_timestamp: ts, ..apply_columns(row, cols, vals) }
}

proof fn lemma_apply_columns_fixed(row: PostRowV, cols: Seq<Seq<char>>, vals: Seq<Seq<char>>)
    ensures
        apply_columns(row, cols, vals).id == row.id,
        apply_columns(row, cols, vals).create_timestamp == row.create_timestamp,
        apply_columns(row, cols, vals).views == row.views,
    decreases cols.len(),
{
    if cols.len() == 0 || cols.len() != vals.len() {
    } else {
        lemma_apply_columns_fixed(row, cols.drop_last(), vals.drop_last());
    }
}

/// A masked update never moves the identity, the creation timestamp, or the
/// view counter: no column list reaches them.
pub proof fn lemma_updated_row_fixed_fields(
    row: PostRowV,
    cols: Seq<Seq<char>>,
    vals: Seq<Seq<char>>,
    ts: int,
)
    ensures
        updated_row(row, cols, vals, ts).id == row.id,
        updated_row(row, cols, vals, ts).create_timestamp == row.create_timestamp,
        updated_row(row, cols, vals, ts).views == row.views,
{
    lemma_apply_columns_fixed(row, cols, vals);
}

/// Relies on one transaction running the masked UPDATE built by
/// `post_update_sql` (identifiers only from the fixed column list, all values
/// parameter-bound, the row keyed by identity) and, when a replacement tag
/// list is given, a DELETE of the old tag rows then the bulk tag insert. The
/// unique slug index rejects a slug collision; foreign keys reject tag rows
/// for an absent post; the transaction rolls back on any failure.
#[verifier::external_body]
pub(crate) fn exec_update_post(
    c: &mut rusqlite::Connection,
    id: i64,
    ts: i64,
    sql: &String,
    cols: &Vec<String>,
    vals: &Vec<String>,
    tags: Option<&Vec<String>>,
    tags_sql: &String,
) -> (r: Result<(), DbError>)
    requires
        db_wf(*old(c)),
        sql@ == post_update_sql(strs_view(cols@)),
        valid_update_columns(strs_view(cols@)),
        cols@.len() == vals@.len(),
        tags matches Some(t) ==> strs_view(t@).no_duplicates() && (t@.len() >= 1 ==> tags_sql@
            == tags_insert_sql(t@.len())),
    ensures
        r matches Ok(_) ==> if db_post_rows(*old(c)).dom().contains(id as int) {
            &&& db_post_rows(*final(c)) == db_post_rows(*old(c)).insert(
                id as int,
                updated_row(
                    db_post_rows(*old(c))[id as int],
                    strs_view(cols@),
                    strs_view(vals@),
                    ts as int,
                ),
            )
            &&& !(exists|j: int|
                j != id as int && db_post_rows(*old(c)).dom().contains(j) && #[trigger] db_post_rows(
                    *old(c),
                )[j].slug == updated_row(
                    db_post_rows(*old(c))[id as int],
                    strs_view(cols@),
                    strs_view(vals@),
                    ts as int,
                ).slug)
            &&& db_tag_rows(*final(c)) == (match tags {
                Some(t) => db_tag_rows(*old(c)).filter(|p: (int, Seq<char>)| p.0 != id as int)
                    + tag_pairs(id as int, strs_view(t@)),
                None => db_tag_rows(*old(c)),
            })
            &&& db_resource_rows(*final(c)) == db_resource_rows(*old(c))
        } else {
            db_unchanged(*old(c), *final(c))
        },
        r matches Err(e) ==> {
            &&& db_unchanged(*old(c), *final(c))
            &&& (e is UniqueConstraint || e is Storage)
        },
{
    let tx = c.transaction().map_err(classify)?;
    let mut ps: Vec<&dyn rusqlite::ToSql> = vec![&ts];
    for v in vals.iter() { ps.push(v); }
    ps.push(&id);
    tx.execute(sql.as_str(), &ps[..]).map_err(classify)?;
    if let Some(t) = tags {
        tx.execute(TAGS_DELETE_SQL, (id,)).map_err(classify)?;
        let mut tp: Vec<&dyn rusqlite::ToSql> = vec![&id];
        for tag in t.iter() { tp.push(tag); }
        if !t.is_empty() { tx.execute(tags_sql.as_str(), &tp[..]).map_err(classify)?; }
    }
    tx.commit().map_err(classify)?;
    Ok(())
}

/// Relies on one parameterized DELETE keyed by slug; ON DELETE CASCADE (with
/// foreign keys enabled at open) removes the post's tag and resource rows in
/// the same atomic statement. Deleting an absent slug succeeds and changes
/// nothing.
#[verifier::external_body]
pub(crate) fn exec_delete_post(c: &mut rusqlite::Connection, slug: &str) -> (r: Result<(), DbError>)
    requires
        db_wf(*old(c)),
    ensures
        r matches Ok(_) ==> {
            &&& db_post_rows(*final(c)) == Map::<int, PostRowV>::new(
                |i: int| db_post_rows(*old(c)).dom().contains(i) && db_post_rows(*old(c))[i].slug
                    != slug@,
                |i: int| db_post_rows(*old(c))[i],
            )
            &&& db_tag_rows(*final(c)) == db_tag_rows(*old(c)).filter(
                |p: (int, Seq<char>)| db_post_rows(*old(c)).dom().contains(p.0) && db_post_rows(
                    *old(c),
                )[p.0].slug != slug@,
            )
            &&& db_resource_rows(*final(c)) == Map::<(int, Seq<char>), ResRowV>::new(
                |k: (int, Seq<char>)| db_resource_rows(*old(c)).dom().contains(k)
                    && db_post_rows(*old(c))[k.0].slug != slug@,
                |k: (int, Seq<char>)| db_resource_rows(*old(c))[k],
            )
        },
        r matches Err(e) ==> {
            &&& db_unchanged(*old(c), *final(c))
            &&& e is Storage
        },
{
    c.execute(POST_DELETE_SQL, (slug,)).map_err(classify)?;
    Ok(())
}

/// Relies on one transaction bumping the view counter in place (an UPDATE
/// computing views + 1 inside the engine, so no concurrent increment is
/// lost) and reading the new value back; the row is keyed by identity.
#[verifier::external_body]
pub(crate) fn exec_increase_views(c: &mut rusqlite::Connection, id: i64) -> (r: Result<
    u64,
    DbError,
>)
    requires
        db_wf(*old(c)),
    ensures
        r matches Ok(v) ==> {
            &&& db_post_rows(*old(c)).dom().contains(id as int)
            &&& db_post_rows(*old(c))[id as int].views < 0x7fff_ffff_ffff_ffff
            &&& v as int == db_post_rows(*old(c))[id as int].views + 1
            &&& db_post_rows(*final(c)) == db_post_rows(*old(c)).insert(
                id as int,
                PostRowV { views: v as int, ..db_post_rows(*old(c))[id as int] },
            )
            &&& db_tag_rows(*final(c)) == db_tag_rows(*old(c))
            &&& db_resource_rows(*final(c)) == db_resource_rows(*old(c))
        },
        r matches Err(e) ==> {
            &&& db_unchanged(*old(c), *final(c))
            &&& (e is NotFound ==> !db_post_rows(*old(c)).dom().contains(id as int))
            &&& (e is NotFound || e is Storage)
        },
{
    let tx = c.transaction().map_err(classify)?;
    tx.execute(VIEWS_BUMP_SQL, (id,)).map_err(classify)?;
    let views = tx.query_row(VIEWS_SELECT_SQL, (id,), |row| row.get::<_, i64>(0)).map_err(classify)?;
    tx.commit().map_err(classify)?;
    Ok(views as u64)
}

/// Relies on Connection::query_row with the composite-keyed single-row SELECT
/// on the resource table's unique index.
#[verifier::external_body]
pub(crate) fn exec_select_resource(c: &rusqlite::Connection, post_id: i64, name: &str) -> (r:
    Result<ResourceRowData, DbError>)
    ensures
        r matches Ok(d) ==> {
            &&& db_resource_rows(*c).dom().contains((post_id as int, name@))
            &&& db_resource_rows(*c)[(post_id as int, name@)] == d.res_view()
            &&& d.post_id == post_id
            &&& d.name@ == name@
        },
        r matches Err(e) ==> {
            &&& (e is NotFound ==> !db_resource_rows(*c).dom().contains((post_id as int, name@)))
            &&& (e is NotFound || e is Storage)
        },
{
    c.query_row(RESOURCE_SELECT_SQL, (post_id, name), |row| {
        Ok(ResourceRowData {
            post_id: row.get(0)?,
            name: row.get(1)?,
            ty: row.get(2)?,
            data: row.get(3)?,
        })
    }).map_err(classify)
}

/// Relies on one parameterized INSERT into the resource table: the unique
/// index on (post_id, res_name) rejects a key collision, and the foreign key
/// rejects a resource for an absent post.
#[verifier::external_body]
pub(crate) fn exec_insert_resource(
    c: &mut rusqlite::Connection,
    post_id: i64,
    name: &String,
    ty: &String,
    data: &Vec<u8>,
) -> (r: Result<(), DbError>)
    ensures
        r matches Ok(_) ==> {
            &&& !db_resource_rows(*old(c)).dom().contains((post_id as int, name@))
            &&& db_post_rows(*old(c)).dom().contains(post_id as int)
            &&& db_resource_rows(*final(c)) == db_resource_rows(*old(c)).insert(
                (post_id as int, name@),
                ResRowV { ty: ty@, data: data@ },
            )
            &&& db_post_rows(*final(c)) == db_post_rows(*old(c))
            &&& db_tag_rows(*final(c)) == db_tag_rows(*old(c))
        },
        r matches Err(e) ==> {
            &&& db_unchanged(*old(c), *final(c))
            &&& (e is UniqueConstraint ==> db_resource_rows(*old(c)).dom().contains(
                (post_id as int, name@),
            ))
            &&& (e is UniqueConstraint || e is Storage)
        },
{
    c.execute(RESOURCE_INSERT_SQL, (post_id, name, ty, data)).map_err(classify)?;
    Ok(())
}

/// Relies on one parameterized DELETE keyed by the composite key; deleting an
/// absent key succeeds and changes nothing.
#[verifier::external_body]
pub(crate) fn exec_delete_resource(c: &mut rusqlite::Connection, post_id: i64, name: &str) -> (r:
    Result<(), DbError>)
    ensures
        r matches Ok(_) ==> {
            &&& db_resource_rows(*final(c)) == db_resource_rows(*old(c)).remove(
                (post_id as int, name@),
            )
            &&& db_post_rows(*final(c)) == db_post_rows(*old(c))
            &&& db_tag_rows(*final(c)) == db_tag_rows(*old(c))
        },
        r matches Err(e) ==> {
            &&& db_unchanged(*old(c), *final(c))
            &&& e is Storage
        },
{
    c.execute(RESOURCE_DELETE_SQL, (post_id, name)).map_err(classify)?;
    Ok(())
}

/// Relies on time::OffsetDateTime::now_utc and unix_timestamp: the wall
/// clock, in whole seconds since the Unix epoch. Nothing can be promised of
/// the value.
#[verifier::external_body]
pub(crate) fn now_utc_unix_timestamp() -> i64 {
    time::OffsetDateTime::now_utc().unix_timestamp()
}

} // verus!
