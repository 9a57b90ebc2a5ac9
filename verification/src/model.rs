//! The model contract: the uniform CRUD operations per entity type, verified
//! against the stored-state model of `db`.

use vstd::prelude::*;

use crate::db::{
    db_post_rows, db_resource_rows, db_tag_rows, db_unchanged, db_wf, exec_delete_post,
    exec_delete_resource, exec_increase_views, exec_init_post_schema, exec_init_resource_schema,
    exec_insert_post, exec_insert_resource, exec_select_post_page, exec_select_post_row,
    exec_select_post_tags, exec_select_resource, exec_update_post, now_utc_unix_timestamp,
    page_of, slug_present, tag_pairs, tags_of, updated_row,
};
use crate::error::DbError;
use crate::fields::{lemma_masked_cols_valid, masked_cols, masked_columns_values, masked_vals};
use crate::mask::PostUpdateMask;
use crate::post::{strs_view, Post, PostRowData, PostRowV};
use crate::resource::{PostResource, ResRowV, ResourceRowData};
use crate::sqlgen::{build_post_update_sql, build_tags_insert_sql};
use crate::Pagination;

verus! {

/// The row an insert stores for a post: its fields, with a zero view counter.
pub open spec fn stored_row_on_insert(p: Post) -> PostRowV {
    PostRowV { views: 0, ..p.row_view() }
}

/// How a successful insert relates the old and new stored state and the old
/// and new in-memory post: the post gains a fresh identity and both
/// timestamps, its primary row (with a zero view counter) and its tag rows
/// are stored, and nothing else changes.
pub open spec fn post_inserted(
    c0: rusqlite::Connection,
    c1: rusqlite::Connection,
    p0: Post,
    p1: Post,
    ts: int,
) -> bool {
    &&& p1 == (Post {
        id: p1.id,
        create_timestamp: p1.create_timestamp,
        update_timestamp: p1.update_timestamp,
        ..p0
    })
    &&& p1.create_timestamp as int == ts
    &&& p1.update_timestamp as int == ts
    &&& !db_post_rows(c0).dom().contains(p1.id as int)
    &&& !slug_present(db_post_rows(c0), p0.slug@)
    &&& db_post_rows(c1) == db_post_rows(c0).insert(p1.id as int, stored_row_on_insert(p1))
    &&& db_tag_rows(c1) == db_tag_rows(c0) + tag_pairs(p1.id as int, p1.tags_view())
    &&& db_resource_rows(c1) == db_resource_rows(c0)
}

/// What a successful single-post lookup returns: the stored row carrying the
/// slug, hydrated with exactly the stored tag set.
pub open spec fn selected_post(c: rusqlite::Connection, slug: Seq<char>, p: Post) -> bool {
    &&& db_post_rows(c).dom().contains(p.id as int)
    &&& db_post_rows(c)[p.id as int] == p.row_view()
    &&& p.slug@ == slug
    &&& p.tags_view().no_duplicates()
    &&& p.tag_set() == tags_of(c, p.id as int)
}

/// How a successful masked update relates the old and new stored state and
/// the old and new in-memory post. An empty mask changes nothing. Otherwise
/// the stored row keyed by the post's identity has exactly the flagged
/// columns replaced and the update timestamp refreshed; when the tags flag is
/// set the stored tag set is replaced wholesale; an absent identity leaves
/// storage unchanged.
pub open spec fn post_updated(
    c0: rusqlite::Connection,
    c1: rusqlite::Connection,
    p0: Post,
    p1: Post,
    m: PostUpdateMask,
    ts: int,
) -> bool {
    if m.spec_is_empty() {
        db_unchanged(c0, c1) && p1 == p0
    } else {
        &&& p1 == (Post { update_timestamp: p1.update_timestamp, ..p0 })
        &&& p1.update_timestamp as int == ts
        &&& db_resource_rows(c1) == db_resource_rows(c0)
        &&& if db_post_rows(c0).dom().contains(p0.id as int) {
            &&& db_post_rows(c1) == db_post_rows(c0).insert(
                p0.id as int,
                updated_row(
                    db_post_rows(c0)[p0.id as int],
                    masked_cols(m),
                    masked_vals(m, p0),
                    ts,
                ),
            )
            &&& db_tag_rows(c1) == if m.tags {
                db_tag_rows(c0).filter(|q: (int, Seq<char>)| q.0 != p0.id as int) + tag_pairs(
                    p0.id as int,
                    p0.tags_view(),
                )
            } else {
                db_tag_rows(c0)
            }
        } else {
            db_post_rows(c1) == db_post_rows(c0) && db_tag_rows(c1) == db_tag_rows(c0)
        }
    }
}

/// How a successful delete by slug relates the old and new stored state: the
/// post carrying the slug is gone, and with it all of its tag rows and
/// resource rows; every other row stays.
pub open spec fn post_deleted(
    c0: rusqlite::Connection,
    c1: rusqlite::Connection,
    slug: Seq<char>,
) -> bool {
    &&& db_post_rows(c1) == Map::<int, PostRowV>::new(
        |i: int| db_post_rows(c0).dom().contains(i) && db_post_rows(c0)[i].slug != slug,
        |i: int| db_post_rows(c0)[i],
    )
    &&& db_tag_rows(c1) == db_tag_rows(c0).filter(
        |q: (int, Seq<char>)| db_post_rows(c0).dom().contains(q.0) && db_post_rows(c0)[q.0].slug
            != slug,
    )
    &&& db_resource_rows(c1) == Map::<(int, Seq<char>), ResRowV>::new(
        |k: (int, Seq<char>)| db_resource_rows(c0).dom().contains(k) && db_post_rows(c0)[k.0].slug
            != slug,
        |k: (int, Seq<char>)| db_resource_rows(c0)[k],
    )
}

/// One view-counter increment on the posts table: the counter of the row
/// keyed by `id` grows by exactly one and nothing else moves.
pub open spec fn views_bumped(m0: Map<int, PostRowV>, m1: Map<int, PostRowV>, id: int) -> bool {
    &&& m0.dom().contains(id)
    &&& m0[id].views < 0x7fff_ffff_ffff_ffff
    &&& m1 == m0.insert(id, PostRowV { views: m0[id].views + 1, ..m0[id] })
}

proof fn lemma_wf_after_insert(
    c0: rusqlite::Connection,
    c1: rusqlite::Connection,
    id: int,
    row: PostRowV,
    tags: Seq<Seq<char>>,
)
    requires
        db_wf(c0),
        !db_post_rows(c0).dom().contains(id),
        !slug_present(db_post_rows(c0), row.slug),
        row.id == id,
        row.views == 0,
        db_post_rows(c1) == db_post_rows(c0).insert(id, row),
        db_tag_rows(c1) == db_tag_rows(c0) + tag_pairs(id, tags),
        db_resource_rows(c1) == db_resource_rows(c0),
    ensures
        db_wf(c1),
{
    let m0 = db_post_rows(c0);
    let m1 = db_post_rows(c1);
    assert forall|i: int, j: int|
        m1.dom().contains(i) && m1.dom().contains(j) && #[trigger] m1[i].slug == #[trigger] m1[j].slug implies i
        == j by {
        if i != id && j != id {
            assert(m1[i] == m0[i]);
            assert(m1[j] == m0[j]);
        } else if i == id && j != id {
            assert(m0[j].slug == row.slug);
            assert(slug_present(m0, row.slug));
        } else if i != id && j == id {
            assert(m0[i].slug == row.slug);
            assert(slug_present(m0, row.slug));
        }
    }
    assert forall|p: (int, Seq<char>)| #[trigger] db_tag_rows(c1).contains(p) implies m1.dom().contains(
        p.0,
    ) by {
        if db_tag_rows(c0).contains(p) {
        } else {
            assert(tag_pairs(id, tags).contains(p));
        }
    }
}

proof fn lemma_wf_after_update(
    c0: rusqlite::Connection,
    c1: rusqlite::Connection,
    id: int,
    row: PostRowV,
    tags: Option<Seq<Seq<char>>>,
)
    requires
        db_wf(c0),
        db_post_rows(c0).dom().contains(id),
        row.id == db_post_rows(c0)[id].id,
        row.views == db_post_rows(c0)[id].views,
        !(exists|j: int|
            j != id && db_post_rows(c0).dom().contains(j) && #[trigger] db_post_rows(c0)[j].slug
                == row.slug),
        db_post_rows(c1) == db_post_rows(c0).insert(id, row),
        db_tag_rows(c1) == (match tags {
            Some(t) => db_tag_rows(c0).filter(|q: (int, Seq<char>)| q.0 != id) + tag_pairs(id, t),
            None => db_tag_rows(c0),
        }),
        db_resource_rows(c1) == db_resource_rows(c0),
    ensures
        db_wf(c1),
{
    let m0 = db_post_rows(c0);
    let m1 = db_post_rows(c1);
    assert(m1.dom() =~= m0.dom());
    assert forall|i: int, j: int|
        m1.dom().contains(i) && m1.dom().contains(j) && #[trigger] m1[i].slug == #[trigger] m1[j].slug implies i
        == j by {
        if i != id && j != id {
            assert(m1[i] == m0[i]);
            assert(m1[j] == m0[j]);
        } else if i == id && j != id {
            assert(m0[j].slug == row.slug);
        } else if i != id && j == id {
            assert(m0[i].slug == row.slug);
        }
    }
    assert forall|p: (int, Seq<char>)| #[trigger] db_tag_rows(c1).contains(p) implies m1.dom().contains(
        p.0,
    ) by {
        match tags {
            Some(t) => {
                if db_tag_rows(c0).filter(|q: (int, Seq<char>)| q.0 != id).contains(p) {
                    assert(db_tag_rows(c0).contains(p));
                } else {
                    assert(tag_pairs(id, t).contains(p));
                }
            },
            None => {},
        }
    }
}

proof fn lemma_wf_after_delete(c0: rusqlite::Connection, c1: rusqlite::Connection, slug: Seq<char>)
    requires
        db_wf(c0),
        post_deleted(c0, c1, slug),
    ensures
        db_wf(c1),
{
    let m0 = db_post_rows(c0);
    let m1 = db_post_rows(c1);
    assert forall|p: (int, Seq<char>)| #[trigger] db_tag_rows(c1).contains(p) implies m1.dom().contains(
        p.0,
    ) by {
        assert(db_tag_rows(c0).contains(p));
    }
    assert forall|k: (int, Seq<char>)| #[trigger] db_resource_rows(c1).dom().contains(k) implies m1.dom().contains(
        k.0,
    ) by {
        assert(db_resource_rows(c0).dom().contains(k));
    }
}

proof fn lemma_delete_absent_is_noop(
    c0: rusqlite::Connection,
    c1: rusqlite::Connection,
    slug: Seq<char>,
)
    requires
        db_wf(c0),
        post_deleted(c0, c1, slug),
        !slug_present(db_post_rows(c0), slug),
    ensures
        db_unchanged(c0, c1),
{
    let m0 = db_post_rows(c0);
    let m1 = db_post_rows(c1);
    assert forall|i: int| m0.dom().contains(i) implies m0[i].slug != slug by {
        if m0[i].slug == slug {
            assert(slug_present(m0, slug));
        }
    }
    assert(m1 =~= m0);
    assert forall|p: (int, Seq<char>)| db_tag_rows(c0).contains(p) implies #[trigger] db_tag_rows(
        c1,
    ).contains(p) by {
        assert(m0.dom().contains(p.0));
    }
    assert(db_tag_rows(c1) =~= db_tag_rows(c0));
    assert forall|k: (int, Seq<char>)| db_resource_rows(c0).dom().contains(k) implies #[trigger] db_resource_rows(
        c1,
    ).dom().contains(k) by {
        assert(m0.dom().contains(k.0));
    }
    assert(db_resource_rows(c1) =~= db_resource_rows(c0));
}

impl Post {
    /// Idempotently ensures the post and tag tables and their indexes exist;
    /// never touches stored rows.
    pub fn init_db_schema(c: &rusqlite::Connection) -> (r: Result<(), DbError>)
        ensures
            r matches Err(e) ==> e is Storage,
    {
        exec_init_post_schema(c)
    }

    /// Decodes one raw primary row into a post with an empty tag list.
    pub fn from_row(d: &PostRowData) -> (p: Post)
        ensures
            p.row_view() == d.row_view(),
            p.tags@.len() == 0,
    {
        Post {
            id: d.id,
            title: d.title.clone(),
            slug: d.slug.clone(),
            author: d.author.clone(),
            create_timestamp: d.create_timestamp,
            update_timestamp: d.update_timestamp,
            category: d.category.clone(),
            tags: Vec::new(),
            views: d.views,
            content: d.content.clone(),
        }
    }

    /// Looks up exactly one post by slug and hydrates its tag set. Fails with
    /// NotFound if and only if no stored post carries the slug (storage
    /// faults aside).
    pub fn select_one_from(c: &rusqlite::Connection, slug: &str) -> (r: Result<Post, DbError>)
        requires
            db_wf(*c),
        ensures
            match r {
                Ok(p) => selected_post(*c, slug@, p) && p.valid(),
                Err(e) => {
                    &&& (e is NotFound ==> !slug_present(db_post_rows(*c), slug@))
                    &&& (e is NotFound || e is Storage)
                },
            },
    {
        let d = match exec_select_post_row(c, slug) {
            Ok(d) => d,
            Err(e) => {
                return Err(e);
            },
        };
        let mut p = Post::from_row(&d);
        match select_tags_for_post(c, &mut p) {
            Ok(()) => Ok(p),
            Err(e) => Err(e),
        }
    }

    /// Returns one page of posts ordered by creation time, descending; an
    /// out-of-range page is empty, never an error. Pages carry primary rows
    /// only: tag lists come back empty (hydration is `select_one_from`'s).
    pub fn select_many_from(c: &rusqlite::Connection, pagination: &Pagination) -> (r: Result<
        Vec<Post>,
        DbError,
    >)
        requires
            pagination.spec_skip_count() <= 0x7fff_ffff_ffff_ffff,
        ensures
            match r {
                Ok(v) => {
                    &&& page_of(
                        db_post_rows(*c),
                        pagination.spec_skip_count(),
                        pagination.page_size as int,
                        v@.map_values(|p: Post| p.row_view()),
                    )
                    &&& forall|k: int| 0 <= k < v@.len() ==> (#[trigger] v@[k]).tags@.len() == 0
                },
                Err(e) => e is Storage,
            },
    {
        let limit = pagination.page_size as i64;
        let offset = pagination.skip_count() as i64;
        let rows = match exec_select_post_page(c, limit, offset) {
            Ok(rows) => rows,
            Err(e) => {
                return Err(e);
            },
        };
        let mut out: Vec<Post> = Vec::new();
        let mut i: usize = 0;
        while i < rows.len()
            invariant
                i <= rows@.len(),
                out@.len() == i,
                forall|k: int|
                    0 <= k < i ==> (#[trigger] out@[k]).row_view() == rows@[k].row_view()
                        && out@[k].tags@.len() == 0,
            decreases rows@.len() - i,
        {
            let p = Post::from_row(&rows[i]);
            out.push(p);
            i += 1;
        }
        proof {
            assert(out@.map_values(|p: Post| p.row_view()) =~= rows@.map_values(
                |d: PostRowData| d.row_view(),
            ));
        }
        Ok(out)
    }

    /// Inserts the post at the given creation timestamp: assigns the fresh
    /// server identity and both timestamps onto the entity, stores its
    /// primary row (view counter zero) and tag rows atomically, and fails
    /// with UniqueConstraint whenever the slug is taken.
    pub fn insert_into_at(&mut self, c: &mut rusqlite::Connection, ts: i64) -> (r: Result<
        (),
        DbError,
    >)
        requires
            old(self).valid(),
            db_wf(*old(c)),
        ensures
            db_wf(*final(c)),
            final(self).valid(),
            match r {
                Ok(_) => post_inserted(*old(c), *final(c), *old(self), *final(self), ts as int),
                Err(e) => {
                    &&& db_unchanged(*old(c), *final(c))
                    &&& *final(self) == *old(self)
                    &&& (e is UniqueConstraint ==> slug_present(
                        db_post_rows(*old(c)),
                        old(self).slug@,
                    ))
                    &&& (e is UniqueConstraint || e is Storage)
                },
            },
            slug_present(db_post_rows(*old(c)), old(self).slug@) ==> !(r is Ok),
    {
        let tags_sql = if self.tags.len() >= 1 {
            build_tags_insert_sql(self.tags.len())
        } else {
            String::new()
        };
        let res = exec_insert_post(
            c,
            &self.title,
            &self.slug,
            &self.author,
            ts,
            &self.category,
            &self.content,
            &self.tags,
            &tags_sql,
        );
        match res {
            Ok(id) => {
                self.id = id;
                self.create_timestamp = ts;
                self.update_timestamp = ts;
                proof {
                    assert(self.row_view() == (PostRowV {
                        id: id as int,
                        create_timestamp: ts as int,
                        update_timestamp: ts as int,
                        ..old(self).row_view()
                    }));
                    lemma_wf_after_insert(
                        *old(c),
                        *c,
                        id as int,
                        stored_row_on_insert(*self),
                        self.tags_view(),
                    );
                }
                Ok(())
            },
            Err(e) => Err(e),
        }
    }

    /// Inserts the post with the wall clock as its creation timestamp.
    pub fn insert_into(&mut self, c: &mut rusqlite::Connection) -> (r: Result<(), DbError>)
        requires
            old(self).valid(),
            db_wf(*old(c)),
        ensures
            db_wf(*final(c)),
            final(self).valid(),
            match r {
                Ok(_) => post_inserted(
                    *old(c),
                    *final(c),
                    *old(self),
                    *final(self),
                    final(self).create_timestamp as int,
                ),
                Err(e) => {
                    &&& db_unchanged(*old(c), *final(c))
                    &&& *final(self) == *old(self)
                    &&& (e is UniqueConstraint ==> slug_present(
                        db_post_rows(*old(c)),
                        old(self).slug@,
                    ))
                    &&& (e is UniqueConstraint || e is Storage)
                },
            },
            slug_present(db_post_rows(*old(c)), old(self).slug@) ==> !(r is Ok),
    {
        let ts = now_utc_unix_timestamp();
        self.insert_into_at(c, ts)
    }

    /// Applies a masked partial update at the given update timestamp. An
    /// empty mask succeeds without touching storage or timestamps; otherwise
    /// exactly the flagged columns (plus the update timestamp) are written,
    /// and a set tags flag replaces the stored tag set wholesale, atomically.
    pub fn update_into_at(
        &mut self,
        c: &mut rusqlite::Connection,
        mask: &PostUpdateMask,
        ts: i64,
    ) -> (r: Result<(), DbError>)
        requires
            old(self).valid(),
            db_wf(*old(c)),
        ensures
            db_wf(*final(c)),
            final(self).valid(),
            mask.spec_is_empty() ==> r is Ok,
            match r {
                Ok(_) => post_updated(
                    *old(c),
                    *final(c),
                    *old(self),
                    *final(self),
                    *mask,
                    ts as int,
                ),
                Err(e) => {
                    &&& db_unchanged(*old(c), *final(c))
                    &&& *final(self) == *old(self)
                    &&& (e is UniqueConstraint || e is Storage)
                },
            },
    {
        if mask.is_empty() {
            return Ok(());
        }
        let cols_vals = masked_columns_values(self, mask);
        let cols = cols_vals.0;
        let vals = cols_vals.1;
        let sql = build_post_update_sql(&cols);
        proof {
            lemma_masked_cols_valid(*mask);
        }
        let tags_sql = if mask.tags && self.tags.len() >= 1 {
            build_tags_insert_sql(self.tags.len())
        } else {
            String::new()
        };
        let tags_opt: Option<&Vec<String>> = if mask.tags {
            Some(&self.tags)
        } else {
            None
        };
        let res = exec_update_post(c, self.id, ts, &sql, &cols, &vals, tags_opt, &tags_sql);
        match res {
            Ok(_) => {
                self.update_timestamp = ts;
                proof {
                    let id = old(self).id as int;
                    if db_post_rows(*old(c)).dom().contains(id) {
                        let row = updated_row(
                            db_post_rows(*old(c))[id],
                            masked_cols(*mask),
                            masked_vals(*mask, *old(self)),
                            ts as int,
                        );
                        crate::db::lemma_updated_row_fixed_fields(
                            db_post_rows(*old(c))[id],
                            masked_cols(*mask),
                            masked_vals(*mask, *old(self)),
                            ts as int,
                        );
                        lemma_wf_after_update(
                            *old(c),
                            *c,
                            id,
                            row,
                            if mask.tags {
                                Some(old(self).tags_view())
                            } else {
                                None
                            },
                        );
                    } else {
                        assert(db_wf(*c));
                    }
                }
                Ok(())
            },
            Err(e) => Err(e),
        }
    }

    /// Applies a masked partial update with the wall clock as the new update
    /// timestamp.
    pub fn update_into(&mut self, c: &mut rusqlite::Connection, mask: &PostUpdateMask) -> (r:
        Result<(), DbError>)
        requires
            old(self).valid(),
            db_wf(*old(c)),
        ensures
            db_wf(*final(c)),
            final(self).valid(),
            mask.spec_is_empty() ==> r is Ok,
            match r {
                Ok(_) => post_updated(
                    *old(c),
                    *final(c),
                    *old(self),
                    *final(self),
                    *mask,
                    final(self).update_timestamp as int,
                ),
                Err(e) => {
                    &&& db_unchanged(*old(c), *final(c))
                    &&& *final(self) == *old(self)
                    &&& (e is UniqueConstraint || e is Storage)
                },
            },
    {
        let ts = now_utc_unix_timestamp();
        self.update_into_at(c, mask, ts)
    }

    /// Deletes the post carrying the slug, cascading to its tag and resource
    /// rows; deleting an absent slug succeeds and leaves storage unchanged.
    pub fn delete_from(c: &mut rusqlite::Connection, slug: &str) -> (r: Result<(), DbError>)
        requires
            db_wf(*old(c)),
        ensures
            db_wf(*final(c)),
            match r {
                Ok(_) => post_deleted(*old(c), *final(c), slug@),
                Err(e) => db_unchanged(*old(c), *final(c)) && e is Storage,
            },
            r is Ok && !slug_present(db_post_rows(*old(c)), slug@) ==> db_unchanged(
                *old(c),
                *final(c),
            ),
    {
        let res = exec_delete_post(c, slug);
        match res {
            Ok(_) => {
                proof {
                    lemma_wf_after_delete(*old(c), *c, slug@);
                    if !slug_present(db_post_rows(*old(c)), slug@) {
                        lemma_delete_absent_is_noop(*old(c), *c, slug@);
                    }
                }
                Ok(())
            },
            Err(e) => Err(e),
        }
    }

    /// Increments the post's view counter by exactly one, inside a
    /// transaction that reads and writes the counter as one unit, so no
    /// concurrent increment is lost; the in-memory counter follows.
    pub fn increase_views(&mut self, c: &mut rusqlite::Connection) -> (r: Result<(), DbError>)
        requires
            db_wf(*old(c)),
        ensures
            db_wf(*final(c)),
            match r {
                Ok(_) => {
                    &&& views_bumped(
                        db_post_rows(*old(c)),
                        db_post_rows(*final(c)),
                        old(self).id as int,
                    )
                    &&& db_tag_rows(*final(c)) == db_tag_rows(*old(c))
                    &&& db_resource_rows(*final(c)) == db_resource_rows(*old(c))
                    &&& *final(self) == (Post { views: final(self).views, ..*old(self) })
                    &&& final(self).views as int == db_post_rows(*old(c))[old(self).id as int].views
                        + 1
                },
                Err(e) => {
                    &&& db_unchanged(*old(c), *final(c))
                    &&& *final(self) == *old(self)
                    &&& (e is NotFound ==> !db_post_rows(*old(c)).dom().contains(old(self).id as int))
                    &&& (e is NotFound || e is Storage)
                },
            },
    {
        let res = exec_increase_views(c, self.id);
        match res {
            Ok(v) => {
                self.views = v;
                proof {
                    let id = old(self).id as int;
                    let m0 = db_post_rows(*old(c));
                    assert(db_post_rows(*c) == m0.insert(
                        id,
                        PostRowV { views: m0[id].views + 1, ..m0[id] },
                    ));
                }
                Ok(())
            },
            Err(e) => Err(e),
        }
    }
}

/// Hydrates a post's tag list from its stored tag rows; the list arrives
/// duplicate-free, in whatever order storage hands it out.
pub fn select_tags_for_post(c: &rusqlite::Connection, post: &mut Post) -> (r: Result<(), DbError>)
    ensures
        match r {
            Ok(_) => {
                &&& *final(post) == (Post { tags: final(post).tags, ..*old(post) })
                &&& final(post).tags_view().no_duplicates()
                &&& final(post).tag_set() == tags_of(*c, old(post).id as int)
            },
            Err(e) => *final(post) == *old(post) && e is Storage,
        },
{
    let res = exec_select_post_tags(c, post.id);
    match res {
        Ok(tags) => {
            post.tags = tags;
            Ok(())
        },
        Err(e) => Err(e),
    }
}

impl PostResource {
    /// Idempotently ensures the resource table and its index exist; never
    /// touches stored rows.
    pub fn init_db_schema(c: &rusqlite::Connection) -> (r: Result<(), DbError>)
        ensures
            r matches Err(e) ==> e is Storage,
    {
        exec_init_resource_schema(c)
    }

    /// Decodes one raw resource row.
    pub fn from_row(d: ResourceRowData) -> (r: PostResource)
        ensures
            r.post_id == d.post_id,
            r.name@ == d.name@,
            r.res_view() == d.res_view(),
    {
        PostResource { post_id: d.post_id, name: d.name, ty: d.ty, data: d.data }
    }

    /// Decodes raw resource rows without their payloads: each entry keeps its
    /// key and type, with an empty data blob.
    pub fn from_rows(rows: &Vec<ResourceRowData>) -> (r: Vec<PostResource>)
        ensures
            r@.len() == rows@.len(),
            forall|k: int|
                0 <= k < rows@.len() ==> {
                    &&& (#[trigger] r@[k]).post_id == rows@[k].post_id
                    &&& r@[k].name@ == rows@[k].name@
                    &&& r@[k].ty@ == rows@[k].ty@
                    &&& r@[k].data@.len() == 0
                },
    {
        let mut out: Vec<PostResource> = Vec::new();
        let mut i: usize = 0;
        while i < rows.len()
            invariant
                i <= rows@.len(),
                out@.len() == i,
                forall|k: int|
                    0 <= k < i ==> {
                        &&& (#[trigger] out@[k]).post_id == rows@[k].post_id
                        &&& out@[k].name@ == rows@[k].name@
                        &&& out@[k].ty@ == rows@[k].ty@
                        &&& out@[k].data@.len() == 0
                    },
            decreases rows@.len() - i,
        {
            out.push(
                PostResource {
                    post_id: rows[i].post_id,
                    name: rows[i].name.clone(),
                    ty: rows[i].ty.clone(),
                    data: Vec::new(),
                },
            );
            i += 1;
        }
        out
    }

    /// Looks up exactly one resource by its composite (post identity, name)
    /// key. Fails with NotFound if and only if no such row is stored
    /// (storage faults aside).
    pub fn select_one_from(c: &rusqlite::Connection, key: &(i64, String)) -> (r: Result<
        PostResource,
        DbError,
    >)
        ensures
            match r {
                Ok(res) => {
                    &&& db_resource_rows(*c).dom().contains((key.0 as int, key.1@))
                    &&& db_resource_rows(*c)[(key.0 as int, key.1@)] == res.res_view()
                    &&& res.post_id == key.0
                    &&& res.name@ == key.1@
                },
                Err(e) => {
                    &&& (e is NotFound ==> !db_resource_rows(*c).dom().contains(
                        (key.0 as int, key.1@),
                    ))
                    &&& (e is NotFound || e is Storage)
                },
            },
    {
        let res = exec_select_resource(c, key.0, key.1.as_str());
        match res {
            Ok(d) => Ok(PostResource::from_row(d)),
            Err(e) => Err(e),
        }
    }

    /// Listing resources in bulk is structurally disallowed: fails with
    /// UnsupportedOperation without touching storage.
    pub fn select_many_from(_c: &rusqlite::Connection, _pagination: &Pagination) -> (r: Result<
        Vec<PostResource>,
        DbError,
    >)
        ensures
            r matches Err(e) && e is UnsupportedOperation,
    {
        Err(DbError::UnsupportedOperation)
    }

    /// Stores the resource row; fails with UniqueConstraint whenever the
    /// (post identity, name) key is taken.
    pub fn insert_into(&self, c: &mut rusqlite::Connection) -> (r: Result<(), DbError>)
        requires
            db_wf(*old(c)),
        ensures
            db_wf(*final(c)),
            match r {
                Ok(_) => {
                    &&& !db_resource_rows(*old(c)).dom().contains(self.key_view())
                    &&& db_post_rows(*old(c)).dom().contains(self.post_id as int)
                    &&& db_resource_rows(*final(c)) == db_resource_rows(*old(c)).insert(
                        self.key_view(),
                        self.res_view(),
                    )
                    &&& db_post_rows(*final(c)) == db_post_rows(*old(c))
                    &&& db_tag_rows(*final(c)) == db_tag_rows(*old(c))
                },
                Err(e) => {
                    &&& db_unchanged(*old(c), *final(c))
                    &&& (e is UniqueConstraint ==> db_resource_rows(*old(c)).dom().contains(
                        self.key_view(),
                    ))
                    &&& (e is UniqueConstraint || e is Storage)
                },
            },
    {
        exec_insert_resource(c, self.post_id, &self.name, &self.ty, &self.data)
    }

    /// Updating a resource is structurally disallowed: fails with
    /// UnsupportedOperation without touching storage. Replacement is
    /// modelled by delete then insert.
    pub fn update_into(&self, _c: &rusqlite::Connection) -> (r: Result<(), DbError>)
        ensures
            r matches Err(e) && e is UnsupportedOperation,
    {
        Err(DbError::UnsupportedOperation)
    }

    /// Deletes the resource keyed by (post identity, name); deleting an
    /// absent key succeeds and leaves storage unchanged.
    pub fn delete_from(c: &mut rusqlite::Connection, key: &(i64, String)) -> (r: Result<
        (),
        DbError,
    >)
        requires
            db_wf(*old(c)),
        ensures
            db_wf(*final(c)),
            match r {
                Ok(_) => {
                    &&& db_resource_rows(*final(c)) == db_resource_rows(*old(c)).remove(
                        (key.0 as int, key.1@),
                    )
                    &&& db_post_rows(*final(c)) == db_post_rows(*old(c))
                    &&& db_tag_rows(*final(c)) == db_tag_rows(*old(c))
                },
                Err(e) => db_unchanged(*old(c), *final(c)) && e is Storage,
            },
            r is Ok && !db_resource_rows(*old(c)).dom().contains((key.0 as int, key.1@))
                ==> db_unchanged(*old(c), *final(c)),
    {
        let res = exec_delete_resource(c, key.0, key.1.as_str());
        match res {
            Ok(_) => {
                proof {
                    let k = (key.0 as int, key.1@);
                    if !db_resource_rows(*old(c)).dom().contains(k) {
                        assert(db_resource_rows(*c) =~= db_resource_rows(*old(c)));
                    }
                }
                Ok(())
            },
            Err(e) => Err(e),
        }
    }
}

} // verus!
