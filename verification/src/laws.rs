//! Laws relating the model operations, proved from their contracts alone.

use vstd::prelude::*;

use crate::db::{
    apply_one_column, db_post_rows, db_tag_rows, db_wf, slug_present, tag_pairs, tags_of,
    updated_row,
};
use crate::fields::{
    cols_of_fields, masked_cols, masked_vals, spec_column_name, spec_field_value, spec_flagged,
    spec_post_fields, vals_of_fields, PostField,
};
use crate::mask::PostUpdateMask;
use crate::model::{post_inserted, selected_post, stored_row_on_insert, views_bumped};
use crate::post::{Post, PostRowV};

verus! {

/// For every valid post with a zero view counter, looking its slug up right
/// after a successful insert returns the post as stored: equal in every field
/// but the server-assigned identity and timestamps — which are exactly those
/// the insert assigned — and with the same tag set.
pub proof fn lemma_insert_then_select_one(
    c0: rusqlite::Connection,
    c1: rusqlite::Connection,
    p0: Post,
    p1: Post,
    ts: int,
    q: Post,
)
    requires
        db_wf(c0),
        p0.valid(),
        p0.views == 0,
        post_inserted(c0, c1, p0, p1, ts),
        selected_post(c1, p1.slug@, q),
    ensures
        q.id == p1.id,
        q.title@ == p0.title@,
        q.slug@ == p0.slug@,
        q.author@ == p0.author@,
        q.category@ == p0.category@,
        q.content@ == p0.content@,
        q.create_timestamp as int == ts,
        q.update_timestamp as int == ts,
        q.views == p0.views,
        q.tag_set() == p0.tag_set(),
{
    let m0 = db_post_rows(c0);
    let m1 = db_post_rows(c1);
    let id = p1.id as int;
    assert(p1.slug@ == p0.slug@);
    if q.id as int != id {
        assert(m0.dom().contains(q.id as int));
        assert(m0[q.id as int] == m1[q.id as int]);
        assert(m0[q.id as int].slug == p0.slug@);
        assert(slug_present(m0, p0.slug@));
        assert(false);
    }
    assert(q.row_view() == stored_row_on_insert(p1));
    assert(q.views as int == 0);
    assert forall|t: Seq<char>| #[trigger] q.tag_set().contains(t) implies p0.tag_set().contains(
        t,
    ) by {
        assert(tags_of(c1, id).contains(t));
        assert(db_tag_rows(c1).contains((id, t)));
        if db_tag_rows(c0).contains((id, t)) {
            assert(m0.dom().contains(id));
            assert(false);
        }
        assert(tag_pairs(id, p1.tags_view()).contains((id, t)));
        assert(p1.tags_view() == p0.tags_view());
    }
    assert forall|t: Seq<char>| #[trigger] p0.tag_set().contains(t) implies q.tag_set().contains(
        t,
    ) by {
        assert(p1.tags_view().contains(t));
        assert(tag_pairs(id, p1.tags_view()).contains((id, t)));
        assert(db_tag_rows(c1).contains((id, t)));
        assert(tags_of(c1, id).contains(t));
    }
    assert(q.tag_set() =~= p0.tag_set());
}

/// After a successful insert the slug is occupied. By the insert contract a
/// later insert of any post with that slug therefore cannot succeed, and,
/// failing, leaves every stored table unchanged — the first post stays
/// retrievable exactly as stored.
pub proof fn lemma_slug_occupied_after_insert(
    c0: rusqlite::Connection,
    c1: rusqlite::Connection,
    p0: Post,
    p1: Post,
    ts: int,
)
    requires
        post_inserted(c0, c1, p0, p1, ts),
    ensures
        slug_present(db_post_rows(c1), p0.slug@),
{
    let m1 = db_post_rows(c1);
    let id = p1.id as int;
    assert(m1.dom().contains(id));
    assert(m1[id].slug == p0.slug@);
}

/// View increments accumulate exactly: along any chain of stored states in
/// which each next state is one view-counter bump of the same post, the
/// final counter is the initial one plus the number of bumps — no increment
/// is lost. (Increments run inside exclusive write transactions, which is
/// what serializes concurrent callers into such a chain.)
pub proof fn lemma_view_increments_accumulate(states: Seq<Map<int, PostRowV>>, id: int)
    requires
        states.len() >= 2,
        forall|k: int|
            0 <= k < states.len() - 1 ==> views_bumped(#[trigger] states[k], states[k + 1], id),
    ensures
        states.last().dom().contains(id),
        states.last()[id].views == states[0][id].views + states.len() - 1,
    decreases states.len(),
{
    if states.len() == 2 {
        assert(views_bumped(states[0], states[1], id));
    } else {
        let pre = states.drop_last();
        assert(forall|k: int|
            0 <= k < pre.len() - 1 ==> views_bumped(#[trigger] pre[k], pre[k + 1], id));
        lemma_view_increments_accumulate(pre, id);
        assert(views_bumped(states[states.len() - 2], states.last(), id));
        assert(pre.last() == states[states.len() - 2]);
        assert(pre[0] == states[0]);
    }
}

/// The row left by applying, in order, every flagged field among `fs`.
spec fn masked_row_fields(row: PostRowV, fs: Seq<PostField>, m: PostUpdateMask, p: Post) -> PostRowV
    decreases fs.len(),
{
    if fs.len() == 0 {
        row
    } else {
        let pre = masked_row_fields(row, fs.drop_last(), m, p);
        if spec_flagged(fs.last(), m) {
            apply_one_column(pre, spec_column_name(fs.last()), spec_field_value(fs.last(), p))
        } else {
            pre
        }
    }
}

proof fn lemma_apply_fields(row: PostRowV, fs: Seq<PostField>, m: PostUpdateMask, p: Post)
    ensures
        cols_of_fields(fs, m).len() == vals_of_fields(fs, m, p).len(),
        crate::db::apply_columns(row, cols_of_fields(fs, m), vals_of_fields(fs, m, p))
            == masked_row_fields(row, fs, m, p),
    decreases fs.len(),
{
    if fs.len() == 0 {
    } else {
        let pre = fs.drop_last();
        lemma_apply_fields(row, pre, m, p);
        let pc = cols_of_fields(pre, m);
        let pv = vals_of_fields(pre, m, p);
        if spec_flagged(fs.last(), m) {
            let c = spec_column_name(fs.last());
            let v = spec_field_value(fs.last(), p);
            let cs = pc + seq![c];
            let vs = pv + seq![v];
            assert(cols_of_fields(fs, m) == cs);
            assert(vals_of_fields(fs, m, p) == vs);
            assert(cs.drop_last() =~= pc);
            assert(vs.drop_last() =~= pv);
            assert(cs.last() == c);
            assert(vs.last() == v);
        } else {
            assert(cols_of_fields(fs, m) == pc);
            assert(vals_of_fields(fs, m, p) == pv);
        }
    }
}

/// A masked update writes exactly the flagged fields: each flagged column of
/// the stored row takes the post's current value, every unflagged column
/// keeps its stored value, the update timestamp is refreshed, and the
/// identity, creation timestamp and view counter never move.
pub proof fn lemma_masked_update_writes_exactly_flagged_fields(
    row: PostRowV,
    p: Post,
    m: PostUpdateMask,
    ts: int,
)
    ensures
        ({
            let r = updated_row(row, masked_cols(m), masked_vals(m, p), ts);
            &&& r.title == if m.title { p.title@ } else { row.title }
            &&& r.slug == if m.slug { p.slug@ } else { row.slug }
            &&& r.author == if m.author { p.author@ } else { row.author }
            &&& r.category == if m.category { p.category@ } else { row.category }
            &&& r.content == if m.content { p.content@ } else { row.content }
            &&& r.update_timestamp == ts
            &&& r.id == row.id
            &&& r.create_timestamp == row.create_timestamp
            &&& r.views == row.views
        }),
{
    reveal_strlit("title");
    reveal_strlit("slug");
    reveal_strlit("author");
    reveal_strlit("category");
    reveal_strlit("content");
    assert("title"@.len() == 5);
    assert("slug"@.len() == 4);
    assert("author"@.len() == 6);
    assert("category"@.len() == 8);
    assert("content"@.len() == 7);
    let fs = spec_post_fields();
    lemma_apply_fields(row, fs, m, p);
    let fs4 = seq![PostField::Title, PostField::Slug, PostField::Author, PostField::Category];
    let fs3 = seq![PostField::Title, PostField::Slug, PostField::Author];
    let fs2 = seq![PostField::Title, PostField::Slug];
    let fs1 = seq![PostField::Title];
    let fs0 = Seq::<PostField>::empty();
    assert(fs.drop_last() =~= fs4);
    assert(fs4.drop_last() =~= fs3);
    assert(fs3.drop_last() =~= fs2);
    assert(fs2.drop_last() =~= fs1);
    assert(fs1.drop_last() =~= fs0);
    let r0 = masked_row_fields(row, fs0, m, p);
    let r1 = masked_row_fields(row, fs1, m, p);
    let r2 = masked_row_fields(row, fs2, m, p);
    let r3 = masked_row_fields(row, fs3, m, p);
    let r4 = masked_row_fields(row, fs4, m, p);
    assert(r0 == row);
    assert(r1 == if m.title { apply_one_column(r0, "title"@, p.title@) } else { r0 });
    assert(r2 == if m.slug { apply_one_column(r1, "slug"@, p.slug@) } else { r1 });
    assert(r3 == if m.author { apply_one_column(r2, "author"@, p.author@) } else { r2 });
    assert(r4 == if m.category { apply_one_column(r3, "category"@, p.category@) } else { r3 });
    assert(masked_row_fields(row, fs, m, p) == if m.content {
        apply_one_column(r4, "content"@, p.content@)
    } else {
        r4
    });
}

} // verus!
