//! The field descriptor table: the fixed, per-entity mapping from a mutable
//! field to its flag, its storage column name, and its value accessor. It is
//! the only source of identifiers in a masked update statement.

use vstd::prelude::*;
use vstd::string::StringExecFns;

use crate::mask::PostUpdateMask;
use crate::post::{strs_view, Post};

verus! {

/// One mutable primary-row field of a post. The tags flag is a structural
/// special case handled outside this table.
#[derive(Clone, Copy, Debug, PartialEq, Eq, Structural)]
pub enum PostField {
    Title,
    Slug,
    Author,
    Category,
    Content,
}

/// The storage column a field lives in.
pub open spec fn spec_column_name(f: PostField) -> Seq<char> {
    match f {
        PostField::Title => "title"@,
        PostField::Slug => "slug"@,
        PostField::Author => "author"@,
        PostField::Category => "category"@,
        PostField::Content => "content"@,
    }
}

/// The field's current value on a post.
pub open spec fn spec_field_value(f: PostField, p: Post) -> Seq<char> {
    match f {
        PostField::Title => p.title@,
        PostField::Slug => p.slug@,
        PostField::Author => p.author@,
        PostField::Category => p.category@,
        PostField::Content => p.content@,
    }
}

/// Whether the mask flags this field.
pub open spec fn spec_flagged(f: PostField, m: PostUpdateMask) -> bool {
    match f {
        PostField::Title => m.title,
        PostField::Slug => m.slug,
        PostField::Author => m.author,
        PostField::Category => m.category,
        PostField::Content => m.content,
    }
}

/// The fixed order in which the descriptor table lists the fields.
pub open spec fn spec_post_fields() -> Seq<PostField> {
    seq![
        PostField::Title,
        PostField::Slug,
        PostField::Author,
        PostField::Category,
        PostField::Content,
    ]
}

/// A descriptor ties a field's flag to its storage column name.
pub struct PostFieldDescriptor {
    pub field: PostField,
    pub column: String,
}

impl PostFieldDescriptor {
    /// The column name recorded in the descriptor is the field's own.
    pub open spec fn wf(self) -> bool {
        self.column@ == spec_column_name(self.field)
    }

    pub fn new(field: PostField, column: String) -> (r: Self)
        requires
            column@ == spec_column_name(field),
        ensures
            r.wf(),
            r.field == field,
    {
        PostFieldDescriptor { field, column }
    }
}

/// The descriptor table for posts: one entry per mutable primary-row field,
/// in the fixed field order.
pub fn post_fields() -> (r: Vec<PostFieldDescriptor>)
    ensures
        r@.map_values(|d: PostFieldDescriptor| d.field) == spec_post_fields(),
        forall|k: int| 0 <= k < r@.len() ==> (#[trigger] r@[k]).wf(),
{
    let mut r: Vec<PostFieldDescriptor> = Vec::new();
    r.push(PostFieldDescriptor::new(PostField::Title, String::from_str("title")));
    r.push(PostFieldDescriptor::new(PostField::Slug, String::from_str("slug")));
    r.push(PostFieldDescriptor::new(PostField::Author, String::from_str("author")));
    r.push(PostFieldDescriptor::new(PostField::Category, String::from_str("category")));
    r.push(PostFieldDescriptor::new(PostField::Content, String::from_str("content")));
    proof {
        assert(r@.map_values(|d: PostFieldDescriptor| d.field) =~= spec_post_fields());
    }
    r
}

/// The field's current value, read through the descriptor table's accessor.
pub fn field_value(f: PostField, p: &Post) -> (r: String)
    ensures
        r@ == spec_field_value(f, *p),
{
    match f {
        PostField::Title => p.title.clone(),
        PostField::Slug => p.slug.clone(),
        PostField::Author => p.author.clone(),
        PostField::Category => p.category.clone(),
        PostField::Content => p.content.clone(),
    }
}

/// Whether the mask flags this field.
pub fn mask_has(f: PostField, m: &PostUpdateMask) -> (r: bool)
    ensures
        r == spec_flagged(f, *m),
{
    match f {
        PostField::Title => m.title,
        PostField::Slug => m.slug,
        PostField::Author => m.author,
        PostField::Category => m.category,
        PostField::Content => m.content,
    }
}

/// The column names of the flagged fields among `fs`, in order.
pub open spec fn cols_of_fields(fs: Seq<PostField>, m: PostUpdateMask) -> Seq<Seq<char>>
    decreases fs.len(),
{
    if fs.len() == 0 {
        Seq::empty()
    } else {
        cols_of_fields(fs.drop_last(), m) + (if spec_flagged(fs.last(), m) {
            seq![spec_column_name(fs.last())]
        } else {
            Seq::empty()
        })
    }
}

/// The values of the flagged fields among `fs`, in the same order.
pub open spec fn vals_of_fields(fs: Seq<PostField>, m: PostUpdateMask, p: Post) -> Seq<Seq<char>>
    decreases fs.len(),
{
    if fs.len() == 0 {
        Seq::empty()
    } else {
        vals_of_fields(fs.drop_last(), m, p) + (if spec_flagged(fs.last(), m) {
            seq![spec_field_value(fs.last(), p)]
        } else {
            Seq::empty()
        })
    }
}

/// The column list a masked update of `m` touches, beyond the timestamp.
pub open spec fn masked_cols(m: PostUpdateMask) -> Seq<Seq<char>> {
    cols_of_fields(spec_post_fields(), m)
}

/// The bound values of that update, in column order.
pub open spec fn masked_vals(m: PostUpdateMask, p: Post) -> Seq<Seq<char>> {
    vals_of_fields(spec_post_fields(), m, p)
}

/// Walks the descriptor table once and collects, for every flagged field, its
/// column name and its current value — the only way identifiers enter an
/// update statement.
pub fn masked_columns_values(p: &Post, m: &PostUpdateMask) -> (r: (Vec<String>, Vec<String>))
    ensures
        strs_view(r.0@) == masked_cols(*m),
        strs_view(r.1@) == masked_vals(*m, *p),
        r.0@.len() == r.1@.len(),
{
    let table = post_fields();
    let mut cols: Vec<String> = Vec::new();
    let mut vals: Vec<String> = Vec::new();
    let mut i: usize = 0;
    while i < table.len()
        invariant
            i <= table@.len(),
            table@.map_values(|d: PostFieldDescriptor| d.field) == spec_post_fields(),
            forall|k: int| 0 <= k < table@.len() ==> (#[trigger] table@[k]).wf(),
            strs_view(cols@) == cols_of_fields(spec_post_fields().take(i as int), *m),
            strs_view(vals@) == vals_of_fields(spec_post_fields().take(i as int), *m, *p),
            cols@.len() == vals@.len(),
        decreases table@.len() - i,
    {
        let ghost old_cols = cols@;
        let ghost old_vals = vals@;
        let flagged = mask_has(table[i].field, m);
        if flagged {
            let column = table[i].column.clone();
            cols.push(column);
            let value = field_value(table[i].field, p);
            vals.push(value);
        }
        proof {
            let fs = spec_post_fields();
            assert(fs.take(i + 1).drop_last() =~= fs.take(i as int));
            assert(fs.take(i + 1).last() == fs[i as int]);
            assert(fs[i as int] == table@[i as int].field);
            if spec_flagged(fs[i as int], *m) {
                assert(strs_view(cols@) =~= strs_view(old_cols).push(spec_column_name(fs[i as int])));
                assert(strs_view(cols@) =~= cols_of_fields(fs.take(i as int), *m) + seq![
                    spec_column_name(fs[i as int]),
                ]);
                assert(strs_view(vals@) =~= strs_view(old_vals).push(spec_field_value(fs[i as int], *p)));
                assert(strs_view(vals@) =~= vals_of_fields(fs.take(i as int), *m, *p) + seq![
                    spec_field_value(fs[i as int], *p),
                ]);
            } else {
                assert(cols_of_fields(fs.take(i + 1), *m) =~= cols_of_fields(fs.take(i as int), *m));
                assert(vals_of_fields(fs.take(i + 1), *m, *p) =~= vals_of_fields(
                    fs.take(i as int),
                    *m,
                    *p,
                ));
            }
        }
        i += 1;
    }
    proof {
        assert(spec_post_fields().take(table@.len() as int) =~= spec_post_fields());
    }
    (cols, vals)
}

/// Every column a mask selects is one of the five fixed names.
pub open spec fn is_post_column(c: Seq<char>) -> bool {
    ||| c == "title"@
    ||| c == "slug"@
    ||| c == "author"@
    ||| c == "category"@
    ||| c == "content"@
}

/// A well-formed update column list: fixed names only, no name twice.
pub open spec fn valid_update_columns(cols: Seq<Seq<char>>) -> bool {
    &&& cols.no_duplicates()
    &&& forall|i: int| 0 <= i < cols.len() ==> is_post_column(#[trigger] cols[i])
}

proof fn lemma_cols_of_fields_sound(fs: Seq<PostField>, m: PostUpdateMask)
    requires
        fs.map_values(|f: PostField| spec_column_name(f)).no_duplicates(),
    ensures
        cols_of_fields(fs, m).no_duplicates(),
        forall|c: Seq<char>|
            #[trigger] cols_of_fields(fs, m).contains(c) ==> fs.map_values(
                |f: PostField| spec_column_name(f),
            ).contains(c),
    decreases fs.len(),
{
    let names = fs.map_values(|f: PostField| spec_column_name(f));
    if fs.len() == 0 {
    } else {
        let pre = fs.drop_last();
        let pre_names = pre.map_values(|f: PostField| spec_column_name(f));
        assert(pre_names =~= names.drop_last());
        assert(pre_names.no_duplicates()) by {
            assert(forall|i: int, j: int|
                0 <= i < pre_names.len() && 0 <= j < pre_names.len() && i != j ==> pre_names[i]
                    != pre_names[j]);
        }
        lemma_cols_of_fields_sound(pre, m);
        let rec = cols_of_fields(pre, m);
        assert(forall|c: Seq<char>| pre_names.contains(c) ==> names.contains(c)) by {
            assert(forall|i: int|
                0 <= i < pre_names.len() ==> pre_names[i] == names[i] && names.contains(names[i]));
        }
        if spec_flagged(fs.last(), m) {
            let nm = spec_column_name(fs.last());
            assert(names.last() == nm);
            assert(!pre_names.contains(nm)) by {
                if pre_names.contains(nm) {
                    let k = choose|k: int| 0 <= k < pre_names.len() && pre_names[k] == nm;
                    assert(names[k] == names[names.len() - 1]);
                }
            }
            assert(!rec.contains(nm));
            let whole = rec + seq![nm];
            assert(cols_of_fields(fs, m) == whole);
            assert(whole.no_duplicates()) by {
                assert(forall|i: int, j: int|
                    0 <= i < whole.len() && 0 <= j < whole.len() && i != j ==> whole[i] != whole[j])
                    by {
                    assert(forall|i: int| 0 <= i < rec.len() ==> whole[i] == rec[i]);
                    assert(whole[rec.len() as int] == nm);
                    assert(forall|i: int| 0 <= i < rec.len() ==> rec.contains(rec[i]));
                }
            }
            assert(forall|c: Seq<char>| whole.contains(c) ==> names.contains(c)) by {
                assert(forall|i: int|
                    0 <= i < whole.len() ==> whole[i] == (if i < rec.len() {
                        rec[i]
                    } else {
                        nm
                    }));
                assert(forall|i: int| 0 <= i < rec.len() ==> rec.contains(rec[i]));
                assert(names.contains(nm)) by {
                    assert(names[names.len() - 1] == nm);
                }
            }
        } else {
            assert(cols_of_fields(fs, m) == rec);
        }
    }
}

/// The columns a mask selects form a well-formed update column list.
pub proof fn lemma_masked_cols_valid(m: PostUpdateMask)
    ensures
        valid_update_columns(masked_cols(m)),
{
    let fs = spec_post_fields();
    let names = fs.map_values(|f: PostField| spec_column_name(f));
    assert(names =~= seq!["title"@, "slug"@, "author"@, "category"@, "content"@]);
    reveal_strlit("title");
    reveal_strlit("slug");
    reveal_strlit("author");
    reveal_strlit("category");
    reveal_strlit("content");
    assert(names.no_duplicates()) by {
        assert(forall|i: int, j: int|
            0 <= i < names.len() && 0 <= j < names.len() && i != j ==> names[i] != names[j]) by {
            assert("title"@.len() == 5);
            assert("slug"@.len() == 4);
            assert("author"@.len() == 6);
            assert("category"@.len() == 8);
            assert("content"@.len() == 7);
        }
    }
    lemma_cols_of_fields_sound(fs, m);
    assert(forall|i: int|
        0 <= i < masked_cols(m).len() ==> is_post_column(#[trigger] masked_cols(m)[i])) by {
        assert(forall|i: int|
            0 <= i < masked_cols(m).len() ==> masked_cols(m).contains(masked_cols(m)[i]));
        assert(forall|c: Seq<char>| names.contains(c) ==> is_post_column(c)) by {
            assert(forall|i: int|
                0 <= i < names.len() ==> is_post_column(#[trigger] names[i]));
        }
    }
}

} // verus!
