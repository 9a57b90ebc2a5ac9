//! Verified construction of the dynamically shaped statements: the masked
//! UPDATE of a post row and the bulk INSERT of a tag list. Identifiers come
//! only from the fixed descriptor table; every value is parameter-bound.

use vstd::prelude::*;
use vstd::string::StringExecFns;

use crate::post::strs_view;

verus! {

/// The tail of the SET clause: one `, <column> = ?` item per column.
pub open spec fn set_clause_tail(cols: Seq<Seq<char>>) -> Seq<char>
    decreases cols.len(),
{
    if cols.len() == 0 {
        Seq::empty()
    } else {
        set_clause_tail(cols.drop_last()) + ", "@ + cols.last() + " = ?"@
    }
}

/// The exact text of the masked update statement for the given column list:
/// the timestamp column is always set first, the row is keyed by identity,
/// and every value is a parameter.
pub open spec fn post_update_sql(cols: Seq<Seq<char>>) -> Seq<char> {
    "UPDATE posts SET update_timestamp = ?"@ + set_clause_tail(cols) + " WHERE id = ?"@
}

/// Builds the masked update statement for the given columns.
pub fn build_post_update_sql(cols: &Vec<String>) -> (r: String)
    ensures
        r@ == post_update_sql(strs_view(cols@)),
{
    let mut s = String::from_str("UPDATE posts SET update_timestamp = ?");
    let mut i: usize = 0;
    while i < cols.len()
        invariant
            i <= cols@.len(),
            s@ == "UPDATE posts SET update_timestamp = ?"@ + set_clause_tail(
                strs_view(cols@).take(i as int),
            ),
        decreases cols@.len() - i,
    {
        let ghost prev = s@;
        s.append(", ");
        s.append(cols[i].as_str());
        s.append(" = ?");
        proof {
            let cv = strs_view(cols@);
            assert(cv.take(i + 1).drop_last() =~= cv.take(i as int));
            assert(cv.take(i + 1).last() == cols@[i as int]@);
            assert(s@ =~= "UPDATE posts SET update_timestamp = ?"@ + set_clause_tail(
                cv.take(i + 1),
            ));
        }
        i += 1;
    }
    proof {
        assert(strs_view(cols@).take(cols@.len() as int) =~= strs_view(cols@));
    }
    s.append(" WHERE id = ?");
    proof {
        assert(s@ =~= post_update_sql(strs_view(cols@)));
    }
    s
}

/// The VALUES list of the bulk tag insert: `(?1, ?)` once per tag, comma
/// separated; `?1` is the owning post's identity.
pub open spec fn tag_values_clause(n: nat) -> Seq<char>
    decreases n,
{
    if n <= 1 {
        "(?1, ?)"@
    } else {
        tag_values_clause((n - 1) as nat) + ",(?1, ?)"@
    }
}

/// The exact text of the bulk tag insert statement for `n` tags.
pub open spec fn tags_insert_sql(n: nat) -> Seq<char> {
    "INSERT INTO posts_tags (post_id, tag_name) VALUES "@ + tag_values_clause(n)
}

/// Builds the bulk tag insert statement; never called with zero tags, so no
/// syntactically invalid empty VALUES list can arise.
pub fn build_tags_insert_sql(n: usize) -> (r: String)
    requires
        1 <= n,
    ensures
        r@ == tags_insert_sql(n as nat),
{
    let mut s = String::from_str("INSERT INTO posts_tags (post_id, tag_name) VALUES ");
    s.append("(?1, ?)");
    let mut i: usize = 1;
    while i < n
        invariant
            1 <= i <= n,
            s@ == "INSERT INTO posts_tags (post_id, tag_name) VALUES "@ + tag_values_clause(
                i as nat,
            ),
        decreases n - i,
    {
        s.append(",(?1, ?)");
        proof {
            assert(s@ =~= "INSERT INTO posts_tags (post_id, tag_name) VALUES "@
                + tag_values_clause((i + 1) as nat));
        }
        i += 1;
    }
    s
}

} // verus!
