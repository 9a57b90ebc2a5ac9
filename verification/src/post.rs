//! The post entity, its raw row form, and their mathematical views.

use vstd::prelude::*;

verus! {

/// A blog post. `id` and both timestamps are server-assigned on insert; the
/// tag list is logically a set (no duplicates), owned by the post.
#[derive(Clone, Debug)]
pub struct Post {
    pub id: i64,
    pub title: String,
    pub slug: String,
    pub author: String,
    pub create_timestamp: i64,
    pub update_timestamp: i64,
    pub category: String,
    pub tags: Vec<String>,
    pub views: u64,
    pub content: String,
}

/// The mathematical value of one stored post row. Tags live in their own
/// table and are not part of the row.
pub ghost struct PostRowV {
    pub id: int,
    pub title: Seq<char>,
    pub slug: Seq<char>,
    pub author: Seq<char>,
    pub create_timestamp: int,
    pub update_timestamp: int,
    pub category: Seq<char>,
    pub views: int,
    pub content: Seq<char>,
}

/// The views of a sequence of strings.
pub open spec fn strs_view(s: Seq<String>) -> Seq<Seq<char>> {
    s.map_values(|t: String| t@)
}

impl Post {
    /// The stored primary row this post corresponds to.
    pub open spec fn row_view(self) -> PostRowV {
        PostRowV {
            id: self.id as int,
            title: self.title@,
            slug: self.slug@,
            author: self.author@,
            create_timestamp: self.create_timestamp as int,
            update_timestamp: self.update_timestamp as int,
            category: self.category@,
            views: self.views as int,
            content: self.content@,
        }
    }

    pub open spec fn tags_view(self) -> Seq<Seq<char>> {
        strs_view(self.tags@)
    }

    /// The tag list as the set it logically is.
    pub open spec fn tag_set(self) -> Set<Seq<char>> {
        self.tags_view().to_set()
    }

    /// The entity invariant: the tag list carries no duplicate names, and the
    /// view counter fits the storage engine's signed integer column.
    pub open spec fn valid(self) -> bool {
        &&& self.tags_view().no_duplicates()
        &&& self.views <= 0x7fff_ffff_ffff_ffffu64
    }
}

/// One raw row of the posts table, as the storage engine hands it back.
pub struct PostRowData {
    pub id: i64,
    pub title: String,
    pub slug: String,
    pub author: String,
    pub create_timestamp: i64,
    pub update_timestamp: i64,
    pub category: String,
    pub views: u64,
    pub content: String,
}

impl PostRowData {
    pub open spec fn row_view(self) -> PostRowV {
        PostRowV {
            id: self.id as int,
            title: self.title@,
            slug: self.slug@,
            author: self.author@,
            create_timestamp: self.create_timestamp as int,
            update_timestamp: self.update_timestamp as int,
            category: self.category@,
            views: self.views as int,
            content: self.content@,
        }
    }
}

} // verus!
