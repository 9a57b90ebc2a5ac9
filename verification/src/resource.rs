//! The post-attached binary resource entity and its views.

use vstd::prelude::*;

verus! {

/// A binary resource attached to a post, identified by
/// (post identity, resource name). Immutable once created; owned by its post.
#[derive(Clone, Debug)]
pub struct PostResource {
    pub post_id: i64,
    pub name: String,
    pub ty: String,
    pub data: Vec<u8>,
}

/// The mathematical value of one stored resource row, beyond its key.
pub ghost struct ResRowV {
    pub ty: Seq<char>,
    pub data: Seq<u8>,
}

impl PostResource {
    /// The key of the stored row this resource corresponds to.
    pub open spec fn key_view(self) -> (int, Seq<char>) {
        (self.post_id as int, self.name@)
    }

    /// The non-key payload of the stored row.
    pub open spec fn res_view(self) -> ResRowV {
        ResRowV { ty: self.ty@, data: self.data@ }
    }
}

/// One raw row of the resources table, as the storage engine hands it back.
pub struct ResourceRowData {
    pub post_id: i64,
    pub name: String,
    pub ty: String,
    pub data: Vec<u8>,
}

impl ResourceRowData {
    pub open spec fn key_view(self) -> (int, Seq<char>) {
        (self.post_id as int, self.name@)
    }

    pub open spec fn res_view(self) -> ResRowV {
        ResRowV { ty: self.ty@, data: self.data@ }
    }
}

} // verus!
