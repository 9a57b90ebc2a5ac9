//! The update mask: which fields of a post a masked update touches.

use vstd::prelude::*;

verus! {

/// One flag per mutable field of a post, plus a distinguished flag for
/// "the tag set changed". Flags combine by union; an empty mask makes an
/// update a guaranteed no-op.
#[derive(Clone, Copy, Debug, PartialEq, Eq, Structural)]
pub struct PostUpdateMask {
    pub title: bool,
    pub slug: bool,
    pub author: bool,
    pub category: bool,
    pub content: bool,
    pub tags: bool,
}

impl PostUpdateMask {
    pub open spec fn spec_is_empty(self) -> bool {
        !self.title && !self.slug && !self.author && !self.category && !self.content && !self.tags
    }

    /// The mask with no flag set.
    pub fn empty() -> (r: Self)
        ensures
            r.spec_is_empty(),
    {
        PostUpdateMask {
            title: false,
            slug: false,
            author: false,
            category: false,
            content: false,
            tags: false,
        }
    }

    pub fn is_empty(&self) -> (r: bool)
        ensures
            r == self.spec_is_empty(),
    {
        !self.title && !self.slug && !self.author && !self.category && !self.content && !self.tags
    }

    pub open spec fn spec_union(self, o: Self) -> Self {
        PostUpdateMask {
            title: self.title || o.title,
            slug: self.slug || o.slug,
            author: self.author || o.author,
            category: self.category || o.category,
            content: self.content || o.content,
            tags: self.tags || o.tags,
        }
    }

    /// The mask holding every flag set in either operand.
    pub fn union(self, o: Self) -> (r: Self)
        ensures
            r == self.spec_union(o),
    {
        PostUpdateMask {
            title: self.title || o.title,
            slug: self.slug || o.slug,
            author: self.author || o.author,
            category: self.category || o.category,
            content: self.content || o.content,
            tags: self.tags || o.tags,
        }
    }

    pub open spec fn spec_contains(self, o: Self) -> bool {
        &&& (o.title ==> self.title)
        &&& (o.slug ==> self.slug)
        &&& (o.author ==> self.author)
        &&& (o.category ==> self.category)
        &&& (o.content ==> self.content)
        &&& (o.tags ==> self.tags)
    }

    /// Whether every flag set in `o` is also set in `self`.
    pub fn contains(&self, o: &Self) -> (r: bool)
        ensures
            r == self.spec_contains(*o),
    {
        (!o.title || self.title) && (!o.slug || self.slug) && (!o.author || self.author)
            && (!o.category || self.category) && (!o.content || self.content)
            && (!o.tags || self.tags)
    }
}

} // verus!
