//! A verified persistence layer for blog posts and their attached resources.
//!
//! Entities are mapped onto a relational SQLite store. The stored state is
//! modelled by spec-level maps and sets (see `db`); every model operation
//! states its effect on that model, and the partial-update machinery (update
//! masks, field descriptors, statement building) is verified end to end.

pub mod db;
pub mod error;
pub mod fields;
pub mod laws;
pub mod mask;
pub mod model;
pub mod post;
pub mod resource;
pub mod sqlgen;

use vstd::prelude::*;

verus! {

/// A limit/offset window over an ordered result set: a page size and a
/// zero-based page index.
#[derive(Clone, Copy, Debug)]
pub struct Pagination {
    pub page_size: u32,
    pub page_index: u32,
}

impl Pagination {
    /// How many rows the window skips: page index times page size.
    pub open spec fn spec_skip_count(self) -> int {
        self.page_size * self.page_index
    }

    pub fn skip_count(&self) -> (r: u64)
        ensures
            r as int == self.spec_skip_count(),
    {
        proof {
            assert((self.page_size as int) * (self.page_index as int) <= 0xffff_ffffint * 0xffff_ffffint)
                by (nonlinear_arith)
                requires
                    self.page_size <= 0xffff_ffffu32,
                    self.page_index <= 0xffff_ffffu32,
            ;
        }
        (self.page_size as u64) * (self.page_index as u64)
    }
}

} // verus!
