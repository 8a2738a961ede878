//! Per-author commit statistics.

use vstd::prelude::*;

verus! {

/// Number of commits, inserted lines and deleted lines of one author.
#[derive(Clone, Copy, Debug, PartialEq, Eq, Structural)]
pub struct AuthorStats {
    pub commits: u32,
    pub insertions: u32,
    pub deletions: u32,
}

/// The distance between two counts.
pub open spec fn abs_diff(a: int, b: int) -> int {
    if a >= b { a - b } else { b - a }
}

impl AuthorStats {
    /// Statistics of an author with no commits yet.
    pub fn new() -> (r: Self)
        ensures
            r.commits == 0,
            r.insertions == 0,
            r.deletions == 0,
    {
        AuthorStats { commits: 0, insertions: 0, deletions: 0 }
    }

    /// Records one more commit with the given line counts.
    pub fn add_stats(&mut self, insertions: u32, deletions: u32)
        requires
            old(self).commits < u32::MAX,
            old(self).insertions + insertions <= u32::MAX,
            old(self).deletions + deletions <= u32::MAX,
        ensures
            final(self).commits == old(self).commits + 1,
            final(self).insertions == old(self).insertions + insertions,
            final(self).deletions == old(self).deletions + deletions,
    {
        self.commits = self.commits + 1;
        self.insertions = self.insertions + insertions;
        self.deletions = self.deletions + deletions;
    }

    /// How far the inserted and deleted line counts lie apart.
    pub fn insertion_deletion(&self) -> (r: u32)
        ensures
            r == abs_diff(self.insertions as int, self.deletions as int),
    {
        if self.insertions >= self.deletions {
            self.insertions - self.deletions
        } else {
            self.deletions - self.insertions
        }
    }
}

} // verus!
