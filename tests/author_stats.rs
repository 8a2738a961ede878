use git_utils::author_stats::AuthorStats;

#[test]
fn new_is_zero() {
    let s = AuthorStats::new();
    assert_eq!((s.commits, s.insertions, s.deletions), (0, 0, 0));
    assert_eq!(s.insertion_deletion(), 0);
}

#[test]
fn add_stats_accumulates() {
    let mut s = AuthorStats::new();
    s.add_stats(10, 3);
    s.add_stats(5, 40);
    assert_eq!((s.commits, s.insertions, s.deletions), (2, 15, 43));
    assert_eq!(s.insertion_deletion(), 28);
    s.add_stats(30, 0);
    assert_eq!(s.insertion_deletion(), 2);
}
