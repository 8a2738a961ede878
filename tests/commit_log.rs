use git_utils::author_stats::AuthorStats;
use git_utils::commit_log::{shortstat_counts, tally_log};

fn lines(text: &str) -> Vec<String> {
    text.lines().map(String::from).collect()
}

fn stats(c: u32, i: u32, d: u32) -> AuthorStats {
    AuthorStats { commits: c, insertions: i, deletions: d }
}

#[test]
fn shortstat_both_counts() {
    // The insertion marker is followed by a comma here, so it is not a
    // word of its own and only the deletions are read.
    assert_eq!(shortstat_counts(" 3 files changed, 12 insertions(+), 7 deletions(-)"), (0, 7));
    assert_eq!(shortstat_counts(" 3 files changed, 12 insertions(+) , 7 deletions(-)"), (12, 7));
}

#[test]
fn shortstat_singular_and_missing() {
    assert_eq!(shortstat_counts(" 1 file changed, 1 insertion(+)"), (1, 0));
    assert_eq!(shortstat_counts(" 1 file changed, 1 deletion(-)"), (0, 1));
    assert_eq!(shortstat_counts(" 2 files changed"), (0, 0));
}

#[test]
fn shortstat_thousands_separator() {
    assert_eq!(shortstat_counts(" 40 files changed, 1,204 insertions(+), 12,000 deletions(-)"), (0, 12000));
    assert_eq!(shortstat_counts(" 40 files changed, 1,204 insertions(+)"), (1204, 0));
}

#[test]
fn shortstat_marker_first_word() {
    assert_eq!(shortstat_counts("insertions(+) changed"), (0, 0));
    assert_eq!(shortstat_counts("x insertions(+) changed"), (0, 0));
}

#[test]
fn tally_two_authors() {
    let log = lines(
        "Alice\n 2 files changed, 10 insertions(+)\n\nBob \n 1 file changed, 4 deletions(-)\nALICE\n 1 file changed, 1 insertion(+), 3 deletions(-)",
    );
    let t = tally_log(&log).unwrap();
    assert_eq!(t.len(), 2);
    assert_eq!(t[0].0, "alice");
    assert_eq!(t[0].1, stats(2, 10, 3));
    assert_eq!(t[0].1.insertion_deletion(), 7);
    assert_eq!(t[1].0, "bob");
    assert_eq!(t[1].1, stats(1, 0, 4));
}

#[test]
fn tally_author_without_commits_and_empty_log() {
    let t = tally_log(&lines("Carol")).unwrap();
    assert_eq!(t.len(), 1);
    assert_eq!(t[0].1, stats(0, 0, 0));
    assert!(tally_log(&Vec::new()).unwrap().is_empty());
}

#[test]
fn tally_change_without_author_is_ignored() {
    let t = tally_log(&lines(" 1 file changed, 5 insertions(+)\n   \n 1 file changed, 2 insertions(+)")).unwrap();
    assert!(t.is_empty());
}

#[test]
fn tally_overflow_is_none() {
    let log = lines("dave\n 1 file changed, 4294967295 insertions(+)\n 1 file changed, 1 insertion(+)");
    assert!(tally_log(&log).is_none());
}
