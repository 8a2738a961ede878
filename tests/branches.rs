use git_utils::branches::{ahead_behind, branch_row, repo_label, split_tabs};

#[test]
fn ahead_behind_reads_both_counts() {
    assert_eq!(ahead_behind("3\t5\n"), Some((5, 3)));
    assert_eq!(ahead_behind("0\t0"), Some((0, 0)));
    assert_eq!(ahead_behind("  12\t-1  "), Some((-1, 12)));
}

#[test]
fn ahead_behind_non_numbers_are_zero() {
    assert_eq!(ahead_behind("x\t7"), Some((7, 0)));
    assert_eq!(ahead_behind("4\tz"), Some((0, 4)));
    assert_eq!(ahead_behind("4\t"), None);
    assert_eq!(ahead_behind("4\t2147483648"), Some((0, 4)));
    assert_eq!(ahead_behind("-2147483648\t1"), Some((1, i32::MIN)));
}

#[test]
fn ahead_behind_without_tab() {
    assert_eq!(ahead_behind("42"), None);
    assert_eq!(ahead_behind(""), None);
}

#[test]
fn split_tabs_fields() {
    let f = split_tabs("a\t\tbc");
    assert_eq!(f, vec![vec!['a'], vec![], vec!['b', 'c']]);
    assert_eq!(split_tabs(""), vec![Vec::<char>::new()]);
}

#[test]
fn branch_row_reads_line() {
    let row = branch_row("1a2b3c4@feature/x@3 days ago", "deadbeef").unwrap();
    assert_eq!(row.sha, "1a2b3c4");
    assert_eq!(row.branch, "feature/x");
    assert_eq!(row.time, "3 days ago");
}

#[test]
fn branch_row_skips_head_and_other_lines() {
    assert!(branch_row("1a2b3c4@main@2 hours ago", "main").is_none());
    assert!(branch_row("no separators here", "main").is_none());
    assert!(branch_row("a@b", "main").is_none());
}

#[test]
fn repo_label_drops_git() {
    assert_eq!(repo_label("git@github.com:me/tools.git\n"), "git@github.com:me/tools");
    assert_eq!(repo_label("https://example.com/a.git/b.git"), "https://example.com/a/b");
}
