//! How far each local branch of a repository is ahead of and behind the
//! checked-out commit: reading git's output for that report.

use vstd::prelude::*;
use crate::text::{chars_of, decimal_i32, parse_decimal_i32, same_text, trim_of, trim_text};

verus! {

/// The three `@`-separated parts of a branch line, as the first match of
/// `([^@]+)@([^@]+)@([^@]+)` captures them, or `None` where it does not match.
pub uninterp spec fn branch_groups(line: Seq<char>) -> Option<(Seq<char>, Seq<char>, Seq<char>)>;

/// The text with every non-overlapping occurrence of `from`, left to right,
/// replaced by `to`.
pub uninterp spec fn replace_of(s: Seq<char>, from: Seq<char>, to: Seq<char>) -> Seq<char>;

/// Relies on the `regex` crate: `Regex::new` on this fixed pattern, which is
/// valid, then `Regex::captures`, for the three groups of
/// `([^\@]+)@([^\@]+)@([^\@]+)`.
#[verifier::external_body]
fn branch_captures(line: &str) -> (r: Option<(String, String, String)>)
    ensures
        match r {
            Some(g) => branch_groups(line@) == Some((g.0@, g.1@, g.2@)),
            None => branch_groups(line@) is None,
        },
{
    let re = regex::Regex::new(r"([^\@]+)@([^\@]+)@([^\@]+)").unwrap();
    re.captures(line).map(|c| (c[1].to_string(), c[2].to_string(), c[3].to_string()))
}

/// Relies on `str::replace`: the result depends on the three texts alone.
#[verifier::external_body]
fn replace_text(s: &str, from: &str, to: &str) -> (r: String)
    ensures
        r@ == replace_of(s@, from@, to@),
{
    s.replace(from, to)
}

/// The fields of a text separated by tabs, as `str::split('\t')` yields
/// them: one more than there are tabs.
pub open spec fn tab_fields(s: Seq<char>) -> Seq<Seq<char>>
    decreases s.len(),
{
    if s.len() == 0 {
        seq![Seq::empty()]
    } else {
        let f = tab_fields(s.drop_last());
        if s.last() == '\t' {
            f.push(Seq::empty())
        } else {
            f.update(f.len() - 1, f.last().push(s.last()))
        }
    }
}

proof fn lemma_tab_fields_nonempty(s: Seq<char>)
    ensures
        tab_fields(s).len() >= 1,
    decreases s.len(),
{
    if s.len() > 0 {
        lemma_tab_fields_nonempty(s.drop_last());
    }
}

pub open spec fn views(v: Seq<Vec<char>>) -> Seq<Seq<char>> {
    v.map_values(|c: Vec<char>| c@)
}

/// Splits a text at its tabs.
pub fn split_tabs(s: &str) -> (r: Vec<Vec<char>>)
    ensures
        views(r@) == tab_fields(s@),
{
    let cs = chars_of(s);
    let mut done: Vec<Vec<char>> = Vec::new();
    let mut current: Vec<char> = Vec::new();
    let mut i: usize = 0;
    assert(s@.take(0) =~= Seq::<char>::empty());
    assert(views(done@).push(current@) =~= tab_fields(s@.take(0)));
    while i < cs.len()
        invariant
            cs@ == s@,
            i <= cs.len(),
            views(done@).push(current@) == tab_fields(s@.take(i as int)),
        decreases cs.len() - i,
    {
        proof {
            lemma_tab_fields_nonempty(s@.take(i as int));
        }
        assert(s@.take(i + 1).drop_last() =~= s@.take(i as int));
        if cs[i] == '\t' {
            done.push(current);
            current = Vec::new();
            assert(views(done@).push(current@) =~= tab_fields(s@.take(i + 1)));
        } else {
            current.push(cs[i]);
            assert(views(done@).push(current@) =~= tab_fields(s@.take(i + 1)));
        }
        i = i + 1;
    }
    assert(s@.take(cs.len() as int) =~= s@);
    done.push(current);
    assert(views(done@) =~= tab_fields(s@));
    done
}

pub open spec fn count_or_zero(s: Seq<char>) -> i32 {
    match decimal_i32(s) {
        Some(n) => n,
        None => 0,
    }
}

/// The `(ahead, behind)` counts of `git rev-list --left-right --count`
/// output `<behind>\t<ahead>`, after trimming; a field that is no number
/// counts as zero. `None` where the output has no tab.
pub open spec fn ahead_behind_spec(output: Seq<char>) -> Option<(i32, i32)> {
    let f = tab_fields(trim_of(output));
    if f.len() >= 2 {
        Some((count_or_zero(f[1]), count_or_zero(f[0])))
    } else {
        None
    }
}

/// Reads how far a branch is ahead of and behind its base.
pub fn ahead_behind(output: &str) -> (r: Option<(i32, i32)>)
    ensures
        r == ahead_behind_spec(output@),
{
    let fields = split_tabs(trim_text(output));
    if fields.len() < 2 {
        return None;
    }
    assert(views(fields@)[0] == fields@[0]@);
    assert(views(fields@)[1] == fields@[1]@);
    let behind = match parse_decimal_i32(&fields[0]) {
        Some(n) => n,
        None => 0,
    };
    let ahead = match parse_decimal_i32(&fields[1]) {
        Some(n) => n,
        None => 0,
    };
    Some((ahead, behind))
}

/// A line of the branch listing: short commit id, branch name and the
/// relative time of its last commit.
pub struct BranchRow {
    pub sha: String,
    pub branch: String,
    pub time: String,
}

/// The row a listing line gives, unless it does not match or its branch
/// name equals `head`.
pub open spec fn branch_row_spec(line: Seq<char>, head: Seq<char>) -> Option<
    (Seq<char>, Seq<char>, Seq<char>),
> {
    match branch_groups(line) {
        Some(g) => if g.1 == head {
            None
        } else {
            Some(g)
        },
        None => None,
    }
}

/// Reads a line of `git for-each-ref` output in the form
/// `<sha>@<branch>@<time>`, skipping the branch named `head`.
pub fn branch_row(line: &str, head: &str) -> (r: Option<BranchRow>)
    ensures
        match r {
            Some(row) => branch_row_spec(line@, head@) == Some((row.sha@, row.branch@, row.time@)),
            None => branch_row_spec(line@, head@) is None,
        },
{
    match branch_captures(line) {
        Some((sha, branch, time)) => if same_text(branch.as_str(), head) {
            None
        } else {
            Some(BranchRow { sha, branch, time })
        },
        None => None,
    }
}

/// The label of a repository: its remote URL, trimmed, with every `.git`
/// taken out.
pub fn repo_label(remote_url: &str) -> (r: String)
    ensures
        r@ == replace_of(trim_of(remote_url@), ".git"@, ""@),
{
    replace_text(trim_text(remote_url), ".git", "")
}

} // verus!
