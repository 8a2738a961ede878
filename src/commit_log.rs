//! Per-author tallies of a commit log printed with one author line per
//! commit (`--pretty=format:%cn`) followed by its `--shortstat` line.

use vstd::prelude::*;
use vstd::string::*;
use crate::author_stats::AuthorStats;
use crate::text::{
    chars_of, contains, contains_text, decimal_u32, parse_decimal_u32, same_text, trim_of, trim_text,
};

verus! {

/// The whitespace-separated words of a text, in order.
pub uninterp spec fn words_of(s: Seq<char>) -> Seq<Seq<char>>;

/// The text in lower case.
pub uninterp spec fn lower_of(s: Seq<char>) -> Seq<char>;

/// Relies on `str::split_whitespace`: the words of the text, in order.
#[verifier::external_body]
fn words(s: &str) -> (r: Vec<String>)
    ensures
        r@.len() == words_of(s@).len(),
        forall|i: int| 0 <= i < r@.len() ==> (#[trigger] r@[i])@ == words_of(s@)[i],
{
    s.split_whitespace().map(String::from).collect()
}

/// Relies on `str::to_lowercase`: the result depends on the characters alone.
#[verifier::external_body]
fn lowercase(s: &str) -> (r: String)
    ensures
        r@ == lower_of(s@),
{
    s.to_lowercase()
}

/// Whether `p` is the first position of `w` among the words.
pub open spec fn is_first(ws: Seq<Seq<char>>, w: Seq<char>, p: int) -> bool {
    0 <= p < ws.len() && ws[p] == w && forall|k: int| 0 <= k < p ==> ws[k] != w
}

/// The first position of `w` among the words, if it occurs.
pub open spec fn position(ws: Seq<Seq<char>>, w: Seq<char>) -> Option<int> {
    if exists|p: int| is_first(ws, w, p) {
        Some(choose|p: int| is_first(ws, w, p))
    } else {
        None
    }
}

/// The text without its commas.
pub open spec fn without_commas(s: Seq<char>) -> Seq<char>
    decreases s.len(),
{
    if s.len() == 0 {
        s
    } else if s.last() == ',' {
        without_commas(s.drop_last())
    } else {
        without_commas(s.drop_last()).push(s.last())
    }
}

/// The count written just before the first of the two marker words (the
/// singular one first), with its thousands separators dropped; zero where
/// neither marker occurs, nothing precedes it or that word is no count.
pub open spec fn count_before(ws: Seq<Seq<char>>, one: Seq<char>, many: Seq<char>) -> u32 {
    let p = match position(ws, one) {
        Some(p) => Some(p),
        None => position(ws, many),
    };
    match p {
        Some(p) if p >= 1 => match decimal_u32(without_commas(ws[p - 1])) {
            Some(n) => n,
            None => 0,
        },
        _ => 0,
    }
}

/// The inserted and deleted line counts of a `--shortstat` line.
pub open spec fn shortstat_spec(line: Seq<char>) -> (u32, u32) {
    let ws = words_of(line);
    (count_before(ws, "insertion(+)"@, "insertions(+)"@), count_before(ws, "deletion(-)"@, "deletions(-)"@))
}

proof fn lemma_first_unique(ws: Seq<Seq<char>>, w: Seq<char>, p: int)
    requires
        is_first(ws, w, p),
    ensures
        position(ws, w) == Some(p),
{
    let q = choose|q: int| is_first(ws, w, q);
    assert(is_first(ws, w, q));
    if q < p {
        assert(ws[q] != w);
    }
    if p < q {
        assert(ws[p] != w);
    }
}

fn find_word(ws: &Vec<String>, w: &str) -> (r: Option<usize>)
    ensures
        match r {
            Some(p) => position(ws@.map_values(|s: String| s@), w@) == Some(p as int),
            None => position(ws@.map_values(|s: String| s@), w@) is None,
        },
{
    let ghost v = ws@.map_values(|s: String| s@);
    let mut i: usize = 0;
    while i < ws.len()
        invariant
            v == ws@.map_values(|s: String| s@),
            i <= ws.len(),
            forall|k: int| 0 <= k < i ==> v[k] != w@,
        decreases ws.len() - i,
    {
        if same_text(ws[i].as_str(), w) {
            proof {
                lemma_first_unique(v, w@, i as int);
            }
            return Some(i);
        }
        i = i + 1;
    }
    assert(!exists|p: int| is_first(v, w@, p)) by {
        if exists|p: int| is_first(v, w@, p) {
            let p = choose|p: int| is_first(v, w@, p);
            assert(v[p] == w@);
        }
    }
    None
}

fn strip_commas(s: &str) -> (r: Vec<char>)
    ensures
        r@ == without_commas(s@),
{
    let cs = chars_of(s);
    let mut r: Vec<char> = Vec::new();
    let mut i: usize = 0;
    while i < cs.len()
        invariant
            cs@ == s@,
            i <= cs.len(),
            r@ == without_commas(s@.take(i as int)),
        decreases cs.len() - i,
    {
        assert(s@.take(i + 1).drop_last() =~= s@.take(i as int));
        if cs[i] != ',' {
            r.push(cs[i]);
        }
        i = i + 1;
    }
    assert(s@.take(cs.len() as int) =~= s@);
    r
}

fn count_of(ws: &Vec<String>, one: &str, many: &str) -> (r: u32)
    ensures
        r == count_before(ws@.map_values(|s: String| s@), one@, many@),
{
    let ghost v = ws@.map_values(|s: String| s@);
    let p = match find_word(ws, one) {
        Some(p) => Some(p),
        None => find_word(ws, many),
    };
    match p {
        Some(p) => {
            if p >= 1 {
                assert(v[p - 1] == ws@[p - 1]@);
                match parse_decimal_u32(&strip_commas(ws[p - 1].as_str())) {
                    Some(n) => n,
                    None => 0,
                }
            } else {
                0
            }
        },
        None => 0,
    }
}

/// The inserted and deleted line counts of a `--shortstat` line such as
/// ` 3 files changed, 1,204 insertions(+), 7 deletions(-)`.
pub fn shortstat_counts(line: &str) -> (r: (u32, u32))
    ensures
        r == shortstat_spec(line@),
{
    let ws = words(line);
    assert(ws@.map_values(|s: String| s@) =~= words_of(line@));
    (
        count_of(&ws, "insertion(+)", "insertions(+)"),
        count_of(&ws, "deletion(-)", "deletions(-)"),
    )
}

/// Where a tally stands: the author of the commit being read, and each
/// author's statistics in order of first appearance.
pub ghost struct TallyView {
    pub author: Seq<char>,
    pub table: Seq<(Seq<char>, AuthorStats)>,
}

pub open spec fn table_view(t: Seq<(String, AuthorStats)>) -> Seq<(Seq<char>, AuthorStats)> {
    t.map_values(|e: (String, AuthorStats)| (e.0@, e.1))
}

pub open spec fn lines_view(lines: Seq<String>) -> Seq<Seq<char>> {
    lines.map_values(|s: String| s@)
}

/// Whether `p` is the first entry of the table for `key`.
pub open spec fn is_first_key(t: Seq<(Seq<char>, AuthorStats)>, key: Seq<char>, p: int) -> bool {
    0 <= p < t.len() && t[p].0 == key && forall|k: int| 0 <= k < p ==> t[k].0 != key
}

/// The first entry of the table for `key`, if there is one.
pub open spec fn key_position(t: Seq<(Seq<char>, AuthorStats)>, key: Seq<char>) -> Option<int> {
    if exists|p: int| is_first_key(t, key, p) {
        Some(choose|p: int| is_first_key(t, key, p))
    } else {
        None
    }
}

/// Whether one more commit with these counts fits in the statistics.
pub open spec fn fits(s: AuthorStats, ins: u32, del: u32) -> bool {
    s.commits < u32::MAX && s.insertions + ins <= u32::MAX && s.deletions + del <= u32::MAX
}

pub open spec fn with_commit(s: AuthorStats, ins: u32, del: u32) -> AuthorStats {
    AuthorStats {
        commits: (s.commits + 1) as u32,
        insertions: (s.insertions + ins) as u32,
        deletions: (s.deletions + del) as u32,
    }
}

/// One line of the log. A line that mentions ` changed` is a commit's
/// shortstat: its counts go to the current author, if that author has an
/// entry. Any other line names the author of the next commit, lower-cased and
/// trimmed; a new, non-empty name gets an empty entry. `None` where a count
/// would overflow.
pub open spec fn apply_line(st: TallyView, line: Seq<char>) -> Option<TallyView> {
    if contains(line, " changed"@) {
        let (ins, del) = shortstat_spec(line);
        match key_position(st.table, st.author) {
            None => Some(st),
            Some(p) => if fits(st.table[p].1, ins, del) {
                Some(
                    TallyView {
                        author: st.author,
                        table: st.table.update(p, (st.author, with_commit(st.table[p].1, ins, del))),
                    },
                )
            } else {
                None
            },
        }
    } else {
        let a = trim_of(lower_of(line));
        if a.len() == 0 || key_position(st.table, a) is Some {
            Some(TallyView { author: a, table: st.table })
        } else {
            Some(
                TallyView {
                    author: a,
                    table: st.table.push((a, AuthorStats { commits: 0, insertions: 0, deletions: 0 })),
                },
            )
        }
    }
}

/// The tally of the lines, in order.
pub open spec fn tally_spec(lines: Seq<Seq<char>>) -> Option<TallyView>
    decreases lines.len(),
{
    if lines.len() == 0 {
        Some(TallyView { author: Seq::empty(), table: Seq::empty() })
    } else {
        match tally_spec(lines.drop_last()) {
            None => None,
            Some(st) => apply_line(st, lines.last()),
        }
    }
}

proof fn lemma_key_unique(t: Seq<(Seq<char>, AuthorStats)>, key: Seq<char>, p: int)
    requires
        is_first_key(t, key, p),
    ensures
        key_position(t, key) == Some(p),
{
    let q = choose|q: int| is_first_key(t, key, q);
    assert(is_first_key(t, key, q));
    if q < p {
        assert(t[q].0 != key);
    }
    if p < q {
        assert(t[p].0 != key);
    }
}

proof fn lemma_none_stays(lines: Seq<Seq<char>>, i: int)
    requires
        0 <= i <= lines.len(),
        tally_spec(lines.take(i)) is None,
    ensures
        tally_spec(lines) is None,
    decreases lines.len(),
{
    if i == lines.len() {
        assert(lines.take(i) =~= lines);
    } else {
        assert(lines.drop_last().take(i) =~= lines.take(i));
        lemma_none_stays(lines.drop_last(), i);
    }
}

fn find_author(t: &Vec<(String, AuthorStats)>, key: &str) -> (r: Option<usize>)
    ensures
        match r {
            Some(p) => key_position(table_view(t@), key@) == Some(p as int),
            None => key_position(table_view(t@), key@) is None,
        },
{
    let ghost v = table_view(t@);
    let mut i: usize = 0;
    while i < t.len()
        invariant
            v == table_view(t@),
            i <= t.len(),
            forall|k: int| 0 <= k < i ==> v[k].0 != key@,
        decreases t.len() - i,
    {
        if same_text(t[i].0.as_str(), key) {
            proof {
                lemma_key_unique(v, key@, i as int);
            }
            return Some(i);
        }
        i = i + 1;
    }
    assert(!exists|p: int| is_first_key(v, key@, p)) by {
        if exists|p: int| is_first_key(v, key@, p) {
            let p = choose|p: int| is_first_key(v, key@, p);
            assert(v[p].0 == key@);
        }
    }
    None
}

/// Tallies a commit log, given as its lines: each author's number of
/// commits, inserted lines and deleted lines, in order of first appearance.
/// `None` where a count does not fit in a `u32`.
pub fn tally_log(lines: &Vec<String>) -> (r: Option<Vec<(String, AuthorStats)>>)
    ensures
        match r {
            Some(t) => tally_spec(lines_view(lines@)) matches Some(st) && table_view(t@)
                == st.table,
            None => tally_spec(lines_view(lines@)) is None,
        },
{
    let ghost lv = lines_view(lines@);
    let mut table: Vec<(String, AuthorStats)> = Vec::new();
    let mut author = String::new();
    let mut i: usize = 0;
    assert(lv.take(0) =~= Seq::<Seq<char>>::empty());
    assert(table_view(table@) =~= Seq::<(Seq<char>, AuthorStats)>::empty());
    while i < lines.len()
        invariant
            lv == lines_view(lines@),
            i <= lines.len(),
            tally_spec(lv.take(i as int)) == Some(
                TallyView { author: author@, table: table_view(table@) },
            ),
        decreases lines.len() - i,
    {
        let ghost st = TallyView { author: author@, table: table_view(table@) };
        assert(lv.take(i + 1).drop_last() =~= lv.take(i as int));
        assert(lv.take(i + 1).last() == lines@[i as int]@);
        let line = lines[i].as_str();
        if contains_text(line, " changed") {
            let (ins, del) = shortstat_counts(line);
            match find_author(&table, author.as_str()) {
                None => {},
                Some(p) => {
                    let mut s = table[p].1;
                    if s.commits < u32::MAX && ins <= u32::MAX - s.insertions && del <= u32::MAX
                        - s.deletions {
                        s.add_stats(ins, del);
                        let name = table[p].0.clone();
                        table.set(p, (name, s));
                        assert(table_view(table@) =~= st.table.update(
                            p as int,
                            (st.author, with_commit(st.table[p as int].1, ins, del)),
                        ));
                    } else {
                        proof {
                            lemma_none_stays(lv, i + 1);
                        }
                        return None;
                    }
                },
            }
        } else {
            let lower = lowercase(line);
            let trimmed = trim_text(lower.as_str());
            author = trimmed.to_owned();
            if author.unicode_len() > 0 {
                if find_author(&table, author.as_str()).is_none() {
                    table.push((author.clone(), AuthorStats::new()));
                    assert(table_view(table@) =~= st.table.push(
                        (author@, AuthorStats { commits: 0, insertions: 0, deletions: 0 }),
                    ));
                }
            }
        }
        i = i + 1;
    }
    assert(lv.take(lines.len() as int) =~= lv);
    Some(table)
}

} // verus!
