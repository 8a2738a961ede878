//! The next semantic-version tag, from the latest tag and the keyword that
//! opens the latest commit message.

use vstd::prelude::*;
use crate::text::{chars_of, decimal_u32, parse_decimal_u32, same_text};

verus! {

/// The three digit groups of a tag of the form `v<digits>.<digits>.<digits>`
/// (digits in the Unicode sense), or `None` where the tag has another form.
pub uninterp spec fn version_groups(tag: Seq<char>) -> Option<(Seq<char>, Seq<char>, Seq<char>)>;

/// A version `major.minor.patch`.
#[derive(Clone, Copy, Debug, PartialEq, Eq, Structural)]
pub struct Version {
    pub major: u32,
    pub minor: u32,
    pub patch: u32,
}

/// Why no new tag can be made.
#[derive(Clone, Copy, Debug, PartialEq, Eq, Structural)]
pub enum TagError {
    /// The latest tag is not `v<major>.<minor>.<patch>` with numbers that fit
    /// in a `u32`.
    UnrecognizedTag,
    /// The latest commit message could not be read.
    NoCommitMessage,
    /// The commit message does not open with `maj:`, `mod:`, `add:`, `del:`
    /// or `fix:`.
    UnrecognizedMessage,
    /// The bumped number does not fit in a `u32`.
    VersionOverflow,
}

/// How a keyword moves the version.
#[derive(Clone, Copy, Debug, PartialEq, Eq, Structural)]
pub enum Bump {
    Major,
    Minor,
    Patch,
}

/// The keyword a commit message opens with: three letters among `mod`, `add`,
/// `del`, `fix`, `maj`, followed by a colon.
pub open spec fn keyword_spec(msg: Seq<char>) -> Option<Seq<char>> {
    let k = msg.take(3);
    if msg.len() >= 4 && msg[3] == ':' && (k == "mod"@ || k == "add"@ || k == "del"@ || k
        == "fix"@ || k == "maj"@) {
        Some(k)
    } else {
        None
    }
}

pub open spec fn bump_spec(keyword: Seq<char>) -> Bump {
    if keyword == "maj"@ {
        Bump::Major
    } else if keyword == "fix"@ {
        Bump::Patch
    } else {
        Bump::Minor
    }
}

/// Relies on the `regex` crate: `Regex::new` on this fixed pattern, which is
/// valid, then `Regex::captures`, for the three groups of
/// `^v(\d+)\.(\d+)\.(\d+)$`.
#[verifier::external_body]
fn version_captures(tag: &str) -> (r: Option<(String, String, String)>)
    ensures
        match r {
            Some(g) => version_groups(tag@) == Some((g.0@, g.1@, g.2@)),
            None => version_groups(tag@) is None,
        },
{
    let re = regex::Regex::new(r"^v(\d+)\.(\d+)\.(\d+)$").unwrap();
    re.captures(tag).map(|c| (c[1].to_string(), c[2].to_string(), c[3].to_string()))
}

/// Relies on the `regex` crate: `Regex::new` on this fixed pattern, which is
/// valid, then `Regex::captures`, for the group of `^(mod|add|del|fix|maj):`,
/// which matches only at the start of the message.
#[verifier::external_body]
fn keyword_capture(msg: &str) -> (r: Option<String>)
    ensures
        match r {
            Some(k) => keyword_spec(msg@) == Some(k@),
            None => keyword_spec(msg@) is None,
        },
{
    let re = regex::Regex::new(r"^(mod|add|del|fix|maj):").unwrap();
    re.captures(msg).map(|c| c[1].to_string())
}

/// The version a tag names, if it has the form `v<major>.<minor>.<patch>`.
pub open spec fn tag_version(tag: Seq<char>) -> Option<Version> {
    match version_groups(tag) {
        Some((a, b, c)) => match (decimal_u32(a), decimal_u32(b), decimal_u32(c)) {
            (Some(x), Some(y), Some(z)) => Some(Version { major: x, minor: y, patch: z }),
            _ => None,
        },
        None => None,
    }
}

/// The version after `v`, moved as the keyword says: a major bump resets
/// the minor and patch numbers.
pub open spec fn bumped(v: Version, b: Bump) -> Result<Version, TagError> {
    match b {
        Bump::Major => if v.major < u32::MAX {
            Ok(Version { major: (v.major + 1) as u32, minor: 0, patch: 0 })
        } else {
            Err(TagError::VersionOverflow)
        },
        Bump::Minor => if v.minor < u32::MAX {
            Ok(Version { major: v.major, minor: (v.minor + 1) as u32, patch: v.patch })
        } else {
            Err(TagError::VersionOverflow)
        },
        Bump::Patch => if v.patch < u32::MAX {
            Ok(Version { major: v.major, minor: v.minor, patch: (v.patch + 1) as u32 })
        } else {
            Err(TagError::VersionOverflow)
        },
    }
}

/// What `next_version` yields.
pub open spec fn next_version_spec(latest_tag: Option<Seq<char>>, message: Option<Seq<char>>) -> Result<
    Version,
    TagError,
> {
    match latest_tag {
        None => Ok(Version { major: 1, minor: 0, patch: 0 }),
        Some(t) => match tag_version(t) {
            None => Err(TagError::UnrecognizedTag),
            Some(v) => match message {
                None => Err(TagError::NoCommitMessage),
                Some(m) => match keyword_spec(m) {
                    None => Err(TagError::UnrecognizedMessage),
                    Some(k) => bumped(v, bump_spec(k)),
                },
            },
        },
    }
}

pub open spec fn opt_text(o: Option<&str>) -> Option<Seq<char>> {
    match o {
        Some(s) => Some(s@),
        None => None,
    }
}

/// Reads a tag of the form `v<major>.<minor>.<patch>`.
pub fn parse_version_tag(tag: &str) -> (r: Option<Version>)
    ensures
        r == tag_version(tag@),
{
    let (a, b, c) = match version_captures(tag) {
        Some(g) => g,
        None => return None,
    };
    match (
        parse_decimal_u32(&chars_of(a.as_str())),
        parse_decimal_u32(&chars_of(b.as_str())),
        parse_decimal_u32(&chars_of(c.as_str())),
    ) {
        (Some(x), Some(y), Some(z)) => Some(Version { major: x, minor: y, patch: z }),
        _ => None,
    }
}

/// Moves a version as a keyword says.
pub fn bump_version(v: Version, b: Bump) -> (r: Result<Version, TagError>)
    ensures
        r == bumped(v, b),
{
    match b {
        Bump::Major => if v.major < u32::MAX {
            Ok(Version { major: v.major + 1, minor: 0, patch: 0 })
        } else {
            Err(TagError::VersionOverflow)
        },
        Bump::Minor => if v.minor < u32::MAX {
            Ok(Version { major: v.major, minor: v.minor + 1, patch: v.patch })
        } else {
            Err(TagError::VersionOverflow)
        },
        Bump::Patch => if v.patch < u32::MAX {
            Ok(Version { major: v.major, minor: v.minor, patch: v.patch + 1 })
        } else {
            Err(TagError::VersionOverflow)
        },
    }
}

/// The version of the next tag: `1.0.0` where there is no tag yet; else the
/// latest tag's version moved by the commit message's keyword (`maj` the
/// major number, `mod`, `add` and `del` the minor one, `fix` the patch).
pub fn next_version(latest_tag: Option<&str>, commit_message: Option<&str>) -> (r: Result<
    Version,
    TagError,
>)
    ensures
        r == next_version_spec(opt_text(latest_tag), opt_text(commit_message)),
{
    let tag = match latest_tag {
        None => return Ok(Version { major: 1, minor: 0, patch: 0 }),
        Some(t) => t,
    };
    let v = match parse_version_tag(tag) {
        None => return Err(TagError::UnrecognizedTag),
        Some(v) => v,
    };
    let msg = match commit_message {
        None => return Err(TagError::NoCommitMessage),
        Some(m) => m,
    };
    let keyword = match keyword_capture(msg) {
        None => return Err(TagError::UnrecognizedMessage),
        Some(k) => k,
    };
    let b = if same_text(keyword.as_str(), "maj") {
        Bump::Major
    } else if same_text(keyword.as_str(), "fix") {
        Bump::Patch
    } else {
        Bump::Minor
    };
    bump_version(v, b)
}

} // verus!
