//! Which repository to watch: from the local git configuration, or from the
//! command-line arguments.

use vstd::prelude::*;

verus! {

/// The owner and name in the first `url = git@github.com:<owner>/<name>.git`
/// line of a git configuration, as the pattern
/// `url\s*=\s*git@github\.com:(\w+)/([\w-]+)\.git` captures them.
pub uninterp spec fn remote_groups(config: Seq<char>) -> Option<(Seq<char>, Seq<char>)>;

/// Relies on the `regex` crate: `Regex::new` on this fixed pattern, which is
/// valid, then `Regex::captures`, for its two groups.
#[verifier::external_body]
fn remote_captures(config: &str) -> (r: Option<(String, String)>)
    ensures
        match r {
            Some(g) => remote_groups(config@) == Some((g.0@, g.1@)),
            None => remote_groups(config@) is None,
        },
{
    let re = regex::Regex::new(r#"url\s*=\s*git@github\.com:(\w+)/([\w-]+)\.git"#).unwrap();
    re.captures(config).map(|c| (c[1].to_string(), c[2].to_string()))
}

/// Why no repository could be named.
#[derive(Clone, Copy, Debug, PartialEq, Eq, Structural)]
pub enum LocateError {
    /// Inside a work tree, but its configuration names no GitHub remote.
    NoRemote,
    /// Outside a work tree, and the arguments are not `<owner> <name>`.
    Usage,
}

/// The `(owner, name)` to watch. Inside a work tree (`config` is its
/// configuration) the remote decides; outside one, the program's arguments
/// must be exactly the program name, the owner and the name.
pub fn locate_repo(config: Option<&str>, args: &Vec<String>) -> (r: Result<(String, String), LocateError>)
    ensures
        match config {
            Some(c) => match remote_groups(c@) {
                Some(g) => r matches Ok(p) && p.0@ == g.0 && p.1@ == g.1,
                None => r == Err::<(String, String), LocateError>(LocateError::NoRemote),
            },
            None => if args@.len() == 3 {
                r matches Ok(p) && p.0@ == args@[1]@ && p.1@ == args@[2]@
            } else {
                r == Err::<(String, String), LocateError>(LocateError::Usage)
            },
        },
{
    match config {
        Some(c) => match remote_captures(c) {
            Some(g) => Ok(g),
            None => Err(LocateError::NoRemote),
        },
        None => if args.len() == 3 {
            Ok((args[1].clone(), args[2].clone()))
        } else {
            Err(LocateError::Usage)
        },
    }
}

} // verus!
