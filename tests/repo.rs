use git_utils::repo::{locate_repo, LocateError};

fn args(a: &[&str]) -> Vec<String> {
    a.iter().map(|s| s.to_string()).collect()
}

#[test]
fn repo_from_config() {
    let config = "[core]\n\tbare = false\n[remote \"origin\"]\n\turl = git@github.com:octo/hello-world.git\n\tfetch = +refs/heads/*\n";
    assert_eq!(locate_repo(Some(config), &args(&["prog"])), Ok(("octo".to_string(), "hello-world".to_string())));
}

#[test]
fn repo_config_without_remote() {
    let config = "[remote \"origin\"]\n\turl = https://github.com/octo/hello.git\n";
    assert_eq!(locate_repo(Some(config), &args(&["prog", "a", "b"])), Err(LocateError::NoRemote));
}

#[test]
fn repo_from_args() {
    assert_eq!(locate_repo(None, &args(&["prog", "octo", "tools"])), Ok(("octo".to_string(), "tools".to_string())));
    assert_eq!(locate_repo(None, &args(&["prog", "octo"])), Err(LocateError::Usage));
    assert_eq!(locate_repo(None, &args(&["prog", "a", "b", "c"])), Err(LocateError::Usage));
}
