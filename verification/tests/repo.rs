use sheepit::error::SheepError;
use sheepit::repo::branch::GitBranches;
use sheepit::repo::commit::GitCommits;
use sheepit::repo::options::{expand_path, CloneOptions};
use sheepit::repo::path;
use sheepit::repo::reference;
use sheepit::repo::remote::GitRemotes;
use sheepit::repo::ssh::{find_best_key_name, find_best_ssh_key};
use sheepit::repo::tag::GitTags;
use sheepit::repo::RepoAction;

fn parsed(url: &str) -> Result<String, String> {
    match parse_git_url::GitUrl::parse(url) {
        Ok(git_url) => Ok(git_url.name),
        Err(error) => Err(error.to_string()),
    }
}

#[test]
fn git_committer_with_default_branch() {
    let committer = GitCommits::with_default_branch("develop");
    assert_eq!("develop", committer.default_branch)
}

#[test]
fn branch_ref_name() {
    let expected = "refs/heads/my_branch";
    let reference = reference::branch_ref_name("my_branch");
    assert_eq!(expected, reference)
}

#[test]
fn tag_ref_name() {
    let expected = "refs/tags/1.0.0";
    let reference = reference::tag_ref_name("1.0.0");
    assert_eq!(expected, reference)
}

#[test]
fn find_best_key_name_empty_names() {
    let result = find_best_key_name(vec![]);
    result.expect_err("should be an error");
}

#[test]
fn find_best_key_name_typical_ssh() {
    let names = vec!["config", "id_rsa", "id_rsa.pub", "known_hosts"];
    let result = find_best_key_name(names.iter().map(|n| n.to_string()).collect());
    let name = result.expect("failed to find file name");
    assert_eq!("id_rsa", name)
}

#[test]
fn find_best_key_name_takes_the_first_private_key() {
    let names = vec!["id_ed25519.pub", "id_", "id_ed25519", "id_rsa"];
    let result = find_best_key_name(names.iter().map(|n| n.to_string()).collect());
    assert_eq!(Ok(String::from("id_")), result);
}

#[test]
fn find_best_key_name_says_that_it_found_none() {
    let names = vec!["config", "id_rsa.pub", "known_hosts", "rsa_id_", ".pub"];
    let result = find_best_key_name(names.iter().map(|n| n.to_string()).collect());
    assert_eq!(Err(SheepError::new("failed to find ssh key")), result);
}

#[test]
fn find_best_ssh_key_is_in_the_ssh_directory() {
    let names = vec!["config", "id_rsa", "id_rsa.pub"];
    let result =
        find_best_ssh_key("/home/me/.ssh", names.iter().map(|n| n.to_string()).collect());
    assert_eq!(Ok(String::from("/home/me/.ssh/id_rsa")), result);
    let none = find_best_ssh_key("/home/me/.ssh", vec![String::from("config")]);
    assert_eq!(Err(SheepError::new("failed to find ssh key")), none);
}

#[test]
fn repo_path_invalid_url() {
    path::repo_path(parsed("invalid"), "/dir").expect_err("failed to emit error for invalid URL");
}

#[test]
fn repo_path_https_url() {
    let path = path::repo_path(parsed("https://github.com/ncipollo/sheepit.git"), "/dir")
        .expect("failed to parse ssh url");
    assert_eq!("/dir/sheepit", path)
}

#[test]
fn repo_path_ssh_url() {
    let path = path::repo_path(parsed("git@github.com:ncipollo/sheepit.git"), "/dir")
        .expect("failed to parse ssh url");
    assert_eq!("/dir/sheepit", path)
}

#[test]
fn repo_name_tells_the_two_failures_apart() {
    assert_eq!(Ok(String::from("sheepit")), path::repo_name(Ok(String::from("sheepit"))));
    assert_eq!(
        Err(SheepError::new("no repo name found in git url")),
        path::repo_name(Ok(String::new()))
    );
    assert_eq!(
        Err(SheepError::git_url("unsupported scheme")),
        path::repo_name(Err(String::from("unsupported scheme")))
    );
    assert_eq!(
        Err(SheepError::git_url("unsupported scheme")),
        path::repo_path(Err(String::from("unsupported scheme")), "/dir")
    );
}

#[test]
fn branch_requests() {
    let branches = GitBranches::new();
    assert_eq!(
        RepoAction::CreateBranch { name: String::from("release/1.0.0") },
        branches.create_branch("release/1.0.0")
    );
    assert_eq!(
        RepoAction::Checkout { reference: String::from("refs/heads/release/1.0.0") },
        branches.checkout_branch("release/1.0.0")
    );
}

#[test]
fn commit_requests() {
    let commits = GitCommits::with_default_branch("main");
    assert_eq!(
        RepoAction::Commit {
            message: String::from("preparing release 1.0.0"),
            default_branch: String::from("main"),
        },
        commits.commit("preparing release 1.0.0")
    );
    assert_eq!("refs/heads/develop", commits.head_reference(Some("develop")));
    assert_eq!("refs/heads/main", commits.head_reference(None));
}

#[test]
fn tag_requests() {
    let tags = GitTags::new();
    assert_eq!(
        RepoAction::CreateLightweightTag { name: String::from("1.0.0") },
        tags.create_tag("1.0.0", None)
    );
    assert_eq!(
        RepoAction::CreateAnnotatedTag {
            name: String::from("1.0.0"),
            annotation: String::from("first"),
        },
        tags.create_tag("1.0.0", Some("first"))
    );
    let listed = vec![Some(String::from("1.0.0")), None, Some(String::from("2.0.0")), None];
    assert_eq!(vec!["1.0.0", "2.0.0"], tags.map_tag_names_to_vec(&listed));
    assert_eq!(Vec::<String>::new(), tags.map_tag_names_to_vec(&vec![]));
    assert_eq!(vec!["1.0.0", "2.0.0"], tags.get_tags(Some(listed)));
    assert_eq!(Vec::<String>::new(), tags.get_tags(None));
}

#[test]
fn push_requests() {
    let remotes = GitRemotes::new();
    assert_eq!(
        RepoAction::Push {
            remote: String::from("origin"),
            refspec: String::from("refs/heads/main:refs/heads/main"),
        },
        remotes.push_branch("main", "origin")
    );
    assert_eq!(
        RepoAction::Push {
            remote: String::from("upstream"),
            refspec: String::from("refs/tags/1.0.0:refs/tags/1.0.0"),
        },
        remotes.push_tag("1.0.0", "upstream")
    );
}

#[test]
fn expand_path_leaves_a_path_without_tilde() {
    assert_eq!("/some/dir", expand_path("/some/dir"));
    assert_eq!("some/~/dir", expand_path("some/~/dir"));
    assert_eq!("", expand_path(""));
    assert_eq!("~other/dir", expand_path("~other/dir"));
}

#[test]
fn expanded_path() {
    let home = expand_path("~");
    let expected = format!("{home}/foo");

    let expanded_path = expand_path("~/foo");

    assert_eq!(expected, expanded_path);
    assert_ne!("~/foo", expanded_path);
    assert!(!expanded_path.starts_with('~'));
}

#[test]
fn new_expands_tilde_path() {
    let options = CloneOptions::new("url", "~/repo");

    let home = expand_path("~");
    let expected_path = format!("{home}/repo");
    let expected = CloneOptions { repo_url: String::from("url"), path: expected_path };
    assert_eq!(expected, options);
    assert_ne!("~/repo", options.path);
}

#[test]
fn new_keeps_a_path_without_tilde() {
    let options = CloneOptions::new("url", "/tmp/repo");
    let expected = CloneOptions { repo_url: String::from("url"), path: String::from("/tmp/repo") };
    assert_eq!(expected, options);
}

#[test]
fn errors_say_where_they_come_from() {
    assert_eq!("😱 boom", SheepError::new("boom").to_string());
    assert_eq!("😱 git error: boom", SheepError::git("boom").to_string());
    assert_eq!("😱 io error: boom", SheepError::io("boom").to_string());
    assert_eq!("😱 git url parse error: boom", SheepError::git_url("boom").to_string());
    assert_eq!("😱 config parse error: boom", SheepError::config("boom").to_string());
    assert_eq!(SheepError::new("git error: boom"), SheepError::git("boom"));
    assert_ne!(SheepError::new("boom"), SheepError::new("bang"));
}
