use git2::Remote;
use git_integrate::git_extras::Repo;

fn identity(url: &str) -> Option<(String, String)> {
    Repo::from_url(Some(url)).map(|repo| (repo.owner, repo.name))
}

fn pair(owner: &str, name: &str) -> Option<(String, String)> {
    Some((owner.to_string(), name.to_string()))
}

#[test]
fn ssh_url_with_git_suffix() {
    assert_eq!(identity("git@github.com:owner/name.git"), pair("owner", "name"));
}

#[test]
fn ssh_url_without_git_suffix() {
    assert_eq!(identity("git@github.com:owner/name"), pair("owner", "name"));
}

#[test]
fn https_url_with_git_suffix() {
    assert_eq!(identity("https://github.com/rust-lang/git2-rs.git"), pair("rust-lang", "git2-rs"));
}

#[test]
fn https_url_without_git_suffix() {
    assert_eq!(identity("https://github.com/rust-lang/git2-rs"), pair("rust-lang", "git2-rs"));
}

#[test]
fn ssh_scheme_url_with_port() {
    assert_eq!(identity("ssh://git@host.example:2222/team/tool.git"), pair("team", "tool"));
}

#[test]
fn bare_owner_and_name() {
    assert_eq!(identity("owner/name"), pair("owner", "name"));
}

#[test]
fn owner_is_what_follows_the_last_colon() {
    assert_eq!(identity("a:b:c/name"), pair("c", "name"));
}

#[test]
fn deeper_paths_keep_the_last_two_segments() {
    assert_eq!(identity("https://host/group/sub/owner/name.git"), pair("owner", "name"));
}

#[test]
fn only_one_git_suffix_is_removed() {
    assert_eq!(identity("https://host/owner/name.git.git"), pair("owner", "name.git"));
    assert_eq!(identity("https://github.com/o/n.git.git"), pair("o", "n.git"));
    assert_eq!(identity("user@host:owner/a.git.git.git"), pair("owner", "a.git.git"));
}

#[test]
fn git_inside_the_name_is_kept() {
    assert_eq!(identity("https://host/owner/my.github"), pair("owner", "my.github"));
    assert_eq!(identity("https://host/owner/a.git.b"), pair("owner", "a.git.b"));
    assert_eq!(identity("https://host/owner/git"), pair("owner", "git"));
}

#[test]
fn characters_beyond_ascii_are_counted_as_characters() {
    assert_eq!(identity("https://hôte/propriétaire/dépôt.git"), pair("propriétaire", "dépôt"));
    assert_eq!(identity("用户@主机:所有者/仓库"), pair("所有者", "仓库"));
}

#[test]
fn missing_url_names_no_repository() {
    assert!(Repo::from_url(None).is_none());
}

#[test]
fn url_without_slash_names_no_repository() {
    assert_eq!(identity("name.git"), None);
    assert_eq!(identity("git@github.com:name"), None);
    assert_eq!(identity(""), None);
}

#[test]
fn empty_name_names_no_repository() {
    assert_eq!(identity("https://host/owner/"), None);
    assert_eq!(identity("https://host/owner/.git"), None);
}

#[test]
fn name_that_is_the_suffix_itself_is_kept_once() {
    assert_eq!(identity("https://host/owner/.git.git"), pair("owner", ".git"));
}

#[test]
fn empty_owner_names_no_repository() {
    assert_eq!(identity("/name"), None);
    assert_eq!(identity("https://host//name.git"), None);
    assert_eq!(identity("git@host:/name.git"), None);
}

#[test]
fn derived_identity_has_both_parts() {
    let repo = Repo::from_url(Some("git@github.com:o/n.git")).unwrap();
    assert!(!repo.owner.is_empty());
    assert!(!repo.name.is_empty());
}

#[test]
fn plain_urls_give_back_their_parts() {
    let prefixes = ["", "git@github.com:", "https://github.com/", "ssh://git@host:22/", "a/b:"];
    let owners = ["owner", "rust-lang", "o", "my.org"];
    let names = ["name", "git2-rs", "n", "a.git.b", "x.gi", "x.git", ".git"];
    for prefix in prefixes {
        for owner in owners {
            for name in names {
                let long = format!("{}{}/{}.git", prefix, owner, name);
                assert_eq!(identity(&long), pair(owner, name));
                if !name.ends_with(".git") {
                    let short = format!("{}{}/{}", prefix, owner, name);
                    assert_eq!(identity(&short), pair(owner, name));
                }
            }
        }
    }
}

#[test]
fn identity_of_a_detached_remote() {
    let remote = Remote::create_detached("git@github.com:owner/name.git").unwrap();
    let repo = Repo::new(&remote).unwrap();
    assert_eq!(repo.owner, "owner");
    assert_eq!(repo.name, "name");
}

#[test]
fn identity_of_a_detached_https_remote() {
    let remote = Remote::create_detached("https://github.com/rust-lang/cargo").unwrap();
    let repo = Repo::new(&remote).unwrap();
    assert_eq!(repo.owner, "rust-lang");
    assert_eq!(repo.name, "cargo");
}

#[test]
fn identity_of_a_detached_remote_with_a_doubled_suffix() {
    let remote = Remote::create_detached("https://github.com/o/n.git.git").unwrap();
    let repo = Repo::new(&remote).unwrap();
    assert_eq!(repo.owner, "o");
    assert_eq!(repo.name, "n.git");
}

#[test]
fn remote_without_a_repository_path_has_no_identity() {
    let remote = Remote::create_detached("localhost").unwrap();
    assert!(Repo::new(&remote).is_none());
}

#[test]
fn remote_whose_url_is_not_text_has_no_identity() {
    let remote = Remote::create_detached(vec![b'h', 0xff, b'/', b'o', b'/', b'n']).unwrap();
    assert!(remote.url().is_none());
    assert!(Repo::new(&remote).is_none());
}
