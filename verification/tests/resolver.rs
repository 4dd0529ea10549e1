use rshell::resolver::{join, resolve, search_directories, Entry, Listing};

fn listing(directory: &str, files: &[(&str, bool)]) -> Listing {
    Listing {
        directory: directory.to_string(),
        entries: files
            .iter()
            .map(|(name, regular)| Entry { name: name.to_string(), regular: *regular })
            .collect(),
    }
}

fn path(p: &str) -> Option<String> {
    Some(p.to_string())
}

#[test]
fn search_directories_follow_the_path() {
    assert_eq!(
        search_directories(&path("/usr/bin:/bin:.")),
        vec!["/usr/bin".to_string(), "/bin".to_string(), ".".to_string()]
    );
    assert_eq!(search_directories(&path("/bin")), vec!["/bin".to_string()]);
}

#[test]
fn search_directories_keep_empty_pieces() {
    assert_eq!(search_directories(&path("")), vec!["".to_string()]);
    assert_eq!(
        search_directories(&path(":/a::/b:")),
        vec!["".to_string(), "/a".to_string(), "".to_string(), "/b".to_string(), "".to_string()]
    );
}

#[test]
fn search_directories_of_no_path_are_none() {
    assert_eq!(search_directories(&None), Vec::<String>::new());
}

#[test]
fn join_puts_one_slash_between() {
    assert_eq!(join("./tmp", "test"), "./tmp/test");
    assert_eq!(join("/usr/bin", "ls"), "/usr/bin/ls");
    assert_eq!(join("/usr/bin/", "ls"), "/usr/bin/ls");
    assert_eq!(join("/", "ls"), "/ls");
    assert_eq!(join("", "ls"), "ls");
    assert_eq!(join(".", ""), "./");
}

#[test]
fn resolve_finds_a_regular_file() {
    let listings = vec![listing("/bin", &[("cat", true), ("ls", true)])];
    assert_eq!(resolve("ls", &path("/bin"), &listings), Some("/bin/ls".to_string()));
}

#[test]
fn resolve_takes_the_first_directory_in_path_order() {
    let listings = vec![listing("/b", &[("x", true)]), listing("/a", &[("x", true)])];
    assert_eq!(resolve("x", &path("/a:/b"), &listings), Some("/a/x".to_string()));
    assert_eq!(resolve("x", &path("/b:/a"), &listings), Some("/b/x".to_string()));
}

#[test]
fn resolve_skips_directories_that_were_not_listed() {
    let listings = vec![listing("/b", &[("x", true)])];
    assert_eq!(resolve("x", &path("/gone:/b"), &listings), Some("/b/x".to_string()));
    assert_eq!(resolve("x", &path("/gone"), &listings), None);
}

#[test]
fn resolve_skips_what_is_no_regular_file() {
    let listings =
        vec![listing("/a", &[("x", false)]), listing("/b", &[("x", false), ("x", true)])];
    assert_eq!(resolve("x", &path("/a:/b"), &listings), Some("/b/x".to_string()));
    assert_eq!(resolve("x", &path("/a"), &listings), None);
}

#[test]
fn resolve_matches_names_exactly() {
    let listings = vec![listing("/a", &[("Prog", true), ("program", true), ("pro", true)])];
    assert_eq!(resolve("prog", &path("/a"), &listings), None);
    assert_eq!(resolve("Prog", &path("/a"), &listings), Some("/a/Prog".to_string()));
}

#[test]
fn resolve_ignores_directories_off_the_path() {
    let listings = vec![listing("/a", &[("x", true)])];
    assert_eq!(resolve("x", &path("/b"), &listings), None);
    assert_eq!(resolve("x", &path("/a/"), &listings), None);
}

#[test]
fn resolve_without_a_path_fails() {
    let listings = vec![listing(".", &[("x", true)]), listing("", &[("x", true)])];
    assert_eq!(resolve("x", &None, &listings), None);
}

#[test]
fn resolve_with_nothing_listed_fails() {
    assert_eq!(resolve("x", &path("/a:/b"), &Vec::new()), None);
}
