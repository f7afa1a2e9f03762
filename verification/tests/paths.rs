use rslprompt::path::FsPath;

#[test]
fn parse_and_display() {
    let p = FsPath::parse("/home/u/");
    assert!(p.is_absolute());
    assert_eq!(p.num_parts(), 2);
    assert_eq!(p.part(0), "home");
    assert_eq!(p.display(), "/home/u");
    assert_eq!(FsPath::parse("a//./b/").display(), "a/b");
    assert_eq!(FsPath::parse("/").display(), "/");
    assert!(FsPath::parse("").is_empty());
}

#[test]
fn join_replaces_with_absolute() {
    let base = FsPath::parse("/repo");
    assert_eq!(base.join_str("../x/.git").display(), "/repo/../x/.git");
    assert_eq!(base.join_str("/abs/dir").display(), "/abs/dir");
}

#[test]
fn strip_prefix_by_components() {
    let p = FsPath::parse("/home/u/src/x");
    let home = FsPath::parse("/home/u/");
    assert_eq!(p.strip_prefix(&home).unwrap().display(), "src/x");
    assert!(p.strip_prefix(&FsPath::parse("/home/us")).is_none());
    assert!(p.strip_prefix(&FsPath::parse("home/u")).is_none());
    assert!(home.strip_prefix(&p).is_none());
    assert!(home.strip_prefix(&home).unwrap().is_empty());
}

#[test]
fn strip_after_join_gives_back_the_relative_path() {
    let base = FsPath::parse("/a/b");
    let joined = base.join_str("c/d");
    assert_eq!(joined.strip_prefix(&base).unwrap().display(), "c/d");
}

#[test]
fn parent_drops_last_component() {
    let p = FsPath::parse("/a/b");
    let q = p.parent().unwrap();
    assert_eq!(q.display(), "/a");
    let r = q.parent().unwrap();
    assert_eq!(r.display(), "/");
    assert!(r.parent().is_none());
}

#[test]
fn text_of_a_path_reads_back_as_the_same_path() {
    for text in ["/", "/home/u", "a/b/c", "", "/x/../y"] {
        let p = FsPath::parse(text);
        let again = FsPath::parse(&p.display());
        assert_eq!(again.display(), p.display());
        assert_eq!(again.is_absolute(), p.is_absolute());
        assert_eq!(again.num_parts(), p.num_parts());
    }
}

#[test]
fn leading_current_dir_is_kept() {
    let p = FsPath::parse("./h");
    assert_eq!(p.num_parts(), 2);
    assert_eq!(p.part(0), ".");
    assert_eq!(p.display(), "./h");
    assert_eq!(FsPath::parse(".").display(), ".");
    assert_eq!(FsPath::parse("././a/./b").display(), "./a/b");
    assert_eq!(FsPath::parse("/./a").display(), "/a");
    assert_eq!(FsPath::parse(".a/b").display(), ".a/b");
    assert!(FsPath::parse("./h").strip_prefix(&FsPath::parse("h")).is_none());
    assert_eq!(FsPath::parse("./h/x").strip_prefix(&FsPath::parse("./h")).unwrap().display(), "x");
}

#[test]
fn join_drops_a_leading_current_dir_of_the_joined_path() {
    assert_eq!(FsPath::parse("/a").join_str("./b").display(), "/a/b");
    assert_eq!(FsPath::parse("/").join_str("./b").display(), "/b");
    assert_eq!(FsPath::parse(".").join_str("./b").display(), "./b");
    assert_eq!(FsPath::parse("").join_str("./b").display(), "./b");
    assert_eq!(FsPath::parse("").join_str("b").display(), "b");
}

#[test]
fn the_empty_path_is_a_prefix_of_every_path() {
    let empty = FsPath::parse("");
    let rest = FsPath::parse("/x").strip_prefix(&empty).unwrap();
    assert!(rest.is_absolute());
    assert_eq!(rest.display(), "/x");
    assert_eq!(FsPath::parse("a/b").strip_prefix(&empty).unwrap().display(), "a/b");
    assert!(empty.strip_prefix(&empty).unwrap().is_empty());
    assert!(FsPath::parse("/x").strip_prefix(&FsPath::parse("/")).unwrap().display() == "x");
}
