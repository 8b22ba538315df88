use zk::filesystem::{file_name, is_hidden, is_md, ls, open, Child, Entry, FType, PathKind};

fn child(name: &str, kind: PathKind) -> Child {
    Child { name: name.to_string(), kind }
}

fn names(es: &[Entry]) -> Vec<String> {
    es.iter().map(|e| e.name.clone()).collect()
}

#[test]
fn open_classifies_paths() {
    let d = open("notes", "/r/alice", PathKind::Directory).unwrap();
    assert_eq!(d.ftype, FType::Directory);
    assert_eq!(d.name, "notes");
    assert_eq!(d.data, "/r/alice/notes");
    assert_eq!(d.url, "notes");
    let f = open("notes/a.md", "/r/alice", PathKind::File).unwrap();
    assert_eq!(f.ftype, FType::MDFile);
    assert_eq!(f.name, "a.md");
    assert!(open("notes/a.txt", "/r/alice", PathKind::File).is_none());
    assert!(open("notes/.md", "/r/alice", PathKind::File).is_none());
    assert!(open("gone", "/r/alice", PathKind::Other).is_none());
}

#[test]
fn open_root_is_named_after_subject() {
    let d = open("", "/r/alice", PathKind::Directory).unwrap();
    assert_eq!(d.name, "alice");
    assert_eq!(d.url, "");
    assert_eq!(d.data, "/r/alice");
}

#[test]
fn name_helpers() {
    assert_eq!(file_name("/a/b/c.md"), "c.md");
    assert_eq!(file_name("c"), "c");
    assert_eq!(file_name("a/"), "");
    assert!(is_md("x.md"));
    assert!(is_md("..md"));
    assert!(!is_md(".md"));
    assert!(!is_md("x.mdx"));
    assert!(is_hidden(".git"));
    assert!(!is_hidden("git"));
    assert!(!is_hidden(""));
}

#[test]
fn ls_partitions_and_hides() {
    let head = open("notes", "/r/alice", PathKind::Directory).unwrap();
    let children = vec![
        child("a.md", PathKind::File),
        child(".hidden.md", PathKind::File),
        child("sub", PathKind::Directory),
        child("img.png", PathKind::File),
        child(".git", PathKind::Directory),
        child("b.md", PathKind::File),
        child("pipe", PathKind::Other),
    ];
    let d = ls(head, "/r/alice", &children, false);
    assert_eq!(d.head.url, "notes");
    assert_eq!(names(&d.mds), vec!["a.md", "b.md"]);
    assert_eq!(names(&d.dirs), vec!["sub"]);
    assert_eq!(d.mds[0].url, "notes/a.md");
    assert_eq!(d.mds[0].data, "/r/alice/notes/a.md");
    let head = open("notes", "/r/alice", PathKind::Directory).unwrap();
    let all = ls(head, "/r/alice", &children, true);
    assert_eq!(names(&all.mds), vec!["a.md", ".hidden.md", "b.md"]);
    assert_eq!(names(&all.dirs), vec!["sub", ".git"]);
}

#[test]
fn ls_of_empty_directory() {
    let head = open("", "/r/alice", PathKind::Directory).unwrap();
    let d = ls(head, "/r/alice", &Vec::new(), false);
    assert!(d.mds.is_empty());
    assert!(d.dirs.is_empty());
}

#[test]
fn ls_twice_in_other_order_gives_same_entries() {
    let first = vec![child("a.md", PathKind::File), child("sub", PathKind::Directory), child("b.md", PathKind::File)];
    let second = vec![child("b.md", PathKind::File), child("a.md", PathKind::File), child("sub", PathKind::Directory)];
    let head = || open("", "/r/alice", PathKind::Directory).unwrap();
    let x = ls(head(), "/r/alice", &first, false);
    let y = ls(head(), "/r/alice", &second, false);
    let mut xm = names(&x.mds);
    let mut ym = names(&y.mds);
    xm.sort();
    ym.sort();
    assert_eq!(xm, ym);
    assert_eq!(names(&x.dirs), names(&y.dirs));
    let again = ls(head(), "/r/alice", &first, false);
    assert_eq!(names(&again.mds), names(&x.mds));
}

#[test]
fn open_refuses_urls_leaving_basepath() {
    assert!(open("/etc", "/r/alice", PathKind::Directory).is_none());
    assert!(open("/etc/a.md", "/r/alice", PathKind::File).is_none());
    assert!(open("..", "/r/alice", PathKind::Directory).is_none());
    assert!(open("notes/../../bob", "/r/alice", PathKind::Directory).is_none());
    assert!(open("v1..2", "/r/alice", PathKind::Directory).is_some());
}

#[test]
fn ls_skips_parent_child_names() {
    let head = open("", "/r/alice", PathKind::Directory).unwrap();
    let children = vec![child("..", PathKind::Directory), child("ok", PathKind::Directory)];
    let d = ls(head, "/r/alice", &children, true);
    assert_eq!(names(&d.dirs), vec!["ok"]);
}
