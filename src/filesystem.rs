//! Classifying paths and listing a directory's children. The file system is
//! read by the caller; these functions decide what the answers mean.
use vstd::prelude::*;

use crate::sandbox::{has_parent_segment, is_absolute, join_path, spec_has_parent_segment, spec_is_absolute, spec_join};

verus! {

/// How an entry is served: as a Markdown document or as a directory.
#[derive(Clone, Copy, Debug, PartialEq, Eq, Structural)]
pub enum FType {
    MDFile,
    Directory,
}

/// What the file system reports a path to be.
#[derive(Clone, Copy, Debug, PartialEq, Eq, Structural)]
pub enum PathKind {
    Directory,
    File,
    /// Anything else, or nothing at all.
    Other,
}

/// A document or directory below a subject's root: its file name, its full
/// path on disk, how it is served, and its path relative to the root.
#[derive(Clone, Debug)]
pub struct Entry {
    pub name: String,
    pub data: String,
    pub ftype: FType,
    pub url: String,
}

pub struct EntryView {
    pub name: Seq<char>,
    pub data: Seq<char>,
    pub ftype: FType,
    pub url: Seq<char>,
}

impl View for Entry {
    type V = EntryView;

    open spec fn view(&self) -> EntryView {
        EntryView { name: self.name@, data: self.data@, ftype: self.ftype, url: self.url@ }
    }
}

/// A directory with its Markdown documents and its subdirectories.
#[derive(Clone, Debug)]
pub struct Directory {
    pub head: Entry,
    pub mds: Vec<Entry>,
    pub dirs: Vec<Entry>,
}

/// One child of a directory, as the file system reports it.
#[derive(Clone, Debug)]
pub struct Child {
    pub name: String,
    pub kind: PathKind,
}

pub struct ChildView {
    pub name: Seq<char>,
    pub kind: PathKind,
}

impl View for Child {
    type V = ChildView;

    open spec fn view(&self) -> ChildView {
        ChildView { name: self.name@, kind: self.kind }
    }
}

pub open spec fn entries_view(s: Seq<Entry>) -> Seq<EntryView> {
    s.map_values(|e: Entry| e@)
}

pub open spec fn children_view(s: Seq<Child>) -> Seq<ChildView> {
    s.map_values(|c: Child| c@)
}

/// The last component of `p`: what follows its last `/`.
pub open spec fn spec_file_name(p: Seq<char>) -> Seq<char>
    decreases p.len(),
{
    if p.len() == 0 {
        p
    } else if p.last() == '/' {
        Seq::empty()
    } else {
        spec_file_name(p.drop_last()).push(p.last())
    }
}

/// A name with the extension `md`: a non-empty stem, then `.md`.
pub open spec fn spec_is_md(name: Seq<char>) -> bool {
    &&& name.len() > 3
    &&& name[name.len() - 3] == '.'
    &&& name[name.len() - 2] == 'm'
    &&& name[name.len() - 1] == 'd'
}

/// Names that start with a dot are hidden.
pub open spec fn spec_is_hidden(name: Seq<char>) -> bool {
    name.len() > 0 && name[0] == '.'
}

/// The entry for `url` below `basepath`, given what the file system says the
/// joined path is: directories, and files with the extension `md`. A url that
/// is absolute or has a `..` component could leave `basepath` and names no entry.
pub open spec fn spec_open(url: Seq<char>, basepath: Seq<char>, kind: PathKind) -> Option<EntryView> {
    let path = spec_join(basepath, url);
    let name = spec_file_name(path);
    if spec_is_absolute(url) || spec_has_parent_segment(url) {
        None
    } else {
        match kind {
        PathKind::Directory => Some(EntryView { name, data: path, ftype: FType::Directory, url }),
        PathKind::File => if spec_is_md(name) {
            Some(EntryView { name, data: path, ftype: FType::MDFile, url })
        } else {
            None
        },
        PathKind::Other => None,
        }
    }
}

pub open spec fn entry_option_view(o: Option<Entry>) -> Option<EntryView> {
    match o {
        Some(e) => Some(e@),
        None => None,
    }
}

/// A child is listed when it is not hidden, or when hidden ones are asked for.
pub open spec fn shown(c: ChildView, hidden: bool) -> bool {
    hidden || !spec_is_hidden(c.name)
}

/// The entry that a shown child of the directory at `head_url` becomes.
pub open spec fn child_entry(head_url: Seq<char>, basepath: Seq<char>, c: ChildView) -> Option<EntryView> {
    spec_open(spec_join(head_url, c.name), basepath, c.kind)
}

/// The entries of type `t` among `cs`, in their order.
pub open spec fn listed(cs: Seq<ChildView>, head_url: Seq<char>, basepath: Seq<char>, hidden: bool, t: FType) -> Seq<EntryView>
    decreases cs.len(),
{
    if cs.len() == 0 {
        Seq::empty()
    } else {
        let rest = listed(cs.drop_last(), head_url, basepath, hidden, t);
        let c = cs.last();
        match child_entry(head_url, basepath, c) {
            Some(e) => if shown(c, hidden) && e.ftype == t {
                rest.push(e)
            } else {
                rest
            },
            None => rest,
        }
    }
}

/// `c` is listed as `e` among the entries of type `t`.
pub open spec fn lists_as(c: ChildView, head_url: Seq<char>, basepath: Seq<char>, hidden: bool, t: FType, e: EntryView) -> bool {
    &&& shown(c, hidden)
    &&& child_entry(head_url, basepath, c) == Some(e)
    &&& e.ftype == t
}

proof fn lemma_listed_contains(cs: Seq<ChildView>, head_url: Seq<char>, basepath: Seq<char>, hidden: bool, t: FType, e: EntryView)
    ensures
        listed(cs, head_url, basepath, hidden, t).contains(e) <==> exists|c: ChildView|
            #[trigger] cs.contains(c) && lists_as(c, head_url, basepath, hidden, t, e),
    decreases cs.len(),
{
    if cs.len() > 0 {
        let init = cs.drop_last();
        let last = cs.last();
        lemma_listed_contains(init, head_url, basepath, hidden, t, e);
        assert forall|x: ChildView| cs.contains(x) <==> (init.contains(x) || x == last) by {
            if cs.contains(x) {
                let k = choose|k: int| 0 <= k < cs.len() && cs[k] == x;
                if k < cs.len() - 1 {
                    assert(init[k] == x);
                }
            }
            if init.contains(x) {
                let k = choose|k: int| 0 <= k < init.len() && init[k] == x;
                assert(cs[k] == x);
            }
            if x == last {
                assert(cs[cs.len() - 1] == x);
            }
        }
        let rest = listed(init, head_url, basepath, hidden, t);
        let l = listed(cs, head_url, basepath, hidden, t);
        assert(l == rest || (l.len() == rest.len() + 1 && l.drop_last() == rest));
        assert(forall|k: int| 0 <= k < rest.len() ==> l[k] == rest[k]);
        if l.contains(e) {
            let k = choose|k: int| 0 <= k < l.len() && l[k] == e;
            if k < rest.len() {
                assert(rest.contains(e));
                let c = choose|c: ChildView| #[trigger] init.contains(c) && lists_as(c, head_url, basepath, hidden, t, e);
                assert(cs.contains(c));
            } else {
                assert(lists_as(last, head_url, basepath, hidden, t, e));
                assert(cs.contains(last));
            }
        }
        if exists|c: ChildView| #[trigger] cs.contains(c) && lists_as(c, head_url, basepath, hidden, t, e) {
            let c = choose|c: ChildView| #[trigger] cs.contains(c) && lists_as(c, head_url, basepath, hidden, t, e);
            if init.contains(c) {
                assert(rest.contains(e));
                let k = choose|k: int| 0 <= k < rest.len() && rest[k] == e;
                assert(l[k] == e);
            } else {
                assert(c == last);
                assert(l == rest.push(e));
                assert(l[rest.len() as int] == e);
            }
        }
    }
}

/// Listing depends only on which children a directory has, not on the order
/// in which the file system reports them: two reports of an unchanged
/// directory give the same entries of each type.
pub proof fn lemma_listing_depends_on_children(a: Seq<ChildView>, b: Seq<ChildView>, head_url: Seq<char>, basepath: Seq<char>, hidden: bool, t: FType)
    requires
        a.to_set() == b.to_set(),
    ensures
        listed(a, head_url, basepath, hidden, t).to_set() == listed(b, head_url, basepath, hidden, t).to_set(),
{
    assert forall|e: EntryView| #[trigger] listed(a, head_url, basepath, hidden, t).to_set().contains(e)
        == listed(b, head_url, basepath, hidden, t).to_set().contains(e) by {
        lemma_listed_contains(a, head_url, basepath, hidden, t, e);
        lemma_listed_contains(b, head_url, basepath, hidden, t, e);
        if exists|c: ChildView| #[trigger] a.contains(c) && lists_as(c, head_url, basepath, hidden, t, e) {
            let c = choose|c: ChildView| #[trigger] a.contains(c) && lists_as(c, head_url, basepath, hidden, t, e);
            assert(a.to_set().contains(c));
            assert(b.contains(c));
        }
        if exists|c: ChildView| #[trigger] b.contains(c) && lists_as(c, head_url, basepath, hidden, t, e) {
            let c = choose|c: ChildView| #[trigger] b.contains(c) && lists_as(c, head_url, basepath, hidden, t, e);
            assert(b.to_set().contains(c));
            assert(a.contains(c));
        }
    }
    assert(listed(a, head_url, basepath, hidden, t).to_set() =~= listed(b, head_url, basepath, hidden, t).to_set());
}

pub fn file_name(p: &str) -> (r: String)
    ensures
        r@ == spec_file_name(p@),
{
    let n = p.unicode_len();
    let mut start: usize = 0;
    let mut i: usize = 0;
    while i < n
        invariant
            n == p@.len(),
            start <= i <= n,
            spec_file_name(p@.subrange(0, i as int)) == p@.subrange(start as int, i as int),
        decreases n - i,
    {
        let c = p.get_char(i);
        proof {
            assert(p@.subrange(0, i + 1).drop_last() =~= p@.subrange(0, i as int));
        }
        if c == '/' {
            start = i + 1;
            assert(spec_file_name(p@.subrange(0, i + 1)) =~= p@.subrange(start as int, i + 1));
        } else {
            assert(spec_file_name(p@.subrange(0, i + 1)) =~= p@.subrange(start as int, i + 1));
        }
        i = i + 1;
    }
    assert(p@.subrange(0, n as int) =~= p@);
    p.substring_char(start, n).to_owned()
}

pub fn is_md(name: &str) -> (r: bool)
    ensures
        r == spec_is_md(name@),
{
    let n = name.unicode_len();
    n > 3 && name.get_char(n - 3) == '.' && name.get_char(n - 2) == 'm' && name.get_char(n - 1) == 'd'
}

pub fn is_hidden(name: &str) -> (r: bool)
    ensures
        r == spec_is_hidden(name@),
{
    name.unicode_len() > 0 && name.get_char(0) == '.'
}

/// The entry for `url` below `basepath`, where `kind` is what the file system
/// reports for the joined path.
pub fn open(url: &str, basepath: &str, kind: PathKind) -> (r: Option<Entry>)
    ensures
        entry_option_view(r) == spec_open(url@, basepath@, kind),
{
    if is_absolute(url) || has_parent_segment(url) {
        return None;
    }
    let path = join_path(basepath, url);
    let filename = file_name(path.as_str());
    match kind {
        PathKind::Directory => Some(
            Entry { data: path, name: filename, ftype: FType::Directory, url: url.to_owned() },
        ),
        PathKind::File => {
            if is_md(filename.as_str()) {
                Some(Entry { data: path, name: filename, ftype: FType::MDFile, url: url.to_owned() })
            } else {
                None
            }
        },
        PathKind::Other => None,
    }
}

/// Lists the directory `entry` below `basepath` from its children as the file
/// system reported them: each shown child that is a directory or a Markdown
/// document becomes an entry, in the children's order. `entry` is the
/// directory's own entry, as `open` gives it: its path is `basepath` joined
/// with its url.
pub fn ls(entry: Entry, basepath: &str, children: &Vec<Child>, hidden: bool) -> (r: Directory)
    requires
        entry@.data == spec_join(basepath@, entry@.url),
    ensures
        r.head@ == entry@,
        entries_view(r.mds@) == listed(children_view(children@), entry.url@, basepath@, hidden, FType::MDFile),
        entries_view(r.dirs@) == listed(children_view(children@), entry.url@, basepath@, hidden, FType::Directory),
{
    let ghost cs = children_view(children@);
    let mut mds: Vec<Entry> = Vec::new();
    let mut dirs: Vec<Entry> = Vec::new();
    let n = children.len();
    let mut i: usize = 0;
    while i < n
        invariant
            n == children@.len(),
            i <= n,
            cs == children_view(children@),
            entries_view(mds@) == listed(cs.subrange(0, i as int), entry.url@, basepath@, hidden, FType::MDFile),
            entries_view(dirs@) == listed(cs.subrange(0, i as int), entry.url@, basepath@, hidden, FType::Directory),
        decreases n - i,
    {
        let c = &children[i];
        proof {
            assert(cs.subrange(0, i + 1).drop_last() =~= cs.subrange(0, i as int));
            assert(cs.subrange(0, i + 1).last() == c@);
        }
        if hidden || !is_hidden(c.name.as_str()) {
            let url = join_path(entry.url.as_str(), c.name.as_str());
            match open(url.as_str(), basepath, c.kind) {
                Some(e) => {
                    match e.ftype {
                        FType::MDFile => {
                            mds.push(e);
                            
                        },
                        FType::Directory => {
                            dirs.push(e);
                        },
                    }
                },
                None => {},
            }
        }
        i = i + 1;
    }
    assert(cs.subrange(0, n as int) =~= cs);
    Directory { head: entry, mds, dirs }
}

} // verus!
