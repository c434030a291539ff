//! Dentries: the tree of names, each bound to an inode.
//!
//! A dentry owns its children; a child names its parent by a link that
//! holds the parent's name and inode and keeps nothing alive. The children
//! of one dentry are a map from name to child: no name is bound twice, and
//! only a directory binds any. Whoever holds a dentry exclusively may change
//! it and, through it, what lies below it; a detached child leaves with all
//! that lies below it.

use vstd::prelude::*;
use crate::error::{FsError, FsResult};
use crate::inode::{inode_result_view, DbfsInode, InodeView};
use crate::names::same_name;
use crate::types::{MountPoint, NodeType};

verus! {

/// The upward link of a dentry: the name of its parent and the number of
/// the inode that the parent denotes. A link owns nothing of the parent.
#[derive(Clone, Debug, PartialEq, Eq)]
pub struct ParentLink {
    /// The parent's name.
    pub name: String,
    /// The number of the inode that the parent denotes.
    pub ino: u64,
}

/// An upward link, as plain mathematical values.
pub struct LinkView {
    pub name: Seq<char>,
    pub ino: nat,
}

impl View for ParentLink {
    type V = LinkView;

    open spec fn view(&self) -> LinkView {
        LinkView { name: self.name@, ino: self.ino as nat }
    }
}

/// An upward link that may be absent, with the link replaced by its view.
pub open spec fn link_view(link: Option<ParentLink>) -> Option<LinkView> {
    match link {
        Some(l) => Some(l@),
        None => None,
    }
}

/// The children of one dentry: the child at each place goes by the name at
/// that place.
#[derive(Debug)]
struct Children {
    names: Vec<String>,
    nodes: Vec<DbfsDentry>,
}

/// One node of the tree of names.
#[derive(Debug)]
pub struct DbfsDentry {
    parent: Option<ParentLink>,
    inode: DbfsInode,
    name: String,
    children: Children,
}

/// What a dentry is, as plain mathematical values.
pub struct DentryView {
    /// The path segment that the dentry stands for.
    pub name: Seq<char>,
    /// The inode that the name denotes.
    pub inode: InodeView,
    /// The link to the parent; the root has none.
    pub parent: Option<LinkView>,
    /// The children, each under the name that it is bound under.
    pub children: Map<Seq<char>, DentryView>,
}

impl DentryView {
    /// A dentry without children.
    pub open spec fn leaf(name: Seq<char>, inode: InodeView, parent: Option<LinkView>) -> DentryView {
        DentryView { name, inode, parent, children: Map::empty() }
    }

    /// The root of a mount: it is named `/` and has no parent.
    pub open spec fn root(inode: InodeView) -> DentryView {
        DentryView::leaf("/"@, inode, None)
    }

    /// Whether the dentry denotes a directory.
    pub open spec fn is_dir(self) -> bool {
        self.inode.is_dir()
    }

    /// The link by which a child of this dentry names it.
    pub open spec fn link(self) -> LinkView {
        LinkView { name: self.name, ino: self.inode.ino }
    }

    /// The child bound under `name`, if this is a directory that binds it.
    pub open spec fn find(self, name: Seq<char>) -> Option<DentryView> {
        if self.is_dir() && self.children.contains_key(name) {
            Some(self.children[name])
        } else {
            None
        }
    }

    /// Why nothing can be inserted under `name`, if anything stands in the
    /// way: only a directory takes children, and a bound name is never
    /// overwritten.
    pub open spec fn insert_error(self, name: Seq<char>) -> Option<FsError> {
        if !self.is_dir() {
            Some(FsError::NotDirectory)
        } else if self.children.contains_key(name) {
            Some(FsError::AlreadyExists)
        } else {
            None
        }
    }

    /// This dentry with `child` bound under `name`, in place of what was
    /// bound there.
    pub open spec fn with_child(self, name: Seq<char>, child: DentryView) -> DentryView {
        DentryView { children: self.children.insert(name, child), ..self }
    }

    /// This dentry with nothing bound under `name`.
    pub open spec fn without_child(self, name: Seq<char>) -> DentryView {
        DentryView { children: self.children.remove(name), ..self }
    }

    /// This dentry with its upward link replaced.
    pub open spec fn with_parent(self, parent: LinkView) -> DentryView {
        DentryView { parent: Some(parent), ..self }
    }

    /// What holds of every dentry: it binds finitely many names, and none
    /// if it is no directory.
    pub open spec fn wf(self) -> bool {
        &&& self.children.dom().finite()
        &&& !self.is_dir() ==> self.children.dom().is_empty()
    }
}

/// Once a name is bound in a directory, finding it gives the child that
/// was bound, and binding it again fails because it exists. The name must
/// have been free before: a bound name is never overwritten, so finding it
/// would give the child that was there.
pub proof fn lemma_insert_then_find(dir: DentryView, name: Seq<char>, child: DentryView)
    requires
        dir.is_dir(),
        !dir.children.contains_key(name),
    ensures
        dir.insert_error(name) is None,
        dir.with_child(name, child).find(name) == Some(child),
        dir.with_child(name, child).insert_error(name) == Some(FsError::AlreadyExists),
{
}

/// A dentry that is no directory finds nothing under any name, and takes
/// no child under any name.
pub proof fn lemma_non_directory_finds_nothing(dentry: DentryView, name: Seq<char>)
    requires
        !dentry.is_dir(),
    ensures
        dentry.find(name) is None,
        dentry.insert_error(name) == Some(FsError::NotDirectory),
{
}

/// Binding or detaching one name changes what is found under no other, and
/// a detached name is found no more.
pub proof fn lemma_other_names_keep(
    dentry: DentryView,
    name: Seq<char>,
    other: Seq<char>,
    child: DentryView,
)
    requires
        name != other,
    ensures
        dentry.with_child(name, child).find(other) == dentry.find(other),
        dentry.without_child(name).find(other) == dentry.find(other),
        dentry.without_child(name).find(name) is None,
{
}

/// Whether no two of `names` are the same name.
spec fn names_distinct(names: Seq<String>) -> bool {
    forall|i: int, j: int| 0 <= i < j < names.len() ==> names[i]@ != names[j]@
}

/// Whether `n` is one of `names`.
spec fn binds(names: Seq<String>, n: Seq<char>) -> bool {
    exists|i: int| 0 <= i < names.len() && (#[trigger] names[i])@ == n
}

/// A place at which `n` stands in `names`.
spec fn index_of(names: Seq<String>, n: Seq<char>) -> int {
    choose|i: int| 0 <= i < names.len() && (#[trigger] names[i])@ == n
}

/// The children as a map: each name to the child at its place.
spec fn child_map(names: Seq<String>, nodes: Seq<DentryView>) -> Map<Seq<char>, DentryView> {
    Map::new(|n: Seq<char>| binds(names, n), |n: Seq<char>| nodes[index_of(names, n)])
}

/// The views of the children, place by place.
spec fn views_of(nodes: Seq<DbfsDentry>) -> Seq<DentryView>
    decreases nodes,
{
    Seq::new(
        nodes.len(),
        |i: int|
            if 0 <= i < nodes.len() {
                nodes[i].view()
            } else {
                arbitrary()
            },
    )
}

/// Where names are distinct, a name is found at the one place where it
/// stands.
proof fn lemma_index_of(names: Seq<String>, nodes: Seq<DentryView>, i: int)
    requires
        names_distinct(names),
        0 <= i < names.len(),
    ensures
        binds(names, names[i]@),
        index_of(names, names[i]@) == i,
        child_map(names, nodes).contains_key(names[i]@),
        child_map(names, nodes)[names[i]@] == nodes[i],
{
    let n = names[i]@;
    assert(binds(names, n));
    let j = index_of(names, n);
    assert(0 <= j < names.len() && names[j]@ == n);
    if j < i {
        assert(names[j]@ != names[i]@);
    } else if i < j {
        assert(names[i]@ != names[j]@);
    }
}

/// A child map binds finitely many names, and none where there are no
/// names.
proof fn lemma_child_map_finite(names: Seq<String>, nodes: Seq<DentryView>)
    ensures
        child_map(names, nodes).dom().finite(),
        names.len() == 0 ==> child_map(names, nodes).dom().is_empty(),
    decreases names.len(),
{
    if names.len() == 0 {
        assert(child_map(names, nodes).dom() =~= Set::empty());
    } else {
        let shorter = names.drop_last();
        lemma_child_map_finite(shorter, nodes);
        let last = names.last()@;
        assert forall|n: Seq<char>|
            child_map(names, nodes).dom().contains(n) <==> child_map(shorter, nodes).dom().insert(
                last,
            ).contains(n) by {
            if binds(names, n) {
                let i = index_of(names, n);
                if i < names.len() - 1 {
                    assert(shorter[i]@ == n);
                }
            }
            if binds(shorter, n) {
                let i = index_of(shorter, n);
                assert(names[i]@ == n);
            }
            if n == last {
                assert(names[names.len() - 1]@ == n);
            }
        }
        assert(child_map(names, nodes).dom() =~= child_map(shorter, nodes).dom().insert(last));
    }
}

/// Appending a child under a fresh name binds that name and changes no
/// other.
proof fn lemma_child_map_push(names: Seq<String>, nodes: Seq<DentryView>, k: String, c: DentryView)
    requires
        names.len() == nodes.len(),
        names_distinct(names),
        !binds(names, k@),
    ensures
        names_distinct(names.push(k)),
        child_map(names.push(k), nodes.push(c)) == child_map(names, nodes).insert(k@, c),
{
    let names2 = names.push(k);
    let nodes2 = nodes.push(c);
    assert forall|i: int, j: int| 0 <= i < j < names2.len() implies names2[i]@ != names2[j]@ by {
        if j == names.len() {
            assert(names[i]@ != k@);
        }
    }
    assert forall|n: Seq<char>| #[trigger]
        child_map(names2, nodes2).contains_key(n) <==> child_map(names, nodes).insert(
            k@,
            c,
        ).contains_key(n) by {
        if binds(names2, n) {
            let i = index_of(names2, n);
            if i < names.len() {
                assert(names[i]@ == n);
            }
        }
        if binds(names, n) {
            let i = index_of(names, n);
            assert(names2[i]@ == n);
        }
        if n == k@ {
            assert(names2[names.len() as int]@ == n);
        }
    }
    assert forall|n: Seq<char>| #[trigger]
        child_map(names2, nodes2).contains_key(n) implies child_map(names2, nodes2)[n]
        == child_map(names, nodes).insert(k@, c)[n] by {
        let i = index_of(names2, n);
        lemma_index_of(names2, nodes2, i);
        if i < names.len() {
            lemma_index_of(names, nodes, i);
        }
    }
    assert(child_map(names2, nodes2) =~= child_map(names, nodes).insert(k@, c));
}

/// Taking out the child at one place unbinds its name and changes no
/// other.
proof fn lemma_child_map_remove(names: Seq<String>, nodes: Seq<DentryView>, i: int)
    requires
        names.len() == nodes.len(),
        names_distinct(names),
        0 <= i < names.len(),
    ensures
        names_distinct(names.remove(i)),
        child_map(names.remove(i), nodes.remove(i)) == child_map(names, nodes).remove(names[i]@),
{
    let names2 = names.remove(i);
    let nodes2 = nodes.remove(i);
    let gone = names[i]@;
    assert forall|a: int, b: int| 0 <= a < b < names2.len() implies names2[a]@ != names2[b]@ by {
        let a1 = if a < i {
            a
        } else {
            a + 1
        };
        let b1 = if b < i {
            b
        } else {
            b + 1
        };
        assert(names[a1]@ != names[b1]@);
    }
    assert forall|n: Seq<char>| #[trigger]
        child_map(names2, nodes2).contains_key(n) <==> child_map(names, nodes).remove(
            gone,
        ).contains_key(n) by {
        if binds(names2, n) {
            let k = index_of(names2, n);
            let k1 = if k < i {
                k
            } else {
                k + 1
            };
            assert(names[k1]@ == n);
            if k1 < i {
                assert(names[k1]@ != names[i]@);
            } else {
                assert(names[i]@ != names[k1]@);
            }
        }
        if binds(names, n) && n != gone {
            let k = index_of(names, n);
            let k2 = if k < i {
                k
            } else {
                k - 1
            };
            assert(names2[k2]@ == n);
        }
    }
    assert forall|n: Seq<char>| #[trigger]
        child_map(names2, nodes2).contains_key(n) implies child_map(names2, nodes2)[n]
        == child_map(names, nodes).remove(gone)[n] by {
        let k = index_of(names2, n);
        lemma_index_of(names2, nodes2, k);
        let k1 = if k < i {
            k
        } else {
            k + 1
        };
        lemma_index_of(names, nodes, k1);
    }
    assert(child_map(names2, nodes2) =~= child_map(names, nodes).remove(gone));
}

/// Replacing the child at one place rebinds its name and changes no other.
proof fn lemma_child_map_update(names: Seq<String>, nodes: Seq<DentryView>, i: int, c: DentryView)
    requires
        names.len() == nodes.len(),
        names_distinct(names),
        0 <= i < names.len(),
    ensures
        child_map(names, nodes.update(i, c)) == child_map(names, nodes).insert(names[i]@, c),
{
    let nodes2 = nodes.update(i, c);
    lemma_index_of(names, nodes, i);
    assert forall|n: Seq<char>| #[trigger]
        child_map(names, nodes2).contains_key(n) implies child_map(names, nodes2)[n] == child_map(
        names,
        nodes,
    ).insert(names[i]@, c)[n] by {
        let k = index_of(names, n);
        lemma_index_of(names, nodes, k);
    }
    assert(child_map(names, nodes2) =~= child_map(names, nodes).insert(names[i]@, c));
}

impl View for DbfsDentry {
    type V = DentryView;

    closed spec fn view(&self) -> DentryView
        decreases self,
    {
        DentryView {
            name: self.name@,
            inode: self.inode@,
            parent: link_view(self.parent),
            children: child_map(self.children.names@, views_of(self.children.nodes@)),
        }
    }
}

impl DbfsDentry {
    #[verifier::type_invariant]
    spec fn inv(&self) -> bool {
        &&& self.children.names@.len() == self.children.nodes@.len()
        &&& names_distinct(self.children.names@)
        &&& !self.inode@.is_dir() ==> self.children.names@.len() == 0
    }

    /// What the invariant of the type says of the view.
    proof fn lemma_inv_gives_wf(self)
        requires
            self.inv(),
        ensures
            self@.wf(),
    {
        lemma_child_map_finite(self.children.names@, views_of(self.children.nodes@));
    }

    /// The root of a mount, denoting `inode`: it is named `/`, has no
    /// parent and no children.
    pub fn root(inode: DbfsInode) -> (r: DbfsDentry)
        ensures
            r@ == DentryView::root(inode@),
            r@.wf(),
    {
        let r = DbfsDentry {
            parent: None,
            inode,
            name: "/".to_owned(),
            children: Children { names: Vec::new(), nodes: Vec::new() },
        };
        proof {
            assert(r@.children =~= Map::empty());
            r.lemma_inv_gives_wf();
        }
        r
    }

    /// The place among the children of the one bound under `name`.
    fn position(&self, name: &str) -> (r: Option<usize>)
        ensures
            match r {
                Some(i) => i < self.children.names@.len() && self.children.names@[i as int]@
                    == name@,
                None => !binds(self.children.names@, name@),
            },
    {
        let mut i: usize = 0;
        while i < self.children.names.len()
            invariant
                i <= self.children.names@.len(),
                forall|k: int| 0 <= k < i ==> (#[trigger] self.children.names@[k])@ != name@,
            decreases self.children.names@.len() - i,
        {
            if same_name(self.children.names[i].as_str(), name) {
                return Some(i);
            }
            i += 1;
        }
        None
    }

    /// The path segment that the dentry stands for.
    pub fn name(&self) -> (r: String)
        ensures
            r@ == self@.name,
    {
        self.name.clone()
    }

    /// The inode that the name denotes.
    pub fn inode(&self) -> (r: FsResult<DbfsInode>)
        ensures
            inode_result_view(r) == Ok::<InodeView, FsError>(self@.inode),
    {
        Ok(self.inode.clone())
    }

    /// The link to the parent; the root has none.
    pub fn parent(&self) -> (r: Option<ParentLink>)
        ensures
            link_view(r) == self@.parent,
    {
        match &self.parent {
            Some(l) => Some(ParentLink { name: l.name.clone(), ino: l.ino }),
            None => None,
        }
    }

    /// The link by which a child names this dentry as its parent.
    pub fn link(&self) -> (r: ParentLink)
        ensures
            r@ == self@.link(),
    {
        ParentLink { name: self.name.clone(), ino: self.inode.ino() }
    }

    /// Makes `parent` the link of this dentry to its parent. Nothing else
    /// of the dentry changes, and the dentry that the link names gains no
    /// child by it.
    pub fn set_parent(&mut self, parent: ParentLink)
        ensures
            final(self)@ == old(self)@.with_parent(parent@),
            final(self)@.wf(),
    {
        proof {
            use_type_invariant(&*self);
        }
        self.parent = Some(parent);
        proof {
            self.lemma_inv_gives_wf();
        }
    }

    /// Binding another filesystem's root here is not supported: the dentry
    /// stays as it was.
    pub fn to_mount_point<D>(&mut self, sub_fs_root: D, mount_flag: u32) -> (r: FsResult<()>)
        ensures
            r == Err::<(), FsError>(FsError::NotSupported),
            *final(self) == *old(self),
    {
        Err(FsError::NotSupported)
    }

    /// The marker of a mount point: no dentry is one.
    pub fn mount_point(&self) -> (r: Option<MountPoint>)
        ensures
            r is None,
    {
        None
    }

    /// Clears the marker of a mount point: there is none, so the dentry
    /// stays as it was.
    pub fn clear_mount_point(&mut self)
        ensures
            *final(self) == *old(self),
    {
    }

    /// The child bound under `path`: see [`DentryView::find`]. A dentry
    /// that is no directory has no child under any name.
    pub fn find(&self, path: &str) -> (r: Option<&DbfsDentry>)
        ensures
            match r {
                Some(d) => self@.find(path@) == Some(d@) && d@.wf(),
                None => self@.find(path@) is None,
            },
            self@.wf(),
    {
        proof {
            use_type_invariant(self);
            self.lemma_inv_gives_wf();
        }
        if self.inode.inode_type() != NodeType::Dir {
            return None;
        }
        match self.position(path) {
            Some(i) => {
                let d = &self.children.nodes[i];
                proof {
                    lemma_index_of(self.children.names@, views_of(self.children.nodes@), i as int);
                    use_type_invariant(d);
                    d.lemma_inv_gives_wf();
                }
                Some(d)
            },
            None => None,
        }
    }

    /// The child bound under `path`, to be changed in place. What the
    /// caller makes of the child is what this dentry binds under `path`
    /// afterwards; nothing else of this dentry changes.
    pub fn find_mut(&mut self, path: &str) -> (r: Option<&mut DbfsDentry>)
        ensures
            match r {
                Some(d) => {
                    &&& old(self)@.find(path@) == Some(d@)
                    &&& d@.wf()
                    &&& final(self)@ == old(self)@.with_child(path@, final(d)@)
                },
                None => old(self)@.find(path@) is None && *final(self) == *old(self),
            },
            final(self)@.wf(),
    {
        proof {
            use_type_invariant(&*self);
            self.lemma_inv_gives_wf();
        }
        if self.inode.inode_type() != NodeType::Dir {
            return None;
        }
        match self.position(path) {
            Some(i) => {
                let ghost names = self.children.names@;
                let ghost nodes = self.children.nodes@;
                let d = &mut self.children.nodes[i];
                proof {
                    let views = views_of(nodes);
                    lemma_index_of(names, views, i as int);
                    lemma_child_map_update(names, views, i as int, final(d)@);
                    assert(views_of(nodes.update(i as int, *final(d))) =~= views.update(
                        i as int,
                        final(d)@,
                    ));
                    lemma_child_map_finite(names, views.update(i as int, final(d)@));
                    use_type_invariant(&*d);
                    d.lemma_inv_gives_wf();
                }
                Some(d)
            },
            None => None,
        }
    }

    /// Binds a new child under `name`, denoting `child`, and hands it out
    /// to be built on. The new child has no children and links back to
    /// this dentry. Where this is no directory, or the name is bound
    /// already, nothing changes: see [`DentryView::insert_error`].
    pub fn insert(&mut self, name: &str, child: DbfsInode) -> (r: FsResult<&mut DbfsDentry>)
        ensures
            match r {
                Ok(d) => {
                    &&& old(self)@.insert_error(name@) is None
                    &&& d@ == DentryView::leaf(name@, child@, Some(old(self)@.link()))
                    &&& final(self)@ == old(self)@.with_child(name@, final(d)@)
                },
                Err(e) => {
                    &&& old(self)@.insert_error(name@) == Some(e)
                    &&& *final(self) == *old(self)
                },
            },
            final(self)@.wf(),
    {
        proof {
            use_type_invariant(&*self);
            self.lemma_inv_gives_wf();
        }
        if self.inode.inode_type() != NodeType::Dir {
            return Err(FsError::NotDirectory);
        }
        match self.position(name) {
            Some(i) => {
                proof {
                    lemma_index_of(self.children.names@, views_of(self.children.nodes@), i as int);
                }
                return Err(FsError::AlreadyExists);
            },
            None => {},
        }
        let dentry = DbfsDentry {
            parent: Some(self.link()),
            inode: child,
            name: name.to_owned(),
            children: Children { names: Vec::new(), nodes: Vec::new() },
        };
        let key = name.to_owned();
        let ghost names = self.children.names@;
        let ghost nodes = self.children.nodes@;
        let mut kids = Children { names: Vec::new(), nodes: Vec::new() };
        core::mem::swap(&mut self.children, &mut kids);
        kids.names.push(key);
        kids.nodes.push(dentry);
        proof {
            lemma_child_map_push(names, views_of(nodes), key, dentry@);
            assert(views_of(nodes.push(dentry)) =~= views_of(nodes).push(dentry@));
            assert(dentry@.children =~= Map::empty());
        }
        core::mem::swap(&mut self.children, &mut kids);
        let last: usize = self.children.nodes.len() - 1;
        let d = &mut self.children.nodes[last];
        proof {
            let names2 = names.push(key);
            let nodes2 = nodes.push(dentry);
            let views = views_of(nodes);
            let views2 = views_of(nodes2);
            lemma_child_map_update(names2, views2, last as int, final(d)@);
            assert(views_of(nodes2.update(last as int, *final(d))) =~= views2.update(
                last as int,
                final(d)@,
            ));
            lemma_child_map_finite(names2, views2.update(last as int, final(d)@));
            assert(child_map(names, views).insert(name@, dentry@).insert(name@, final(d)@)
                =~= child_map(names, views).insert(name@, final(d)@));
        }
        Ok(d)
    }

    /// Detaches the child bound under `name` and hands it out, with all
    /// that lies below it still in it. Nothing else changes.
    pub fn remove(&mut self, name: &str) -> (r: Option<DbfsDentry>)
        ensures
            match r {
                Some(d) => old(self)@.children.contains_key(name@) && d@ == old(
                    self,
                )@.children[name@] && d@.wf(),
                None => !old(self)@.children.contains_key(name@),
            },
            final(self)@ == old(self)@.without_child(name@),
            final(self)@.wf(),
    {
        proof {
            use_type_invariant(&*self);
        }
        match self.position(name) {
            Some(i) => {
                let ghost names = self.children.names@;
                let ghost nodes = self.children.nodes@;
                let mut kids = Children { names: Vec::new(), nodes: Vec::new() };
                core::mem::swap(&mut self.children, &mut kids);
                let _ = kids.names.remove(i);
                let d = kids.nodes.remove(i);
                proof {
                    lemma_index_of(names, views_of(nodes), i as int);
                    lemma_child_map_remove(names, views_of(nodes), i as int);
                    assert(views_of(nodes.remove(i as int)) =~= views_of(nodes).remove(i as int));
                }
                core::mem::swap(&mut self.children, &mut kids);
                proof {
                    self.lemma_inv_gives_wf();
                    use_type_invariant(&d);
                    d.lemma_inv_gives_wf();
                }
                Some(d)
            },
            None => {
                proof {
                    self.lemma_inv_gives_wf();
                    assert(self@.children =~= old(self)@.children.remove(name@));
                }
                None
            },
        }
    }
}

} // verus!
