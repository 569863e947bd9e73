//! The tree of directories and notes, as far as it is open: its items in
//! the order in which they are shown, each with its depth.

use crate::data::{Directory, DirectoryId, Note};
use vstd::prelude::*;

verus! {

/// One item of the tree. A directory knows whether it is open; the items
/// that follow it at a greater depth, up to the next item that is not
/// deeper, lie inside it.
#[derive(Debug, PartialEq, Eq)]
#[allow(inconsistent_fields)]
pub enum TreeItem {
    Directory { value: Directory, depth: usize, opened: bool },
    Note { value: Note, depth: usize },
}

impl Clone for TreeItem {
    fn clone(&self) -> (copy: TreeItem)
        ensures
            copy == *self,
    {
        match self {
            TreeItem::Directory { value, depth, opened } => TreeItem::Directory {
                value: value.clone(),
                depth: *depth,
                opened: *opened,
            },
            TreeItem::Note { value, depth } => TreeItem::Note {
                value: value.clone(),
                depth: *depth,
            },
        }
    }
}

impl TreeItem {
    /// The identifier of the note or directory.
    pub open spec fn id(self) -> Seq<char> {
        match self {
            TreeItem::Directory { value, .. } => value.id@,
            TreeItem::Note { value, .. } => value.id@,
        }
    }

    /// The depth of the item: 0 for the root, one more for what lies
    /// directly in it, and so on.
    pub open spec fn depth(self) -> usize {
        match self {
            TreeItem::Directory { depth, .. } => depth,
            TreeItem::Note { depth, .. } => depth,
        }
    }

    /// The item is the directory with identifier `id`.
    pub open spec fn is_directory(self, id: Seq<char>) -> bool {
        self matches TreeItem::Directory { value, .. } && value.id@ == id
    }

    /// The depth of the item.
    pub fn level(&self) -> (depth: usize)
        ensures
            depth == self.depth(),
    {
        match self {
            TreeItem::Directory { depth, .. } => *depth,
            TreeItem::Note { depth, .. } => *depth,
        }
    }
}

/// The first index from `from` on at which `items` holds the directory `id`;
/// the length of `items` if there is none.
pub open spec fn directory_from(items: Seq<TreeItem>, id: Seq<char>, from: int) -> int
    decreases items.len() - from,
{
    if from < 0 || from >= items.len() {
        items.len() as int
    } else if items[from].is_directory(id) {
        from
    } else {
        directory_from(items, id, from + 1)
    }
}

/// The first index from `from` on at which `items` holds the note or
/// directory `id`; the length of `items` if there is none.
pub open spec fn item_from(items: Seq<TreeItem>, id: Seq<char>, from: int) -> int
    decreases items.len() - from,
{
    if from < 0 || from >= items.len() {
        items.len() as int
    } else if items[from].id() == id {
        from
    } else {
        item_from(items, id, from + 1)
    }
}

/// The first index from `from` on at which an item is not deeper than
/// `depth`: where what lies inside an item of that depth ends.
pub open spec fn inside_end(items: Seq<TreeItem>, depth: usize, from: int) -> int
    decreases items.len() - from,
{
    if from < 0 || from >= items.len() {
        items.len() as int
    } else if items[from].depth() <= depth {
        from
    } else {
        inside_end(items, depth, from + 1)
    }
}

/// The validity of a tree: it begins with the root directory at depth 0,
/// and every other item lies at depth 1 or more, at most one level deeper
/// than the item before it.
pub open spec fn tree_wf(items: Seq<TreeItem>) -> bool {
    &&& items.len() >= 1
    &&& items[0] is Directory
    &&& items[0].depth() == 0
    &&& forall|i: int|
        0 < i < items.len() ==> 1 <= (#[trigger] items[i]).depth() <= items[i - 1].depth() + 1
}

/// In a valid tree no item lies deeper than its index.
pub proof fn lemma_depth_bound(items: Seq<TreeItem>, i: int)
    requires
        tree_wf(items),
        0 <= i < items.len(),
    ensures
        items[i].depth() <= i,
    decreases i,
{
    if i > 0 {
        lemma_depth_bound(items, i - 1);
    }
}

/// The directory `id` as the items show it first, if they show it.
pub open spec fn directory_of(items: Seq<TreeItem>, id: Seq<char>) -> Option<Directory> {
    let at = directory_from(items, id, 0);
    if at < items.len() {
        match items[at] {
            TreeItem::Directory { value, .. } => Some(value),
            TreeItem::Note { .. } => None,
        }
    } else {
        None
    }
}

/// The directories as closed items of depth `depth`.
pub open spec fn directory_items(directories: Seq<Directory>, depth: usize) -> Seq<TreeItem> {
    Seq::new(
        directories.len(),
        |i: int| TreeItem::Directory { value: directories[i], depth, opened: false },
    )
}

/// The notes as items of depth `depth`.
pub open spec fn note_items(notes: Seq<Note>, depth: usize) -> Seq<TreeItem> {
    Seq::new(notes.len(), |i: int| TreeItem::Note { value: notes[i], depth })
}

/// The items with the directory at `at` closed: marked so, and without what
/// lay inside it.
pub open spec fn closed_at(items: Seq<TreeItem>, at: int) -> Seq<TreeItem> {
    match items[at] {
        TreeItem::Directory { value, depth, .. } => items.take(at) + seq![
            TreeItem::Directory { value, depth, opened: false },
        ] + items.skip(inside_end(items, depth, at + 1)),
        TreeItem::Note { .. } => items,
    }
}

/// The items with the directory at `at` open on the given children: marked
/// so, and with the directories and then the notes inside it, one level
/// deeper, in place of what lay inside it before.
pub open spec fn opened_at(
    items: Seq<TreeItem>,
    at: int,
    notes: Seq<Note>,
    directories: Seq<Directory>,
) -> Seq<TreeItem> {
    match items[at] {
        TreeItem::Directory { value, depth, .. } => items.take(at) + seq![
            TreeItem::Directory { value, depth, opened: true },
        ] + directory_items(directories, (depth + 1) as usize) + note_items(
            notes,
            (depth + 1) as usize,
        ) + items.skip(inside_end(items, depth, at + 1)),
        TreeItem::Note { .. } => items,
    }
}

/// The index at which a directory is found is an index of that directory,
/// or the number of items.
pub proof fn lemma_directory_from_bounds(items: Seq<TreeItem>, id: Seq<char>, from: int)
    requires
        0 <= from <= items.len(),
    ensures
        from <= directory_from(items, id, from) <= items.len(),
        directory_from(items, id, from) < items.len() ==> items[directory_from(
            items,
            id,
            from,
        )].is_directory(id),
    decreases items.len() - from,
{
    if from < items.len() && !items[from].is_directory(id) {
        lemma_directory_from_bounds(items, id, from + 1);
    }
}

/// The inside of an item ends between where it begins and the number of
/// items.
pub proof fn lemma_inside_end_bounds(items: Seq<TreeItem>, depth: usize, from: int)
    requires
        0 <= from <= items.len(),
    ensures
        from <= inside_end(items, depth, from) <= items.len(),
    decreases items.len() - from,
{
    if from < items.len() && items[from].depth() > depth {
        lemma_inside_end_bounds(items, depth, from + 1);
    }
}

/// What follows the inside of an item is not deeper than the item.
pub proof fn lemma_inside_end_depth(items: Seq<TreeItem>, depth: usize, from: int)
    requires
        0 <= from <= items.len(),
    ensures
        inside_end(items, depth, from) < items.len() ==> items[inside_end(
            items,
            depth,
            from,
        )].depth() <= depth,
    decreases items.len() - from,
{
    if from < items.len() && items[from].depth() > depth {
        lemma_inside_end_depth(items, depth, from + 1);
    }
}

/// Closing a directory keeps a tree valid.
pub proof fn lemma_closed_wf(items: Seq<TreeItem>, at: int)
    requires
        tree_wf(items),
        0 <= at < items.len(),
    ensures
        tree_wf(closed_at(items, at)),
{
    let depth = items[at].depth();
    lemma_inside_end_bounds(items, depth, at + 1);
    lemma_inside_end_depth(items, depth, at + 1);
    let after = closed_at(items, at);
    if items[at] is Directory {
        assert forall|i: int| 0 < i < after.len() implies 1 <= (#[trigger] after[i]).depth()
            <= after[i - 1].depth() + 1 by {}
    }
}

/// Opening a directory keeps a tree valid.
pub proof fn lemma_opened_wf(
    items: Seq<TreeItem>,
    at: int,
    notes: Seq<Note>,
    directories: Seq<Directory>,
)
    requires
        tree_wf(items),
        0 <= at < items.len(),
        items[at].depth() < usize::MAX,
    ensures
        tree_wf(opened_at(items, at, notes, directories)),
{
    let depth = items[at].depth();
    lemma_inside_end_bounds(items, depth, at + 1);
    lemma_inside_end_depth(items, depth, at + 1);
    let after = opened_at(items, at, notes, directories);
    if items[at] is Directory {
        assert forall|i: int| 0 < i < after.len() implies 1 <= (#[trigger] after[i]).depth()
            <= after[i - 1].depth() + 1 by {}
    }
}

/// The tree of a notebook. Its first item is the root directory.
#[derive(Debug, PartialEq, Eq)]
pub struct Tree {
    pub items: Vec<TreeItem>,
}

impl View for Tree {
    type V = Seq<TreeItem>;

    open spec fn view(&self) -> Seq<TreeItem> {
        self.items@
    }
}

impl Clone for Tree {
    fn clone(&self) -> (copy: Tree)
        ensures
            copy@ == self@,
    {
        let mut items: Vec<TreeItem> = Vec::new();
        extend_with_items(&mut items, &self.items, 0, self.items.len());
        Tree { items }
    }
}

impl Tree {
    /// The validity of the tree: that of its items.
    pub open spec fn wf(&self) -> bool {
        tree_wf(self@)
    }

    /// The tree of a notebook of which only the root is known: the root
    /// directory, closed.
    pub fn new(root: Directory) -> (tree: Tree)
        ensures
            tree@ == seq![TreeItem::Directory { value: root, depth: 0, opened: false }],
            tree.wf(),
    {
        let mut items: Vec<TreeItem> = Vec::new();
        items.push(TreeItem::Directory { value: root, depth: 0, opened: false });
        Tree { items }
    }

    /// Where the tree shows the directory `id`: the index of its first such
    /// item, or `None` if it shows none.
    pub fn directory_position(&self, id: &DirectoryId) -> (at: Option<usize>)
        ensures
            match at {
                Some(i) => i == directory_from(self@, id@, 0) && i < self@.len(),
                None => directory_from(self@, id@, 0) == self@.len(),
            },
    {
        let mut i: usize = 0;
        while i < self.items.len()
            invariant
                i <= self.items.len(),
                directory_from(self@, id@, 0) == directory_from(self@, id@, i as int),
            decreases self.items.len() - i,
        {
            let found = match &self.items[i] {
                TreeItem::Directory { value, .. } => value.id == *id,
                TreeItem::Note { .. } => false,
            };
            if found {
                return Some(i);
            }
            i += 1;
        }
        None
    }

    /// Where the tree shows the note or directory `id`: the index of its
    /// first such item, or `None` if it shows none.
    pub fn position(&self, id: &String) -> (at: Option<usize>)
        ensures
            match at {
                Some(i) => i == item_from(self@, id@, 0) && i < self@.len(),
                None => item_from(self@, id@, 0) == self@.len(),
            },
    {
        let mut i: usize = 0;
        while i < self.items.len()
            invariant
                i <= self.items.len(),
                item_from(self@, id@, 0) == item_from(self@, id@, i as int),
            decreases self.items.len() - i,
        {
            let found = match &self.items[i] {
                TreeItem::Directory { value, .. } => value.id == *id,
                TreeItem::Note { value, .. } => value.id == *id,
            };
            if found {
                return Some(i);
            }
            i += 1;
        }
        None
    }

    /// The directory `id`, if the tree shows it.
    pub fn directory(&self, id: &DirectoryId) -> (found: Option<Directory>)
        ensures
            found == directory_of(self@, id@),
            found is Some == (directory_from(self@, id@, 0) < self@.len()),
    {
        proof {
            lemma_directory_from_bounds(self@, id@, 0);
        }
        match self.directory_position(id) {
            Some(i) => match &self.items[i] {
                TreeItem::Directory { value, .. } => Some(value.clone()),
                TreeItem::Note { .. } => {
                    proof {
                        lemma_directory_from_bounds(self@, id@, 0);
                    }
                    None
                },
            },
            None => None,
        }
    }

    /// Where what lies inside the item at `at` ends: the index of the next
    /// item that is not deeper than it, or the number of items.
    fn end_of(&self, at: usize) -> (end: usize)
        requires
            at < self@.len(),
        ensures
            end == inside_end(self@, self@[at as int].depth(), at + 1),
            at < end <= self@.len(),
    {
        let depth = self.items[at].level();
        let count = self.items.len();
        let mut i: usize = at + 1;
        while i < count && self.items[i].level() > depth
            invariant
                at < i <= self.items.len(),
                count == self.items.len(),
                depth == self@[at as int].depth(),
                inside_end(self@, depth, at + 1) == inside_end(self@, depth, i as int),
            decreases self.items.len() - i,
        {
            i += 1;
        }
        i
    }

    /// Shows the directory `id` open on the given children: first the
    /// directories, then the notes, one level deeper than the directory, in
    /// place of whatever it showed inside before. Says whether the tree
    /// shows that directory; if not, nothing changes.
    pub fn open(&mut self, id: &DirectoryId, notes: &Vec<Note>, directories: &Vec<Directory>) -> (shown:
        bool)
        requires
            old(self).wf(),
        ensures
            final(self).wf(),
            shown == (directory_from(old(self)@, id@, 0) < old(self)@.len()),
            shown ==> final(self)@ == opened_at(
                old(self)@,
                directory_from(old(self)@, id@, 0),
                notes@,
                directories@,
            ),
            !shown ==> final(self)@ == old(self)@,
    {
        let at = match self.directory_position(id) {
            Some(at) => at,
            None => {
                return false;
            },
        };
        let end = self.end_of(at);
        let depth = self.items[at].level();
        proof {
            lemma_directory_from_bounds(self@, id@, 0);
            lemma_depth_bound(self@, at as int);
            lemma_opened_wf(self@, at as int, notes@, directories@);
        }
        let mut items: Vec<TreeItem> = Vec::new();
        extend_with_items(&mut items, &self.items, 0, at);
        match &self.items[at] {
            TreeItem::Directory { value, .. } => {
                items.push(TreeItem::Directory { value: value.clone(), depth, opened: true });
            },
            TreeItem::Note { .. } => {},
        }
        extend_with_directories(&mut items, directories, depth + 1);
        extend_with_notes(&mut items, notes, depth + 1);
        extend_with_items(&mut items, &self.items, end, self.items.len());
        proof {
            assert(items@ =~= opened_at(self@, at as int, notes@, directories@));
        }
        self.items = items;
        true
    }

    /// Shows the directory `id` closed, without what it showed inside. Says
    /// whether the tree shows that directory; if not, nothing changes.
    pub fn close(&mut self, id: &DirectoryId) -> (shown: bool)
        requires
            old(self).wf(),
        ensures
            final(self).wf(),
            shown == (directory_from(old(self)@, id@, 0) < old(self)@.len()),
            shown ==> final(self)@ == closed_at(old(self)@, directory_from(old(self)@, id@, 0)),
            !shown ==> final(self)@ == old(self)@,
    {
        let at = match self.directory_position(id) {
            Some(at) => at,
            None => {
                return false;
            },
        };
        let end = self.end_of(at);
        let depth = self.items[at].level();
        proof {
            lemma_directory_from_bounds(self@, id@, 0);
            lemma_closed_wf(self@, at as int);
        }
        let mut items: Vec<TreeItem> = Vec::new();
        extend_with_items(&mut items, &self.items, 0, at);
        match &self.items[at] {
            TreeItem::Directory { value, .. } => {
                items.push(TreeItem::Directory { value: value.clone(), depth, opened: false });
            },
            TreeItem::Note { .. } => {},
        }
        extend_with_items(&mut items, &self.items, end, self.items.len());
        proof {
            assert(items@ =~= closed_at(self@, at as int));
        }
        self.items = items;
        true
    }
}

/// Appends copies of the items of `source` from index `from` up to `to`.
fn extend_with_items(target: &mut Vec<TreeItem>, source: &Vec<TreeItem>, from: usize, to: usize)
    requires
        from <= to <= source@.len(),
    ensures
        final(target)@ == old(target)@ + source@.subrange(from as int, to as int),
{
    let mut i: usize = from;
    while i < to
        invariant
            from <= i <= to <= source@.len(),
            target@ == old(target)@ + source@.subrange(from as int, i as int),
        decreases to - i,
    {
        target.push(source[i].clone());
        i += 1;
    }
}

/// Appends the directories as closed items of depth `depth`.
fn extend_with_directories(target: &mut Vec<TreeItem>, directories: &Vec<Directory>, depth: usize)
    ensures
        final(target)@ == old(target)@ + directory_items(directories@, depth),
{
    let mut i: usize = 0;
    while i < directories.len()
        invariant
            i <= directories.len(),
            target@ == old(target)@ + directory_items(directories@, depth).take(i as int),
        decreases directories.len() - i,
    {
        target.push(TreeItem::Directory { value: directories[i].clone(), depth, opened: false });
        i += 1;
    }
}

/// Appends the notes as items of depth `depth`.
fn extend_with_notes(target: &mut Vec<TreeItem>, notes: &Vec<Note>, depth: usize)
    ensures
        final(target)@ == old(target)@ + note_items(notes@, depth),
{
    let mut i: usize = 0;
    while i < notes.len()
        invariant
            i <= notes.len(),
            target@ == old(target)@ + note_items(notes@, depth).take(i as int),
        decreases notes.len() - i,
    {
        target.push(TreeItem::Note { value: notes[i].clone(), depth });
        i += 1;
    }
}

} // verus!
