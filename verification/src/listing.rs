//! One pane's directory listing: the entries of the current directory, a
//! selection cursor, and the navigation transitions.
//!
//! The listing never reads the filesystem itself. The surrounding program
//! reads a directory and hands the result in as a vector of [`FileItem`]s;
//! the listing synthesizes the `..` sentinel entry at index 0, keeps the
//! cursor in bounds, and decides where entering the selection or going to the
//! parent leads.

use vstd::prelude::*;

use crate::path::DirPath;

verus! {

/// The ghost model of one entry: its name and its directory flag.
pub struct ItemModel {
    pub name: Seq<char>,
    pub is_dir: bool,
}

/// The name of the synthesized parent-sentinel entry.
pub open spec fn spec_sentinel_name() -> Seq<char> {
    ".."@
}

/// The model of the synthesized parent-sentinel entry: named `..`, never a
/// directory, never looked up on disk.
pub open spec fn spec_sentinel() -> ItemModel {
    ItemModel { name: spec_sentinel_name(), is_dir: false }
}

/// A listing as handed in, with the sentinel synthesized at index 0.
pub open spec fn spec_with_sentinel(listing: Seq<ItemModel>) -> Seq<ItemModel> {
    seq![spec_sentinel()].add(listing)
}

/// For any listing with `n` real entries, refreshing yields `n + 1` entries,
/// the first of which is the `..` sentinel and the rest of which are the real
/// entries in their given order.
pub proof fn lemma_sentinel_invariant(listing: Seq<ItemModel>)
    ensures
        spec_with_sentinel(listing).len() == listing.len() + 1,
        spec_with_sentinel(listing)[0] == spec_sentinel(),
        forall|i: int| 0 <= i < listing.len() ==> spec_with_sentinel(listing)[i + 1] == listing[i],
{
}

/// One named filesystem child (or the `..` sentinel) shown in a pane.
pub struct FileItem {
    name: String,
    is_directory: bool,
}

impl View for FileItem {
    type V = ItemModel;

    closed spec fn view(&self) -> ItemModel {
        ItemModel { name: self.name@, is_dir: self.is_directory }
    }
}

impl DeepView for FileItem {
    type V = ItemModel;

    open spec fn deep_view(&self) -> ItemModel {
        self.view()
    }
}

impl FileItem {
    pub fn new(name: String, is_directory: bool) -> (r: FileItem)
        ensures
            r@ == (ItemModel { name: name@, is_dir: is_directory }),
    {
        FileItem { name, is_directory }
    }

    pub fn name(&self) -> (r: &str)
        ensures
            r@ == self@.name,
    {
        self.name.as_str()
    }

    pub fn is_directory(&self) -> (r: bool)
        ensures
            r == self@.is_dir,
    {
        self.is_directory
    }

    /// Whether this entry is named like the parent sentinel.
    pub fn is_sentinel_name(&self) -> (r: bool)
        ensures
            r == (self@.name == spec_sentinel_name()),
    {
        let sentinel = String::from_str("..");
        self.name == sentinel
    }

    /// The synthesized parent-sentinel entry.
    pub fn sentinel() -> (r: FileItem)
        ensures
            r@ == spec_sentinel(),
    {
        FileItem { name: String::from_str(".."), is_directory: false }
    }
}

/// Where the selection cursor lands after one step towards the end, clamped
/// at the last entry.
pub open spec fn spec_step_next(i: int, len: int) -> int {
    if i + 1 < len {
        i + 1
    } else {
        i
    }
}

/// Where the selection cursor lands after one step towards the start, clamped
/// at the first entry.
pub open spec fn spec_step_previous(i: int) -> int {
    if i > 0 {
        i - 1
    } else {
        0
    }
}

/// The cursor after `k` steps towards the start.
pub open spec fn spec_step_previous_iter(i: int, k: nat) -> int
    decreases k,
{
    if k == 0 {
        i
    } else {
        spec_step_previous(spec_step_previous_iter(i, (k - 1) as nat))
    }
}

/// The cursor after `k` steps towards the end.
pub open spec fn spec_step_next_iter(i: int, len: int, k: nat) -> int
    decreases k,
{
    if k == 0 {
        i
    } else {
        spec_step_next(spec_step_next_iter(i, len, (k - 1) as nat), len)
    }
}

/// Repeatedly stepping the cursor towards the start converges to index 0 and
/// stays there: from index `i`, after `i` or more steps the cursor is 0.
pub proof fn lemma_selection_clamps_at_start(i: int, k: nat)
    requires
        0 <= i,
    ensures
        spec_step_previous_iter(i, k) == if k < i {
            i - k
        } else {
            0
        },
    decreases k,
{
    if k > 0 {
        lemma_selection_clamps_at_start(i, (k - 1) as nat);
    }
}

/// Repeatedly stepping the cursor towards the end converges to the last index
/// and stays there: from index `i`, after `len - 1 - i` or more steps the
/// cursor is `len - 1`.
pub proof fn lemma_selection_clamps_at_end(i: int, len: int, k: nat)
    requires
        0 <= i < len,
    ensures
        spec_step_next_iter(i, len, k) == if i + k < len {
            i + k
        } else {
            len - 1
        },
    decreases k,
{
    if k > 0 {
        lemma_selection_clamps_at_end(i, len, (k - 1) as nat);
    }
}

/// One pane's current directory contents, selection cursor, and navigation
/// operations.
pub struct FileList {
    items: Vec<FileItem>,
    selected: Option<usize>,
    current_path: DirPath,
}

impl FileList {
    /// The entries shown, sentinel included.
    pub closed spec fn spec_items(&self) -> Seq<ItemModel> {
        self.items.deep_view()
    }

    /// The selection cursor; `None` only when there is nothing to select.
    pub closed spec fn spec_selected(&self) -> Option<int> {
        match self.selected {
            Some(i) => Some(i as int),
            None => None,
        }
    }

    /// The current directory, as a sequence of path components.
    pub closed spec fn spec_path(&self) -> Seq<Seq<char>> {
        self.current_path@
    }

    /// Well-formedness: the sentinel stands at index 0, and the cursor, when
    /// set, is in bounds.
    pub open spec fn inv(&self) -> bool {
        &&& self.spec_items().len() >= 1
        &&& self.spec_items()[0] == spec_sentinel()
        &&& match self.spec_selected() {
            Some(i) => 0 <= i < self.spec_items().len(),
            None => true,
        }
    }

    /// Where going to the parent would lead: the parent directory, or nothing
    /// at a filesystem root.
    pub open spec fn spec_parent_target(&self) -> Option<Seq<Seq<char>>> {
        if self.spec_path().len() == 0 {
            None
        } else {
            Some(self.spec_path().drop_last())
        }
    }

    /// Where entering the selected entry would lead: the parent directory for
    /// the sentinel, the joined path for a directory entry, and nothing for a
    /// regular file or a missing selection.
    pub open spec fn spec_enter_target(&self) -> Option<Seq<Seq<char>>> {
        match self.spec_selected() {
            None => None,
            Some(i) => if !(0 <= i < self.spec_items().len()) {
                None
            } else {
                let item = self.spec_items()[i];
                if item.name == spec_sentinel_name() {
                    self.spec_parent_target()
                } else if item.is_dir {
                    Some(self.spec_path().push(item.name))
                } else {
                    None
                }
            },
        }
    }

    /// A fresh pane bound to `path`, showing `listing` behind the sentinel,
    /// with the sentinel selected.
    pub fn new(path: DirPath, listing: Vec<FileItem>) -> (l: FileList)
        ensures
            l.spec_path() == path@,
            l.spec_items() == spec_with_sentinel(listing.deep_view()),
            l.spec_selected() == Some(0int),
            l.inv(),
    {
        let mut l = FileList { items: Vec::new(), selected: None, current_path: path };
        l.refresh(listing);
        l
    }

    /// Replaces the entries with a fresh read of the current directory,
    /// synthesizing the sentinel at index 0 and resetting the selection to it.
    /// The current path is untouched. Refreshing fails soft: when the
    /// directory cannot be read, the caller hands in the filesystem root's
    /// listing instead, so the pane always shows something; the path stays as
    /// it was even then, stale contents being tolerated until the next
    /// navigation.
    pub fn refresh(&mut self, listing: Vec<FileItem>)
        ensures
            final(self).spec_path() == old(self).spec_path(),
            final(self).spec_items() == spec_with_sentinel(listing.deep_view()),
            final(self).spec_selected() == Some(0int),
            final(self).inv(),
    {
        let ghost listing_model = listing.deep_view();
        let mut items = listing;
        items.insert(0, FileItem::sentinel());
        self.items = items;
        self.selected = Some(0);
        proof {
            assert(self.spec_items() =~= spec_with_sentinel(listing_model));
        }
    }

    /// The entries, sentinel included; read-only, for rendering.
    pub fn items(&self) -> (r: &Vec<FileItem>)
        ensures
            r.deep_view() == self.spec_items(),
    {
        &self.items
    }

    /// The current directory; read-only, for rendering.
    pub fn current_path(&self) -> (r: &DirPath)
        ensures
            r@ == self.spec_path(),
    {
        &self.current_path
    }

    /// The selection cursor; read-only, for rendering.
    pub fn selected_index(&self) -> (r: Option<usize>)
        ensures
            match r {
                Some(i) => self.spec_selected() == Some(i as int),
                None => self.spec_selected() is None,
            },
    {
        self.selected
    }

    /// The selected entry, if the cursor is set and in bounds.
    pub fn selected_entry(&self) -> (r: Option<&FileItem>)
        ensures
            match self.spec_selected() {
                Some(i) => if 0 <= i < self.spec_items().len() {
                    r matches Some(item) && item@ == self.spec_items()[i]
                } else {
                    r is None
                },
                None => r is None,
            },
    {
        match self.selected {
            Some(i) => if i < self.items.len() {
                Some(&self.items[i])
            } else {
                None
            },
            None => None,
        }
    }

    /// Moves the cursor one entry towards the end, clamped at the last entry;
    /// a missing cursor stays missing. A pure state change that always
    /// succeeds.
    pub fn select_next(&mut self)
        requires
            old(self).inv(),
        ensures
            final(self).spec_path() == old(self).spec_path(),
            final(self).spec_items() == old(self).spec_items(),
            final(self).inv(),
            match old(self).spec_selected() {
                Some(i) => final(self).spec_selected() == Some(
                    spec_step_next(i, old(self).spec_items().len() as int),
                ),
                None => final(self).spec_selected() is None,
            },
    {
        match self.selected {
            Some(i) => {
                let len = self.items.len();
                if i < len - 1 {
                    self.selected = Some(i + 1);
                }
            },
            None => {},
        }
    }

    /// Moves the cursor one entry towards the start, clamped at the first
    /// entry; a missing cursor stays missing. A pure state change that always
    /// succeeds.
    pub fn select_previous(&mut self)
        requires
            old(self).inv(),
        ensures
            final(self).spec_path() == old(self).spec_path(),
            final(self).spec_items() == old(self).spec_items(),
            final(self).inv(),
            match old(self).spec_selected() {
                Some(i) => final(self).spec_selected() == Some(spec_step_previous(i)),
                None => final(self).spec_selected() is None,
            },
    {
        match self.selected {
            Some(i) => {
                if i > 0 {
                    self.selected = Some(i - 1);
                }
            },
            None => {},
        }
    }

    /// The directory that going to the parent would move to, if any.
    pub fn parent_target(&self) -> (t: Option<DirPath>)
        ensures
            match t {
                Some(p) => self.spec_parent_target() == Some(p@),
                None => self.spec_parent_target() is None,
            },
    {
        self.current_path.parent()
    }

    /// The directory that entering the selected entry would move to, if any.
    pub fn enter_target(&self) -> (t: Option<DirPath>)
        ensures
            match t {
                Some(p) => self.spec_enter_target() == Some(p@),
                None => self.spec_enter_target() is None,
            },
    {
        match self.selected {
            None => None,
            Some(i) => {
                if i >= self.items.len() {
                    return None;
                }
                let item = &self.items[i];
                if item.is_sentinel_name() {
                    self.current_path.parent()
                } else if item.is_directory() {
                    Some(self.current_path.child(&item.name))
                } else {
                    None
                }
            },
        }
    }

    /// Moves the pane to `path`, showing `listing` for it.
    pub fn navigate_to(&mut self, path: DirPath, listing: Vec<FileItem>)
        ensures
            final(self).spec_path() == path@,
            final(self).spec_items() == spec_with_sentinel(listing.deep_view()),
            final(self).spec_selected() == Some(0int),
            final(self).inv(),
    {
        self.current_path = path;
        self.refresh(listing);
    }

    /// Goes to the parent directory, showing `parent_listing` for it; at a
    /// filesystem root this is a no-op that returns `false` and leaves the
    /// pane, its current path included, unchanged.
    pub fn navigate_up(&mut self, parent_listing: Vec<FileItem>) -> (moved: bool)
        ensures
            match old(self).spec_parent_target() {
                Some(p) => moved && final(self).spec_path() == p && final(self).spec_items()
                    == spec_with_sentinel(parent_listing.deep_view())
                    && final(self).spec_selected() == Some(0int) && final(self).inv(),
                None => !moved && *final(self) == *old(self),
            },
    {
        let parent = self.current_path.parent();
        match parent {
            Some(p) => {
                self.navigate_to(p, parent_listing);
                true
            },
            None => false,
        }
    }

    /// Enters the selected entry: the sentinel goes to the parent, a
    /// directory entry descends into it, and a regular file or a missing
    /// selection is a no-op that returns `false` and changes nothing. When
    /// the pane moves, `listing` is shown for the new directory.
    pub fn enter_selected(&mut self, listing: Vec<FileItem>) -> (entered: bool)
        ensures
            match old(self).spec_enter_target() {
                Some(p) => entered && final(self).spec_path() == p && final(self).spec_items()
                    == spec_with_sentinel(listing.deep_view()) && final(self).spec_selected()
                    == Some(0int) && final(self).inv(),
                None => !entered && *final(self) == *old(self),
            },
    {
        let target = self.enter_target();
        match target {
            Some(p) => {
                self.navigate_to(p, listing);
                true
            },
            None => false,
        }
    }
}

/// `post` is `pre` with the cursor stepped once towards the end, clamped at
/// the last entry; entries and path untouched.
pub open spec fn spec_selection_stepped_next(pre: FileList, post: FileList) -> bool {
    &&& post.spec_path() == pre.spec_path()
    &&& post.spec_items() == pre.spec_items()
    &&& match pre.spec_selected() {
        Some(i) => post.spec_selected() == Some(spec_step_next(i, pre.spec_items().len() as int)),
        None => post.spec_selected() is None,
    }
}

/// `post` is `pre` with the cursor stepped once towards the start, clamped at
/// the first entry; entries and path untouched.
pub open spec fn spec_selection_stepped_previous(pre: FileList, post: FileList) -> bool {
    &&& post.spec_path() == pre.spec_path()
    &&& post.spec_items() == pre.spec_items()
    &&& match pre.spec_selected() {
        Some(i) => post.spec_selected() == Some(spec_step_previous(i)),
        None => post.spec_selected() is None,
    }
}

/// `post` stands at `path` and shows `listing` behind the sentinel, with the
/// sentinel selected.
pub open spec fn spec_refreshed_at(
    post: FileList,
    path: Seq<Seq<char>>,
    listing: Seq<ItemModel>,
) -> bool {
    &&& post.spec_path() == path
    &&& post.spec_items() == spec_with_sentinel(listing)
    &&& post.spec_selected() == Some(0int)
}

/// Going to the parent and then entering the entry one came from returns to
/// the original path: for a pane standing at the parent of `original` whose
/// selected entry is a directory named like `original`'s last component,
/// entering the selection leads back to `original`.
pub proof fn lemma_parent_round_trip(original: Seq<Seq<char>>, l: FileList, i: int)
    requires
        original.len() > 0,
        original.last() != spec_sentinel_name(),
        l.spec_path() == original.drop_last(),
        l.spec_selected() == Some(i),
        0 <= i < l.spec_items().len(),
        l.spec_items()[i].name == original.last(),
        l.spec_items()[i].is_dir,
    ensures
        l.spec_enter_target() == Some(original),
{
    crate::path::lemma_parent_child_round_trip(original);
}

} // verus!
