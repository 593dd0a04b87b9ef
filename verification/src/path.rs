//! Absolute directory paths, stored as their sequence of components.
//!
//! The filesystem root is the empty sequence; `/a/b` is `["a", "b"]`. Keeping
//! paths as plain components makes the parent and child operations exact:
//! going to the parent drops the last component, entering a child pushes its
//! name.

use vstd::prelude::*;

verus! {

/// An absolute directory path. The view is the sequence of component names.
pub struct DirPath {
    components: Vec<String>,
}

impl View for DirPath {
    type V = Seq<Seq<char>>;

    closed spec fn view(&self) -> Seq<Seq<char>> {
        self.components.deep_view()
    }
}

impl Clone for DirPath {
    fn clone(&self) -> (r: Self)
        ensures
            r@ == self@,
    {
        DirPath { components: clone_components(&self.components) }
    }
}

/// Clones a component vector, keeping its view.
fn clone_components(components: &Vec<String>) -> (r: Vec<String>)
    ensures
        r.deep_view() == components.deep_view(),
{
    let mut r: Vec<String> = Vec::new();
    let mut i: usize = 0;
    while i < components.len()
        invariant
            i <= components.len(),
            r@.len() == i,
            forall|j: int| 0 <= j < i ==> r@[j]@ == components@[j]@,
        decreases components.len() - i,
    {
        let s = components[i].clone();
        r.push(s);
        i = i + 1;
    }
    proof {
        assert(r.deep_view() =~= components.deep_view());
    }
    r
}

impl DirPath {
    /// The filesystem root.
    pub fn root() -> (p: DirPath)
        ensures
            p@ == Seq::<Seq<char>>::empty(),
    {
        let p = DirPath { components: Vec::new() };
        proof {
            assert(p@ =~= Seq::<Seq<char>>::empty());
        }
        p
    }

    /// A path built from its components; the root is the empty vector.
    pub fn from_components(components: Vec<String>) -> (p: DirPath)
        ensures
            p@ == components.deep_view(),
    {
        DirPath { components }
    }

    /// Whether this path is the filesystem root.
    pub fn is_root(&self) -> (r: bool)
        ensures
            r == (self@.len() == 0),
    {
        self.components.len() == 0
    }

    /// How many components the path has.
    pub fn depth(&self) -> (n: usize)
        ensures
            n == self@.len(),
    {
        self.components.len()
    }

    /// The components themselves, for display or conversion.
    pub fn components(&self) -> (r: &Vec<String>)
        ensures
            r.deep_view() == self@,
    {
        &self.components
    }

    /// The path joined with one more component.
    pub fn child(&self, name: &String) -> (p: DirPath)
        ensures
            p@ == self@.push(name@),
    {
        let mut components = clone_components(&self.components);
        components.push(name.clone());
        let p = DirPath { components };
        proof {
            assert(p@ =~= self@.push(name@));
        }
        p
    }

    /// The parent path, unless this is the root.
    pub fn parent(&self) -> (p: Option<DirPath>)
        ensures
            match p {
                Some(q) => self@.len() > 0 && q@ == self@.drop_last(),
                None => self@.len() == 0,
            },
    {
        if self.components.len() == 0 {
            None
        } else {
            let mut components = clone_components(&self.components);
            components.pop();
            let q = DirPath { components };
            proof {
                assert(q@ =~= self@.drop_last());
            }
            Some(q)
        }
    }

    /// The last component, unless this is the root.
    pub fn last_component(&self) -> (r: Option<&String>)
        ensures
            match r {
                Some(name) => self@.len() > 0 && name@ == self@.last(),
                None => self@.len() == 0,
            },
    {
        if self.components.len() == 0 {
            None
        } else {
            Some(&self.components[self.components.len() - 1])
        }
    }

    /// Whether two paths have the same components.
    pub fn equals(&self, other: &DirPath) -> (r: bool)
        ensures
            r == (self@ == other@),
    {
        if self.components.len() != other.components.len() {
            proof {
                assert(self@.len() != other@.len());
            }
            return false;
        }
        let n = self.components.len();
        let mut i: usize = 0;
        while i < n
            invariant
                n == self.components.len(),
                n == other.components.len(),
                i <= n,
                forall|j: int| 0 <= j < i ==> self@[j] == other@[j],
            decreases n - i,
        {
            if self.components[i] != other.components[i] {
                proof {
                    assert(self@[i as int] != other@[i as int]);
                }
                return false;
            }
            i = i + 1;
        }
        proof {
            assert(self@ =~= other@);
        }
        true
    }
}

/// Dropping the last component and pushing it back yields the original path:
/// going to the parent directory and re-entering the child one came from
/// returns to the same place.
pub proof fn lemma_parent_child_round_trip(p: Seq<Seq<char>>)
    requires
        p.len() > 0,
    ensures
        p.drop_last().push(p.last()) == p,
{
    assert(p.drop_last().push(p.last()) =~= p);
}

} // verus!
