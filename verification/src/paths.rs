//! Absolute filesystem paths, modelled as their component lists.
//!
//! The discovery logic only ever joins a name onto a directory, takes a
//! parent, and walks ancestor chains, so a path is held as the list of its
//! components from the filesystem root. The empty list is the root itself.
//! A path is rendered to its textual form only at the boundary where the
//! filesystem is consulted.

use vstd::prelude::*;

verus! {

/// An absolute filesystem path: its components from the root, in order.
#[derive(Debug)]
pub struct FsPath {
    pub components: Vec<String>,
}

impl View for FsPath {
    type V = Seq<Seq<char>>;

    open spec fn view(&self) -> Seq<Seq<char>> {
        self.components.deep_view()
    }
}

impl DeepView for FsPath {
    type V = Seq<Seq<char>>;

    open spec fn deep_view(&self) -> Seq<Seq<char>> {
        self.view()
    }
}

/// The textual form of a path with the given components: each component
/// preceded by a separator, so the root renders as the empty text.
pub open spec fn render_comps(cs: Seq<Seq<char>>) -> Seq<char>
    decreases cs.len(),
{
    if cs.len() == 0 {
        Seq::empty()
    } else {
        render_comps(cs.drop_last()) + seq!['/'] + cs.last()
    }
}

/// Clones a list of strings, keeping every element equal.
pub fn clone_string_vec(v: &Vec<String>) -> (r: Vec<String>)
    ensures
        r@ == v@,
{
    let mut r: Vec<String> = Vec::new();
    let mut i: usize = 0;
    while i < v.len()
        invariant
            i <= v@.len(),
            r@ == v@.take(i as int),
        decreases v@.len() - i,
    {
        r.push(v[i].clone());
        proof {
            assert(r@ =~= v@.take(i + 1 as int));
        }
        i += 1;
    }
    proof {
        assert(v@.take(v@.len() as int) =~= v@);
    }
    r
}

/// Clones an optional string, keeping the value equal.
pub fn clone_opt_string(v: &Option<String>) -> (r: Option<String>)
    ensures
        r == *v,
{
    match v {
        Some(s) => Some(s.clone()),
        None => None,
    }
}

impl FsPath {
    /// An equal path, cloned.
    pub fn clone_path(&self) -> (r: FsPath)
        ensures
            r@ == self@,
    {
        let components = clone_string_vec(&self.components);
        proof {
            assert(FsPath { components }@ =~= self@);
        }
        FsPath { components }
    }

    /// The path one component deeper: `self` with `name` appended.
    pub fn join(&self, name: &str) -> (r: FsPath)
        ensures
            r@ == self@.push(name@),
    {
        let mut components = clone_string_vec(&self.components);
        components.push(name.to_owned());
        proof {
            assert(FsPath { components }@ =~= self@.push(name@));
        }
        FsPath { components }
    }

    /// The path made of the first `n` components of `self`.
    pub fn prefix(&self, n: usize) -> (r: FsPath)
        requires
            n <= self@.len(),
        ensures
            r@ == self@.take(n as int),
    {
        let mut components: Vec<String> = Vec::new();
        let mut i: usize = 0;
        while i < n
            invariant
                i <= n <= self@.len(),
                self@.len() == self.components@.len(),
                components@.len() == i,
                forall|j: int| 0 <= j < i ==> components@[j] == self.components@[j],
            decreases n - i,
        {
            components.push(self.components[i].clone());
            i += 1;
        }
        proof {
            assert(FsPath { components }@ =~= self@.take(n as int));
        }
        FsPath { components }
    }

    /// The parent directory: `self` without its last component.
    pub fn parent(&self) -> (r: FsPath)
        requires
            self@.len() > 0,
        ensures
            r@ == self@.drop_last(),
    {
        let r = self.prefix(self.components.len() - 1);
        proof {
            assert(self@.take(self@.len() - 1) =~= self@.drop_last());
        }
        r
    }

    /// Whether `self` is an ancestor of `other` or equal to it.
    pub fn is_prefix_of(&self, other: &FsPath) -> (r: bool)
        ensures
            r == self@.is_prefix_of(other@),
    {
        if self.components.len() > other.components.len() {
            proof {
                assert(!self@.is_prefix_of(other@));
            }
            return false;
        }
        let n = self.components.len();
        let mut i: usize = 0;
        while i < n
            invariant
                i <= n == self@.len() <= other@.len(),
                n == self.components@.len(),
                other@.len() == other.components@.len(),
                forall|j: int| 0 <= j < i ==> self@[j] == other@[j],
            decreases n - i,
        {
            if !(self.components[i] == other.components[i]) {
                proof {
                    assert(self@[i as int] != other@[i as int]);
                    assert(!self@.is_prefix_of(other@));
                }
                return false;
            }
            i += 1;
        }
        proof {
            assert(self@ =~= other@.subrange(0, self@.len() as int));
        }
        true
    }

    /// The textual form of the path, components separated by `/` and led by
    /// `/`; the root renders as the empty text.
    pub fn render(&self) -> (r: String)
        ensures
            r@ == render_comps(self@),
    {
        let mut s = String::new();
        let mut i: usize = 0;
        proof {
            reveal_strlit("/");
            assert(self@.take(0) =~= Seq::<Seq<char>>::empty());
        }
        while i < self.components.len()
            invariant
                i <= self.components@.len(),
                self@.len() == self.components@.len(),
                s@ == render_comps(self@.take(i as int)),
            decreases self.components@.len() - i,
        {
            s.append("/");
            s.append(self.components[i].as_str());
            proof {
                reveal_strlit("/");
                assert("/"@ =~= seq!['/']);
                assert(self@.take(i + 1 as int).drop_last() =~= self@.take(i as int));
                assert(self@.take(i + 1 as int).last() == self@[i as int]);
            }
            i += 1;
        }
        proof {
            assert(self@.take(self@.len() as int) =~= self@);
        }
        s
    }
}

} // verus!
