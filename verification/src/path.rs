//! Absolute paths, held as the names of their components below the root.

use vstd::prelude::*;
use vstd::string::StringExecFns;

verus! {

/// The characters of each name of a sequence of names.
pub open spec fn names(components: Seq<String>) -> Seq<Seq<char>> {
    components.map_values(|name: String| name@)
}

/// The text of a path: a separator before every component, and a lone
/// separator for the root.
pub open spec fn display_text(path: Seq<Seq<char>>) -> Seq<char>
    decreases path.len(),
{
    if path.len() == 0 {
        seq!['/']
    } else if path.len() == 1 {
        seq!['/'] + path[0]
    } else {
        display_text(path.drop_last()) + seq!['/'] + path.last()
    }
}

/// An absolute path in canonical form: the names of its components, from the
/// one directly below the root to the last. The root has none.
#[derive(Debug)]
pub struct AbsPath {
    components: Vec<String>,
}

impl View for AbsPath {
    type V = Seq<Seq<char>>;

    closed spec fn view(&self) -> Seq<Seq<char>> {
        names(self.components@)
    }
}

/// A copy of the first `count` names.
fn copy_names(components: &Vec<String>, count: usize) -> (copy: Vec<String>)
    requires
        count <= components.len(),
    ensures
        names(copy@) == names(components@).take(count as int),
{
    let mut copy: Vec<String> = Vec::new();
    let mut i: usize = 0;
    while i < count
        invariant
            i <= count <= components.len(),
            copy.len() == i,
            forall|k: int| 0 <= k < i ==> copy[k]@ == components[k]@,
        decreases count - i,
    {
        copy.push(components[i].clone());
        i += 1;
    }
    copy
}

impl AbsPath {
    /// The root.
    pub fn root() -> (path: AbsPath)
        ensures
            path@ == Seq::<Seq<char>>::empty(),
    {
        AbsPath { components: Vec::new() }
    }

    /// The path with the given components.
    pub fn new(components: Vec<String>) -> (path: AbsPath)
        ensures
            path@ == names(components@),
    {
        AbsPath { components }
    }

    /// The components, first the one directly below the root.
    pub fn components(&self) -> (components: &Vec<String>)
        ensures
            names(components@) == self@,
    {
        &self.components
    }

    /// Whether this is the root.
    pub fn is_root(&self) -> (root: bool)
        ensures
            root == (self@.len() == 0),
    {
        self.components.len() == 0
    }

    /// The name of the last component; the root has none.
    pub fn file_name(&self) -> (name: Option<&String>)
        ensures
            self@.len() == 0 ==> name is None,
            self@.len() > 0 ==> name is Some && name->0@ == self@.last(),
    {
        let n: usize = self.components.len();
        if n == 0 {
            None
        } else {
            Some(&self.components[n - 1])
        }
    }

    /// The directory that holds this path; the root has none.
    pub fn parent(&self) -> (parent: Option<AbsPath>)
        ensures
            self@.len() == 0 ==> parent is None,
            self@.len() > 0 ==> parent is Some && parent->0@ == self@.drop_last(),
    {
        let n: usize = self.components.len();
        if n == 0 {
            return None;
        }
        let components: Vec<String> = copy_names(&self.components, n - 1);
        Some(AbsPath { components })
    }

    /// This path with one more component.
    pub fn join(&self, name: &str) -> (child: AbsPath)
        ensures
            child@ == self@.push(name@),
    {
        let mut components: Vec<String> = self.clone().components;
        components.push(String::from_str(name));
        AbsPath { components }
    }

    /// The text of this path, with `/` before every component.
    pub fn display(&self) -> (text: String)
        ensures
            text@ == display_text(self@),
    {
        let n: usize = self.components.len();
        let mut text: String = String::new();
        if n == 0 {
            text.append("/");
            proof {
                reveal_strlit("/");
            }
            return text;
        }
        let mut i: usize = 0;
        while i < n
            invariant
                n == self.components.len(),
                n > 0,
                i <= n,
                i == 0 ==> text@ == Seq::<char>::empty(),
                i > 0 ==> text@ == display_text(self@.take(i as int)),
            decreases n - i,
        {
            proof {
                reveal_strlit("/");
                assert(self@.take(i + 1).drop_last() == self@.take(i as int));
            }
            text.append("/");
            text.append(self.components[i].as_str());
            i += 1;
        }
        assert(self@.take(n as int) == self@);
        text
    }
}

impl Clone for AbsPath {
    fn clone(&self) -> (copy: AbsPath)
        ensures
            copy@ == self@,
    {
        AbsPath { components: copy_names(&self.components, self.components.len()) }
    }
}

impl PartialEq for AbsPath {
    fn eq(&self, other: &AbsPath) -> (equal: bool) {
        let n: usize = self.components.len();
        if n != other.components.len() {
            return false;
        }
        let mut i: usize = 0;
        while i < n
            invariant
                n == self.components.len(),
                n == other.components.len(),
                i <= n,
                self@.take(i as int) == other@.take(i as int),
            decreases n - i,
        {
            if self.components[i] != other.components[i] {
                assert(self@[i as int] != other@[i as int]);
                return false;
            }
            i += 1;
        }
        assert(self@.take(n as int) == self@);
        assert(other@.take(n as int) == other@);
        true
    }
}

impl vstd::std_specs::cmp::PartialEqSpecImpl for AbsPath {
    open spec fn obeys_eq_spec() -> bool {
        true
    }

    open spec fn eq_spec(&self, other: &AbsPath) -> bool {
        self@ == other@
    }
}

impl Eq for AbsPath {

}

} // verus!
