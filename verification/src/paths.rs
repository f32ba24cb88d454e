//! Path values and the name predicates the scanner filters by.
//!
//! A [`FilePath`] is a sequence of path components, viewed in specifications
//! as a `Seq<Seq<char>>`. The scanner's filtering rules are all stated over
//! that view: a name is hidden when its first character is `'.'`, a name is
//! a classification candidate only when it contains a `'.'`, and a path lies
//! under a root when the root's components are a prefix of its own.

use vstd::prelude::*;
use vstd::string::StrSliceExecFns;

verus! {

/// A hidden name starts with a `'.'` character.
pub open spec fn seq_is_hidden(name: Seq<char>) -> bool {
    name.len() > 0 && name[0] == '.'
}

/// A name with a `'.'` anywhere in it (file names without one are never
/// handed to the metadata parser).
pub open spec fn seq_has_dot(name: Seq<char>) -> bool {
    exists|j: int| 0 <= j < name.len() && name[j] == '.'
}

/// `root` is a component-wise prefix of `path` (or equal to it).
pub open spec fn is_under(path: Seq<Seq<char>>, root: Seq<Seq<char>>) -> bool {
    &&& root.len() <= path.len()
    &&& forall|j: int| 0 <= j < root.len() ==> path[j] == root[j]
}

/// Reports whether `name` starts with `'.'`.
pub fn is_hidden_name(name: &str) -> (r: bool)
    ensures
        r == seq_is_hidden(name@),
{
    if name.unicode_len() == 0 {
        false
    } else {
        name.get_char(0) == '.'
    }
}

/// Reports whether `name` contains a `'.'` character.
pub fn name_has_dot(name: &str) -> (r: bool)
    ensures
        r == seq_has_dot(name@),
{
    let n = name.unicode_len();
    let mut i: usize = 0;
    while i < n
        invariant
            n == name@.len(),
            0 <= i <= n,
            forall|j: int| 0 <= j < i ==> name@[j] != '.',
        decreases n - i,
    {
        if name.get_char(i) == '.' {
            assert(name@[i as int] == '.');
            return true;
        }
        i += 1;
    }
    false
}

/// A filesystem path, stored as its components in order.
#[derive(Debug)]
pub struct FilePath {
    pub parts: Vec<String>,
}

impl View for FilePath {
    type V = Seq<Seq<char>>;

    open spec fn view(&self) -> Seq<Seq<char>> {
        self.parts.deep_view()
    }
}

impl FilePath {
    /// The path's last component.
    pub fn base_name(&self) -> (r: &String)
        requires
            self@.len() > 0,
        ensures
            r@ == self@.last(),
    {
        &self.parts[self.parts.len() - 1]
    }

    /// The path with its last component removed.
    pub fn parent(&self) -> (r: FilePath)
        requires
            self@.len() > 0,
        ensures
            r@ == self@.drop_last(),
    {
        let n = self.parts.len();
        let mut parts: Vec<String> = Vec::new();
        let mut i: usize = 0;
        while i < n - 1
            invariant
                n == self.parts@.len(),
                n > 0,
                0 <= i <= n - 1,
                parts@.len() == i,
                forall|j: int| 0 <= j < i ==> parts@[j]@ == self.parts@[j]@,
            decreases n - 1 - i,
        {
            parts.push(self.parts[i].clone());
            i += 1;
        }
        let r = FilePath { parts };
        assert(r@ =~= self@.drop_last());
        r
    }

    /// The path extended by one more component.
    pub fn child(&self, name: &String) -> (r: FilePath)
        ensures
            r@ == self@.push(name@),
    {
        let n = self.parts.len();
        let mut parts: Vec<String> = Vec::new();
        let mut i: usize = 0;
        while i < n
            invariant
                n == self.parts@.len(),
                0 <= i <= n,
                parts@.len() == i,
                forall|j: int| 0 <= j < i ==> parts@[j]@ == self.parts@[j]@,
            decreases n - i,
        {
            parts.push(self.parts[i].clone());
            i += 1;
        }
        parts.push(name.clone());
        let r = FilePath { parts };
        assert(r@ =~= self@.push(name@));
        r
    }

    /// A copy of the path with an equal view.
    pub fn duplicate(&self) -> (r: FilePath)
        ensures
            r@ == self@,
    {
        let n = self.parts.len();
        let mut parts: Vec<String> = Vec::new();
        let mut i: usize = 0;
        while i < n
            invariant
                n == self.parts@.len(),
                0 <= i <= n,
                parts@.len() == i,
                forall|j: int| 0 <= j < i ==> parts@[j]@ == self.parts@[j]@,
            decreases n - i,
        {
            parts.push(self.parts[i].clone());
            i += 1;
        }
        let r = FilePath { parts };
        assert(r@ =~= self@);
        r
    }

    /// Reports whether `root` is a component-wise prefix of `self`.
    pub fn starts_with(&self, root: &FilePath) -> (r: bool)
        ensures
            r == is_under(self@, root@),
    {
        let rl = root.parts.len();
        if rl > self.parts.len() {
            return false;
        }
        let mut i: usize = 0;
        while i < rl
            invariant
                rl == root@.len(),
                rl <= self@.len(),
                0 <= i <= rl,
                forall|j: int| 0 <= j < i ==> self@[j] == root@[j],
            decreases rl - i,
        {
            if !(self.parts[i] == root.parts[i]) {
                assert(self@[i as int] != root@[i as int]);
                return false;
            }
            assert(self@[i as int] == root@[i as int]);
            i += 1;
        }
        true
    }
}

} // verus!
