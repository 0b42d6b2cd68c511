//! The typing environment threaded through validation: what is known of the
//! root, `this` and `prev` scopes, and the saved scopes by name.
use vstd::prelude::*;

use crate::scopes::Scopes;
use crate::text::str_eq;

verus! {

/// A scope context in mathematical terms. Later bindings of a name hide
/// earlier ones.
pub struct ContextView {
    pub root: Scopes,
    pub this: Scopes,
    pub prev: Scopes,
    pub names: Seq<(Seq<char>, Scopes)>,
}

/// The latest binding of `name` in `names`.
pub open spec fn lookup(names: Seq<(Seq<char>, Scopes)>, name: Seq<char>) -> Option<Scopes>
    decreases names.len(),
{
    if names.len() == 0 {
        None
    } else if names.last().0 == name {
        Some(names.last().1)
    } else {
        lookup(names.drop_last(), name)
    }
}

impl ContextView {
    /// This context with `name` bound to `s`.
    pub open spec fn saved(self, name: Seq<char>, s: Scopes) -> ContextView {
        ContextView { names: self.names.push((name, s)), ..self }
    }

    /// The context inside a construct that addresses `s`: `this` becomes `s`
    /// and `prev` the old `this`.
    pub open spec fn opened(self, s: Scopes) -> ContextView {
        ContextView { this: s, prev: self.this, ..self }
    }

    /// Every scope set in the context is well formed.
    pub open spec fn wf(self) -> bool {
        self.root.wf() && self.this.wf() && self.prev.wf() && forall|i: int|
            0 <= i < self.names.len() ==> (#[trigger] self.names[i]).1.wf()
    }
}

/// A scope context. Forks are independent copies: what one records is seen by
/// no other fork and not by the context it was forked from.
#[derive(Debug)]
pub struct ScopeContext {
    root: Scopes,
    this: Scopes,
    prev: Scopes,
    names: Vec<(String, Scopes)>,
}

impl View for ScopeContext {
    type V = ContextView;

    closed spec fn view(&self) -> ContextView {
        ContextView {
            root: self.root,
            this: self.this,
            prev: self.prev,
            names: self.names@.map_values(|p: (String, Scopes)| (p.0@, p.1)),
        }
    }
}

impl ScopeContext {
    /// The context of an item whose natural scope is `root`.
    pub fn new(root: Scopes) -> (r: ScopeContext)
        ensures
            r@ == (ContextView { root, this: root, prev: root, names: seq![] }),
    {
        let r = ScopeContext { root, this: root, prev: root, names: Vec::new() };
        assert(r@.names =~= seq![]);
        r
    }

    pub fn root(&self) -> (r: Scopes)
        ensures
            r == self@.root,
    {
        self.root
    }

    pub fn this(&self) -> (r: Scopes)
        ensures
            r == self@.this,
    {
        self.this
    }

    pub fn prev(&self) -> (r: Scopes)
        ensures
            r == self@.prev,
    {
        self.prev
    }

    /// An independent copy, for one branch of a branching construct.
    pub fn fork(&self) -> (r: ScopeContext)
        ensures
            r@ == self@,
    {
        let mut names: Vec<(String, Scopes)> = Vec::new();
        let mut i: usize = 0;
        while i < self.names.len()
            invariant
                i <= self.names@.len(),
                names@.len() == i,
                forall|j: int|
                    0 <= j < i ==> (#[trigger] names@[j]).0@ == self.names@[j].0@ && names@[j].1
                        == self.names@[j].1,
            decreases self.names@.len() - i,
        {
            let name = self.names[i].0.clone();
            names.push((name, self.names[i].1));
            i = i + 1;
        }
        let r = ScopeContext { root: self.root, this: self.this, prev: self.prev, names };
        assert(r@.names =~= self@.names);
        r
    }

    /// An independent copy in which `this` is `s` and `prev` the old `this`.
    pub fn open_scope(&self, s: Scopes) -> (r: ScopeContext)
        ensures
            r@ == self@.opened(s),
    {
        let mut r = self.fork();
        r.prev = self.this;
        r.this = s;
        r
    }

    /// Records that `name` now refers to `s`.
    pub fn save(&mut self, name: &str, s: Scopes)
        ensures
            final(self)@ == old(self)@.saved(name@, s),
    {
        self.names.push((String::from_str(name), s));
        assert(self@.names =~= old(self)@.names.push((name@, s)));
    }

    /// What the saved scope `name` refers to, if it was saved.
    pub fn named(&self, name: &str) -> (r: Option<Scopes>)
        ensures
            r == lookup(self@.names, name@),
    {
        let ghost names = self@.names;
        let mut i: usize = self.names.len();
        assert(names.subrange(0, i as int) =~= names);
        while i > 0
            invariant
                i <= self.names@.len(),
                names == self@.names,
                lookup(names, name@) == lookup(names.subrange(0, i as int), name@),
            decreases i,
        {
            let ghost pre = names.subrange(0, i as int);
            assert(pre.drop_last() =~= names.subrange(0, i - 1));
            if str_eq(self.names[i - 1].0.as_str(), name) {
                return Some(self.names[i - 1].1);
            }
            i = i - 1;
        }
        None
    }
}

} // verus!
