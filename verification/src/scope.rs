//! Scope: the isolation container of a plugin, the "space" half of space/time
//! composability. A scope owns its child scopes, so releasing a scope releases
//! the whole subtree with it.

use vstd::prelude::*;

verus! {

/// A scope, which may hold nested child scopes keyed by their ids.
pub struct Scope {
    pub id: String,
    /// Id of the enclosing scope; a back-reference by name, so that no cycle
    /// of ownership forms.
    parent: Option<String>,
    /// Child scopes, at most one per id.
    children: Vec<Scope>,
}

/// First position in `children` of a scope whose id reads `id`, if any.
pub open spec fn is_first_named(children: Seq<Scope>, id: Seq<char>, i: int) -> bool {
    &&& 0 <= i < children.len()
    &&& children[i].name() == id
    &&& forall|j: int| 0 <= j < i ==> children[j].name() != id
}

/// No scope of `children` has the id `id`.
pub open spec fn none_named(children: Seq<Scope>, id: Seq<char>) -> bool {
    forall|j: int| 0 <= j < children.len() ==> children[j].name() != id
}

/// Ids of a sequence of scopes.
pub open spec fn ids_of(children: Seq<Scope>) -> Seq<Seq<char>> {
    children.map_values(|c: Scope| c.name())
}

/// Replacing the child at `i`, the only one named `id`, by any scope named
/// `id` keeps the child ids distinct.
proof fn lemma_replace_keeps_distinct(children: Seq<Scope>, id: Seq<char>, i: int)
    requires
        0 <= i < children.len(),
        children[i].name() == id,
        ids_of(children).no_duplicates(),
    ensures
        forall|x: Scope| x.name() == id
            ==> ids_of(#[trigger] children.update(i, x)).no_duplicates(),
{
    assert forall|x: Scope| x.name() == id implies ids_of(children.update(i, x)).no_duplicates() by {
        assert(ids_of(children.update(i, x)) =~= ids_of(children));
    }
}

/// Appending a scope named `id` to children none of which is named `id` keeps
/// the child ids distinct.
proof fn lemma_push_keeps_distinct(children: Seq<Scope>, id: Seq<char>)
    requires
        none_named(children, id),
        ids_of(children).no_duplicates(),
    ensures
        forall|x: Scope| x.name() == id
            ==> ids_of(#[trigger] children.push(x)).no_duplicates(),
{
    assert forall|x: Scope| x.name() == id implies ids_of(children.push(x)).no_duplicates() by {
        let ids = ids_of(children);
        assert(ids_of(children.push(x)) =~= ids.push(id));
        assert(!ids.contains(id)) by {
            if ids.contains(id) {
                let j = choose|j: int| 0 <= j < ids.len() && ids[j] == id;
                assert(children[j].name() == id);
            }
        }
    }
}

impl Scope {
    /// This scope's id, as text.
    pub closed spec fn name(self) -> Seq<char> {
        self.id@
    }

    /// Id of the enclosing scope, `None` for a root.
    pub closed spec fn parent_id(self) -> Option<Seq<char>> {
        match self.parent {
            Some(p) => Some(p@),
            None => None,
        }
    }

    /// The child scopes, in the order they were first registered.
    pub closed spec fn children(self) -> Seq<Scope> {
        self.children@
    }

    /// Ids of the child scopes.
    pub open spec fn child_ids(self) -> Seq<Seq<char>> {
        ids_of(self.children())
    }

    /// Well-formed: no two children share an id.
    pub open spec fn wf(self) -> bool {
        self.child_ids().no_duplicates()
    }

    /// A scope just created under the name `id` inside `parent`: no children yet.
    pub open spec fn is_fresh(self, id: Seq<char>, parent: Option<Seq<char>>) -> bool {
        &&& self.name() == id
        &&& self.parent_id() == parent
        &&& self.children().len() == 0
    }

    /// The root scope, named `"root"`.
    pub fn root() -> (s: Scope)
        ensures
            s.is_fresh("root"@, None),
            s.wf(),
    {
        let s = Scope { id: "root".to_string(), parent: None, children: Vec::new() };
        assert(s.child_ids() =~= Seq::<Seq<char>>::empty());
        s
    }

    /// Creates a child scope named `id` and registers it in this scope,
    /// replacing a child of the same id. The reference handed back is the
    /// registered child itself: what the caller does through it is what this
    /// scope holds afterwards. The child stays until `release_child` releases
    /// it, or until this scope itself is dropped.
    pub fn child(&mut self, id: &str) -> (c: &mut Scope)
        ensures
            c.is_fresh(id@, Some(old(self).name())),
            final(self).name() == old(self).name(),
            final(self).parent_id() == old(self).parent_id(),
            (exists|i: int|
                is_first_named(old(self).children(), id@, i)
                && final(self).children() == old(self).children().update(i, *final(c)))
            || (none_named(old(self).children(), id@)
                && final(self).children() == old(self).children().push(*final(c))),
            old(self).wf() && final(c).name() == id@ ==> final(self).wf(),
    {
        let key = id.to_string();
        let fresh = Scope { id: id.to_string(), parent: Some(self.id.clone()), children: Vec::new() };
        let n = self.children.len();
        let mut i: usize = 0;
        while i < n
            invariant
                n == self.children@.len(),
                0 <= i <= n,
                key@ == id@,
                none_named(self.children@.take(i as int), id@),
            ensures
                0 <= i <= n,
                none_named(self.children@.take(i as int), id@),
                i < n ==> self.children@[i as int].name() == id@,
            decreases n - i,
        {
            if self.children[i].id == key {
                break;
            }
            assert(self.children@.take(i + 1) =~= self.children@.take(i as int).push(self.children@[i as int]));
            i = i + 1;
        }
        let ghost before = self.children@;
        if i < n {
            assert(is_first_named(before, id@, i as int)) by {
                assert forall|j: int| 0 <= j < i implies before[j].name() != id@ by {
                    assert(before.take(i as int)[j] == before[j]);
                }
            }
            proof {
                if old(self).wf() {
                    lemma_replace_keeps_distinct(before, id@, i as int);
                }
            }
            self.children[i] = fresh;
            proof {
                if old(self).wf() {
                    lemma_replace_keeps_distinct(self.children@, id@, i as int);
                }
            }
            let c = &mut self.children[i];
            c
        } else {
            assert(before.take(n as int) =~= before);
            proof {
                if old(self).wf() {
                    lemma_push_keeps_distinct(before, id@);
                }
            }
            self.children.push(fresh);
            proof {
                if old(self).wf() {
                    lemma_replace_keeps_distinct(self.children@, id@, n as int);
                }
            }
            let c = &mut self.children[n];
            c
        }
    }

    /// Releases the child scope named `id`, and with it everything in its
    /// subtree; answers whether there was such a child.
    pub fn release_child(&mut self, id: &str) -> (released: bool)
        ensures
            released == !none_named(old(self).children(), id@),
            final(self).name() == old(self).name(),
            final(self).parent_id() == old(self).parent_id(),
            released ==> exists|i: int|
                is_first_named(old(self).children(), id@, i)
                && final(self).children() == old(self).children().remove(i),
            !released ==> final(self).children() == old(self).children(),
            old(self).wf() ==> final(self).wf() && !final(self).child_ids().contains(id@),
    {
        let key = id.to_string();
        let n = self.children.len();
        let mut i: usize = 0;
        while i < n
            invariant
                n == self.children@.len(),
                0 <= i <= n,
                key@ == id@,
                none_named(self.children@.take(i as int), id@),
            ensures
                0 <= i <= n,
                none_named(self.children@.take(i as int), id@),
                i < n ==> self.children@[i as int].name() == id@,
            decreases n - i,
        {
            if self.children[i].id == key {
                break;
            }
            assert(self.children@.take(i + 1) =~= self.children@.take(i as int).push(self.children@[i as int]));
            i = i + 1;
        }
        let ghost before = self.children@;
        if i < n {
            assert(is_first_named(before, id@, i as int)) by {
                assert forall|j: int| 0 <= j < i implies before[j].name() != id@ by {
                    assert(before.take(i as int)[j] == before[j]);
                }
            }
            let _released = self.children.remove(i);
            proof {
                assert(ids_of(self.children@) =~= ids_of(before).remove(i as int));
                if old(self).wf() {
                    crate::lifecycle::lemma_remove_distinct(ids_of(before), i as int);
                }
            }
            true
        } else {
            assert(before.take(n as int) =~= before);
            proof {
                if old(self).wf() && self.child_ids().contains(id@) {
                    let j = choose|j: int| 0 <= j < n && ids_of(before)[j] == id@;
                    assert(before[j].name() == id@);
                }
            }
            false
        }
    }

    pub fn id(&self) -> (r: &str)
        ensures
            r@ == self.name(),
    {
        self.id.as_str()
    }
}

} // verus!
