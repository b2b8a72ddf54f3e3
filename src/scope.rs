use vstd::prelude::*;

use crate::errors::{CrushError, CrushResult};
use crate::value::Value;

verus! {

/// One lexical scope: its bindings, a link to the scope it was created in,
/// the cooperative stop flag and the readonly lock.
#[derive(Debug)]
pub struct Frame {
    pub parent: Option<usize>,
    pub bindings: Vec<(String, Value)>,
    /// Namespaces whose own bindings are visible here, searched in order
    /// after this scope's bindings and before its parent.
    pub uses: Vec<usize>,
    pub stopped: bool,
    pub readonly: bool,
}

/// An arena of scopes. A scope is named by its index; a child is always
/// created after its parent, so parent links point to smaller indices and a
/// lookup walks upward to the root.
#[derive(Debug)]
pub struct ScopeTree {
    frames: Vec<Frame>,
}

/// The value bound to `name` among `bindings`, the latest binding first.
pub open spec fn find_local(bindings: Seq<(String, Value)>, name: Seq<char>) -> Option<Value>
    decreases bindings.len(),
{
    if bindings.len() == 0 {
        None
    } else if bindings.last().0@ == name {
        Some(bindings.last().1)
    } else {
        find_local(bindings.drop_last(), name)
    }
}

/// The value bound to `name` in scope `id` or, failing that, in its ancestors.
pub open spec fn lookup_in(frames: Seq<Frame>, id: int, name: Seq<char>) -> Option<Value>
    decreases id,
{
    if !(0 <= id < frames.len()) {
        None
    } else {
        match find_local(frames[id].bindings@, name) {
            Some(v) => Some(v),
            None => match find_in_uses(frames, frames[id].uses@, name) {
                Some(v) => Some(v),
                None => match frames[id].parent {
                    Some(p) => if p < id {
                        lookup_in(frames, p as int, name)
                    } else {
                        None
                    },
                    None => None,
                },
            },
        }
    }
}

/// The first binding of `name` among the own bindings of the namespaces in
/// `uses`, in order.
pub open spec fn find_in_uses(frames: Seq<Frame>, uses: Seq<usize>, name: Seq<char>) -> Option<Value>
    decreases uses.len(),
{
    if uses.len() == 0 {
        None
    } else {
        let u = uses[0] as int;
        match if u < frames.len() {
            find_local(frames[u].bindings@, name)
        } else {
            None
        } {
            Some(v) => Some(v),
            None => find_in_uses(frames, uses.drop_first(), name),
        }
    }
}

/// A fresh child of `parent`: no bindings, unlocked, with the given stop flag.
pub open spec fn is_child_frame(f: Frame, parent: usize, stopped: bool) -> bool {
    &&& f.parent == Some(parent)
    &&& f.bindings@.len() == 0
    &&& f.uses@.len() == 0
    &&& f.stopped == stopped
    &&& !f.readonly
}

impl View for ScopeTree {
    type V = Seq<Frame>;

    closed spec fn view(&self) -> Seq<Frame> {
        self.frames@
    }
}

/// Finds the latest binding of `name` among `bindings`.
fn find_binding<'a>(bindings: &'a Vec<(String, Value)>, name: &String) -> (r: Option<&'a Value>)
    ensures
        match r {
            Some(v) => find_local(bindings@, name@) == Some(*v),
            None => find_local(bindings@, name@) is None,
        },
{
    let mut j: usize = bindings.len();
    assert(bindings@.subrange(0, j as int) =~= bindings@);
    while j > 0
        invariant
            j <= bindings.len(),
            find_local(bindings@, name@) == find_local(bindings@.subrange(0, j as int), name@),
        decreases j,
    {
        assert(bindings@.subrange(0, j as int).drop_last() =~= bindings@.subrange(0, j - 1));
        j = j - 1;
        if bindings[j].0 == *name {
            return Some(&bindings[j].1);
        }
    }
    None
}

impl ScopeTree {
    /// Parent links point to earlier scopes.
    pub open spec fn wf(&self) -> bool {
        forall|i: int|
            0 <= i < self@.len() ==> match (#[trigger] self@[i]).parent {
                Some(p) => p < i,
                None => true,
            }
    }

    pub open spec fn lookup_spec(&self, id: int, name: Seq<char>) -> Option<Value> {
        lookup_in(self@, id, name)
    }

    pub open spec fn stopped_spec(&self, id: int) -> bool {
        self@[id].stopped
    }

    /// A tree holding only the root scope, with id 0.
    pub fn new() -> (r: ScopeTree)
        ensures
            r.wf(),
            r@.len() == 1,
            r@[0].parent is None,
            r@[0].bindings@.len() == 0,
            r@[0].uses@.len() == 0,
            !r@[0].stopped,
            !r@[0].readonly,
    {
        let mut frames: Vec<Frame> = Vec::new();
        frames.push(Frame { parent: None, bindings: Vec::new(), uses: Vec::new(), stopped: false, readonly: false });
        ScopeTree { frames }
    }

    pub fn len(&self) -> (r: usize)
        ensures
            r == self@.len(),
    {
        self.frames.len()
    }

    pub fn frame(&self, id: usize) -> (r: &Frame)
        requires
            id < self@.len(),
        ensures
            *r == self@[id as int],
    {
        &self.frames[id]
    }

    /// Creates a scope below `parent`; it starts stopped iff `caller` is
    /// stopped, so a cancellation in the calling construct is inherited.
    /// Neither `parent` nor any other existing scope changes.
    pub fn create_child(&mut self, parent: usize, caller: usize) -> (r: usize)
        requires
            old(self).wf(),
            parent < old(self)@.len(),
            caller < old(self)@.len(),
        ensures
            final(self).wf(),
            r == old(self)@.len(),
            final(self)@.len() == old(self)@.len() + 1,
            final(self)@.subrange(0, r as int) == old(self)@,
            is_child_frame(final(self)@[r as int], parent, old(self)@[caller as int].stopped),
    {
        let stopped = self.frames[caller].stopped;
        let r = self.frames.len();
        self.frames.push(Frame { parent: Some(parent), bindings: Vec::new(), uses: Vec::new(), stopped, readonly: false });
        assert(self@.subrange(0, r as int) =~= old(self)@);
        r
    }

    /// The first binding of `name` among the namespaces in `uses`.
    fn find_used<'a>(&'a self, uses: &Vec<usize>, name: &String) -> (r: Option<&'a Value>)
        ensures
            match r {
                Some(v) => find_in_uses(self@, uses@, name@) == Some(*v),
                None => find_in_uses(self@, uses@, name@) is None,
            },
    {
        let mut j: usize = 0;
        assert(uses@.subrange(0, uses@.len() as int) =~= uses@);
        while j < uses.len()
            invariant
                j <= uses@.len(),
                find_in_uses(self@, uses@, name@) == find_in_uses(
                    self@,
                    uses@.subrange(j as int, uses@.len() as int),
                    name@,
                ),
            decreases uses.len() - j,
        {
            assert(uses@.subrange(j as int, uses@.len() as int).drop_first() =~= uses@.subrange(
                j + 1,
                uses@.len() as int,
            ));
            let u = uses[j];
            if u < self.frames.len() {
                match find_binding(&self.frames[u].bindings, name) {
                    Some(v) => {
                        return Some(v);
                    },
                    None => {},
                }
            }
            j = j + 1;
        }
        None
    }

    /// Makes the own bindings of namespace `ns` visible in scope `id`, after
    /// those already in use; lookups elsewhere are unaffected.
    pub fn use_namespace(&mut self, id: usize, ns: usize)
        requires
            old(self).wf(),
            id < old(self)@.len(),
        ensures
            final(self).wf(),
            final(self)@ == old(self)@.update(
                id as int,
                Frame { uses: final(self)@[id as int].uses, ..old(self)@[id as int] },
            ),
            final(self)@[id as int].uses@ == old(self)@[id as int].uses@.push(ns),
    {
        self.frames[id].uses.push(ns);
    }

    /// Discards scope `id` when it is the newest one, as when an invocation
    /// that created it returns; an older scope stays, since newer ones may
    /// still refer to it.
    pub fn leave(&mut self, id: usize)
        requires
            old(self).wf(),
        ensures
            final(self).wf(),
            id + 1 == old(self)@.len() ==> final(self)@ == old(self)@.drop_last(),
            id + 1 != old(self)@.len() ==> final(self)@ == old(self)@,
    {
        if self.frames.len() > 0 && id == self.frames.len() - 1 {
            self.frames.pop();
        }
    }

    /// The value bound to `name` in scope `id` or in one of its ancestors.
    pub fn lookup(&self, id: usize, name: &String) -> (r: Option<&Value>)
        requires
            self.wf(),
            id < self@.len(),
        ensures
            match r {
                Some(v) => self.lookup_spec(id as int, name@) == Some(*v),
                None => self.lookup_spec(id as int, name@) is None,
            },
    {
        let mut cur: usize = id;
        loop
            invariant
                self.wf(),
                cur < self@.len(),
                self.lookup_spec(id as int, name@) == self.lookup_spec(cur as int, name@),
            decreases cur,
        {
            let frame = &self.frames[cur];
            match find_binding(&frame.bindings, name) {
                Some(v) => {
                    return Some(v);
                },
                None => {},
            }
            match self.find_used(&frame.uses, name) {
                Some(v) => {
                    return Some(v);
                },
                None => {},
            }
            match frame.parent {
                Some(p) => {
                    cur = p;
                },
                None => {
                    return None;
                },
            }
        }
    }

    pub fn is_stopped(&self, id: usize) -> (r: bool)
        requires
            id < self@.len(),
        ensures
            r == self.stopped_spec(id as int),
    {
        self.frames[id].stopped
    }

    /// Sets the stop flag of scope `id`; nothing else changes.
    pub fn stop(&mut self, id: usize)
        requires
            old(self).wf(),
            id < old(self)@.len(),
        ensures
            final(self).wf(),
            final(self)@ == old(self)@.update(id as int, Frame { stopped: true, ..old(self)@[id as int] }),
    {
        self.frames[id].stopped = true;
    }

    /// Locks scope `id` against further declarations; lookups are unaffected.
    pub fn readonly(&mut self, id: usize)
        requires
            old(self).wf(),
            id < old(self)@.len(),
        ensures
            final(self).wf(),
            final(self)@ == old(self)@.update(id as int, Frame { readonly: true, ..old(self)@[id as int] }),
    {
        self.frames[id].readonly = true;
    }

    /// Adds a binding to scope `id`, shadowing any earlier one of the name.
    pub(crate) fn bind(&mut self, id: usize, name: String, value: Value)
        requires
            old(self).wf(),
            id < old(self)@.len(),
        ensures
            final(self).wf(),
            final(self)@ == old(self)@.update(
                id as int,
                Frame {
                    bindings: final(self)@[id as int].bindings,
                    ..old(self)@[id as int]
                },
            ),
            final(self)@[id as int].bindings@ == old(self)@[id as int].bindings@.push((name, value)),
    {
        self.frames[id].bindings.push((name, value));
    }

    /// Creates an empty, unstopped child of scope `id` and binds it there
    /// under `name`, as a namespace. Fails as `declare` does, changing nothing.
    pub fn create_namespace(&mut self, id: usize, name: String) -> (r: CrushResult<usize>)
        requires
            old(self).wf(),
            id < old(self)@.len(),
        ensures
            final(self).wf(),
            old(self)@[id as int].readonly ==> r == Err::<usize, CrushError>(CrushError::ReadOnlyScope),
            !old(self)@[id as int].readonly && find_local(old(self)@[id as int].bindings@, name@) is Some
                ==> r == Err::<usize, CrushError>(CrushError::AlreadyDeclared(name)),
            r is Err ==> final(self)@ == old(self)@,
            r is Ok <==> !old(self)@[id as int].readonly && find_local(
                old(self)@[id as int].bindings@,
                name@,
            ) is None,
            r is Ok ==> {
                let ns = r->Ok_0;
                &&& ns == old(self)@.len()
                &&& final(self)@.len() == ns + 1
                &&& is_child_frame(final(self)@[ns as int], id, false)
                &&& forall|i: int| 0 <= i < ns && i != id ==> final(self)@[i] == old(self)@[i]
                &&& final(self)@[id as int].bindings@ == old(self)@[id as int].bindings@.push(
                    (name, Value::Scope(ns)),
                )
                &&& final(self)@[id as int].parent == old(self)@[id as int].parent
                &&& final(self)@[id as int].uses == old(self)@[id as int].uses
                &&& final(self)@[id as int].stopped == old(self)@[id as int].stopped
                &&& final(self)@[id as int].readonly == old(self)@[id as int].readonly
            },
    {
        if self.frames[id].readonly {
            return Err(CrushError::ReadOnlyScope);
        }
        if find_binding(&self.frames[id].bindings, &name).is_some() {
            return Err(CrushError::AlreadyDeclared(name));
        }
        let ns = self.frames.len();
        self.frames.push(Frame { parent: Some(id), bindings: Vec::new(), uses: Vec::new(), stopped: false, readonly: false });
        self.bind(id, name, Value::Scope(ns));
        Ok(ns)
    }

    /// Binds `name` in scope `id`. Fails, changing nothing, where the scope
    /// is locked or already binds the name itself.
    pub fn declare(&mut self, id: usize, name: String, value: Value) -> (r: CrushResult<()>)
        requires
            old(self).wf(),
            id < old(self)@.len(),
        ensures
            final(self).wf(),
            old(self)@[id as int].readonly ==> r == Err::<(), CrushError>(CrushError::ReadOnlyScope),
            !old(self)@[id as int].readonly && find_local(old(self)@[id as int].bindings@, name@) is Some
                ==> r == Err::<(), CrushError>(CrushError::AlreadyDeclared(name)),
            r is Err ==> final(self)@ == old(self)@,
            r is Ok <==> !old(self)@[id as int].readonly && find_local(
                old(self)@[id as int].bindings@,
                name@,
            ) is None,
            r is Ok ==> final(self)@.len() == old(self)@.len() && (forall|i: int|
                0 <= i < old(self)@.len() && i != id ==> final(self)@[i] == old(self)@[i]),
            r is Ok ==> final(self)@[id as int].bindings@ == old(self)@[id as int].bindings@.push(
                (name, value),
            ),
            r is Ok ==> final(self)@[id as int].parent == old(self)@[id as int].parent,
            r is Ok ==> final(self)@[id as int].uses == old(self)@[id as int].uses,
            r is Ok ==> final(self)@[id as int].stopped == old(self)@[id as int].stopped,
            r is Ok ==> final(self)@[id as int].readonly == old(self)@[id as int].readonly,
    {
        if self.frames[id].readonly {
            return Err(CrushError::ReadOnlyScope);
        }
        if find_binding(&self.frames[id].bindings, &name).is_some() {
            return Err(CrushError::AlreadyDeclared(name));
        }
        self.bind(id, name, value);
        Ok(())
    }
}

} // verus!
