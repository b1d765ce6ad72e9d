//! The garbage-collected heap, modelled as a typed arena.
//!
//! Every object, class, scope, domain, script and display entity is an
//! index into one of the tables of [`Avm`]. Links between entities are
//! plain indices, and the links that chains walk — prototypes, scope
//! parents, domain parents — always point at strictly earlier entries.
//! That is how the chains are built (an entity closes over what already
//! exists) and it gives every chain walk a termination measure. Reclaiming
//! unreachable entries is a collector's concern, outside this model.

use vstd::prelude::*;

use crate::class::Class;
use crate::display::DisplayNode;
use crate::domain::DomainData;
use crate::event::EventData;
use crate::names::Namespace;
use crate::regexp::RegExpData;
use crate::storage::{ObjData, TraitSource, wf_data};
use crate::value::Value;

verus! {

/// One scope-chain link: a frame of values, over an optional parent.
#[derive(Clone, Copy, Debug)]
pub struct Scope {
    /// The enclosing scope, allocated earlier.
    pub parent: Option<usize>,
    /// The object whose properties this scope exposes.
    pub values: usize,
}

/// One loaded script: the engine reads only its globals object.
#[derive(Clone, Copy, Debug)]
pub struct Script {
    /// The script's globals object.
    pub globals: usize,
}

/// The specialized kinds an object can have. Each kind intercepts the
/// storage operations its reserved index space or behaviour needs and
/// forwards everything else to the embedded base storage.
#[derive(Debug)]
pub enum ObjKind {
    /// A plain script object.
    Script,
    /// A function: an opaque method handle, closed over a scope, with the
    /// receiver its `this` is bound to.
    Function { method: u32, scope: Option<usize>, receiver: Option<usize> },
    /// An event, carrying event state.
    Event(EventData),
    /// A regular expression, carrying pattern state.
    RegExp(RegExpData),
    /// Byte-indexed storage.
    ByteArray(Vec<u8>),
    /// Integer-indexed storage.
    Array(Vec<Value>),
    /// A boxed application domain.
    Domain(usize),
    /// An object bound to a display entity.
    Stage(usize),
    /// A boxed primitive value.
    Primitive(Value),
    /// A boxed namespace.
    Namespace(Namespace),
}

/// One heap object: its kind and its base storage.
#[derive(Debug)]
pub struct Obj {
    pub kind: ObjKind,
    pub data: ObjData,
}

/// The prototypes of the system classes, once they are built.
#[derive(Clone, Copy, Debug)]
pub struct SystemProtos {
    pub object: Option<usize>,
    pub function: Option<usize>,
    pub array: Option<usize>,
    pub event: Option<usize>,
}

/// The heap and the execution configuration threaded through every
/// operation.
#[derive(Debug)]
pub struct Avm {
    /// Every live object.
    pub objects: Vec<Obj>,
    /// Every loaded class definition.
    pub classes: Vec<Class>,
    /// Every scope-chain link.
    pub scopes: Vec<Scope>,
    /// Every application domain.
    pub domains: Vec<DomainData>,
    /// Every loaded script.
    pub scripts: Vec<Script>,
    /// Every display entity the engine has been told about.
    pub display: Vec<DisplayNode>,
    /// The system prototypes, once built.
    pub protos: SystemProtos,
    /// Whether invalid operations raise errors (strict) or are silently
    /// ignored (lenient).
    pub strict: bool,
    /// The container-format version the running program was compiled for.
    pub swf_version: u8,
}

/// Well-formedness of one object against the table sizes: its storage is
/// locally well-formed, its prototype is an earlier object, and every
/// reference it holds is in range.
pub open spec fn wf_obj(o: Obj, i: int, n_objects: int, n_classes: int, n_scopes: int) -> bool {
    &&& wf_data(o.data)
    &&& match o.data.proto {
        Some(p) => p < i,
        None => true,
    }
    &&& forall|k: int|
        0 <= k < o.data.interfaces@.len() ==> (#[trigger] o.data.interfaces@[k]) < n_objects
    &&& match o.data.trait_source {
        TraitSource::ClassConstructor(c, s) => c < n_classes && match s {
            Some(sc) => sc < n_scopes,
            None => true,
        },
        TraitSource::InstancePrototype(c, s) => c < n_classes && match s {
            Some(sc) => sc < n_scopes,
            None => true,
        },
        TraitSource::NoClass => true,
    }
    &&& match o.kind {
        ObjKind::Function { method: _, scope, receiver } => (match scope {
            Some(s) => s < n_scopes,
            None => true,
        }) && (match receiver {
            Some(r) => r < n_objects,
            None => true,
        }),
        _ => true,
    }
}

/// Well-formedness of one scope link: the parent is an earlier scope and
/// the frame object is live.
pub open spec fn wf_scope(s: Scope, i: int, n_objects: int) -> bool {
    &&& match s.parent {
        Some(p) => p < i,
        None => true,
    }
    &&& s.values < n_objects
}

/// Well-formedness of the whole heap.
pub open spec fn wf(avm: Avm) -> bool {
    &&& forall|i: int|
        0 <= i < avm.objects@.len() ==> wf_obj(
            #[trigger] avm.objects@[i],
            i,
            avm.objects@.len() as int,
            avm.classes@.len() as int,
            avm.scopes@.len() as int,
        )
    &&& forall|i: int|
        0 <= i < avm.scopes@.len() ==> wf_scope(
            #[trigger] avm.scopes@[i],
            i,
            avm.objects@.len() as int,
        )
    &&& forall|i: int|
        0 <= i < avm.domains@.len() ==> crate::domain::wf_domain(
            #[trigger] avm.domains@[i],
            i,
            avm.scripts@.len() as int,
        )
    &&& forall|i: int|
        0 <= i < avm.scripts@.len() ==> (#[trigger] avm.scripts@[i]).globals
            < avm.objects@.len()
    &&& match avm.protos.object {
        Some(p) => p < avm.objects@.len(),
        None => true,
    }
    &&& match avm.protos.function {
        Some(p) => p < avm.objects@.len(),
        None => true,
    }
    &&& match avm.protos.array {
        Some(p) => p < avm.objects@.len(),
        None => true,
    }
    &&& match avm.protos.event {
        Some(p) => p < avm.objects@.len(),
        None => true,
    }
}

impl Avm {
    /// A fresh heap with nothing in it, running under the given strictness
    /// and program version.
    pub fn new(strict: bool, swf_version: u8) -> (r: Avm)
        ensures
            wf(r),
            r.objects@.len() == 0,
            r.classes@.len() == 0,
            r.scopes@.len() == 0,
            r.domains@.len() == 0,
            r.scripts@.len() == 0,
            r.strict == strict,
            r.swf_version == swf_version,
    {
        Avm {
            objects: Vec::new(),
            classes: Vec::new(),
            scopes: Vec::new(),
            domains: Vec::new(),
            scripts: Vec::new(),
            display: Vec::new(),
            protos: SystemProtos { object: None, function: None, array: None, event: None },
            strict,
            swf_version,
        }
    }

    /// Allocates a fresh object with the given kind, prototype and trait
    /// source, and returns its index. The prototype must be live, as must
    /// every index the kind or the trait source carries.
    pub fn alloc_object(
        &mut self,
        kind: ObjKind,
        proto: Option<usize>,
        trait_source: TraitSource,
    ) -> (r: usize)
        requires
            wf(*old(self)),
            match proto {
                Some(p) => p < old(self).objects@.len(),
                None => true,
            },
            match trait_source {
                TraitSource::ClassConstructor(c, s) => c < old(self).classes@.len() && match s {
                    Some(sc) => sc < old(self).scopes@.len(),
                    None => true,
                },
                TraitSource::InstancePrototype(c, s) => c < old(self).classes@.len() && match s {
                    Some(sc) => sc < old(self).scopes@.len(),
                    None => true,
                },
                TraitSource::NoClass => true,
            },
            match kind {
                ObjKind::Function { method: _, scope, receiver } => (match scope {
                    Some(s) => s < old(self).scopes@.len(),
                    None => true,
                }) && (match receiver {
                    Some(rc) => rc <= old(self).objects@.len(),
                    None => true,
                }),
                _ => true,
            },
        ensures
            wf(*final(self)),
            r == old(self).objects@.len(),
            final(self).objects@.len() == old(self).objects@.len() + 1,
            final(self).objects@[r as int].kind == kind,
            final(self).objects@[r as int].data.props@ =~= Seq::<
                crate::storage::PropEntry,
            >::empty(),
            final(self).objects@[r as int].data.slots@.len() == 0,
            final(self).objects@[r as int].data.methods@.len() == 0,
            final(self).objects@[r as int].data.proto == proto,
            final(self).objects@[r as int].data.trait_source == trait_source,
            final(self).objects@[r as int].data.enumerants@.len() == 0,
            final(self).objects@[r as int].data.interfaces@.len() == 0,
            forall|j: int|
                0 <= j < old(self).objects@.len() ==> final(self).objects@[j] == old(self).objects@[j],
            final(self).classes == old(self).classes,
            final(self).scopes == old(self).scopes,
            final(self).domains == old(self).domains,
            final(self).scripts == old(self).scripts,
            final(self).display == old(self).display,
            final(self).protos == old(self).protos,
            final(self).strict == old(self).strict,
            final(self).swf_version == old(self).swf_version,
    {
        let id = self.objects.len();
        let data = ObjData::base_new(proto, trait_source);
        self.objects.push(Obj { kind, data });
        proof {
            let post = *self;
            let pre = *old(self);
            assert forall|i: int| 0 <= i < post.objects@.len() implies wf_obj(
                #[trigger] post.objects@[i],
                i,
                post.objects@.len() as int,
                post.classes@.len() as int,
                post.scopes@.len() as int,
            ) by {
                if i < pre.objects@.len() {
                    assert(post.objects@[i] == pre.objects@[i]);
                    assert(wf_obj(
                        pre.objects@[i],
                        i,
                        pre.objects@.len() as int,
                        pre.classes@.len() as int,
                        pre.scopes@.len() as int,
                    ));
                }
            }
        }
        id
    }

    /// Pushes a fresh scope link over the given parent, exposing the
    /// given frame object, and returns its index.
    pub fn push_scope(&mut self, parent: Option<usize>, values: usize) -> (r: usize)
        requires
            wf(*old(self)),
            match parent {
                Some(p) => p < old(self).scopes@.len(),
                None => true,
            },
            values < old(self).objects@.len(),
        ensures
            wf(*final(self)),
            r == old(self).scopes@.len(),
            final(self).scopes@.len() == old(self).scopes@.len() + 1,
            final(self).scopes@[r as int] == (Scope { parent, values }),
            forall|j: int|
                0 <= j < old(self).scopes@.len() ==> final(self).scopes@[j] == old(
                    self,
                ).scopes@[j],
            final(self).objects == old(self).objects,
            final(self).classes == old(self).classes,
            final(self).domains == old(self).domains,
            final(self).scripts == old(self).scripts,
            final(self).display == old(self).display,
            final(self).protos == old(self).protos,
            final(self).strict == old(self).strict,
            final(self).swf_version == old(self).swf_version,
    {
        let id = self.scopes.len();
        self.scopes.push(Scope { parent, values });
        proof {
            let post = *self;
            let pre = *old(self);
            assert forall|i: int| 0 <= i < post.scopes@.len() implies wf_scope(
                #[trigger] post.scopes@[i],
                i,
                post.objects@.len() as int,
            ) by {
                if i < pre.scopes@.len() {
                    assert(post.scopes@[i] == pre.scopes@[i]);
                }
            }
            assert forall|i: int| 0 <= i < post.objects@.len() implies wf_obj(
                #[trigger] post.objects@[i],
                i,
                post.objects@.len() as int,
                post.classes@.len() as int,
                post.scopes@.len() as int,
            ) by {
                assert(wf_obj(
                    pre.objects@[i],
                    i,
                    pre.objects@.len() as int,
                    pre.classes@.len() as int,
                    pre.scopes@.len() as int,
                ));
            }
        }
        id
    }

    /// Pushes a fresh class definition and returns its index.
    pub fn push_class(&mut self, class: crate::class::Class) -> (r: usize)
        requires
            wf(*old(self)),
        ensures
            wf(*final(self)),
            r == old(self).classes@.len(),
            final(self).classes@.len() == old(self).classes@.len() + 1,
            final(self).classes@[r as int] == class,
            forall|j: int|
                0 <= j < old(self).classes@.len() ==> final(self).classes@[j] == old(
                    self,
                ).classes@[j],
            final(self).objects == old(self).objects,
            final(self).scopes == old(self).scopes,
            final(self).domains == old(self).domains,
            final(self).scripts == old(self).scripts,
            final(self).display == old(self).display,
            final(self).protos == old(self).protos,
            final(self).strict == old(self).strict,
            final(self).swf_version == old(self).swf_version,
    {
        let id = self.classes.len();
        self.classes.push(class);
        proof {
            let post = *self;
            let pre = *old(self);
            assert forall|i: int| 0 <= i < post.objects@.len() implies wf_obj(
                #[trigger] post.objects@[i],
                i,
                post.objects@.len() as int,
                post.classes@.len() as int,
                post.scopes@.len() as int,
            ) by {
                assert(wf_obj(
                    pre.objects@[i],
                    i,
                    pre.objects@.len() as int,
                    pre.classes@.len() as int,
                    pre.scopes@.len() as int,
                ));
            }
        }
        id
    }

    /// Reads the object at `id`, when it is live.
    pub fn obj(&self, id: usize) -> (r: Option<&Obj>)
        ensures
            match r {
                Some(o) => id < self.objects@.len() && *o == self.objects@[id as int],
                None => id >= self.objects@.len(),
            },
    {
        if id < self.objects.len() {
            Some(&self.objects[id])
        } else {
            None
        }
    }

    /// Decides whether two object references name the same object: arena
    /// references are identity.
    pub fn ptr_eq(a: usize, b: usize) -> (r: bool)
        ensures
            r == (a == b),
    {
        a == b
    }
}

} // verus!
