//! The property-resolution engine: reads over the heap.
//!
//! This module holds the spec-level model of resolution — trait queries,
//! ownership, the prototype-chain walk — and the executable read
//! operations proved against it. The specialized object kinds intercept
//! the local operations for their reserved index space (public-namespace
//! names that read as non-negative integers) and forward everything else
//! to the generic storage.

use vstd::prelude::*;

use crate::class::{spec_has_matching, spec_matching_traits, spec_resolve_any};
use crate::error::EngineError;
use crate::heap::{wf, wf_obj, Avm, ObjKind};
use crate::names::{Namespace, QName, QNameView};
use crate::property::{spec_has_getter, spec_has_setter};
use crate::storage::{
    spec_find_prop, spec_get_local_fn, spec_has_prop, GetOutcome, TraitSource,
};
use crate::traits::Trait;
use crate::value::Value;
use crate::variants::{byte_get, parse_index, spec_parse_index};

verus! {

/// The traits object `o` provides (one level): a class constructor
/// provides its class's own static traits, a prototype provides its
/// class's instance traits, a plain object provides nothing.
pub open spec fn spec_provided_traits(avm: Avm, o: int, name: QNameView) -> Seq<Trait> {
    match avm.objects@[o].data.trait_source {
        TraitSource::ClassConstructor(c, _) => spec_matching_traits(
            avm.classes@[c as int].class_traits@,
            name,
        ),
        TraitSource::InstancePrototype(c, _) => spec_matching_traits(
            avm.classes@[c as int].instance_traits@,
            name,
        ),
        TraitSource::NoClass => Seq::empty(),
    }
}

/// Whether object `o` provides at least one trait named `name`.
pub open spec fn spec_provides_trait(avm: Avm, o: int, name: QNameView) -> bool {
    match avm.objects@[o].data.trait_source {
        TraitSource::ClassConstructor(c, _) => spec_has_matching(
            avm.classes@[c as int].class_traits@,
            name,
        ),
        TraitSource::InstancePrototype(c, _) => spec_has_matching(
            avm.classes@[c as int].instance_traits@,
            name,
        ),
        TraitSource::NoClass => false,
    }
}

/// The traits named `name` that the ancestors of `o` provide, the
/// root-most ancestor's first: what a plain instance installs when the
/// name is first touched.
pub open spec fn spec_ancestor_traits(avm: Avm, o: int, name: QNameView) -> Seq<Trait>
    decreases o,
{
    if 0 <= o < avm.objects@.len() {
        match avm.objects@[o].data.proto {
            Some(p) => if p < o {
                spec_ancestor_traits(avm, p as int, name) + spec_provided_traits(
                    avm,
                    p as int,
                    name,
                )
            } else {
                Seq::empty()
            },
            None => Seq::empty(),
        }
    } else {
        Seq::empty()
    }
}

/// The traits `o` would install for `name`: its own class traits for a
/// class constructor, nothing for a prototype (prototypes provide, they do
/// not install), the ancestors' provided traits for a plain instance.
pub open spec fn spec_get_trait(avm: Avm, o: int, name: QNameView) -> Seq<Trait> {
    match avm.objects@[o].data.trait_source {
        TraitSource::ClassConstructor(_, _) => spec_provided_traits(avm, o, name),
        TraitSource::InstancePrototype(_, _) => Seq::empty(),
        TraitSource::NoClass => spec_ancestor_traits(avm, o, name),
    }
}

/// Whether some ancestor of `o` provides a trait named `name`.
pub open spec fn spec_chain_provides(avm: Avm, o: int, name: QNameView) -> bool
    decreases o,
{
    if 0 <= o < avm.objects@.len() {
        match avm.objects@[o].data.proto {
            Some(p) => if p < o {
                spec_provides_trait(avm, p as int, name) || spec_chain_provides(
                    avm,
                    p as int,
                    name,
                )
            } else {
                false
            },
            None => false,
        }
    } else {
        false
    }
}

/// Whether `o` has one or more traits named `name`, installed or not.
pub open spec fn spec_has_trait(avm: Avm, o: int, name: QNameView) -> bool {
    match avm.objects@[o].data.trait_source {
        TraitSource::ClassConstructor(_, _) => spec_provides_trait(avm, o, name),
        TraitSource::InstancePrototype(_, _) => false,
        TraitSource::NoClass => spec_chain_provides(avm, o, name),
    }
}

/// The reserved index a name addresses on an index-backed object: a
/// public-namespace name that reads as a non-negative integer.
pub open spec fn spec_reserved_index(name: QNameView) -> Option<int> {
    if name.ns is Public {
        spec_parse_index(name.name)
    } else {
        None
    }
}

/// Whether a property or trait named `name` exists on `o` itself, its
/// reserved index space included.
pub open spec fn spec_has_own(avm: Avm, o: int, name: QNameView) -> bool {
    match avm.objects@[o].kind {
        ObjKind::ByteArray(bytes) => match spec_reserved_index(name) {
            Some(i) => i < bytes@.len(),
            None => spec_has_own_base(avm, o, name),
        },
        ObjKind::Array(arr) => match spec_reserved_index(name) {
            Some(i) => i < arr@.len(),
            None => spec_has_own_base(avm, o, name),
        },
        _ => spec_has_own_base(avm, o, name),
    }
}

/// Whether the generic storage of `o` owns `name`: an instantiated
/// property, or a trait it could still install.
pub open spec fn spec_has_own_base(avm: Avm, o: int, name: QNameView) -> bool {
    spec_has_prop(avm.objects@[o].data.props@, name) || spec_has_trait(avm, o, name)
}

/// Whether `o` itself carries an installed virtual getter for `name`.
pub open spec fn spec_own_getter(avm: Avm, o: int, name: QNameView) -> bool {
    match spec_find_prop(avm.objects@[o].data.props@, name) {
        Some(p) => spec_has_getter(p),
        None => false,
    }
}

/// Whether `o` itself carries an installed virtual setter for `name`.
pub open spec fn spec_own_setter(avm: Avm, o: int, name: QNameView) -> bool {
    match spec_find_prop(avm.objects@[o].data.props@, name) {
        Some(p) => spec_has_setter(p),
        None => false,
    }
}

/// The outcome of a local read of `name` on `o`, its reserved index space
/// included: a set byte reads as an unsigned number, an unset one as
/// `Undefined`; a set array element reads as its value, an unset one as
/// `Undefined`; everything else reads from the generic storage.
pub open spec fn spec_obj_get_local(
    avm: Avm,
    o: int,
    receiver: usize,
    base_proto: Option<usize>,
    name: QNameView,
) -> Result<GetOutcome, EngineError> {
    match avm.objects@[o].kind {
        ObjKind::ByteArray(bytes) => match spec_reserved_index(name) {
            Some(i) => if i < bytes@.len() {
                Ok(GetOutcome::Value(Value::Unsigned(bytes@[i] as u32)))
            } else {
                Ok(GetOutcome::Value(Value::Undefined))
            },
            None => spec_get_local_fn(avm.objects@[o].data, receiver, base_proto, name),
        },
        ObjKind::Array(arr) => match spec_reserved_index(name) {
            Some(i) => if i < arr@.len() {
                Ok(GetOutcome::Value(arr@[i]))
            } else {
                Ok(GetOutcome::Value(Value::Undefined))
            },
            None => spec_get_local_fn(avm.objects@[o].data, receiver, base_proto, name),
        },
        _ => spec_get_local_fn(avm.objects@[o].data, receiver, base_proto, name),
    }
}

/// Whether every object along the prototype chain of `o` is settled for
/// `name`: each either has the name instantiated or has no traits to
/// install for it. Resolution mutates nothing along a settled chain.
pub open spec fn spec_chain_installed(avm: Avm, o: int, name: QNameView) -> bool
    decreases o,
{
    if 0 <= o < avm.objects@.len() {
        &&& (spec_has_prop(avm.objects@[o].data.props@, name) || spec_get_trait(
            avm,
            o,
            name,
        ).len() == 0)
        &&& match avm.objects@[o].data.proto {
            Some(p) => p < o ==> spec_chain_installed(avm, p as int, name),
            None => true,
        }
    } else {
        true
    }
}

/// The read of `name` on `o` along a settled prototype chain: precedence
/// falls to the first object that owns the name — except that a name
/// owned only through a setter-only virtual entry is not treated as owned
/// for reads, and the read falls through to the chain — and ends at
/// `Undefined` past the protoless root. The receiver stays the original
/// object throughout, so an accessor found on a distant ancestor still
/// binds the original `this`.
pub open spec fn spec_chain_get(avm: Avm, o: int, receiver: usize, name: QNameView) -> Result<
    GetOutcome,
    EngineError,
> {
    spec_chain_get_rec(avm, o, receiver, name)
}

/// The recursive body of [`spec_chain_get`].
pub open spec fn spec_chain_get_rec(
    avm: Avm,
    o: int,
    receiver: usize,
    name: QNameView,
) -> Result<GetOutcome, EngineError>
    decreases o,
{
    if 0 <= o < avm.objects@.len() {
        let has_no_getter = spec_own_setter(avm, o, name) && !spec_own_getter(avm, o, name);
        if spec_has_own(avm, o, name) && !has_no_getter {
            spec_obj_get_local(avm, o, receiver, None, name)
        } else {
            match avm.objects@[o].data.proto {
                Some(p) => if p < o {
                    spec_chain_get_rec(avm, p as int, receiver, name)
                } else {
                    Ok(GetOutcome::Value(Value::Undefined))
                },
                None => Ok(GetOutcome::Value(Value::Undefined)),
            }
        }
    } else {
        Ok(GetOutcome::Value(Value::Undefined))
    }
}

/// The first ancestor of `o` — starting at its prototype — that carries
/// an installed virtual setter for `name`, if any: the object an assignment
/// delegates to instead of shadowing.
pub open spec fn spec_find_setter_holder(avm: Avm, o: int, name: QNameView) -> Option<int>
    decreases o,
{
    if 0 <= o < avm.objects@.len() {
        match avm.objects@[o].data.proto {
            Some(p) => if p < o {
                if spec_own_setter(avm, p as int, name) {
                    Some(p as int)
                } else {
                    spec_find_setter_holder(avm, p as int, name)
                }
            } else {
                None
            },
            None => None,
        }
    } else {
        None
    }
}

/// The namespace the bare `local` resolves to among the instantiated
/// properties of one object, in insertion order.
pub open spec fn spec_props_resolve_any(
    s: Seq<crate::storage::PropEntry>,
    local: Seq<char>,
) -> Option<Namespace>
    decreases s.len(),
{
    if s.len() == 0 {
        None
    } else if s[0].name@.name == local {
        Some(s[0].name.ns)
    } else {
        spec_props_resolve_any(s.drop_first(), local)
    }
}

/// The namespace a bare `local` resolves to among the traits reachable
/// from `o`: ancestors first (root-most deepest), then `o`'s own class.
pub open spec fn spec_resolve_any_trait(avm: Avm, o: int, local: Seq<char>) -> Option<Namespace>
    decreases o,
{
    if 0 <= o < avm.objects@.len() {
        let from_proto = match avm.objects@[o].data.proto {
            Some(p) => if p < o {
                spec_resolve_any_trait(avm, p as int, local)
            } else {
                None
            },
            None => None,
        };
        if from_proto is Some {
            from_proto
        } else {
            match avm.objects@[o].data.trait_source {
                TraitSource::ClassConstructor(c, _) => spec_resolve_any(
                    avm.classes@[c as int].class_traits@,
                    local,
                ),
                TraitSource::InstancePrototype(c, _) => spec_resolve_any(
                    avm.classes@[c as int].instance_traits@,
                    local,
                ),
                TraitSource::NoClass => None,
            }
        }
    } else {
        None
    }
}

/// The namespace a bare `local` resolves to on `o`: own instantiated
/// properties first (a reserved index reads as public), then trait names —
/// class constructors and plain instances only — then the prototype chain.
pub open spec fn spec_resolve_any_full(avm: Avm, o: int, local: Seq<char>) -> Option<Namespace>
    decreases o,
{
    if 0 <= o < avm.objects@.len() {
        let intercepted: Option<Namespace> = match avm.objects@[o].kind {
            ObjKind::ByteArray(bytes) => match spec_parse_index(local) {
                Some(i) => if i < bytes@.len() {
                    Some(Namespace::Public)
                } else {
                    None
                },
                None => None,
            },
            ObjKind::Array(arr) => match spec_parse_index(local) {
                Some(i) => if i < arr@.len() {
                    Some(Namespace::Public)
                } else {
                    None
                },
                None => None,
            },
            _ => None,
        };
        if intercepted is Some {
            intercepted
        } else {
            let own = spec_props_resolve_any(avm.objects@[o].data.props@, local);
            if own is Some {
                own
            } else {
                let trait_ns = match avm.objects@[o].data.trait_source {
                    TraitSource::ClassConstructor(_, _) => spec_resolve_any_trait(avm, o, local),
                    TraitSource::NoClass => spec_resolve_any_trait(avm, o, local),
                    TraitSource::InstancePrototype(_, _) => None,
                };
                if trait_ns is Some {
                    trait_ns
                } else {
                    match avm.objects@[o].data.proto {
                        Some(p) => if p < o {
                            spec_resolve_any_full(avm, p as int, local)
                        } else {
                            None
                        },
                        None => None,
                    }
                }
            }
        }
    } else {
        None
    }
}

/// The qualified name the first candidate namespace of a multiname forms
/// with its local name.
pub open spec fn spec_first_candidate_qname(mn: crate::names::MultinameView) -> QNameView {
    QNameView { ns: mn.ns_set[0], name: mn.name->Some_0 }
}

/// Whether a multiname's first candidate is a declared non-wildcard
/// namespace whose qualified name the object — or its direct prototype —
/// owns: the case the resolution must prefer over every fallback.
pub open spec fn spec_first_candidate_hit(
    avm: Avm,
    o: int,
    mn: crate::names::MultinameView,
) -> bool {
    &&& mn.ns_set.len() > 0
    &&& !(mn.ns_set[0] is Any)
    &&& mn.name is Some
    &&& (spec_has_own(avm, o, spec_first_candidate_qname(mn)) || (match avm.objects@[o].data.proto {
        Some(p) => spec_has_own(avm, p as int, spec_first_candidate_qname(mn)),
        None => false,
    }))
}

/// The first ancestor — the object itself included — whose class defines
/// a trait named `name` on itself.
pub open spec fn spec_base_proto(avm: Avm, o: int, name: QNameView) -> Option<usize>
    decreases o,
{
    if 0 <= o < avm.objects@.len() {
        if spec_provides_trait(avm, o, name) {
            Some(o as usize)
        } else {
            match avm.objects@[o].data.proto {
                Some(p) => if p < o {
                    spec_base_proto(avm, p as int, name)
                } else {
                    None
                },
                None => None,
            }
        }
    } else {
        None
    }
}

/// Whether `target` occurs in the prototype chain of `o`; with
/// `with_interfaces`, the interface lists of the walked prototypes count
/// too.
pub open spec fn spec_chain_contains(
    avm: Avm,
    o: int,
    target: usize,
    with_interfaces: bool,
) -> bool
    decreases o,
{
    if 0 <= o < avm.objects@.len() {
        match avm.objects@[o].data.proto {
            Some(p) => if p < o {
                ||| p == target
                ||| (with_interfaces && avm.objects@[p as int].data.interfaces@.contains(
                    target,
                ))
                ||| spec_chain_contains(avm, p as int, target, with_interfaces)
            } else {
                false
            },
            None => false,
        }
    } else {
        false
    }
}

/// The candidate walk of a multiname on one object, from position `k`.
///
/// The outer `Some` means the walk ended at this object: with the
/// narrowed name, or with the fixed answer "nothing" (a candidate with no
/// static local name ends the whole lookup, and a wildcard candidate
/// answers immediately with whatever the bare name resolves to). The
/// outer `None` means every candidate was exhausted and the prototype may
/// be consulted.
pub open spec fn spec_mn_candidates(
    avm: Avm,
    o: int,
    mn: crate::names::MultinameView,
    k: int,
) -> Option<Option<QNameView>>
    decreases mn.ns_set.len() - k,
{
    if k < 0 || k >= mn.ns_set.len() {
        None
    } else {
        match mn.name {
            None => Some(None),
            Some(local) => {
                if mn.ns_set[k] is Any {
                    Some(
                        match spec_resolve_any_full(avm, o, local) {
                            Some(ns) => Some(QNameView { ns: ns@, name: local }),
                            None => None,
                        },
                    )
                } else {
                    if spec_has_own(avm, o, QNameView { ns: mn.ns_set[k], name: local }) || (
                    match avm.objects@[o].data.proto {
                        Some(p) => spec_has_own(
                            avm,
                            p as int,
                            QNameView { ns: mn.ns_set[k], name: local },
                        ),
                        None => false,
                    }) {
                        Some(Some(QNameView { ns: mn.ns_set[k], name: local }))
                    } else {
                        spec_mn_candidates(avm, o, mn, k + 1)
                    }
                }
            },
        }
    }
}

/// The single qualified name a multiname resolves to on an object:
/// candidate namespaces in declared order on the object itself, then the
/// prototype chain.
pub open spec fn spec_resolve_multiname(
    avm: Avm,
    o: int,
    mn: crate::names::MultinameView,
) -> Option<QNameView>
    decreases o,
{
    if 0 <= o < avm.objects@.len() {
        match spec_mn_candidates(avm, o, mn, 0) {
            Some(out) => out,
            None => match avm.objects@[o].data.proto {
                Some(p) => if p < o {
                    spec_resolve_multiname(avm, p as int, mn)
                } else {
                    None
                },
                None => None,
            },
        }
    } else {
        None
    }
}

/// The scope chain an object closed over at creation: its own, or —
/// for a plain object — the first found on its prototype chain.
pub open spec fn spec_scope_of(avm: Avm, o: int) -> Option<usize>
    decreases o,
{
    if 0 <= o < avm.objects@.len() {
        match avm.objects@[o].data.trait_source {
            TraitSource::ClassConstructor(_, s) => s,
            TraitSource::InstancePrototype(_, s) => s,
            TraitSource::NoClass => match avm.objects@[o].data.proto {
                Some(p) => if p < o {
                    spec_scope_of(avm, p as int)
                } else {
                    None
                },
                None => None,
            },
        }
    } else {
        None
    }
}

/// The class of `o`, or the first class on its prototype chain: only
/// bare objects have none.
pub open spec fn spec_proto_class(avm: Avm, o: int) -> Option<usize>
    decreases o,
{
    if 0 <= o < avm.objects@.len() {
        match avm.objects@[o].data.trait_source {
            TraitSource::ClassConstructor(c, _) => Some(c),
            TraitSource::InstancePrototype(c, _) => Some(c),
            TraitSource::NoClass => match avm.objects@[o].data.proto {
                Some(p) => if p < o {
                    spec_proto_class(avm, p as int)
                } else {
                    None
                },
                None => None,
            },
        }
    } else {
        None
    }
}

impl Avm {
    /// Whether a property or instantiated trait named `name` exists on the
    /// object itself, lazily installable traits not included.
    pub fn has_instantiated_property(&self, obj: usize, name: &QName) -> (r: bool)
        requires
            obj < self.objects@.len(),
        ensures
            r == spec_has_prop(self.objects@[obj as int].data.props@, name@),
    {
        self.objects[obj].data.has_instantiated_property(name)
    }

    /// Whether the object itself carries an installed virtual getter for
    /// `name`.
    pub fn has_own_virtual_getter(&self, obj: usize, name: &QName) -> (r: bool)
        requires
            obj < self.objects@.len(),
        ensures
            r == spec_own_getter(*self, obj as int, name@),
    {
        self.objects[obj].data.has_own_virtual_getter(name)
    }

    /// Whether the object itself carries an installed virtual setter for
    /// `name`.
    pub fn has_own_virtual_setter(&self, obj: usize, name: &QName) -> (r: bool)
        requires
            obj < self.objects@.len(),
        ensures
            r == spec_own_setter(*self, obj as int, name@),
    {
        self.objects[obj].data.has_own_virtual_setter(name)
    }

    /// Whether the object is part of a class that defines a trait named
    /// `name` on itself, as opposed to inheriting it.
    pub fn provides_trait(&self, obj: usize, name: &QName) -> (r: bool)
        requires
            wf(*self),
            obj < self.objects@.len(),
        ensures
            r == spec_provides_trait(*self, obj as int, name@),
    {
        match self.objects[obj].data.trait_source {
            TraitSource::ClassConstructor(c, _) => self.classes[c].has_class_trait(name),
            TraitSource::InstancePrototype(c, _) => self.classes[c].has_instance_trait(name),
            TraitSource::NoClass => false,
        }
    }

    /// Appends the traits this object provides under `name` — class traits
    /// for a class constructor, its class's instance traits for a
    /// prototype — to `known_traits`.
    pub fn get_provided_trait(&self, obj: usize, name: &QName, known_traits: &mut Vec<Trait>)
        requires
            wf(*self),
            obj < self.objects@.len(),
        ensures
            crate::class::spec_appended_matching(
                old(known_traits)@,
                final(known_traits)@,
                match self.objects@[obj as int].data.trait_source {
                    TraitSource::ClassConstructor(c, _) => self.classes@[c as int].class_traits@,
                    TraitSource::InstancePrototype(c, _) => self.classes@[c as
                        int].instance_traits@,
                    TraitSource::NoClass => Seq::<Trait>::empty(),
                },
                name@,
            ),
    {
        match self.objects[obj].data.trait_source {
            TraitSource::ClassConstructor(c, _) => {
                self.classes[c].lookup_class_traits(name, known_traits);
            },
            TraitSource::InstancePrototype(c, _) => {
                self.classes[c].lookup_instance_traits(name, known_traits);
            },
            TraitSource::NoClass => {
                proof {
                    assert(spec_matching_traits(Seq::<Trait>::empty(), name@) =~= Seq::<
                        Trait,
                    >::empty());
                }
            },
        }
    }

    /// Whether the object has one or more traits named `name`: its own
    /// class traits for a class constructor, nothing for a prototype, the
    /// ancestors' provided traits for a plain instance.
    pub fn has_trait(&self, obj: usize, name: &QName) -> (r: bool)
        requires
            wf(*self),
            obj < self.objects@.len(),
        ensures
            r == spec_has_trait(*self, obj as int, name@),
    {
        match self.objects[obj].data.trait_source {
            TraitSource::ClassConstructor(_, _) => self.provides_trait(obj, name),
            TraitSource::InstancePrototype(_, _) => false,
            TraitSource::NoClass => {
                let mut cur: usize = obj;
                loop
                    invariant
                        wf(*self),
                        obj < self.objects@.len(),
                        self.objects@[obj as int].data.trait_source is NoClass,
                        cur < self.objects@.len(),
                        spec_chain_provides(*self, obj as int, name@) == spec_chain_provides(
                            *self,
                            cur as int,
                            name@,
                        ),
                    decreases cur,
                {
                    proof {
                        assert(wf_obj(
                            self.objects@[cur as int],
                            cur as int,
                            self.objects@.len() as int,
                            self.classes@.len() as int,
                            self.scopes@.len() as int,
                        ));
                    }
                    match self.objects[cur].data.proto {
                        Some(p) => {
                            if self.provides_trait(p, name) {
                                return true;
                            }
                            cur = p;
                        },
                        None => {
                            return false;
                        },
                    }
                }
            },
        }
    }

    /// Appends, in installation order, the traits the ancestors of `o`
    /// provide under `name`: the root-most ancestor's first.
    fn collect_ancestor_traits(&self, o: usize, name: &QName, known: &mut Vec<Trait>)
        requires
            wf(*self),
            o < self.objects@.len(),
        ensures
            crate::class::spec_appends_like(
                old(known)@,
                final(known)@,
                spec_ancestor_traits(*self, o as int, name@),
            ),
        decreases o,
    {
        let ghost pre = old(known)@;
        match self.objects[o].data.proto {
            Some(p) => {
                self.collect_ancestor_traits(p, name, known);
                let ghost mid = known@;
                self.get_provided_trait(p, name, known);
                proof {
                    crate::class::lemma_appends_like_concat(
                        pre,
                        mid,
                        known@,
                        spec_ancestor_traits(*self, p as int, name@),
                        spec_provided_traits(*self, p as int, name@),
                    );
                }
            },
            None => {
            },
        }
    }

    /// The traits the object would install for `name`, in installation
    /// order: its own class traits for a class constructor, nothing for a
    /// prototype, the ancestors' provided traits — the root-most
    /// ancestor's first — for a plain instance.
    pub fn get_trait(&self, obj: usize, name: &QName) -> (r: Vec<Trait>)
        requires
            wf(*self),
            obj < self.objects@.len(),
        ensures
            crate::class::spec_appends_like(
                Seq::<Trait>::empty(),
                r@,
                spec_get_trait(*self, obj as int, name@),
            ),
    {
        let mut known: Vec<Trait> = Vec::new();
        match self.objects[obj].data.trait_source {
            TraitSource::ClassConstructor(_, _) => {
                self.get_provided_trait(obj, name, &mut known);
            },
            TraitSource::InstancePrototype(_, _) => {},
            TraitSource::NoClass => {
                self.collect_ancestor_traits(obj, name, &mut known);
            },
        }
        known
    }

    /// Whether a property or trait named `name` exists on the object
    /// itself — not on its prototype chain — its reserved index space
    /// included.
    pub fn has_own_property(&self, obj: usize, name: &QName) -> (r: bool)
        requires
            wf(*self),
            obj < self.objects@.len(),
        ensures
            r == spec_has_own(*self, obj as int, name@),
    {
        match &self.objects[obj].kind {
            ObjKind::ByteArray(bytes) => {
                if name.namespace().is_public() {
                    match parse_index(name.local_name()) {
                        Some(i) => {
                            return i < bytes.len();
                        },
                        None => {},
                    }
                }
            },
            ObjKind::Array(arr) => {
                if name.namespace().is_public() {
                    match parse_index(name.local_name()) {
                        Some(i) => {
                            return i < arr.len();
                        },
                        None => {},
                    }
                }
            },
            _ => {},
        }
        self.objects[obj].data.has_instantiated_property(name) || self.has_trait(obj, name)
    }

    /// Whether `name` exists on the object or, failing that, directly on
    /// its prototype.
    pub fn has_property(&self, obj: usize, name: &QName) -> (r: bool)
        requires
            wf(*self),
            obj < self.objects@.len(),
        ensures
            r == (spec_has_own(*self, obj as int, name@) || (
            match self.objects@[obj as int].data.proto {
                Some(p) => spec_has_own(*self, p as int, name@),
                None => false,
            })),
    {
        if self.has_own_property(obj, name) {
            true
        } else {
            match self.objects[obj].data.proto {
                Some(p) => self.has_own_property(p, name),
                None => false,
            }
        }
    }

    /// Looks up `name` on the object alone — its reserved index space
    /// first — and resolves the entry.
    pub fn get_property_local(
        &self,
        obj: usize,
        receiver: usize,
        base_proto: Option<usize>,
        name: &QName,
    ) -> (r: Result<GetOutcome, EngineError>)
        requires
            wf(*self),
            obj < self.objects@.len(),
        ensures
            r == spec_obj_get_local(*self, obj as int, receiver, base_proto, name@),
    {
        match &self.objects[obj].kind {
            ObjKind::ByteArray(bytes) => {
                if name.namespace().is_public() {
                    match parse_index(name.local_name()) {
                        Some(i) => {
                            return match byte_get(bytes, i) {
                                Some(b) => Ok(GetOutcome::Value(Value::Unsigned(b as u32))),
                                None => Ok(GetOutcome::Value(Value::Undefined)),
                            };
                        },
                        None => {},
                    }
                }
            },
            ObjKind::Array(arr) => {
                if name.namespace().is_public() {
                    match parse_index(name.local_name()) {
                        Some(i) => {
                            return match crate::variants::array_get(arr, i) {
                                Some(v) => Ok(GetOutcome::Value(v)),
                                None => Ok(GetOutcome::Value(Value::Undefined)),
                            };
                        },
                        None => {},
                    }
                }
            },
            _ => {},
        }
        self.objects[obj].data.get_property_local(receiver, base_proto, name)
    }

    /// The namespace a bare local name resolves to on the object: own
    /// properties in insertion order, then trait names, then the
    /// prototype chain.
    pub fn resolve_any(&self, obj: usize, local_name: &String) -> (r: Option<Namespace>)
        requires
            wf(*self),
            obj < self.objects@.len(),
        ensures
            r == spec_resolve_any_full(*self, obj as int, local_name@),
        decreases obj,
    {
        match &self.objects[obj].kind {
            ObjKind::ByteArray(bytes) => {
                match parse_index(local_name) {
                    Some(i) => {
                        if i < bytes.len() {
                            return Some(Namespace::Public);
                        }
                    },
                    None => {},
                }
            },
            ObjKind::Array(arr) => {
                match parse_index(local_name) {
                    Some(i) => {
                        if i < arr.len() {
                            return Some(Namespace::Public);
                        }
                    },
                    None => {},
                }
            },
            _ => {},
        }
        let own = self.props_resolve_any(obj, local_name);
        if own.is_some() {
            return own;
        }
        let trait_ns = match self.objects[obj].data.trait_source {
            TraitSource::ClassConstructor(_, _) => self.resolve_any_trait(obj, local_name),
            TraitSource::NoClass => self.resolve_any_trait(obj, local_name),
            TraitSource::InstancePrototype(_, _) => None,
        };
        if trait_ns.is_some() {
            return trait_ns;
        }
        match self.objects[obj].data.proto {
            Some(p) => self.resolve_any(p, local_name),
            None => None,
        }
    }

    /// The namespace a bare local name resolves to among the object's own
    /// instantiated properties, in insertion order.
    fn props_resolve_any(&self, obj: usize, local_name: &String) -> (r: Option<Namespace>)
        requires
            obj < self.objects@.len(),
        ensures
            r == spec_props_resolve_any(self.objects@[obj as int].data.props@, local_name@),
    {
        let props = &self.objects[obj].data.props;
        let mut i: usize = 0;
        proof {
            assert(props@.skip(0) =~= props@);
        }
        while i < props.len()
            invariant
                props == &self.objects@[obj as int].data.props,
                i <= props@.len(),
                spec_props_resolve_any(props@, local_name@) == spec_props_resolve_any(
                    props@.skip(i as int),
                    local_name@,
                ),
            decreases props@.len() - i,
        {
            proof {
                assert(props@.skip(i as int)[0] == props@[i as int]);
                assert(props@.skip(i as int).drop_first() =~= props@.skip(i + 1));
            }
            if *props[i].name.local_name() == *local_name {
                return Some(props[i].name.namespace().clone());
            }
            i += 1;
        }
        proof {
            assert(props@.skip(i as int) =~= Seq::<crate::storage::PropEntry>::empty());
        }
        None
    }

    /// The namespace a bare local name resolves to among the traits
    /// reachable from the object: the prototype chain's first, then the
    /// object's own class.
    pub fn resolve_any_trait(&self, obj: usize, local_name: &String) -> (r: Option<Namespace>)
        requires
            wf(*self),
            obj < self.objects@.len(),
        ensures
            r == spec_resolve_any_trait(*self, obj as int, local_name@),
        decreases obj,
    {
        match self.objects[obj].data.proto {
            Some(p) => {
                let from_proto = self.resolve_any_trait(p, local_name);
                if from_proto.is_some() {
                    return from_proto;
                }
            },
            None => {},
        }
        match self.objects[obj].data.trait_source {
            TraitSource::ClassConstructor(c, _) => self.classes[c].resolve_any_class_trait(
                local_name,
            ),
            TraitSource::InstancePrototype(c, _) => self.classes[c].resolve_any_instance_trait(
                local_name,
            ),
            TraitSource::NoClass => None,
        }
    }

    /// The first ancestor — the object itself included — whose class
    /// defines a trait named `name` on itself: the prototype a trait
    /// member is best bound against.
    pub fn get_base_proto(&self, obj: usize, name: &QName) -> (r: Option<usize>)
        requires
            wf(*self),
            obj < self.objects@.len(),
        ensures
            r == spec_base_proto(*self, obj as int, name@),
            match r {
                Some(b) => b < self.objects@.len(),
                None => true,
            },
    {
        let mut cur: usize = obj;
        loop
            invariant
                wf(*self),
                cur < self.objects@.len(),
                spec_base_proto(*self, obj as int, name@) == spec_base_proto(
                    *self,
                    cur as int,
                    name@,
                ),
            decreases cur,
        {
            proof {
                assert(wf_obj(
                    self.objects@[cur as int],
                    cur as int,
                    self.objects@.len() as int,
                    self.classes@.len() as int,
                    self.scopes@.len() as int,
                ));
            }
            if self.provides_trait(cur, name) {
                return Some(cur);
            }
            match self.objects[cur].data.proto {
                Some(p) => {
                    cur = p;
                },
                None => {
                    return None;
                },
            }
        }
    }

    /// Whether `type_proto` occurs in the prototype chain of the object;
    /// with `check_interfaces`, the interface lists of the walked
    /// prototypes are searched too.
    pub fn has_prototype_in_chain(
        &self,
        obj: usize,
        type_proto: usize,
        check_interfaces: bool,
    ) -> (r: bool)
        requires
            wf(*self),
            obj < self.objects@.len(),
        ensures
            r == spec_chain_contains(*self, obj as int, type_proto, check_interfaces),
    {
        let mut cur: usize = obj;
        loop
            invariant
                wf(*self),
                cur < self.objects@.len(),
                spec_chain_contains(*self, obj as int, type_proto, check_interfaces)
                    == spec_chain_contains(*self, cur as int, type_proto, check_interfaces),
            decreases cur,
        {
            proof {
                assert(wf_obj(
                    self.objects@[cur as int],
                    cur as int,
                    self.objects@.len() as int,
                    self.classes@.len() as int,
                    self.scopes@.len() as int,
                ));
            }
            match self.objects[cur].data.proto {
                Some(p) => {
                    if p == type_proto {
                        return true;
                    }
                    if check_interfaces {
                        let ifaces = &self.objects[p].data.interfaces;
                        let mut i: usize = 0;
                        while i < ifaces.len()
                            invariant
                                wf(*self),
                                cur < self.objects@.len(),
                                self.objects@[cur as int].data.proto == Some(p),
                                p < cur,
                                check_interfaces,
                                spec_chain_contains(
                                    *self,
                                    obj as int,
                                    type_proto,
                                    check_interfaces,
                                ) == spec_chain_contains(
                                    *self,
                                    cur as int,
                                    type_proto,
                                    check_interfaces,
                                ),
                                ifaces == &self.objects@[p as int].data.interfaces,
                                i <= ifaces@.len(),
                                forall|k: int|
                                    0 <= k < i ==> (#[trigger] ifaces@[k]) != type_proto,
                            decreases ifaces@.len() - i,
                        {
                            if ifaces[i] == type_proto {
                                proof {
                                    assert(self.objects@[p as int].data.interfaces@[i as int]
                                        == type_proto);
                                    assert(self.objects@[p as
                                        int].data.interfaces@.contains(type_proto));
                                }
                                return true;
                            }
                            i += 1;
                        }
                    }
                    cur = p;
                },
                None => {
                    return false;
                },
            }
        }
    }

    /// The object's class, if it has one.
    pub fn as_class(&self, obj: usize) -> (r: Option<usize>)
        requires
            obj < self.objects@.len(),
        ensures
            r == match self.objects@[obj as int].data.trait_source {
                TraitSource::ClassConstructor(c, _) => Some(c),
                TraitSource::InstancePrototype(c, _) => Some(c),
                TraitSource::NoClass => None::<usize>,
            },
    {
        match self.objects[obj].data.trait_source {
            TraitSource::ClassConstructor(c, _) => Some(c),
            TraitSource::InstancePrototype(c, _) => Some(c),
            TraitSource::NoClass => None,
        }
    }

    /// The object's class, or the first class found on its prototype
    /// chain: only bare objects have none.
    pub fn as_proto_class(&self, obj: usize) -> (r: Option<usize>)
        requires
            wf(*self),
            obj < self.objects@.len(),
        ensures
            r == spec_proto_class(*self, obj as int),
            match r {
                Some(c) => c < self.classes@.len(),
                None => true,
            },
    {
        let mut cur: usize = obj;
        loop
            invariant
                wf(*self),
                cur < self.objects@.len(),
                spec_proto_class(*self, obj as int) == spec_proto_class(*self, cur as int),
            decreases cur,
        {
            proof {
                assert(wf_obj(
                    self.objects@[cur as int],
                    cur as int,
                    self.objects@.len() as int,
                    self.classes@.len() as int,
                    self.scopes@.len() as int,
                ));
            }
            match self.as_class(cur) {
                Some(c) => {
                    return Some(c);
                },
                None => {},
            }
            match self.objects[cur].data.proto {
                Some(p) => {
                    cur = p;
                },
                None => {
                    return None;
                },
            }
        }
    }

    /// The scope chain the object closed over at creation; a plain object
    /// defers to its prototype.
    pub fn get_scope(&self, obj: usize) -> (r: Option<usize>)
        requires
            wf(*self),
            obj < self.objects@.len(),
        ensures
            r == spec_scope_of(*self, obj as int),
            match r {
                Some(s) => s < self.scopes@.len(),
                None => true,
            },
    {
        let mut cur: usize = obj;
        loop
            invariant
                wf(*self),
                cur < self.objects@.len(),
                spec_scope_of(*self, obj as int) == spec_scope_of(*self, cur as int),
            decreases cur,
        {
            proof {
                assert(wf_obj(
                    self.objects@[cur as int],
                    cur as int,
                    self.objects@.len() as int,
                    self.classes@.len() as int,
                    self.scopes@.len() as int,
                ));
            }
            match self.objects[cur].data.trait_source {
                TraitSource::ClassConstructor(_, s) => {
                    return s;
                },
                TraitSource::InstancePrototype(_, s) => {
                    return s;
                },
                TraitSource::NoClass => {},
            }
            match self.objects[cur].data.proto {
                Some(p) => {
                    cur = p;
                },
                None => {
                    return None;
                },
            }
        }
    }

    /// The object's prototype link.
    pub fn proto_of(&self, obj: usize) -> (r: Option<usize>)
        requires
            obj < self.objects@.len(),
        ensures
            r == self.objects@[obj as int].data.proto,
    {
        self.objects[obj].data.proto
    }
}

} // verus!
