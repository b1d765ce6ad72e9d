//! Trait definitions: the immutable, class-level descriptors of members.
//!
//! A trait describes one member — a method, an accessor, a slot, a
//! constant, a free function or a nested class — not yet materialized onto
//! any instance. Traits are owned by a class and shared read-only by every
//! instance that materializes them; a dispatch or slot id of zero means
//! "unallocated, assign per instance".

use vstd::prelude::*;

use crate::names::{Multiname, QName};
use crate::value::Value;

verus! {

/// Downstream classes may not override this trait.
pub const TRAIT_FINAL: u8 = 1;

/// This trait overrides an upstream class's trait.
pub const TRAIT_OVERRIDE: u8 = 2;

/// The attribute bits a trait can carry.
#[derive(Clone, Copy, Debug, PartialEq, Eq, Structural)]
pub struct TraitAttributes {
    pub bits: u8,
}

impl TraitAttributes {
    /// No attribute set.
    pub fn empty() -> (r: TraitAttributes)
        ensures
            r.bits == 0,
    {
        TraitAttributes { bits: 0 }
    }

    /// True when every bit of `flag` is set.
    pub fn contains(&self, flag: u8) -> (r: bool)
        ensures
            r == (self.bits & flag == flag),
    {
        self.bits & flag == flag
    }
}

/// The fields of one kind of trait. The kind decides how the trait is
/// materialized onto an object. Method bodies are opaque handles owned by
/// the host; a nested class is an index into the class table.
#[derive(Debug)]
pub enum TraitKind {
    /// A data field that can be read and written.
    Slot { slot_id: u32, declared_type: Multiname, default_value: Option<Value> },
    /// A callable method.
    Method { disp_id: u32, method: u32 },
    /// A readable accessor.
    Getter { disp_id: u32, method: u32 },
    /// A writable accessor.
    Setter { disp_id: u32, method: u32 },
    /// A nested class used to construct further objects.
    Class { slot_id: u32, class: usize },
    /// A free function, not bound to instances.
    Function { slot_id: u32, function: u32 },
    /// A data field fixed at one value.
    Const { slot_id: u32, declared_type: Multiname, default_value: Option<Value> },
}

/// Whether two trait kinds carry the same mathematical content. The
/// declared type names are compared by value.
pub open spec fn spec_kind_like(a: TraitKind, b: TraitKind) -> bool {
    match (a, b) {
        (
            TraitKind::Slot { slot_id: i1, declared_type: t1, default_value: d1 },
            TraitKind::Slot { slot_id: i2, declared_type: t2, default_value: d2 },
        ) => i1 == i2 && t1@ == t2@ && d1 == d2,
        (
            TraitKind::Method { disp_id: i1, method: m1 },
            TraitKind::Method { disp_id: i2, method: m2 },
        ) => i1 == i2 && m1 == m2,
        (
            TraitKind::Getter { disp_id: i1, method: m1 },
            TraitKind::Getter { disp_id: i2, method: m2 },
        ) => i1 == i2 && m1 == m2,
        (
            TraitKind::Setter { disp_id: i1, method: m1 },
            TraitKind::Setter { disp_id: i2, method: m2 },
        ) => i1 == i2 && m1 == m2,
        (
            TraitKind::Class { slot_id: i1, class: c1 },
            TraitKind::Class { slot_id: i2, class: c2 },
        ) => i1 == i2 && c1 == c2,
        (
            TraitKind::Function { slot_id: i1, function: f1 },
            TraitKind::Function { slot_id: i2, function: f2 },
        ) => i1 == i2 && f1 == f2,
        (
            TraitKind::Const { slot_id: i1, declared_type: t1, default_value: d1 },
            TraitKind::Const { slot_id: i2, declared_type: t2, default_value: d2 },
        ) => i1 == i2 && t1@ == t2@ && d1 == d2,
        _ => false,
    }
}

impl Clone for TraitKind {
    /// A copy carrying the same content.
    fn clone(&self) -> (r: TraitKind)
        ensures
            spec_kind_like(r, *self),
    {
        match self {
            TraitKind::Slot { slot_id, declared_type, default_value } => TraitKind::Slot {
                slot_id: *slot_id,
                declared_type: declared_type.clone(),
                default_value: match default_value {
                    Some(v) => Some(v.clone()),
                    None => None,
                },
            },
            TraitKind::Method { disp_id, method } => TraitKind::Method {
                disp_id: *disp_id,
                method: *method,
            },
            TraitKind::Getter { disp_id, method } => TraitKind::Getter {
                disp_id: *disp_id,
                method: *method,
            },
            TraitKind::Setter { disp_id, method } => TraitKind::Setter {
                disp_id: *disp_id,
                method: *method,
            },
            TraitKind::Class { slot_id, class } => TraitKind::Class {
                slot_id: *slot_id,
                class: *class,
            },
            TraitKind::Function { slot_id, function } => TraitKind::Function {
                slot_id: *slot_id,
                function: *function,
            },
            TraitKind::Const { slot_id, declared_type, default_value } => TraitKind::Const {
                slot_id: *slot_id,
                declared_type: declared_type.clone(),
                default_value: match default_value {
                    Some(v) => Some(v.clone()),
                    None => None,
                },
            },
        }
    }
}

/// One trait as loaded into the engine.
#[derive(Debug)]
pub struct Trait {
    /// The member's qualified name.
    pub name: QName,
    /// The attribute bits.
    pub attributes: TraitAttributes,
    /// The kind, deciding how the member is materialized.
    pub kind: TraitKind,
}

/// Whether two traits carry the same mathematical content.
pub open spec fn spec_trait_like(a: Trait, b: Trait) -> bool {
    a.name == b.name && a.attributes == b.attributes && spec_kind_like(a.kind, b.kind)
}

impl Clone for Trait {
    /// A copy carrying the same content.
    fn clone(&self) -> (r: Trait)
        ensures
            spec_trait_like(r, *self),
            r.name == self.name,
    {
        Trait { name: self.name.clone(), attributes: self.attributes, kind: self.kind.clone() }
    }
}

impl Trait {
    /// A trait declaring a nested class under its name.
    pub fn from_class(name: QName, class: usize) -> (r: Trait)
        ensures
            r.name == name,
            r.attributes.bits == 0,
            r.kind == (TraitKind::Class { slot_id: 0u32, class }),
    {
        Trait {
            name,
            attributes: TraitAttributes::empty(),
            kind: TraitKind::Class { slot_id: 0, class },
        }
    }

    /// A method trait with an unallocated dispatch id.
    pub fn from_method(name: QName, method: u32) -> (r: Trait)
        ensures
            r.name == name,
            r.attributes.bits == 0,
            r.kind == (TraitKind::Method { disp_id: 0u32, method }),
    {
        Trait {
            name,
            attributes: TraitAttributes::empty(),
            kind: TraitKind::Method { disp_id: 0, method },
        }
    }

    /// A getter trait with an unallocated dispatch id.
    pub fn from_getter(name: QName, method: u32) -> (r: Trait)
        ensures
            r.name == name,
            r.attributes.bits == 0,
            r.kind == (TraitKind::Getter { disp_id: 0u32, method }),
    {
        Trait {
            name,
            attributes: TraitAttributes::empty(),
            kind: TraitKind::Getter { disp_id: 0, method },
        }
    }

    /// A setter trait with an unallocated dispatch id.
    pub fn from_setter(name: QName, method: u32) -> (r: Trait)
        ensures
            r.name == name,
            r.attributes.bits == 0,
            r.kind == (TraitKind::Setter { disp_id: 0u32, method }),
    {
        Trait {
            name,
            attributes: TraitAttributes::empty(),
            kind: TraitKind::Setter { disp_id: 0, method },
        }
    }

    /// A free-function trait with an unallocated slot id.
    pub fn from_function(name: QName, function: u32) -> (r: Trait)
        ensures
            r.name == name,
            r.attributes.bits == 0,
            r.kind == (TraitKind::Function { slot_id: 0u32, function }),
    {
        Trait {
            name,
            attributes: TraitAttributes::empty(),
            kind: TraitKind::Function { slot_id: 0, function },
        }
    }

    /// A slot trait with an unallocated slot id.
    pub fn from_slot(name: QName, declared_type: Multiname, default_value: Option<Value>) -> (r:
        Trait)
        ensures
            r.name == name,
            r.attributes.bits == 0,
            r.kind == (TraitKind::Slot { slot_id: 0u32, declared_type, default_value }),
    {
        Trait {
            name,
            attributes: TraitAttributes::empty(),
            kind: TraitKind::Slot { slot_id: 0, declared_type, default_value },
        }
    }

    /// A constant trait with an unallocated slot id.
    pub fn from_const(name: QName, declared_type: Multiname, default_value: Option<Value>) -> (r:
        Trait)
        ensures
            r.name == name,
            r.attributes.bits == 0,
            r.kind == (TraitKind::Const { slot_id: 0u32, declared_type, default_value }),
    {
        Trait {
            name,
            attributes: TraitAttributes::empty(),
            kind: TraitKind::Const { slot_id: 0, declared_type, default_value },
        }
    }

    /// The trait's name.
    pub fn name(&self) -> (r: &QName)
        ensures
            *r == self.name,
    {
        &self.name
    }

    /// The trait's kind.
    pub fn kind(&self) -> (r: &TraitKind)
        ensures
            *r == self.kind,
    {
        &self.kind
    }

    /// Whether downstream classes may not override this trait.
    pub fn is_final(&self) -> (r: bool)
        ensures
            r == (self.attributes.bits & TRAIT_FINAL == TRAIT_FINAL),
    {
        self.attributes.contains(TRAIT_FINAL)
    }

    /// Whether this trait overrides an upstream class's trait.
    pub fn is_override(&self) -> (r: bool)
        ensures
            r == (self.attributes.bits & TRAIT_OVERRIDE == TRAIT_OVERRIDE),
    {
        self.attributes.contains(TRAIT_OVERRIDE)
    }

    /// Replaces the attribute bits.
    pub fn set_attributes(&mut self, attribs: TraitAttributes)
        ensures
            *final(self) == (Trait { attributes: attribs, ..*old(self) }),
    {
        self.attributes = attribs;
    }

    /// Assigns the slot or dispatch id of this trait.
    pub fn set_slot_id(&mut self, id: u32)
        ensures
            final(self).name == old(self).name,
            final(self).attributes == old(self).attributes,
            final(self).kind == spec_with_id(old(self).kind, id),
    {
        let kind = &mut self.kind;
        match kind {
            TraitKind::Slot { slot_id, .. } => {
                *slot_id = id;
            },
            TraitKind::Method { disp_id, .. } => {
                *disp_id = id;
            },
            TraitKind::Getter { disp_id, .. } => {
                *disp_id = id;
            },
            TraitKind::Setter { disp_id, .. } => {
                *disp_id = id;
            },
            TraitKind::Class { slot_id, .. } => {
                *slot_id = id;
            },
            TraitKind::Function { slot_id, .. } => {
                *slot_id = id;
            },
            TraitKind::Const { slot_id, .. } => {
                *slot_id = id;
            },
        }
    }
}

/// The same kind with its slot or dispatch id replaced.
pub open spec fn spec_with_id(k: TraitKind, id: u32) -> TraitKind {
    match k {
        TraitKind::Slot { slot_id: _, declared_type, default_value } => TraitKind::Slot {
            slot_id: id,
            declared_type,
            default_value,
        },
        TraitKind::Method { disp_id: _, method } => TraitKind::Method { disp_id: id, method },
        TraitKind::Getter { disp_id: _, method } => TraitKind::Getter { disp_id: id, method },
        TraitKind::Setter { disp_id: _, method } => TraitKind::Setter { disp_id: id, method },
        TraitKind::Class { slot_id: _, class } => TraitKind::Class { slot_id: id, class },
        TraitKind::Function { slot_id: _, function } => TraitKind::Function {
            slot_id: id,
            function,
        },
        TraitKind::Const { slot_id: _, declared_type, default_value } => TraitKind::Const {
            slot_id: id,
            declared_type,
            default_value,
        },
    }
}

/// The shape in which the bytecode loader hands over one parsed trait:
/// names and values already resolved, the kind still in the file's terms.
/// A missing declared type stands for the wildcard type.
#[derive(Debug)]
pub struct AbcTrait {
    pub name: QName,
    pub is_final: bool,
    pub is_override: bool,
    pub kind: AbcTraitKind,
}

/// The kind of one parsed trait, in the file's terms.
#[derive(Debug)]
pub enum AbcTraitKind {
    Slot { slot_id: u32, declared_type: Option<Multiname>, value: Option<Value> },
    Method { disp_id: u32, method: u32 },
    Getter { disp_id: u32, method: u32 },
    Setter { disp_id: u32, method: u32 },
    Class { slot_id: u32, class: usize },
    Function { slot_id: u32, function: u32 },
    Const { slot_id: u32, declared_type: Option<Multiname>, value: Option<Value> },
}

/// The attribute bits of a parsed trait.
pub fn trait_attribs_from_abc_traits(abc_trait: &AbcTrait) -> (r: TraitAttributes)
    ensures
        r.bits == ((if abc_trait.is_final {
            TRAIT_FINAL
        } else {
            0u8
        }) | (if abc_trait.is_override {
            TRAIT_OVERRIDE
        } else {
            0u8
        })),
{
    let mut bits: u8 = 0;
    if abc_trait.is_final {
        bits = bits | TRAIT_FINAL;
    }
    if abc_trait.is_override {
        bits = bits | TRAIT_OVERRIDE;
    }
    proof {
        assert((0u8 | 1u8) == 1u8) by (bit_vector);
        assert((1u8 | 0u8) == 1u8) by (bit_vector);
        assert((0u8 | 2u8) == 2u8) by (bit_vector);
        assert((1u8 | 2u8) == 3u8) by (bit_vector);
        assert((0u8 | 0u8) == 0u8) by (bit_vector);
    }
    TraitAttributes { bits }
}

impl Trait {
    /// Converts one parsed trait into a loaded trait: the attributes fold
    /// into bits, and a missing declared type becomes the wildcard type.
    pub fn from_abc_trait(abc_trait: AbcTrait) -> (r: Trait)
        ensures
            r.name == abc_trait.name,
            r.attributes.bits == ((if abc_trait.is_final {
                TRAIT_FINAL
            } else {
                0u8
            }) | (if abc_trait.is_override {
                TRAIT_OVERRIDE
            } else {
                0u8
            })),
            match abc_trait.kind {
                AbcTraitKind::Slot { slot_id, declared_type, value } => match r.kind {
                    TraitKind::Slot {
                        slot_id: s2,
                        declared_type: t2,
                        default_value: d2,
                    } => s2 == slot_id && d2 == value && (match declared_type {
                        Some(t) => t2@ == t@,
                        None => t2@.ns_set.len() == 1 && t2@.ns_set[0] is Any
                            && t2@.name is None,
                    }),
                    _ => false,
                },
                AbcTraitKind::Method { disp_id, method } => r.kind == (TraitKind::Method {
                    disp_id,
                    method,
                }),
                AbcTraitKind::Getter { disp_id, method } => r.kind == (TraitKind::Getter {
                    disp_id,
                    method,
                }),
                AbcTraitKind::Setter { disp_id, method } => r.kind == (TraitKind::Setter {
                    disp_id,
                    method,
                }),
                AbcTraitKind::Class { slot_id, class } => r.kind == (TraitKind::Class {
                    slot_id,
                    class,
                }),
                AbcTraitKind::Function { slot_id, function } => r.kind == (TraitKind::Function {
                    slot_id,
                    function,
                }),
                AbcTraitKind::Const { slot_id, declared_type, value } => match r.kind {
                    TraitKind::Const {
                        slot_id: s2,
                        declared_type: t2,
                        default_value: d2,
                    } => s2 == slot_id && d2 == value && (match declared_type {
                        Some(t) => t2@ == t@,
                        None => t2@.ns_set.len() == 1 && t2@.ns_set[0] is Any
                            && t2@.name is None,
                    }),
                    _ => false,
                },
            },
    {
        let attributes = trait_attribs_from_abc_traits(&abc_trait);
        let AbcTrait { name, is_final: _, is_override: _, kind } = abc_trait;
        let kind = match kind {
            AbcTraitKind::Slot { slot_id, declared_type, value } => TraitKind::Slot {
                slot_id,
                declared_type: match declared_type {
                    Some(t) => t,
                    None => Multiname::any(),
                },
                default_value: value,
            },
            AbcTraitKind::Method { disp_id, method } => TraitKind::Method { disp_id, method },
            AbcTraitKind::Getter { disp_id, method } => TraitKind::Getter { disp_id, method },
            AbcTraitKind::Setter { disp_id, method } => TraitKind::Setter { disp_id, method },
            AbcTraitKind::Class { slot_id, class } => TraitKind::Class { slot_id, class },
            AbcTraitKind::Function { slot_id, function } => TraitKind::Function {
                slot_id,
                function,
            },
            AbcTraitKind::Const { slot_id, declared_type, value } => TraitKind::Const {
                slot_id,
                declared_type: match declared_type {
                    Some(t) => t,
                    None => Multiname::any(),
                },
                default_value: value,
            },
        };
        Trait { name, attributes, kind }
    }
}

} // verus!
